//! Decision logic of a fighting-game modification plugin: Meta Knight's
//! special-move fall resets, the version banner, the controller service
//! handshake and the installation self-check.
pub mod pad;
pub mod metaknight;
pub mod text;
pub mod version;
pub mod hid;
pub mod install;
pub mod platform;
