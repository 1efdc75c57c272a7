//! Where the plugin runs.
use vstd::prelude::*;

verus! {

/// Start of the game's text region when it runs on the Ryujinx emulator.
pub const RYUJINX_TEXT_ADDRESS: u64 = 0x8004000;

/// Whether the game runs on the Ryujinx emulator, judged by the address
/// at which its text region starts.
pub fn is_on_ryujinx(text_address: u64) -> (on_ryujinx: bool)
    ensures
        on_ryujinx == (text_address == RYUJINX_TEXT_ADDRESS),
{
    text_address == RYUJINX_TEXT_ADDRESS
}

/// Tells other plugins that this one is loaded: always so.
pub fn is_available() -> (available: bool)
    ensures
        available,
{
    true
}

} // verus!
