# hdr

The decision logic of a fighting-game modification plugin, verified with
Verus.

- `src/metaknight.rs`: Meta Knight's frame rules (Dimensional Cape attack
  cancel, special-hit flags and the helpless-fall cancel they earn).
- `src/pad.rs`: pad-flag category test.
- `src/text.rs`: Unicode whitespace, trimming, substring search.
- `src/version.rs`: the version banner added under the game's version text.
- `src/hid.rs`: the `hid:hdr` controller service handshake and its messages.
- `src/install.rs`: the installation self-check plan.
- `src/platform.rs`: emulator detection and the availability export.
- `app/`: the plugin itself, which reads the game and the SD card, calls the
  library, and carries out its decisions.
