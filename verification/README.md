# COSMIC Spotify applet

A panel applet for the COSMIC desktop that shows what Spotify plays and controls it.
The logic is a Verus library; each function states in `requires` / `ensures` what it
does, and Verus proves it.

- `src/model.rs`, `src/message.rs`: the state of the applet, the messages that change
  it, and the effects it asks for
- `src/panel.rs`, `src/popup.rs`, `src/settings.rs`, `src/widget.rs`, `src/label.rs`:
  what the panel and the popup show
- `src/player.rs`: reading the player's replies on the bus
- `src/art.rs`, `src/paths.rs`, `src/command.rs`, `src/config.rs`: album art, files,
  programs and settings
- `src/toplevel.rs`: following the windows of the compositor
- `src/text.rs`: numerals, durations and truncation
- `app/`: the program around the library (desktop, bus, disk, processes)
- `tests/`: runs of the library

Each module states its laws as public proof functions named `law_*`. What is taken on
trust stands in `src/paths.rs`: where `dirs` finds the user's directories, how
`std::path::PathBuf` reads a text and grows by a component, and what `str` feeds to a hasher.
