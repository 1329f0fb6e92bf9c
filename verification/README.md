# portal_capture

Lets the user pick a screen or a window through the desktop portal, and saves what is shown there
as `screenshot.png` every five seconds.

- `src/` is the library, verified with Verus. It keeps the state of a capture and decides what is
  done next: which message answers which request, which call comes next and when a wait is over,
  what the answers of the portal say, and how a frame becomes a PNG file. `src/laws.rs` holds what
  was proved of it as a whole.
- `app/` is the program: it talks to the session bus and to PipeWire, reads the clock, runs the
  threads and writes the file.
- `tests/` runs the library.

What the proofs take for granted is in three places: `String::push` in `src/text.rs`,
`dbus::Path::new` in `src/object_path.rs`, and the encoder of the `png` crate in `src/frame.rs`.
