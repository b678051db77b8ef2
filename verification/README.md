# PChordPad

A touch pad that plays as a game controller: twelve keys and two faders on a touch
screen, with a link to the game over a local socket and a mirror of another screen.

- `src/` is the library: the table of contacts, the faders, the queue and the picture
  of the buttons, the messages on the wire, the screens, the mirror, the settings and
  the diagnostics. Every function has a contract, and Verus proves it. What holds over
  several calls is stated as public proof functions beside the functions it is about,
  in `src/padlaws.rs` and in `src/queuelaws.rs`.
- `app/` is the program around it: the window, its messages, sockets, files, threads
  and floating-point arithmetic. It measures, calls the library, and performs what the
  library decides.
- `tests/` runs the library on concrete values.

The library trusts a few calls without proof: writing and reading JSON by `serde_json`
(`src/wire.rs`), decoding text by the standard library (`src/wire.rs`, `src/utf16.rs`)
and quoting it (`src/spiceapi.rs`). Each stands behind a small function whose comment
says what is claimed of it.
