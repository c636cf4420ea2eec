# vyom

A terminal music companion for the MPD music daemon (and, on desktops, for
scriptable media players): synced lyrics, a library browser with fuzzy
search, a ten-band equalizer with presets, a visualizer, and album art drawn
with half-block characters.

The crate is written in Verus. `src/` is the verified library: every key
handler of the interface as a step from state and key to next state and
action, the daemon's commands and the parsing of its replies, directory
listings and fuzzy search, lyrics parsing and lookup decisions, WAV and PCM
decoding, album-art layout, presets, devices and the other rules of the
program. Each public function states its result in `ensures`, and
`src/laws.rs` proves properties that span several functions (cycles of the
mode keys, round trips, what a refresh keeps).

Outside crates are reached from `src/` only through a few trusted wrappers,
each with a doc comment saying what its contract claims: `dirs` for the home
and music folders, `fuzzy-matcher` for scoring, `image` for decoding and
scaling pictures, and a handful of `std` string and path functions.

`app/` is the program around the library: the terminal UI (ratatui,
crossterm), network and file I/O, the audio pipeline's floating-point
equalizer and visualizer, and the serde copies of the library's types for
the configuration files. `tests/` runs the library on concrete values.
