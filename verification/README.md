# wisplet

Wisplet is an overlay app launcher for Windows: a global hotkey shows a
full-screen (or centred) grid of apps, kept in `~/.config/wisplet/apps.json`.

This crate is its verified core, written with Verus:

- `src/text.rs`: building strings, decimal and hexadecimal rendering, suffix
  tests, trimming (with the law that trimming is idempotent).
- `src/utf16.rs`: wide strings for the Win32 API and lossy UTF-16 decoding,
  with the law that decoding an encoding gives the text back.
- `src/paths.rs`: file stems, executable and shortcut names, and where
  Wisplet keeps its files.
- `src/config.rs`: the app record, seeding/reading/saving the apps file,
  suggested titles, icon file names and the launch command.
- `src/icon.rs`: turning shell icon pixels into a PNG.
- `src/window.rs`: which monitor the window covers.
- `src/launcher.rs`: the launcher state, hotkey changes, the start-up hotkey
  cascade and how events are answered, with their laws.
- `src/crash.rs`: crash log entries, panic reports and the fatal dialog texts.

`app/` is the Tauri shell: commands for the page, file I/O, Win32 calls and the
event loop. It calls the library for every decision.
