# monitor_fixer

Decision logic of a tray utility that keeps the mouse cursor usable on
rotated monitors, verified with Verus.

- `src/display.rs` — listing the monitors step by step from the display
  configuration API's answers (each step fails or says what to ask next),
  and finding the monitor under the cursor.
- `src/wide.rs` — nul-terminated UTF-16 buffers (through `widestring`).
- `src/inspector.rs` — the inspector's state and the decisions of its watch
  loop, with the laws they keep.
- `src/window.rs`, `src/shell.rs` — what showing/toggling the main window and
  the shell's window, tray and exit events come down to.
- `src/commands.rs` — commands that need no system access.
- `app/` — the Tauri application and the Win32 calls around the library.
- `tests/` — tests of the library on concrete values.
