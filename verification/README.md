# ClipType

ClipType types the text on the clipboard through simulated key presses when
a global hotkey is released (a Tauri desktop application for macOS and
Windows).

- `src/` is the library, written in Verus: the settings and their
  normalisation, the per-platform key event plans, the permission status,
  the hotkey registration state, the application state and the decisions of
  the typing flow, each with its contract and the properties proved of it.
- `app/` is the desktop shell: Tauri setup, tray, commands, the settings
  file, the clipboard and global-shortcut plugins, and the system calls that
  send key events or ask for the accessibility permission. It performs what
  the library decides.
- `tests/` runs the library on concrete values.
