# cozymdt

A small multi-shell terminal (PowerShell, cmd, bash and its own built-in
`CozyT` commands) with Catppuccin colour themes and a drawn title bar.

`src/` is the verified library:

- `text` — trimming, prefix and substring tests, first-word splitting;
- `theme` — the four palettes and theme selection by name;
- `shell` — the shells, how each is started, where bash is found;
- `paths` — the settings file's path, the directories the terminal works in
  (their text and the system's own path), and clean-up of canonical paths;
- `settings` — settings defaults, loading outcomes, window appearance;
- `terminal` — the session state machine: history, `cd`, `switch`, the
  built-in commands, CTRL+C and Enter, with the laws it keeps;
- `render` — the coloured pieces that history lines and the input line are
  drawn as;
- `window` — title-bar buttons and the window commands clicks produce.

`app/main.rs` is the egui program: it draws, reads and writes files, looks
up directories, starts processes and hands the outcomes to the library.
