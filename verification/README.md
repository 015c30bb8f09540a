# herdr_pi_reloader

Reloads or resets the Pi agent sessions that Herdr manages, from the command
line (`reload`, `reset`) or from a terminal overlay (`tui`).

- `src/` is the verified library: which agents an operation acts on
  (`pi.rs`), the steps of one reset and the wait for Pi to exit (`reset.rs`),
  what Herdr's command outcomes mean (`herdr.rs`), the overlay's state machine
  (`tui.rs`), the text of each screen (`render.rs`) and string helpers
  (`text.rs`). Contracts and the proof functions state what each part does.
- `app/` runs the program: Herdr processes through Tokio, JSON through serde,
  the terminal through ratatui and crossterm.
- `tests/` runs the library on concrete inputs.
