# comet_ui

The state and the rules behind the window of a multi-device controller for coding agents, as a verified
Verus library. What the shell, its spaces, tabs and palette, the pickers, the terminal, the rail and the
pages for accounts, archived chats, encryption and shortcuts decide is here, as data and functions with
contracts. Painting, sizes in pixels, the transcript, the clock, the network and the disk are not.

## Layout

- `src/` is the library.
  - `text`, `lists`, `sorting`, `time`, `json`: the ground that the rest stands on.
  - `model`, `options`: the rows that the engine synchronizes.
  - `order`, `gate`, `project`, `state`: the application state, its orders and what stands in front of it.
  - `popover`, `pickers`, `rail`: lists with a search, the pickers of a new chat and the rail of prompts.
  - `settings`: the pages for accounts, archived chats, encryption and shortcuts, and the remembered picks.
  - `shell`: the frame, spaces, tabs, the palette and the dialogs.
  - `terminal`: the emulator, the guard before it, the tabs and the life of a session.
  - `requests`: what goes to the engine, and with which parameters.
- `app/` is ordinary Rust around it: the window and its keys, preference files, geometry in pixels, the types on the wire, and the
  loops that perform what the library asks for and hand back what came of it.
- `tests/` runs the library.

A function that needs the outside world returns what is to be done; the caller does it and calls back with
the answer. The time is an argument wherever it matters.
