# komorebi

The logic of a tiling window manager as a Verus library: what becomes of window events
and commands, how windows are stacked, hidden, dimmed, pinned and animated, which windows
are managed at all, and what the settings window does.

## How it works

The library never talks to the window system. It is handed what the window system says
(`desktop::Desktop`, `turn::Observations`), changes its own state, and writes down what is
to be asked of the window system (`plan::Plan`). Where a decision depends on how such a
request went, the plan ends with a step that asks the library to go on from there.

Every function has a contract over mathematical views (`ManagerView`, `MonitorView`,
`WorkspaceView`, `ScreenView`, ...): the state afterwards is a spec function of the state
before, and so is the plan.

## Layout

- `src/geometry.rs`, `text.rs`, `rules.rs`, `styles.rs`: rectangles, texts, matching rules,
  window styles
- `src/desktop.rs`, `plan.rs`, `manager_op.rs`, `reply.rs`: what comes in and what goes out
- `src/window.rs`, `eligibility.rs`, `apply_worker.rs`, `animation/`: single windows
- `src/ring.rs`, `container.rs`, `workspace.rs`, `monitor.rs`, `layers.rs`, `pins.rs`,
  `transfer.rs`, `window_manager.rs`: the state
- `src/process_event.rs` with `event_end.rs`, `focus_change.rs`, `new_window.rs`,
  `move_resize.rs`, `window_gone.rs`: window events
- `src/process_command.rs` with `change_settings.rs`, `change_state.rs`, `command_*.rs`,
  `eager_focus.rs`, `ignore_rule.rs`, `session.rs`, `subscriptions.rs`: commands
- `src/transparency_manager.rs`, `focus_manager.rs`, `wallpaper_worker.rs`, `startup.rs`:
  the other parts of the window manager
- `src/gui/`: the settings window
- `tests/`: tests of the library
- `app/`: sockets, threads, drawing and the window system around the library

Public proof functions state what holds of several functions together. What is believed
of other crates stands in `src/text.rs` (regular expressions) and `src/gui/config.rs`
(random words).
