# unfocol

A minimalist focus timer: a colored window that shifts through a theme's
gradient as a focus session progresses.

- `src/` is the library, written in Verus: the countdown timer and its laws
  (`timer.rs`), plain-valued time and clocks (`time.rs`), the color model
  and CSS color parsing (`color.rs`), what loading themes and settings can
  report (`config.rs`), the user-facing messages (`message.rs`), the choice
  of what the window shows (`display.rs`) and the debounce of theme reloads
  (`watch.rs`).
- `app/` is the egui program around it: the window, the notifications
  viewport, the file watcher, and the theme gradient, which is computed in
  floating point.
- `tests/` exercise the library.
