# autoclicker

An autoclicker for Windows with key macros. The library decides what the application does and is
verified with Verus; `app/` draws the window, runs the threads, talks to the system, and does the
floating-point arithmetic that turns rates and seconds into nanoseconds.

- `src/model.rs`: the model of the shared state, its invariants, and every change to it
- `src/state.rs`: the shared state and the registry of macros
- `src/macros.rs`: one macro and its life cycle
- `src/keys.rs`: keys, their virtual-key codes and their names
- `src/pacing.rs`: when to click and when to press a key, and the turns of the clicker and of a
  macro
- `src/gui.rs`: what the window keeps for itself and what its controls do
- `src/labels.rs`, `src/text.rs`: the texts that the window shows
- `src/input.rs`: the input events of a click and of a key press
- `src/icon.rs`: the icon, decoded by the `image` crate
- `src/tables.rs`: walking a table that is keyed by number
- `src/laws.rs`: what holds of the application as a whole

Building the application takes `icon.png` and `Roboto-Regular.ttf` from beside `app/main.rs`; both
become part of the program.
