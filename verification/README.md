# nih_plug_slint

A Slint editor for nice-plug audio plug-ins, drawn in a baseview window with
Slint's FemtoVG renderer.

- `src/` is the verified core (Verus): the editor size and its defaults, the
  window settings requested on opening, the mapping of mouse, keyboard and
  window events to Slint events and to the captured/ignored answer given to
  the host, the steps of each frame, the resize queue, and the platform's
  choice of window adapter. `src/laws.rs` states and proves the properties
  that hold across these functions.
- `app/` holds what Verus does not see: the `Editor` and `PersistentField`
  implementations, the serde form of the editor state, the baseview window
  handler that carries out the steps and dispatches the events the core
  decides on, and the OpenGL and window-adapter glue for Slint, which works
  with floating-point scale factors and raw pointers.
- `tests/` runs the core on concrete values.
