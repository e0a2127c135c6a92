# dragwin

A borderless image window with a crop selection and drawing tools.

- `src/` is the verified library: the editor's state machine
  (`editor.rs`), crop modes and window selection (`mode.rs`), the drawing
  tools and their shapes (`tool.rs`), geometry (`geometry.rs`), the
  picture and its rotations (`picture.rs`, through the `image` crate), the
  planning of what the canvas draws (`render.rs`), small interface
  decisions (`ui.rs`) and the properties proved of them (`laws.rs`).
- `app/` is the iced program around it: it loads the picture, turns
  window and mouse events into editor messages, carries out the editor's
  window commands and draws the planned shapes.
- `tests/` runs the library on concrete cases.

Coordinates are whole logical pixels; the program rounds iced's positions.
