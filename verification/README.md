# ez_term

The core of a terminal user interface toolkit, with its behaviour stated in contracts and
proved with Verus.

`src/` is the verified library:

- `pixel`, `helpers`, `geometry`: pixels and pixel maps, borders, padding, alignment, and the
  space widgets take inside their borders and padding.
- `scheduler`, `definitions`, `state`: named properties and the configuration objects of
  widgets (sizes, positions, padding, borders, colors, tables).
- widget states and their behaviour: `checkbox`, `radio_button`, `slider`, `progress_bar`,
  `button`, `dropdown`, `label`, `text_input`, `canvas`; the widgets themselves in `widgets`.
- drawing: `text` (formatting tags), `wrap` (wrapping text to a width), `button_contents`,
  `widget_contents`, `canvas`, `label`.
- layouts: `layout_state` (a layout's state, its scrolling and the room its scrollbars take),
  `modals`, `layout` (merging, fillers, modals, scrolling windows and scrollbars), `box_mode`,
  `float_mode`, `stack_mode`, `table`, `tabs`, `children`.
- input: `keys` (keys, modifier flags and key maps), `callbacks` (the callbacks of a widget
  and how two configurations merge) and `events` (which handler a key press goes to).

Text is measured as `str::len` measures it, in bytes of its UTF-8 encoding: wrapping widths,
text input lengths, cursors and views are byte counts, and cuts must fall on character
boundaries.

`app/` is the terminal side: drawing pixel maps with crossterm, reading key presses, and the
computations that work in floating point (size and position hints, scroll fractions, slider
and progress positions).

`tests/` holds the tests; they run with `cargo test` after the library is verified.
