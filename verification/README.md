# kinetik_ui_widgets

Data models behind editor widgets, written in Verus and proved against
their contracts:

- `collections`: stable item identities, filtered and sorted projections,
  multi-selection with ranges and projection through filters, a keyboard
  cursor that follows its item through reorders, tree and outliner rows,
  asset browser sorting, and overscan windows.
- `dock`: frames of tabbed panels, a dock tree generic over its split
  geometry, moving and merging panels with pruning of empty frames, and
  snapshots with validated restore.
- `inspector`: property-grid row metadata, status presentation and row
  identity validation.
- `timeline`: identities, frames, rational frame rates, timecode labels and
  ruler tick spacing over whole frames.
- `taxonomy`: the component catalogue and its evidence descriptors.

`app/` holds the floating-point geometry that sits around these models:
list, grid, table and property-grid rectangles, continuous timeline time and
zoom, dock split solving, chrome overflow and viewport fitting. It calls the
verified library for every decision that does not need floats.

`tests/` exercises the library on concrete values.

## Not included

Some widgets of the kinetik UI toolkit draw directly into its immediate-mode
runtime (`kinetik_ui_core`'s `Ui`, memory and theme, and `kinetik_ui_text`'s
edit state and text layouts). Neither runtime is a dependency of this
project, and what those widgets compute is rectangles, primitives and edit
state in that runtime's floating-point types, so they are left out rather
than imitated:

- single- and multi-line text fields, the search field, and restoring a text
  draft into an edit state (the numeric draft classifier they share is in
  `app/numeric_input.rs`);
- vector scrub inputs and the colour field, with their configurations and
  outputs;
- the virtual list widget and its per-row responses (its row and selection
  mode data are in `collections`);
- the accessibility semantics builders for labels, buttons, toggles,
  sliders, fields, panels and images;
- viewport drawing primitives (texture, guides, crosshair and composition);
  pan and zoom, content fitting and viewport ruler ticks are in
  `app/viewport.rs`;
- the list layout's scroll-extent and virtual-window helpers, which the
  runtime's float virtual window computes; `app/layout.rs` gives row
  rectangles and `virtual_range` over the verified overscan window.
