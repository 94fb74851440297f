embedded_gui
============

A composable GUI toolkit that needs no heap for its own work: layout containers, base
widgets and the input handling framework. Every operation carries a contract, and Verus proves the code against it.

Layout
------

- `geometry`: positions, sizes, bounding boxes and measurement constraints. Coordinate
  arithmetic wraps around on overflow, and the contracts say so.
- `state`: widget state bits, split into groups; setting a state of one group leaves the
  others alone.
- `input`: pointer, scroll and key events.
- `data`: data widgets are bound to, with a changed flag.
- `chain`: the type-level lists that hold the children of layouts.
- `rendering`: the canvas and renderer traits a drawing backend implements.
- `widgets`: the widgets themselves — linear and frame layouts, button, toggle, scroll
  area, slider, text box, label, check box, radio button, and the decorators that add a
  background, a border, spacing, visibility or bound data to another widget.

Backends
--------

Drawing backends implement the `*Properties` traits (how a label is measured, how a border
is drawn, …) and `WidgetRenderer` for the leaf widgets. The `spec_*` methods of these traits
describe, for the contracts, what the backend's methods return.

Callbacks
---------

Callbacks are values of types that implement the traits in `widgets::utils::callback`;
`NoCallback` does nothing. A builder such as `on_clicked` replaces the callback and with it
the widget's type.

Each callback trait has a `spec_*_call` relation that says what a call may do; `NoCallback`
changes nothing. Likewise every `Widget` method has a `spec_*` relation (`spec_measures_to`,
`spec_tests_input`, …) that each widget defines. Containers and decorators state through
them what they ask of their content: which constraints each cell of a layout is measured
under, which answer of the content a widget passes on, which callback runs. The fling of a
scroll area and the key handling of a text box are described the same way by their
backends (`FlingController`, `TextBoxProperties`).
