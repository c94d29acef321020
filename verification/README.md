# sui_widgets

Interaction logic of the sui widget toolkit, verified with Verus.

- `src/` is the verified library: menu rows and their accessibility records,
  the identifier scheme of virtual accessibility nodes, the tool palette's
  selection, keyboard and pointer handling, scroll configuration and the
  scroll state shared with scroll bars, the scroll bar's hover, drag and key
  handling, touch panning, the keys of scroll views, switch views and the
  visible window of virtual lists. Each public function states its result in
  its contract; the `lemma_*` proof functions state the properties that hold
  across calls.
- `tests/` runs the library on concrete values.
- `app/` holds the widgets themselves: measuring, arranging and painting in
  floating-point geometry, wheel, offset and accessibility-value arithmetic,
  and the runtime plumbing. The interaction decisions listed above come from
  the library; the layout containers and toolbars are floating-point layout
  throughout and stay in `app/` whole.
