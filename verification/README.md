# A verified UI runtime for e-Paper screens

A screen is a plain struct that says what it looks like (`Screen::body`) and how
it changes (`Screen::update`). The library measures the tree, routes buttons,
swipes and touches to the controls it declares, holds the value of an open
edit, captures input under a dialog, and paints through a small set of host
traits. A screen names its message type once, in `Messages`, whatever host
paints it. Everything under `src/` is verified with Verus, apart from five
small wrappers around standard-library calls (`str::to_lowercase`,
`String::push`, `Rc::clone`, `str::from_utf8`, and `Box::new` handing a
message constructor out as a trait object) whose contracts are taken on trust
and say what each call returns.

A screen answers `title`, `is_overlay`, `on_enter`, `on_exit` and
`handle_home_gesture` itself. Beside each stands a spec function of the same
meaning (`spec_title`, `spec_is_overlay`, `spec_entering`, `spec_exiting`,
`spec_claims_home`, and `spec_updating` beside `update`), which the stack's
contracts speak through. Their defaults are no title, no overlay, no claim,
and nothing promised of the screen's own hooks; a screen that answers
otherwise overrides the spec function with the method.

Layout:

- `geometry`, `layout` — points, sizes, rects and the arithmetic on them.
- `host` — the contract a backend implements (canvas, fonts, chrome, input,
  clock), the clip stack, and the navigator a screen asks to finish or to
  present another screen.
- `view` — what a widget declares: regions, input masks, triggers, the
  collector that numbers focus stops, captures and folds in sub-components.
- `widgets` — text, divider, toggle, slider, stepper, modal, and the readout a
  value control draws its own number with.
- `screen` — the `Screen` trait, the routing rules, and the runtime: focus,
  key repeat, long press, drags, scroll and in-place value editing.
- `app` — the navigation stack and the frame loop around it.
- `testing` — a recording fake host, a forwarding recorder, the one-line
  rendering of a draw call, and line diffs for snapshot comparisons.
- `lint`, `text` — the rule that keeps product names out of the framework's
  sources, and the text helpers it uses.

`app/` holds the part that reads the source tree from disk.
