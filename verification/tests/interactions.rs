//! Interaction regression tests: what widgets declare, and what the runtime
//! makes of it on a board with and without a Left/Right pair.

use std::marker::PhantomData;

use lib::app::AppShell;
use lib::geometry::{Point, Rect, Size};
use lib::host::{Button, ControlState, Hint, SwipeDir};
use lib::screen::{NavigationScreen, Runtime, Messages, Screen};
use lib::testing::host::{SCREEN_HEIGHT, SCREEN_WIDTH};
use lib::testing::{DrawOp, TestHost};
use lib::view::{bounds, value_at, InputMask, Interactions, Make, Trigger, View};
use lib::widgets::modal::Modal;
use lib::widgets::slider::Slider;
use lib::widgets::stepper::Stepper;
use lib::widgets::text::Text;
use lib::widgets::toggle::Toggle;

fn screen() -> Size {
    Size::new(SCREEN_WIDTH, SCREEN_HEIGHT)
}

// -- small views the tests build their screens from ---------------------------

/// Children one under another, `gap` pixels apart.
struct Column<M> {
    gap: i32,
    children: Vec<Box<dyn View<M, TestHost>>>,
    size: Size,
}

fn column<M>(gap: i32) -> Column<M> {
    Column { gap, children: Vec::new(), size: Size::zero() }
}

impl<M> Column<M> {
    fn push(mut self, child: impl View<M, TestHost> + 'static) -> Self {
        self.children.push(Box::new(child));
        self
    }
}

impl<M> View<M, TestHost> for Column<M> {
    fn measure(&mut self, host: &TestHost, available: Size) {
        let mut y = 0;
        let mut width = 0;
        for (i, child) in self.children.iter_mut().enumerate() {
            if i > 0 {
                y += self.gap;
            }
            child.measure(host, Size::new(available.width, available.height - y));
            y += child.size().height;
            width = width.max(child.size().width);
        }
        self.size = Size::new(width, y);
    }

    fn size(&self) -> Size {
        self.size
    }

    fn render(&self, host: &mut TestHost, origin: Point) {
        let mut y = origin.y;
        for child in &self.children {
            child.render(host, Point::new(origin.x, y));
            y += child.size().height + self.gap;
        }
    }

    fn interactions(&mut self, host: &TestHost, origin: Point, out: &mut Interactions<M>) {
        let mut y = origin.y;
        for child in self.children.iter_mut() {
            child.interactions(host, Point::new(origin.x, y), out);
            y += child.size().height + self.gap;
        }
    }
}

/// A line of text that answers a tap with `message`.
struct Tappable<M> {
    text: Text,
    message: M,
}

fn tappable<M>(label: &str, message: M) -> Tappable<M> {
    Tappable { text: Text::new(label), message }
}

impl<M: Clone> View<M, TestHost> for Tappable<M> {
    fn measure(&mut self, host: &TestHost, available: Size) {
        View::<M, TestHost>::measure(&mut self.text, host, available);
    }

    fn size(&self) -> Size {
        View::<M, TestHost>::size(&self.text)
    }

    fn render(&self, host: &mut TestHost, origin: Point) {
        View::<M, TestHost>::render(&self.text, host, origin);
    }

    fn interactions(&mut self, _host: &TestHost, origin: Point, out: &mut Interactions<M>) {
        let size = View::<M, TestHost>::size(&self.text);
        out.declare(bounds(size, origin), InputMask::default_mask(), Trigger::Message(self.message.clone()));
    }
}

/// A sub-component speaking its own message type, seen through `convert`.
struct Mapped<N, V, C> {
    inner: V,
    convert: C,
    speaks: PhantomData<N>,
}

fn mapped<N, V, C>(inner: V, convert: C) -> Mapped<N, V, C> {
    Mapped { inner, convert, speaks: PhantomData }
}

impl<N: 'static, M: 'static, V: View<N, TestHost>, C: Make<N, M> + Copy + 'static> View<M, TestHost>
    for Mapped<N, V, C>
{
    fn measure(&mut self, host: &TestHost, available: Size) {
        self.inner.measure(host, available);
    }

    fn size(&self) -> Size {
        self.inner.size()
    }

    fn render(&self, host: &mut TestHost, origin: Point) {
        self.inner.render(host, origin);
    }

    fn interactions(&mut self, host: &TestHost, origin: Point, out: &mut Interactions<M>) {
        let mut inner = out.child::<N>();
        self.inner.interactions(host, origin, &mut inner);
        out.absorb(inner, self.convert);
    }
}

// -- messages ------------------------------------------------------------------

#[derive(Clone, Copy, Debug, PartialEq, Eq)]
enum Msg {
    Value(i32),
    Step(i32),
    Toggled(bool),
}

#[derive(Clone, Copy)]
struct Value;

impl Make<i32, Msg> for Value {
    fn made(&self, value: i32) -> Msg {
        Msg::Value(value)
    }

    fn make(&self, value: i32) -> Msg {
        Msg::Value(value)
    }
}

#[derive(Clone, Copy)]
struct StepBy;

impl Make<i32, Msg> for StepBy {
    fn made(&self, delta: i32) -> Msg {
        Msg::Step(delta)
    }

    fn make(&self, delta: i32) -> Msg {
        Msg::Step(delta)
    }
}

#[derive(Clone, Copy)]
struct Toggled;

impl Make<bool, Msg> for Toggled {
    fn made(&self, on: bool) -> Msg {
        Msg::Toggled(on)
    }

    fn make(&self, on: bool) -> Msg {
        Msg::Toggled(on)
    }
}

#[derive(Clone, Copy, PartialEq, Eq, Debug)]
enum DialMsg {
    SetTo(i32),
    Step(i32),
    Tapped,
}

#[derive(Clone, Copy)]
struct SetTo;

impl Make<i32, DialMsg> for SetTo {
    fn made(&self, value: i32) -> DialMsg {
        DialMsg::SetTo(value)
    }

    fn make(&self, value: i32) -> DialMsg {
        DialMsg::SetTo(value)
    }
}

#[derive(Clone, Copy)]
struct Step;

impl Make<i32, DialMsg> for Step {
    fn made(&self, delta: i32) -> DialMsg {
        DialMsg::Step(delta)
    }

    fn make(&self, delta: i32) -> DialMsg {
        DialMsg::Step(delta)
    }
}

#[derive(Clone, Copy, PartialEq, Eq, Debug)]
enum Outer {
    Inner(DialMsg),
}

#[derive(Clone, Copy)]
struct Inner;

impl Make<DialMsg, Outer> for Inner {
    fn made(&self, message: DialMsg) -> Outer {
        Outer::Inner(message)
    }

    fn make(&self, message: DialMsg) -> Outer {
        Outer::Inner(message)
    }
}

// -- collecting declarations ---------------------------------------------------

/// Lays a view out and collects its interactions, as the runtime does.
fn collect<M>(host: &TestHost, view: &mut dyn View<M, TestHost>, focus: usize) -> Interactions<M> {
    view.measure(host, screen());
    let mut out = Interactions::new(focus);
    view.interactions(host, Point::origin(), &mut out);
    out
}

/// Every string a frame painted, in order.
fn texts(ops: &[DrawOp]) -> Vec<String> {
    ops.iter()
        .filter_map(|op| match op {
            DrawOp::Text { text, .. } => Some(text.clone()),
            _ => None,
        })
        .collect()
}

/// What the panel says the value is, from the last slider painted.
fn painted_value(ops: &[DrawOp]) -> i32 {
    ops.iter()
        .rev()
        .find_map(|op| match op {
            DrawOp::Slider { value, .. } => Some(*value),
            _ => None,
        })
        .expect("the screen draws a slider")
}

/// What state the last slider painted was in.
fn slider_state_of(ops: &[DrawOp]) -> ControlState {
    ops.iter()
        .rev()
        .find_map(|op| match op {
            DrawOp::Slider { state, .. } => Some(*state),
            _ => None,
        })
        .expect("the screen draws a slider")
}

/// The Back and Confirm slots of the last hint bar painted.
fn slots(ops: &[DrawOp]) -> (Option<String>, Option<String>) {
    ops.iter()
        .rev()
        .find_map(|op| match op {
            DrawOp::Hints(slots) => Some((slots[0].clone(), slots[1].clone())),
            _ => None,
        })
        .expect("the screen paints a hint bar")
}

#[test]
fn an_untagged_view_is_not_interactive() {
    let host = TestHost::new();
    let mut text = Text::new("just a label");
    let interactions: Interactions<Msg> = collect(&host, &mut text, 0);
    assert!(interactions.is_empty());
}

#[test]
fn a_slider_touch_converts_to_the_expected_value() {
    let host = TestHost::new();
    let mut slider = Slider::new(0, 100).on_change(Value);
    let interactions = collect(&host, &mut slider, 0);

    let item = &interactions.items()[0];
    let rect = item.rect;

    assert_eq!(item.trigger.resolve(&host, rect, rect.x()), Msg::Value(0));
    assert_eq!(item.trigger.resolve(&host, rect, rect.x() + rect.width()), Msg::Value(100));

    let middle = value_at(&host, rect, rect.x() + rect.width() / 2, 100);
    assert!((48..=52).contains(&middle), "the midpoint should read as about half, got {middle}");
}

#[test]
fn a_toggle_reports_the_next_state() {
    let host = TestHost::new();
    for current in [false, true] {
        let mut toggle = Toggle::new("Hyphenation", current, "On", "Off").on_change(Toggled);
        let interactions = collect(&host, &mut toggle, 0);

        let item = &interactions.items()[0];
        assert_eq!(item.trigger.resolve(&host, item.rect, 0), Msg::Toggled(!current));
    }
}

#[test]
fn a_stepper_declares_steps_and_a_track() {
    let host = TestHost::new();
    let mut stepper = Stepper::new(50).on_change(Value).on_step(StepBy);
    let interactions = collect(&host, &mut stepper, 0);

    let messages: Vec<Msg> = interactions
        .items()
        .iter()
        .map(|item| item.trigger.resolve(&host, item.rect, item.rect.x()))
        .collect();

    assert!(messages.contains(&Msg::Step(-1)), "expected a minus step");
    assert!(messages.contains(&Msg::Step(1)), "expected a plus step");
    assert!(messages.iter().any(|m| matches!(m, Msg::Value(_))), "expected a draggable track");
}

#[test]
fn a_stepper_is_a_single_focus_stop() {
    let host = TestHost::new();
    let mut stepper = Stepper::new(50).on_change(Value).on_step(StepBy);
    let interactions = collect(&host, &mut stepper, 0);

    assert_eq!(
        interactions.focusable_count(),
        1,
        "a stepper should be one stop for buttons, however many touch targets it has"
    );
    assert!(interactions.items().len() > 1, "and it should still offer separate touch targets");
}

#[test]
fn stacked_steppers_are_one_stop_each() {
    let host = TestHost::new();
    let mut panel = column(10)
        .push(Stepper::new(60).on_change(Value).on_step(StepBy))
        .push(Stepper::new(40).on_change(Value).on_step(StepBy));
    let interactions = collect(&host, &mut panel, 0);
    assert_eq!(interactions.focusable_count(), 2);
}

#[test]
fn the_focused_stepper_takes_the_nudge() {
    let host = TestHost::new();
    let mut stepper = Stepper::new(50).on_change(Value).on_step(StepBy);
    let interactions = collect(&host, &mut stepper, 0);

    let adjustable = interactions
        .items()
        .iter()
        .find(|item| item.mask.contains(InputMask::adjust()))
        .expect("a stepper must accept adjustment");

    assert_eq!(adjustable.trigger.resolve_step(-1), Some(Msg::Step(-1)));
    assert_eq!(adjustable.trigger.resolve_step(1), Some(Msg::Step(1)));
}

#[test]
fn views_behind_a_dialog_are_told_they_are_not_focused() {
    let mut out: Interactions<u8> = Interactions::capturing(0);

    let focused = out.declare(Rect::new(0, 0, 100, 40), InputMask::default_mask(), Trigger::Message(1));
    assert!(!focused, "a row behind the dialog must not paint as focused");
    assert_eq!(out.focusable_count(), 0, "nor join the focus order");

    out.capture(0);

    let focused = out.declare(Rect::new(0, 0, 100, 40), InputMask::default_mask(), Trigger::Message(2));
    assert!(focused, "the dialog's own first option does hold focus");
    assert_eq!(out.focusable_count(), 1);
}

#[test]
fn a_mapped_control_can_still_be_nudged_and_committed() {
    let host = TestHost::new();
    let mut view = mapped(Stepper::new(40).on_change(SetTo).on_step(Step), Inner);

    let mut out: Interactions<Outer> = Interactions::new(0);
    view.measure(&host, screen());
    view.interactions(&host, Point::origin(), &mut out);

    let item = out
        .items()
        .iter()
        .find(|item| item.mask.contains(InputMask::adjust()))
        .expect("a mapped stepper is still adjustable");

    assert_eq!(item.trigger.reading(), Some(40), "the reading has to cross, or an edit opens on nothing");
    assert!(
        item.trigger.is_editable(),
        "and the setter has to cross, or an edit could never be committed"
    );
    assert_eq!(
        item.trigger.resolve_step(1),
        Some(Outer::Inner(DialMsg::Step(1))),
        "a nudge arrives as the outer message"
    );
    assert_eq!(
        item.trigger.set_to(25),
        Some(Outer::Inner(DialMsg::SetTo(25))),
        "and committing sets the value outright, through the conversion"
    );
    assert_eq!(
        item.trigger.stepped(100, 1),
        Some(100),
        "the bound has to cross too, or an open edit runs off the end of the track"
    );
}

#[test]
fn nudging_a_slider_stops_at_its_ends() {
    let host = TestHost::new();
    let at = |value: i32, delta: i32| {
        let mut slider = Slider::new(value, 100).on_change(SetTo);
        let mut out = Interactions::new(0);
        slider.measure(&host, screen());
        slider.interactions(&host, Point::origin(), &mut out);
        out.items()
            .iter()
            .find(|item| item.mask.contains(InputMask::adjust()))
            .expect("a slider is adjustable")
            .trigger
            .resolve_step(delta)
    };

    assert_eq!(at(0, -1), Some(DialMsg::SetTo(0)), "Left at zero stays at zero");
    assert_eq!(at(0, 1), Some(DialMsg::SetTo(1)), "and Right still moves");
    assert_eq!(at(100, 1), Some(DialMsg::SetTo(100)), "Right at the maximum stays at the maximum");
    assert_eq!(at(100, -1), Some(DialMsg::SetTo(99)), "and Left still moves");
}

#[test]
fn an_empty_range_keeps_its_name_and_its_number() {
    for max in [0, -1] {
        let mut host = TestHost::new();
        let mut view: Slider<DialMsg> = Slider::new(0, max).title("Volume").readout("%");
        View::<DialMsg, TestHost>::measure(&mut view, &host, screen());
        View::<DialMsg, TestHost>::render(&view, &mut host, Point::origin());

        let painted = texts(host.ops());
        assert!(painted.contains(&"Volume".to_string()), "max={max}: the name is drawn whatever the range: {painted:?}");
        assert!(painted.contains(&"0%".to_string()), "max={max}: and so is the reading: {painted:?}");
        assert!(
            !host.ops().iter().any(|op| matches!(op, DrawOp::Slider { .. })),
            "max={max}: but there is no track to draw"
        );
    }
}

#[test]
fn a_header_draws_only_what_it_was_given() {
    fn painted(view: Slider<DialMsg>) -> (Vec<String>, i32) {
        let mut host = TestHost::new();
        let mut view = view;
        View::<DialMsg, TestHost>::measure(&mut view, &host, screen());
        View::<DialMsg, TestHost>::render(&view, &mut host, Point::origin());
        (texts(host.ops()), View::<DialMsg, TestHost>::size(&view).height)
    }

    let (bare, bare_height) = painted(Slider::new(30, 100).on_change(SetTo));
    assert!(bare.is_empty(), "no name and no number means no line: {bare:?}");

    let (named, named_height) = painted(Slider::new(30, 100).on_change(SetTo).title("Volume"));
    assert_eq!(named, vec!["Volume".to_string()], "a name and no number");

    let (numbered, _) = painted(Slider::new(30, 100).on_change(SetTo).readout("%"));
    assert_eq!(numbered, vec!["30%".to_string()], "a number and no name");

    assert!(
        named_height > bare_height,
        "and a control that asked for neither is not made taller for a line it does not draw"
    );
}

#[test]
fn a_steppers_glyphs_are_touchable_where_they_are_drawn() {
    let mut host = TestHost::new();
    let mut view: Stepper<DialMsg> =
        Stepper::new(50).on_change(SetTo).on_step(Step).title("Brightness").readout("%");
    view.measure(&host, screen());

    let mut out = Interactions::new(0);
    view.interactions(&host, Point::origin(), &mut out);
    view.render(&mut host, Point::origin());

    let glyphs: Vec<(i32, i32)> = host
        .ops()
        .iter()
        .filter_map(|op| match op {
            DrawOp::Text { origin, text, .. } if text == "-" || text == "+" => Some((origin.x, origin.y)),
            _ => None,
        })
        .collect();
    assert_eq!(glyphs.len(), 2, "a stepper draws both glyphs");

    for (x, y) in glyphs {
        let hit = out
            .items()
            .iter()
            .any(|item| item.mask.contains(InputMask::tap()) && item.rect.contains(Point::new(x, y)));
        assert!(hit, "a glyph painted at ({x},{y}) is outside every touch region");
    }

    let title = host
        .ops()
        .iter()
        .find_map(|op| match op {
            DrawOp::Text { origin, text, .. } if text == "Brightness" => Some(*origin),
            _ => None,
        })
        .expect("the stepper draws its own name");
    assert!(
        !out.items().iter().any(|item| item.mask.contains(InputMask::tap()) && item.rect.contains(title)),
        "the header line must take no tap"
    );
}

#[test]
fn a_screen_labels_all_four_buttons_by_default() {
    let mut host = TestHost::new();
    let mut root: NavigationScreen<(), TestHost> = NavigationScreen::new(Text::new("content"));
    root.measure(&host, screen());
    root.render(&mut host, Point::origin());

    // A blank hint reaches the host as an empty label; a standard one as
    // "your own label for this slot".
    let hints: Vec<Vec<bool>> = host
        .ops()
        .iter()
        .filter_map(|op| match op {
            DrawOp::Hints(slots) => {
                Some(slots.iter().map(|slot| !matches!(slot.as_deref(), Some(""))).collect())
            }
            _ => None,
        })
        .collect();
    assert_eq!(hints.len(), 1, "the chrome should draw its hints once");
    assert_eq!(hints[0], vec![true; 4], "every button slot should carry a label by default");
}

// -- driving the runtime --------------------------------------------------------

/// A runtime with its fake host and shell.
struct Harness<S: Messages> {
    runtime: Runtime<S>,
    host: TestHost,
    shell: AppShell<Runtime<S>>,
}

impl<S: Screen<TestHost, Runtime<S>>> Harness<S> {
    /// Painted once, since nothing routes before the first paint.
    fn new(screen: S, has_pair: bool) -> Self {
        let mut host = TestHost::new();
        host.set_has_left_right_keys(has_pair);
        let mut harness = Harness { runtime: Runtime::new(screen), host, shell: AppShell::new() };
        harness.render();
        harness
    }

    fn render(&mut self) {
        self.runtime.render::<TestHost, Runtime<S>>(&mut self.host);
    }

    fn frame(&mut self) {
        self.runtime.loop_(&mut self.host, &mut self.shell);
    }

    fn press(&mut self, key: Button) {
        self.host.press(key);
        self.frame();
    }

    /// Forgets what was drawn and paints a fresh frame.
    fn repaint(&mut self) {
        self.host.clear_ops();
        self.render();
    }

    /// One key at `now`, and the frame it leaves behind painted.
    fn tap(&mut self, key: Button, now: u32) {
        self.host.set_millis(now);
        self.press(key);
        self.render();
    }

    /// The value on the panel after one more settled frame.
    fn shown(&mut self) -> i32 {
        self.render();
        painted_value(self.host.ops())
    }

    fn focus(&self) -> usize {
        self.runtime.focused_index()
    }

    fn screen(&self) -> &S {
        self.runtime.screen()
    }
}

/// One adjustable control and one ordinary row beneath it.
struct Dial {
    value: i32,
    tapped: usize,
    dispatches: usize,
}

impl Messages for Dial {
    type Message = DialMsg;
}

impl Screen<TestHost, Runtime<Dial>> for Dial {
    type Body = Column<DialMsg>;

    fn body(&self) -> Column<DialMsg> {
        column(10)
            .push(Stepper::new(self.value).on_change(SetTo).on_step(Step))
            .push(tappable("a plain row", DialMsg::Tapped))
    }

    fn update(&mut self, message: DialMsg, _host: &mut TestHost, _shell: &mut AppShell<Runtime<Dial>>) {
        self.dispatches += 1;
        match message {
            DialMsg::SetTo(value) => self.value = value,
            DialMsg::Step(delta) => self.value += delta,
            DialMsg::Tapped => self.tapped += 1,
        }
    }

    fn is_overlay(&self) -> bool {
        false
    }

    fn title(&self) -> Option<&'static str> {
        None
    }

    fn handle_home_gesture(&mut self, _host: &mut TestHost, _shell: &mut AppShell<Runtime<Dial>>) -> bool {
        false
    }

    fn on_enter(&mut self, _host: &mut TestHost, _shell: &mut AppShell<Runtime<Dial>>) {}

    fn on_exit(&mut self, _host: &mut TestHost, _shell: &mut AppShell<Runtime<Dial>>) {}
}

fn dial() -> Harness<Dial> {
    Harness::new(Dial { value: 50, tapped: 0, dispatches: 0 }, false)
}

/// The same control on a screen that refuses what it cannot hold.
struct ClampedDial {
    value: i32,
    dispatches: usize,
}

impl Messages for ClampedDial {
    type Message = DialMsg;
}

impl Screen<TestHost, Runtime<ClampedDial>> for ClampedDial {
    type Body = Column<DialMsg>;

    fn body(&self) -> Column<DialMsg> {
        column(10).push(Stepper::new(self.value).on_change(SetTo).on_step(Step))
    }

    fn update(&mut self, message: DialMsg, _host: &mut TestHost, _shell: &mut AppShell<Runtime<ClampedDial>>) {
        self.dispatches += 1;
        match message {
            DialMsg::SetTo(value) => self.value = value.clamp(0, 100),
            DialMsg::Step(delta) => self.value = (self.value + delta).clamp(0, 100),
            DialMsg::Tapped => {}
        }
    }

    fn is_overlay(&self) -> bool {
        false
    }

    fn title(&self) -> Option<&'static str> {
        None
    }

    fn handle_home_gesture(&mut self, _host: &mut TestHost, _shell: &mut AppShell<Runtime<ClampedDial>>) -> bool {
        false
    }

    fn on_enter(&mut self, _host: &mut TestHost, _shell: &mut AppShell<Runtime<ClampedDial>>) {}

    fn on_exit(&mut self, _host: &mut TestHost, _shell: &mut AppShell<Runtime<ClampedDial>>) {}
}

/// One nudge, five units, as a frontlight row does.
struct ScaledDial {
    value: i32,
    dispatches: usize,
}

impl Messages for ScaledDial {
    type Message = DialMsg;
}

impl Screen<TestHost, Runtime<ScaledDial>> for ScaledDial {
    type Body = Column<DialMsg>;

    fn body(&self) -> Column<DialMsg> {
        column(10).push(Stepper::new(self.value).on_change(SetTo).on_step(Step))
    }

    fn update(&mut self, message: DialMsg, _host: &mut TestHost, _shell: &mut AppShell<Runtime<ScaledDial>>) {
        self.dispatches += 1;
        match message {
            DialMsg::SetTo(value) => self.value = value.clamp(0, 100),
            DialMsg::Step(delta) => self.value = (self.value + delta * 5).clamp(0, 100),
            DialMsg::Tapped => {}
        }
    }

    fn is_overlay(&self) -> bool {
        false
    }

    fn title(&self) -> Option<&'static str> {
        None
    }

    fn handle_home_gesture(&mut self, _host: &mut TestHost, _shell: &mut AppShell<Runtime<ScaledDial>>) -> bool {
        false
    }

    fn on_enter(&mut self, _host: &mut TestHost, _shell: &mut AppShell<Runtime<ScaledDial>>) {}

    fn on_exit(&mut self, _host: &mut TestHost, _shell: &mut AppShell<Runtime<ScaledDial>>) {}
}

#[test]
fn a_readout_shows_the_value_the_keys_are_moving() {
    struct Dialled {
        value: i32,
        dispatches: usize,
    }
    impl Messages for Dialled {
        type Message = DialMsg;
    }

    impl Screen<TestHost, Runtime<Dialled>> for Dialled {
        type Body = Column<DialMsg>;
        fn body(&self) -> Column<DialMsg> {
            column(10).push(Slider::new(self.value, 100).on_change(SetTo).title("Warmth").readout("%"))
        }
        fn update(&mut self, message: DialMsg, _host: &mut TestHost, _shell: &mut AppShell<Runtime<Dialled>>) {
            self.dispatches += 1;
            if let DialMsg::SetTo(value) = message {
                self.value = value;
            }
        }

        fn is_overlay(&self) -> bool {
            false
        }

        fn title(&self) -> Option<&'static str> {
            None
        }

        fn handle_home_gesture(&mut self, _host: &mut TestHost, _shell: &mut AppShell<Runtime<Dialled>>) -> bool {
            false
        }

        fn on_enter(&mut self, _host: &mut TestHost, _shell: &mut AppShell<Runtime<Dialled>>) {}

        fn on_exit(&mut self, _host: &mut TestHost, _shell: &mut AppShell<Runtime<Dialled>>) {}
    }

    let mut h = Harness::new(Dialled { value: 25, dispatches: 0 }, false);
    assert!(
        texts(h.host.ops()).contains(&"25%".to_string()),
        "the control draws its own number before anything is opened"
    );

    h.press(Button::Confirm);
    for _ in 0..3 {
        h.press(Button::Up);
    }
    h.repaint();

    let painted = texts(h.host.ops());
    assert!(
        painted.contains(&"28%".to_string()),
        "three Ups have to reach the number, not only the knob: {painted:?}"
    );
    assert_eq!(h.screen().value, 25, "and the screen is still holding what it started with");
    assert_eq!(h.screen().dispatches, 0);

    h.press(Button::Back);
    h.repaint();
    assert!(
        texts(h.host.ops()).contains(&"25%".to_string()),
        "cancelling puts the number back with the knob"
    );
}

#[test]
fn a_steppers_number_agrees_with_its_track() {
    struct Stepped {
        value: i32,
    }
    impl Messages for Stepped {
        type Message = DialMsg;
    }

    impl Screen<TestHost, Runtime<Stepped>> for Stepped {
        type Body = Column<DialMsg>;
        fn body(&self) -> Column<DialMsg> {
            column(10).push(
                Stepper::new(self.value).on_change(SetTo).on_step(Step).title("Brightness").readout("%"),
            )
        }
        fn update(&mut self, _message: DialMsg, _host: &mut TestHost, _shell: &mut AppShell<Runtime<Stepped>>) {}

        fn is_overlay(&self) -> bool {
            false
        }

        fn title(&self) -> Option<&'static str> {
            None
        }

        fn handle_home_gesture(&mut self, _host: &mut TestHost, _shell: &mut AppShell<Runtime<Stepped>>) -> bool {
            false
        }

        fn on_enter(&mut self, _host: &mut TestHost, _shell: &mut AppShell<Runtime<Stepped>>) {}

        fn on_exit(&mut self, _host: &mut TestHost, _shell: &mut AppShell<Runtime<Stepped>>) {}
    }

    let mut h = Harness::new(Stepped { value: 60 }, false);
    h.press(Button::Confirm);
    for _ in 0..4 {
        h.press(Button::Up);
    }
    h.repaint();

    let ops = h.host.ops();
    let track = painted_value(ops);
    let number = ops
        .iter()
        .rev()
        .find_map(|op| match op {
            DrawOp::Text { text, .. } if text.ends_with('%') => Some(text.clone()),
            _ => None,
        })
        .expect("the stepper draws its own number");

    assert_eq!(track, 64, "four Ups move the track");
    assert_eq!(number, format!("{track}%"), "and the number over it has to say the same thing");
}

/// A stepper on a navigation screen with its own "Save" over Confirm.
struct Bar {
    value: i32,
    settable: bool,
}

impl Messages for Bar {
    type Message = DialMsg;
}

impl Screen<TestHost, Runtime<Bar>> for Bar {
    type Body = NavigationScreen<DialMsg, TestHost>;

    fn body(&self) -> NavigationScreen<DialMsg, TestHost> {
        let stepper = if self.settable {
            Stepper::new(self.value).on_change(SetTo).on_step(Step)
        } else {
            Stepper::new(self.value).on_step(Step)
        };
        NavigationScreen::new(column(10).push(stepper))
            .title("Light")
            .hints(Hint::Standard, Hint::text("Save"), Hint::Blank, Hint::Blank)
    }

    fn update(&mut self, message: DialMsg, _host: &mut TestHost, _shell: &mut AppShell<Runtime<Bar>>) {
        if let DialMsg::SetTo(value) = message {
            self.value = value;
        }
    }

    fn is_overlay(&self) -> bool {
        false
    }

    fn title(&self) -> Option<&'static str> {
        None
    }

    fn handle_home_gesture(&mut self, _host: &mut TestHost, _shell: &mut AppShell<Runtime<Bar>>) -> bool {
        false
    }

    fn on_enter(&mut self, _host: &mut TestHost, _shell: &mut AppShell<Runtime<Bar>>) {}

    fn on_exit(&mut self, _host: &mut TestHost, _shell: &mut AppShell<Runtime<Bar>>) {}
}

#[test]
fn the_hint_bar_offers_edit_then_done_and_cancel() {
    let mut h = Harness::new(Bar { value: 50, settable: true }, false);
    assert_eq!(
        slots(h.host.ops()),
        (None, Some("<edit>".to_string())),
        "focused on something openable, Confirm offers to open it over the screen's own word"
    );

    h.press(Button::Confirm);
    h.render();
    assert_eq!(
        slots(h.host.ops()),
        (Some("<cancel>".to_string()), Some("<done>".to_string())),
        "and with it open, both keys say what they now do"
    );

    h.press(Button::Back);
    h.render();
    assert_eq!(slots(h.host.ops()), (None, Some("<edit>".to_string())), "closing puts the offer back");
}

#[test]
fn a_board_with_the_pair_is_never_offered_the_mode() {
    let h = Harness::new(Bar { value: 50, settable: true }, true);
    assert_eq!(
        slots(h.host.ops()).1,
        Some("Save".to_string()),
        "the screen's own word stands where the mode never opens"
    );
}

#[test]
fn the_bar_offers_no_edit_on_a_control_that_cannot_be_opened() {
    let h = Harness::new(Bar { value: 10, settable: false }, false);
    assert_eq!(
        slots(h.host.ops()).1,
        Some("Save".to_string()),
        "the screen's own word stands where Confirm cannot open anything"
    );
}

#[test]
fn a_mapped_child_inherits_the_focus_of_the_control_wrapping_it() {
    let mut host = TestHost::new();
    let mut view = mapped(Slider::new(20, 100).on_change(SetTo).without_focus(), Inner);
    view.measure(&host, screen());

    let mut out: Interactions<Outer> = Interactions::new(0);
    out.set_parent_focused(true);
    view.interactions(&host, Point::origin(), &mut out);
    view.render(&mut host, Point::origin());
    assert_eq!(
        slider_state_of(host.ops()),
        ControlState::Focused,
        "the track is inside a focused control, mapping or no mapping"
    );

    host.clear_ops();
    let mut out: Interactions<Outer> = Interactions::new(0);
    out.set_parent_focused(false);
    view.interactions(&host, Point::origin(), &mut out);
    view.render(&mut host, Point::origin());
    assert_eq!(slider_state_of(host.ops()), ControlState::Idle, "and unfocused when it is not");
}

#[test]
fn a_mapped_value_control_shows_the_open_edit() {
    struct Wrapped {
        value: i32,
        dispatches: usize,
    }
    impl Messages for Wrapped {
        type Message = Outer;
    }

    impl Screen<TestHost, Runtime<Wrapped>> for Wrapped {
        type Body = Column<Outer>;
        fn body(&self) -> Column<Outer> {
            column(10).push(mapped(Stepper::new(self.value).on_change(SetTo).on_step(Step), Inner))
        }
        fn update(&mut self, message: Outer, _host: &mut TestHost, _shell: &mut AppShell<Runtime<Wrapped>>) {
            self.dispatches += 1;
            let Outer::Inner(inner) = message;
            if let DialMsg::SetTo(value) = inner {
                self.value = value;
            }
        }

        fn is_overlay(&self) -> bool {
            false
        }

        fn title(&self) -> Option<&'static str> {
            None
        }

        fn handle_home_gesture(&mut self, _host: &mut TestHost, _shell: &mut AppShell<Runtime<Wrapped>>) -> bool {
            false
        }

        fn on_enter(&mut self, _host: &mut TestHost, _shell: &mut AppShell<Runtime<Wrapped>>) {}

        fn on_exit(&mut self, _host: &mut TestHost, _shell: &mut AppShell<Runtime<Wrapped>>) {}
    }

    let mut h = Harness::new(Wrapped { value: 50, dispatches: 0 }, false);
    h.press(Button::Confirm);
    h.render();
    for _ in 0..4 {
        h.press(Button::Up);
        h.render();
    }

    assert_eq!(painted_value(h.host.ops()), 54, "the knob has to follow the keys through the mapping too");
    assert_eq!(
        slider_state_of(h.host.ops()),
        ControlState::Editing,
        "and the control has to look open, or the bar promises a mode nothing shows"
    );
    assert_eq!(h.screen().value, 50, "with the screen still untold");

    h.press(Button::Confirm);
    assert_eq!(h.screen().value, 54, "and Confirm commits what was shown");
    assert_eq!(h.screen().dispatches, 1);
}

#[test]
fn a_mapped_control_is_not_focused_when_the_focus_is_above_it() {
    struct Above {
        value: i32,
    }
    impl Messages for Above {
        type Message = Outer;
    }

    impl Screen<TestHost, Runtime<Above>> for Above {
        type Body = Column<Outer>;
        fn body(&self) -> Column<Outer> {
            column(10)
                .push(tappable("a plain row", Outer::Inner(DialMsg::Tapped)))
                .push(mapped(Stepper::new(self.value).on_change(SetTo).on_step(Step), Inner))
        }
        fn update(&mut self, _message: Outer, _host: &mut TestHost, _shell: &mut AppShell<Runtime<Above>>) {}

        fn is_overlay(&self) -> bool {
            false
        }

        fn title(&self) -> Option<&'static str> {
            None
        }

        fn handle_home_gesture(&mut self, _host: &mut TestHost, _shell: &mut AppShell<Runtime<Above>>) -> bool {
            false
        }

        fn on_enter(&mut self, _host: &mut TestHost, _shell: &mut AppShell<Runtime<Above>>) {}

        fn on_exit(&mut self, _host: &mut TestHost, _shell: &mut AppShell<Runtime<Above>>) {}
    }

    let mut h = Harness::new(Above { value: 50 }, false);
    assert_eq!(h.focus(), 0, "the keys are on the plain row");
    assert_eq!(
        slider_state_of(h.host.ops()),
        ControlState::Idle,
        "so the control below it must not look selected"
    );

    h.press(Button::Down);
    h.repaint();
    assert_eq!(
        slider_state_of(h.host.ops()),
        ControlState::Focused,
        "and it must light up when the keys arrive"
    );
}

#[test]
fn an_empty_control_can_be_opened_without_panicking() {
    struct Empty {
        max: i32,
    }
    impl Messages for Empty {
        type Message = DialMsg;
    }

    impl Screen<TestHost, Runtime<Empty>> for Empty {
        type Body = Column<DialMsg>;
        fn body(&self) -> Column<DialMsg> {
            column(10).push(Slider::new(0, self.max).on_change(SetTo))
        }
        fn update(&mut self, _message: DialMsg, _host: &mut TestHost, _shell: &mut AppShell<Runtime<Empty>>) {}

        fn is_overlay(&self) -> bool {
            false
        }

        fn title(&self) -> Option<&'static str> {
            None
        }

        fn handle_home_gesture(&mut self, _host: &mut TestHost, _shell: &mut AppShell<Runtime<Empty>>) -> bool {
            false
        }

        fn on_enter(&mut self, _host: &mut TestHost, _shell: &mut AppShell<Runtime<Empty>>) {}

        fn on_exit(&mut self, _host: &mut TestHost, _shell: &mut AppShell<Runtime<Empty>>) {}
    }

    for max in [-1, 0] {
        let mut h = Harness::new(Empty { max }, false);
        h.press(Button::Confirm);
        h.render();
        h.press(Button::Up);
        h.render();
        h.press(Button::Confirm);
        h.render();
    }
}

#[test]
fn a_composite_does_not_leave_its_focus_flag_set_behind_it() {
    struct After {
        value: i32,
        trailing: i32,
    }
    impl Messages for After {
        type Message = DialMsg;
    }

    impl Screen<TestHost, Runtime<After>> for After {
        type Body = Column<DialMsg>;
        fn body(&self) -> Column<DialMsg> {
            column(10)
                .push(Stepper::new(self.value).on_change(SetTo).on_step(Step))
                .push(Slider::new(self.trailing, 100).on_change(SetTo).without_focus())
        }
        fn update(&mut self, _message: DialMsg, _host: &mut TestHost, _shell: &mut AppShell<Runtime<After>>) {}

        fn is_overlay(&self) -> bool {
            false
        }

        fn title(&self) -> Option<&'static str> {
            None
        }

        fn handle_home_gesture(&mut self, _host: &mut TestHost, _shell: &mut AppShell<Runtime<After>>) -> bool {
            false
        }

        fn on_enter(&mut self, _host: &mut TestHost, _shell: &mut AppShell<Runtime<After>>) {}

        fn on_exit(&mut self, _host: &mut TestHost, _shell: &mut AppShell<Runtime<After>>) {}
    }

    let h = Harness::new(After { value: 50, trailing: 20 }, false);
    assert_eq!(h.focus(), 0, "the keys are on the stepper");

    let painted: Vec<(i32, ControlState)> = h
        .host
        .ops()
        .iter()
        .filter_map(|op| match op {
            DrawOp::Slider { value, state, .. } => Some((*value, *state)),
            _ => None,
        })
        .collect();
    assert_eq!(
        painted,
        vec![(50, ControlState::Focused), (20, ControlState::Idle)],
        "the stepper's own track is selected; the one after it is not"
    );
}

#[test]
fn an_open_edit_leaves_the_other_controls_alone() {
    struct Two {
        first: i32,
        second: i32,
    }
    impl Messages for Two {
        type Message = DialMsg;
    }

    impl Screen<TestHost, Runtime<Two>> for Two {
        type Body = Column<DialMsg>;
        fn body(&self) -> Column<DialMsg> {
            column(10)
                .push(Slider::new(self.first, 100).on_change(SetTo))
                .push(Slider::new(self.second, 100).on_change(SetTo))
        }
        fn update(&mut self, _message: DialMsg, _host: &mut TestHost, _shell: &mut AppShell<Runtime<Two>>) {}

        fn is_overlay(&self) -> bool {
            false
        }

        fn title(&self) -> Option<&'static str> {
            None
        }

        fn handle_home_gesture(&mut self, _host: &mut TestHost, _shell: &mut AppShell<Runtime<Two>>) -> bool {
            false
        }

        fn on_enter(&mut self, _host: &mut TestHost, _shell: &mut AppShell<Runtime<Two>>) {}

        fn on_exit(&mut self, _host: &mut TestHost, _shell: &mut AppShell<Runtime<Two>>) {}
    }

    let mut h = Harness::new(Two { first: 60, second: 25 }, false);
    h.press(Button::Down);
    h.press(Button::Confirm);
    for _ in 0..4 {
        h.press(Button::Up);
    }
    h.repaint();

    let painted: Vec<i32> = h
        .host
        .ops()
        .iter()
        .filter_map(|op| match op {
            DrawOp::Slider { value, .. } => Some(*value),
            _ => None,
        })
        .collect();
    assert_eq!(
        painted,
        vec![60, 29],
        "only the control the keys are on moves; the other keeps the screen's value"
    );
}

#[test]
fn arrow_keys_move_an_open_edit_when_a_host_sends_them() {
    let mut h = dial();
    h.tap(Button::Confirm, 10);

    h.tap(Button::Right, 20);
    h.tap(Button::Right, 30);
    assert_eq!(painted_value(h.host.ops()), 52, "Right raises inside an open edit");

    h.tap(Button::Left, 40);
    assert_eq!(painted_value(h.host.ops()), 51, "and Left lowers it");
    assert_eq!(h.screen().dispatches, 0, "through the same held copy as every other key");
}

#[test]
fn a_key_against_the_end_of_the_track_asks_for_no_repaint() {
    let mut h = Harness::new(ClampedDial { value: 100, dispatches: 0 }, false);
    h.press(Button::Confirm);
    h.render();

    let before = h.host.updates();
    h.press(Button::Up);
    assert_eq!(
        h.host.updates(),
        before,
        "already at the maximum: nothing moved, so nothing is repainted"
    );

    h.press(Button::Down);
    assert!(h.host.updates() > before, "a key that moves the value still asks for its frame");
}

#[test]
fn a_swipe_is_declined_while_a_value_is_open() {
    let mut h = dial();
    h.press(Button::Confirm);
    h.render();
    let focus = h.focus();

    h.host.set_swipe(SwipeDir::Up);
    h.frame();
    h.render();
    assert_eq!(h.focus(), focus, "the swipe must not move the highlight while a value is open");

    h.press(Button::Up);
    assert_eq!(h.shown(), 51, "the edit still owns the keys after the declined swipe");
}

#[test]
fn cancelling_an_edit_is_free_when_a_step_is_scaled() {
    let mut h = Harness::new(ScaledDial { value: 30, dispatches: 0 }, false);
    h.press(Button::Confirm);
    h.render();
    for _ in 0..4 {
        h.press(Button::Up);
        h.render();
    }
    assert_eq!(
        h.shown(),
        34,
        "the panel follows the keys: one unit of the track per press, not one of the screen's nudges"
    );
    assert_eq!(h.screen().value, 30, "and the screen has not been told a thing");

    h.press(Button::Back);
    h.render();
    assert_eq!(h.screen().value, 30, "cancel leaves it exactly where it was, whatever a step is worth");
    assert_eq!(h.screen().dispatches, 0, "and dispatches nothing at all");
}

#[test]
fn a_control_that_cannot_be_committed_is_not_editable() {
    struct NudgeOnly {
        value: i32,
    }
    impl Messages for NudgeOnly {
        type Message = DialMsg;
    }

    impl Screen<TestHost, Runtime<NudgeOnly>> for NudgeOnly {
        type Body = Column<DialMsg>;
        fn body(&self) -> Column<DialMsg> {
            column(10).push(Stepper::new(self.value).on_step(Step))
        }
        fn update(&mut self, message: DialMsg, _host: &mut TestHost, _shell: &mut AppShell<Runtime<NudgeOnly>>) {
            if let DialMsg::Step(delta) = message {
                self.value += delta;
            }
        }

        fn is_overlay(&self) -> bool {
            false
        }

        fn title(&self) -> Option<&'static str> {
            None
        }

        fn handle_home_gesture(&mut self, _host: &mut TestHost, _shell: &mut AppShell<Runtime<NudgeOnly>>) -> bool {
            false
        }

        fn on_enter(&mut self, _host: &mut TestHost, _shell: &mut AppShell<Runtime<NudgeOnly>>) {}

        fn on_exit(&mut self, _host: &mut TestHost, _shell: &mut AppShell<Runtime<NudgeOnly>>) {}
    }

    let mut h = Harness::new(NudgeOnly { value: 10 }, false);
    h.press(Button::Confirm);
    h.render();
    h.press(Button::Up);
    h.render();
    assert_eq!(h.screen().value, 10, "Confirm must not open an edit on a control it could never commit");
}

#[test]
fn cancelling_an_edit_costs_nothing_when_the_value_clamps() {
    let mut h = Harness::new(ClampedDial { value: 98, dispatches: 0 }, false);
    h.press(Button::Confirm);
    h.render();
    for _ in 0..4 {
        h.press(Button::Up);
        h.render();
    }
    assert_eq!(h.shown(), 100, "two of the four Ups run out of track and the panel says so");
    assert_eq!(h.screen().value, 98, "and none of them reached the screen");

    h.press(Button::Back);
    h.render();
    assert_eq!(h.screen().value, 98, "cancel leaves exactly what the edit opened on");
    assert_eq!(h.screen().dispatches, 0, "having dispatched nothing at any point");
    assert!(!h.shell.take_finish(), "and it costs the edit, not the screen");
}

#[test]
fn confirm_opens_an_adjustable_control_rather_than_firing_it() {
    let mut h = dial();
    assert_eq!(h.focus(), 0, "the stepper holds focus");

    h.tap(Button::Confirm, 10);
    assert_eq!(h.screen().dispatches, 0, "opening changes nothing by itself");

    h.tap(Button::Up, 20);
    assert_eq!(painted_value(h.host.ops()), 51, "the panel moved");
    assert_eq!(h.screen().value, 50, "and the screen has not heard about it");
    assert_eq!(h.focus(), 0, "and focus stayed put");
}

#[test]
fn while_editing_up_raises_and_down_lowers() {
    let mut h = dial();
    h.tap(Button::Confirm, 10);

    h.tap(Button::Up, 20);
    h.tap(Button::Up, 30);
    assert_eq!(painted_value(h.host.ops()), 52, "Up walks the number upwards");

    h.tap(Button::Down, 40);
    assert_eq!(painted_value(h.host.ops()), 51, "and Down walks it back");
    assert_eq!(h.screen().dispatches, 0, "and none of the three reached the screen");
}

#[test]
fn confirm_commits_the_value_in_one_message() {
    let mut h = dial();
    h.tap(Button::Confirm, 10);
    h.tap(Button::Up, 20);
    h.tap(Button::Up, 30);
    assert_eq!(painted_value(h.host.ops()), 52);
    assert_eq!(h.screen().value, 50, "still untold");

    h.tap(Button::Confirm, 40);
    assert_eq!(h.screen().value, 52, "the value the panel was showing");
    assert_eq!(h.screen().dispatches, 1, "one message for the whole edit, not one per press");

    h.tap(Button::Down, 50);
    assert_eq!(h.focus(), 1, "focus moves once more");
    assert_eq!(h.screen().value, 52, "and the value is left alone");
    assert_eq!(h.screen().dispatches, 1, "and nothing else was sent");
}

#[test]
fn back_drops_the_open_edit_and_keeps_the_screen() {
    let mut h = dial();
    h.tap(Button::Confirm, 10);
    h.tap(Button::Up, 20);
    h.tap(Button::Up, 30);
    h.tap(Button::Up, 40);
    assert_eq!(painted_value(h.host.ops()), 53, "moved by more than one step");

    h.tap(Button::Back, 50);
    assert_eq!(
        painted_value(h.host.ops()),
        50,
        "the panel goes back to what the screen holds, all three steps at once"
    );
    assert_eq!(h.screen().dispatches, 0, "cancel dispatches nothing at all");
    assert!(!h.shell.take_finish(), "and the screen is still here");

    h.tap(Button::Back, 60);
    assert!(h.shell.take_finish(), "now it leaves");
}

#[test]
fn editing_across_a_panel_refresh_moves_by_one_step() {
    let mut h = dial();
    h.tap(Button::Confirm, 10);

    h.host.set_millis(20);
    h.host.hold(Button::Up);
    h.frame();
    h.render();
    assert_eq!(painted_value(h.host.ops()), 51, "the press itself moves one");

    h.host.set_millis(850);
    h.frame();
    h.render();
    assert_eq!(
        painted_value(h.host.ops()),
        51,
        "a gap the loop could not see through must not walk the value"
    );
}

// -- swipes and repeat on a plain list -----------------------------------------

/// Three focusable rows, optionally claiming swipes itself.
struct Nav {
    claims_swipe: bool,
    claimed: Option<SwipeDir>,
}

#[derive(Clone, Copy, PartialEq, Eq, Debug)]
enum NavMsg {
    Row(u8),
    Swiped(SwipeDir),
}

impl Messages for Nav {
    type Message = NavMsg;
}

impl Screen<TestHost, Runtime<Nav>> for Nav {
    type Body = Column<NavMsg>;

    fn body(&self) -> Column<NavMsg> {
        column(4)
            .push(tappable("one", NavMsg::Row(0)))
            .push(tappable("two", NavMsg::Row(1)))
            .push(tappable("three", NavMsg::Row(2)))
    }

    fn on_swipe(&self, direction: SwipeDir) -> Option<NavMsg> {
        self.claims_swipe.then_some(NavMsg::Swiped(direction))
    }

    fn update(&mut self, message: NavMsg, _host: &mut TestHost, _shell: &mut AppShell<Runtime<Nav>>) {
        if let NavMsg::Swiped(direction) = message {
            self.claimed = Some(direction);
        }
    }

    fn is_overlay(&self) -> bool {
        false
    }

    fn title(&self) -> Option<&'static str> {
        None
    }

    fn handle_home_gesture(&mut self, _host: &mut TestHost, _shell: &mut AppShell<Runtime<Nav>>) -> bool {
        false
    }

    fn on_enter(&mut self, _host: &mut TestHost, _shell: &mut AppShell<Runtime<Nav>>) {}

    fn on_exit(&mut self, _host: &mut TestHost, _shell: &mut AppShell<Runtime<Nav>>) {}
}

fn nav(claims_swipe: bool) -> Harness<Nav> {
    Harness::new(Nav { claims_swipe, claimed: None }, false)
}

#[test]
fn a_button_held_across_frames_the_loop_can_see_still_repeats() {
    let mut h = nav(false);

    h.host.set_millis(0);
    h.host.hold(Button::Down);
    h.frame();
    assert_eq!(h.focus(), 1);

    let mut now = 0;
    while now < 490 {
        now += 10;
        h.host.set_millis(now);
        h.frame();
    }
    assert_eq!(h.focus(), 1, "nothing repeats before the delay is up");

    h.host.set_millis(500);
    h.frame();
    assert_eq!(h.focus(), 2, "past the delay it repeats");

    h.host.release();
    h.host.set_millis(1_000);
    h.frame();
    assert_eq!(h.focus(), 2, "a released button does not repeat");
}

#[test]
fn a_swipe_moves_focus_the_way_the_firmware_does() {
    let mut h = nav(false);
    assert_eq!(h.focus(), 0);

    h.host.set_swipe(SwipeDir::Up);
    h.frame();
    assert_eq!(h.focus(), 1, "swipe up should advance");

    h.host.set_swipe(SwipeDir::Down);
    h.frame();
    assert_eq!(h.focus(), 0, "swipe down should go back");
}

#[test]
fn swipe_focus_wraps_at_both_ends() {
    let mut h = nav(false);

    h.host.set_swipe(SwipeDir::Down);
    h.frame();
    assert_eq!(h.focus(), 2, "back from the first row wraps");

    h.host.set_swipe(SwipeDir::Up);
    h.frame();
    assert_eq!(h.focus(), 0, "forward from the last wraps");
}

#[test]
fn a_claimed_swipe_reaches_the_screen() {
    let mut h = nav(true);
    h.host.set_swipe(SwipeDir::Up);
    h.frame();
    assert_eq!(h.focus(), 0, "a claimed swipe must not also move focus");
    assert_eq!(h.screen().claimed, Some(SwipeDir::Up), "the screen got it instead");
}

#[test]
fn horizontal_swipes_do_not_move_focus() {
    let mut h = nav(false);
    for direction in [SwipeDir::Left, SwipeDir::Right] {
        h.host.set_swipe(direction);
        h.frame();
        assert_eq!(h.focus(), 0, "{direction:?} must not navigate");
    }
}

#[test]
fn swipe_direction_is_a_preference() {
    for moves_selection in [false, true] {
        let mut host = TestHost::new();
        host.set_swipe_moves_selection(moves_selection);
        let mut h = Harness {
            runtime: Runtime::new(Nav { claims_swipe: false, claimed: None }),
            host,
            shell: AppShell::new(),
        };
        h.render();
        assert_eq!(h.focus(), 0);

        h.host.set_swipe(SwipeDir::Up);
        h.frame();

        let expected = if moves_selection { 2 } else { 1 };
        assert_eq!(h.focus(), expected, "swipe up with swipe_moves_selection={moves_selection}");
    }
}

// -- dialogs capture input -------------------------------------------------------

/// Three rows; tapping one opens a dialog over them.
struct WithDialog {
    open_row: Option<usize>,
    chose: Option<usize>,
}

#[derive(Clone, Copy, PartialEq, Eq, Debug)]
enum DlgMsg {
    OpenRow(usize),
    Chose(usize),
}

#[derive(Clone, Copy)]
struct Chose;

impl Make<usize, DlgMsg> for Chose {
    fn made(&self, index: usize) -> DlgMsg {
        DlgMsg::Chose(index)
    }

    fn make(&self, index: usize) -> DlgMsg {
        DlgMsg::Chose(index)
    }
}

impl Messages for WithDialog {
    type Message = DlgMsg;
}

impl Screen<TestHost, Runtime<WithDialog>> for WithDialog {
    type Body = NavigationScreen<DlgMsg, TestHost>;

    fn body(&self) -> NavigationScreen<DlgMsg, TestHost> {
        let rows = column(4)
            .push(tappable("one", DlgMsg::OpenRow(0)))
            .push(tappable("two", DlgMsg::OpenRow(1)))
            .push(tappable("three", DlgMsg::OpenRow(2)));
        NavigationScreen::new(rows).overlay_if(
            self.open_row.is_some(),
            Modal::picker("Pick", &["alpha", "beta"]).selected(1).on_select(Chose),
        )
    }

    fn update(&mut self, message: DlgMsg, _host: &mut TestHost, _shell: &mut AppShell<Runtime<WithDialog>>) {
        match message {
            DlgMsg::OpenRow(row) => self.open_row = Some(row),
            DlgMsg::Chose(index) => {
                self.chose = Some(index);
                self.open_row = None;
            }
        }
    }

    fn is_overlay(&self) -> bool {
        false
    }

    fn title(&self) -> Option<&'static str> {
        None
    }

    fn handle_home_gesture(&mut self, _host: &mut TestHost, _shell: &mut AppShell<Runtime<WithDialog>>) -> bool {
        false
    }

    fn on_enter(&mut self, _host: &mut TestHost, _shell: &mut AppShell<Runtime<WithDialog>>) {}

    fn on_exit(&mut self, _host: &mut TestHost, _shell: &mut AppShell<Runtime<WithDialog>>) {}
}

fn dialog_harness() -> Harness<WithDialog> {
    Harness::new(WithDialog { open_row: None, chose: None }, false)
}

#[test]
fn a_dialog_captures_focus_and_gives_it_back() {
    let mut h = dialog_harness();

    h.host.set_swipe(SwipeDir::Up);
    h.frame();
    assert_eq!(h.focus(), 1);

    h.press(Button::Confirm);
    h.render();
    assert_eq!(h.focus(), 1, "the dialog opens on its selected option");

    h.host.set_swipe(SwipeDir::Up);
    h.frame();
    assert_eq!(h.focus(), 0, "wraps within the dialog");

    h.press(Button::Confirm);
    h.render();
    assert_eq!(h.screen().chose, Some(0));
    assert_eq!(h.focus(), 1, "focus returns to the opening row");
}

#[test]
fn rows_behind_a_dialog_are_unreachable() {
    let mut h = dialog_harness();

    h.press(Button::Confirm);
    h.render();

    for _ in 0..6 {
        h.host.set_swipe(SwipeDir::Up);
        h.frame();
        assert!(h.focus() < 2, "focus escaped the dialog to index {}", h.focus());
    }
}

#[test]
fn the_arrows_move_the_highlight_inside_the_dialog() {
    let mut h = dialog_harness();

    h.press(Button::Confirm);

    let highlight = |h: &mut Harness<WithDialog>| {
        h.repaint();
        let popups: Vec<i32> = h
            .host
            .ops()
            .iter()
            .filter_map(|op| match op {
                DrawOp::OptionPopup { selected, .. } => Some(*selected),
                _ => None,
            })
            .collect();
        assert_eq!(popups.len(), 1, "the dialog should be drawn");
        popups[0]
    };

    assert_eq!(highlight(&mut h), 1, "opens on the selected option");

    h.press(Button::Up);
    assert_eq!(highlight(&mut h), 0, "Up moves the highlight");

    h.press(Button::Down);
    assert_eq!(highlight(&mut h), 1, "Down moves it back");
}

#[test]
fn restricting_outside_the_view_withdraws_any_mask_and_keeps_the_count() {
    let mut out: Interactions<u8> = Interactions::new(0);
    out.declare(Rect::new(0, 0, 100, 40), InputMask::default_mask(), Trigger::Message(1));
    out.declare(Rect::new(0, 500, 100, 40), InputMask::default_mask(), Trigger::Message(2));
    out.restrict_outside(0, Rect::new(0, 0, 100, 100), InputMask::focus());
    assert!(out.items()[0].mask.contains(InputMask::focus()));
    assert!(!out.items()[1].mask.contains(InputMask::focus()));
    assert!(out.items()[1].mask.contains(InputMask::tap()));
    assert_eq!(out.focusable_count(), 2, "the stops already counted are not renumbered");
}
