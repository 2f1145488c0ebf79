use std::cell::RefCell;
use std::rc::Rc;

use lib::app::{App, AppShell};
use lib::geometry::{Point, Rect, Size};
use lib::host::Button;
use lib::screen::{NavigationScreen, Runtime, Messages, Screen};
use lib::testing::{DrawOp, TestHost};
use lib::view::{InputMask, Interactions, Make, Trigger, View};
use lib::widgets::modal::Modal;
use lib::widgets::stepper::Stepper;
use lib::widgets::text::Text;

/// Every message a screen was handed, in order.
type Log<M> = Rc<RefCell<Vec<M>>>;

/// One frame with `button` pressed in it, painted if it changed anything.
fn press<D: lib::screen::Driver<TestHost>>(app: &mut App<D>, host: &mut TestHost, button: Button) {
    host.press(button);
    app.tick(host);
    app.render_if_dirty(host);
}

/// A tappable, focusable row sending `message`.
struct Row<M> {
    message: M,
    size: Size,
}

impl<M: Clone> View<M, TestHost> for Row<M> {
    fn measure(&mut self, _host: &TestHost, available: Size) {
        self.size = Size::new(available.width, 40);
    }

    fn size(&self) -> Size {
        self.size
    }

    fn render(&self, _host: &mut TestHost, _origin: Point) {}

    fn interactions(&mut self, _host: &TestHost, origin: Point, out: &mut Interactions<M>) {
        out.declare(
            Rect { origin, size: self.size },
            InputMask::default_mask(),
            Trigger::Message(self.message.clone()),
        );
    }
}

/// Children stacked top to bottom, `gap` apart.
struct Column<M> {
    gap: i32,
    children: Vec<Box<dyn View<M, TestHost>>>,
    size: Size,
}

impl<M> View<M, TestHost> for Column<M> {
    fn measure(&mut self, host: &TestHost, available: Size) {
        let mut height = 0;
        for child in &mut self.children {
            child.measure(host, available);
            height += child.size().height + self.gap;
        }
        self.size = Size::new(available.width, height);
    }

    fn size(&self) -> Size {
        self.size
    }

    fn render(&self, host: &mut TestHost, origin: Point) {
        let mut y = origin.y;
        for child in &self.children {
            child.render(host, Point::new(origin.x, y));
            y += child.size().height + self.gap;
        }
    }

    fn interactions(&mut self, host: &TestHost, origin: Point, out: &mut Interactions<M>) {
        let mut y = origin.y;
        for child in &mut self.children {
            child.interactions(host, Point::new(origin.x, y), out);
            y += child.size().height + self.gap;
        }
    }
}

// -- every button reaches the screen ------------------------------------------

const ALL: [Button; 15] = [
    Button::Back,
    Button::Confirm,
    Button::Left,
    Button::Right,
    Button::Up,
    Button::Down,
    Button::Power,
    Button::PageBack,
    Button::PageForward,
    Button::NavNext,
    Button::NavPrevious,
    Button::ScreenLeft,
    Button::ScreenRight,
    Button::ScreenUp,
    Button::ScreenDown,
];

/// Claims every key it is offered.
struct Claims {
    log: Log<Button>,
}

impl Messages for Claims {
    type Message = Button;
}

impl Screen<TestHost, Runtime<Claims>> for Claims {
    type Body = NavigationScreen<Button, TestHost>;

    fn body(&self) -> NavigationScreen<Button, TestHost> {
        NavigationScreen::new(Text::new("keys"))
    }

    fn update(&mut self, message: Button, _host: &mut TestHost, _shell: &mut AppShell<Runtime<Claims>>) {
        self.log.borrow_mut().push(message);
    }

    fn on_key(&self, key: Button) -> Option<Button> {
        Some(key)
    }

    fn is_overlay(&self) -> bool {
        false
    }

    fn title(&self) -> Option<&'static str> {
        None
    }

    fn handle_home_gesture(&mut self, _host: &mut TestHost, _shell: &mut AppShell<Runtime<Claims>>) -> bool {
        false
    }

    fn on_enter(&mut self, _host: &mut TestHost, _shell: &mut AppShell<Runtime<Claims>>) {}

    fn on_exit(&mut self, _host: &mut TestHost, _shell: &mut AppShell<Runtime<Claims>>) {}
}

#[test]
fn every_button_is_offered_to_the_screen() {
    let mut host = TestHost::new();
    let log = Log::default();
    let mut app = App::new(&mut host, Runtime::new(Claims { log: log.clone() }));
    app.render(&mut host);

    for button in ALL {
        press(&mut app, &mut host, button);
    }

    assert_eq!(*log.borrow(), ALL, "each key, once, in the order pressed");
    assert_eq!(app.depth(), 1, "Back was claimed, so nothing finished");
}

// -- Back under a dialog -----------------------------------------------------

#[derive(Clone, Copy, Debug, PartialEq, Eq)]
enum Pick {
    Chose(usize),
    Dismiss,
    Claimed,
}

#[derive(Clone, Copy)]
struct Chose;

impl Make<usize, Pick> for Chose {
    fn made(&self, value: usize) -> Pick {
        Pick::Chose(value)
    }

    fn make(&self, value: usize) -> Pick {
        Pick::Chose(value)
    }
}

/// A screen with a dialog open, optionally dismissable, optionally claiming
/// Back itself; or, with no dialog, the screen underneath.
struct Picking {
    dialog: bool,
    dismissable: bool,
    claims_back: bool,
    log: Log<Pick>,
}

type PickD = Runtime<Picking>;

impl Messages for Picking {
    type Message = Pick;
}

impl Screen<TestHost, PickD> for Picking {
    type Body = NavigationScreen<Pick, TestHost>;

    fn body(&self) -> NavigationScreen<Pick, TestHost> {
        let screen = NavigationScreen::new(Row { message: Pick::Chose(9), size: Size::zero() });
        if !self.dialog {
            return screen;
        }
        let dialog = Modal::picker("Typeface", &["Serif", "Sans"]).on_select(Chose);
        let dialog = if self.dismissable { dialog.on_dismiss(Pick::Dismiss) } else { dialog };
        screen.overlay(dialog)
    }

    fn update(&mut self, message: Pick, _host: &mut TestHost, _shell: &mut AppShell<PickD>) {
        self.log.borrow_mut().push(message);
    }

    fn on_key(&self, key: Button) -> Option<Pick> {
        (self.claims_back && key == Button::Back).then_some(Pick::Claimed)
    }

    fn is_overlay(&self) -> bool {
        false
    }

    fn title(&self) -> Option<&'static str> {
        None
    }

    fn handle_home_gesture(&mut self, _host: &mut TestHost, _shell: &mut AppShell<PickD>) -> bool {
        false
    }

    fn on_enter(&mut self, _host: &mut TestHost, _shell: &mut AppShell<PickD>) {}

    fn on_exit(&mut self, _host: &mut TestHost, _shell: &mut AppShell<PickD>) {}
}

fn picking(host: &mut TestHost, dismissable: bool, claims_back: bool) -> (App<PickD>, Log<Pick>) {
    let log = Log::default();
    let under = Picking { dialog: false, dismissable: false, claims_back: false, log: Log::default() };
    let mut app = App::new(host, Runtime::new(under));
    app.push(host, Runtime::new(Picking { dialog: true, dismissable, claims_back, log: log.clone() }));
    app.render(host);
    (app, log)
}

#[test]
fn back_under_a_dialog_sends_its_dismiss_message() {
    let mut host = TestHost::new();
    let (mut app, log) = picking(&mut host, true, false);
    press(&mut app, &mut host, Button::Back);
    assert_eq!(*log.borrow(), [Pick::Dismiss]);
    assert_eq!(app.depth(), 2, "the screen under the dialog is still there");
}

#[test]
fn back_under_a_dialog_without_on_dismiss_does_nothing() {
    let mut host = TestHost::new();
    let (mut app, log) = picking(&mut host, false, false);
    press(&mut app, &mut host, Button::Back);
    press(&mut app, &mut host, Button::Back);
    assert!(log.borrow().is_empty(), "nothing was dispatched");
    assert_eq!(app.depth(), 2, "and the screen did not finish");
}

#[test]
fn a_screen_claiming_back_keeps_priority_over_its_dialog() {
    let mut host = TestHost::new();
    let (mut app, log) = picking(&mut host, true, true);
    press(&mut app, &mut host, Button::Back);
    assert_eq!(*log.borrow(), [Pick::Claimed]);
    assert_eq!(app.depth(), 2);
}

#[test]
fn a_dialog_declares_its_dismissal_and_only_its_own() {
    let host = TestHost::new();
    let screen = Size::new(480, 800);
    let mut out: Interactions<Pick> = Interactions::new(0);

    let mut first: Modal<Pick> = Modal::picker("One", &["a"]).on_dismiss(Pick::Dismiss);
    first.measure(&host, screen);
    first.interactions(&host, Point::new(0, 0), &mut out);
    assert_eq!(out.dismissal(), Some(&Pick::Dismiss));

    let mut second: Modal<Pick> = Modal::picker("Two", &["b"]);
    second.measure(&host, screen);
    second.interactions(&host, Point::new(0, 0), &mut out);
    assert_eq!(out.dismissal(), None, "the dialog on top says nothing");

    let mut loose: Interactions<Pick> = Interactions::new(0);
    loose.dismiss_with(Pick::Dismiss);
    assert_eq!(loose.dismissal(), None, "nothing captured, so nothing to dismiss");
}

// -- a stepper with only on_change ---------------------------------------------

#[derive(Clone, Copy, Debug, PartialEq, Eq)]
enum Level {
    Value(i32),
    Step(i32),
    Row,
}

#[derive(Clone, Copy)]
struct SetTo;

impl Make<i32, Level> for SetTo {
    fn made(&self, value: i32) -> Level {
        Level::Value(value)
    }

    fn make(&self, value: i32) -> Level {
        Level::Value(value)
    }
}

#[derive(Clone, Copy)]
struct Step;

impl Make<i32, Level> for Step {
    fn made(&self, value: i32) -> Level {
        Level::Step(value)
    }

    fn make(&self, value: i32) -> Level {
        Level::Step(value)
    }
}

/// A stepper over 0..=10 above a plain row, with `on_step` only if asked.
struct Levels {
    value: i32,
    stepped: bool,
    log: Log<Level>,
}

type LevelD = Runtime<Levels>;

impl Messages for Levels {
    type Message = Level;
}

impl Screen<TestHost, LevelD> for Levels {
    type Body = NavigationScreen<Level, TestHost>;

    fn body(&self) -> NavigationScreen<Level, TestHost> {
        let stepper = Stepper::ranged(self.value, 10).on_change(SetTo);
        let stepper = if self.stepped { stepper.on_step(Step) } else { stepper };
        NavigationScreen::new(Column {
            gap: 8,
            children: vec![Box::new(stepper), Box::new(Row { message: Level::Row, size: Size::zero() })],
            size: Size::zero(),
        })
    }

    fn update(&mut self, message: Level, _host: &mut TestHost, _shell: &mut AppShell<LevelD>) {
        self.log.borrow_mut().push(message);
        match message {
            Level::Value(value) => self.value = value,
            Level::Step(delta) => self.value += delta,
            Level::Row => {}
        }
    }

    fn is_overlay(&self) -> bool {
        false
    }

    fn title(&self) -> Option<&'static str> {
        None
    }

    fn handle_home_gesture(&mut self, _host: &mut TestHost, _shell: &mut AppShell<LevelD>) -> bool {
        false
    }

    fn on_enter(&mut self, _host: &mut TestHost, _shell: &mut AppShell<LevelD>) {}

    fn on_exit(&mut self, _host: &mut TestHost, _shell: &mut AppShell<LevelD>) {}
}

fn levels(host: &mut TestHost, value: i32, stepped: bool) -> (App<LevelD>, Log<Level>) {
    let log = Log::default();
    let mut app = App::new(host, Runtime::new(Levels { value, stepped, log: log.clone() }));
    app.render(host);
    (app, log)
}

#[test]
fn left_and_right_drive_a_stepper_with_only_on_change() {
    let mut host = TestHost::new();
    host.set_has_left_right_keys(true);
    let (mut app, log) = levels(&mut host, 9, false);

    press(&mut app, &mut host, Button::Right);
    press(&mut app, &mut host, Button::Right);
    press(&mut app, &mut host, Button::Left);

    assert_eq!(
        *log.borrow(),
        [Level::Value(10), Level::Value(10), Level::Value(9)],
        "absolute values, clamped at the top of the range"
    );
}

#[test]
fn a_stepper_with_only_on_change_is_a_focus_stop() {
    let mut host = TestHost::new();
    host.set_has_left_right_keys(true);
    let (mut app, log) = levels(&mut host, 0, false);

    press(&mut app, &mut host, Button::Left);
    press(&mut app, &mut host, Button::Down);
    press(&mut app, &mut host, Button::Confirm);

    assert_eq!(
        *log.borrow(),
        [Level::Value(0), Level::Row],
        "clamped at the bottom, then the row the focus moved to"
    );
}

#[test]
fn a_stepper_with_only_on_change_opens_and_commits() {
    let mut host = TestHost::new();
    let (mut app, log) = levels(&mut host, 4, false);

    for key in [Button::Confirm, Button::Up, Button::Up, Button::Confirm] {
        press(&mut app, &mut host, key);
    }

    assert_eq!(*log.borrow(), [Level::Value(6)], "one message for the edit");
}

#[test]
fn a_stepper_with_both_messages_still_steps() {
    let mut host = TestHost::new();
    host.set_has_left_right_keys(true);
    let (mut app, log) = levels(&mut host, 4, true);

    press(&mut app, &mut host, Button::Right);

    assert_eq!(*log.borrow(), [Level::Step(1)]);
}

#[test]
fn a_stepper_with_only_on_change_has_glyphs() {
    let mut host = TestHost::new();
    let mut stepper: Stepper<Level> = Stepper::ranged(0, 10).on_change(SetTo);
    stepper.measure(&host, Size::new(480, 800));
    stepper.render(&mut host, Point::new(0, 0));

    let drawn: Vec<String> = host
        .ops()
        .iter()
        .filter_map(|op| match op {
            DrawOp::Text { text, .. } => Some(text.clone()),
            _ => None,
        })
        .collect();
    assert!(drawn.iter().any(|text| text == "-"), "a minus: {drawn:?}");
    assert!(drawn.iter().any(|text| text == "+"), "a plus: {drawn:?}");

    let mut out = Interactions::new(0);
    stepper.interactions(&host, Point::new(0, 0), &mut out);
    let touched: Vec<Level> = out
        .items()
        .iter()
        .filter(|item| item.mask == InputMask::tap())
        .map(|item| item.trigger.resolve(&host, item.rect, item.rect.x()))
        .collect();
    assert_eq!(
        touched,
        [Level::Value(0), Level::Value(1)],
        "minus is held at the bottom of the range, plus is one up"
    );
}

#[test]
fn a_stepper_glyph_sends_the_nudge_with_its_own_sign() {
    let stepper = Stepper::ranged(5, 10).on_change(SetTo).on_step(Step);
    assert!(matches!(stepper.nudge(-1), Some(Level::Step(-1))));
    assert!(matches!(stepper.nudge(1), Some(Level::Step(1))));
}

#[test]
fn without_a_nudge_a_glyph_sends_the_value_held_in_range() {
    let stepper = Stepper::ranged(10, 10).on_change(SetTo);
    assert!(matches!(stepper.nudge(1), Some(Level::Value(10))));
    assert!(matches!(stepper.nudge(-1), Some(Level::Value(9))));
    let empty = Stepper::ranged(0, 10).on_change(SetTo);
    assert!(matches!(empty.nudge(-1), Some(Level::Value(0))));
    assert!(Stepper::<Level>::ranged(3, 10).nudge(1).is_none());
}
