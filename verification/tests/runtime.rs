use lib::app::AppShell;
use lib::geometry::{Point, Rect, Size};
use lib::host::{finish_screen, Button, Canvas, FontId, FontStyle, SwipeDir};
use lib::screen::{Runtime, Messages, Screen};
use lib::testing::TestHost;
use lib::view::{InputMask, Interactions, Make, Maker, Trigger, View};

#[derive(Clone, Copy, Debug, PartialEq)]
enum Msg {
    Row(usize),
    Key(Button),
    Swiped,
    Background,
    Dismiss,
    Level(i32),
    Held,
}

#[derive(Clone, Copy)]
struct SetLevel;

impl Make<i32, Msg> for SetLevel {
    fn made(&self, value: i32) -> Msg {
        Msg::Level(value)
    }

    fn make(&self, value: i32) -> Msg {
        Msg::Level(value)
    }
}

/// A column of 40-pixel rows, an optional level control under them, and an
/// optional dialog over them.
struct Rows {
    count: usize,
    level: Option<i32>,
    dialog: Option<usize>,
    dismissable: bool,
    draggable: bool,
    long_press: bool,
    size: Size,
}

impl View<Msg, TestHost> for Rows {
    fn measure(&mut self, _host: &TestHost, available: Size) {
        self.size = available;
    }

    fn size(&self) -> Size {
        self.size
    }

    fn render(&self, host: &mut TestHost, origin: Point) {
        for i in 0..self.count {
            host.draw_text(
                Point::new(origin.x, origin.y + 40 * i as i32),
                "row",
                FontId(1003),
                FontStyle::Regular,
            );
        }
    }

    fn interactions(&mut self, _host: &TestHost, origin: Point, out: &mut Interactions<Msg>) {
        for i in 0..self.count {
            let mut mask = InputMask::default_mask();
            if self.draggable && i == 0 {
                mask = mask.union(InputMask::drag());
            }
            if self.long_press && i == 0 {
                mask = mask.union(InputMask::long_press());
            }
            let trigger = if self.long_press && i == 0 {
                Trigger::Message(Msg::Held)
            } else {
                Trigger::Message(Msg::Row(i))
            };
            out.declare(Rect::new(origin.x, origin.y + 40 * i as i32, 480, 40), mask, trigger);
        }
        if let Some(value) = self.level {
            let y = origin.y + 40 * self.count as i32;
            out.declare(
                Rect::new(origin.x, y, 480, 40),
                InputMask::default_mask().union(InputMask::adjust()),
                Trigger::Value { make: Maker::new(SetLevel), max: 100, value },
            );
        }
        if let Some(preferred) = self.dialog {
            out.capture(preferred);
            if self.dismissable {
                out.dismiss_with(Msg::Dismiss);
            }
            for j in 0..3 {
                out.declare(
                    Rect::new(100, 300 + 40 * j as i32, 200, 40),
                    InputMask::default_mask(),
                    Trigger::Message(Msg::Row(100 + j)),
                );
            }
        }
    }
}

#[derive(Default)]
struct Menu {
    rows: usize,
    level: Option<i32>,
    dialog: Option<usize>,
    dismissable: bool,
    draggable: bool,
    long_press: bool,
    claim: Option<Button>,
    claim_swipe: bool,
    claim_background: bool,
    log: Vec<Msg>,
}

type Shell = AppShell<Runtime<Menu>>;

impl Messages for Menu {
    type Message = Msg;
}

impl Screen<TestHost, Runtime<Menu>> for Menu {
    type Body = Rows;

    fn body(&self) -> Rows {
        Rows {
            count: self.rows,
            level: self.level,
            dialog: self.dialog,
            dismissable: self.dismissable,
            draggable: self.draggable,
            long_press: self.long_press,
            size: Size::zero(),
        }
    }

    fn update(&mut self, message: Msg, _host: &mut TestHost, _shell: &mut Shell) {
        self.log.push(message);
        match message {
            Msg::Dismiss => self.dialog = None,
            Msg::Level(v) => self.level = Some(v),
            _ => {}
        }
    }

    fn on_key(&self, key: Button) -> Option<Msg> {
        (self.claim == Some(key)).then_some(Msg::Key(key))
    }

    fn on_swipe(&self, _direction: SwipeDir) -> Option<Msg> {
        self.claim_swipe.then_some(Msg::Swiped)
    }

    fn on_background_tap(&self, _point: Point) -> Option<Msg> {
        self.claim_background.then_some(Msg::Background)
    }

    fn is_overlay(&self) -> bool {
        false
    }

    fn title(&self) -> Option<&'static str> {
        None
    }

    fn handle_home_gesture(&mut self, _host: &mut TestHost, _shell: &mut AppShell<Runtime<Menu>>) -> bool {
        false
    }

    fn on_enter(&mut self, _host: &mut TestHost, _shell: &mut AppShell<Runtime<Menu>>) {}

    fn on_exit(&mut self, _host: &mut TestHost, _shell: &mut AppShell<Runtime<Menu>>) {}
}

struct Fixture {
    runtime: Runtime<Menu>,
    host: TestHost,
    shell: Shell,
}

impl Fixture {
    fn new(menu: Menu) -> Fixture {
        let mut fixture = Fixture {
            runtime: Runtime::new(menu),
            host: TestHost::new(),
            shell: AppShell::new(),
        };
        fixture.paint();
        fixture
    }

    fn paint(&mut self) {
        self.runtime.render::<TestHost, Runtime<Menu>>(&mut self.host);
    }

    fn frame(&mut self) {
        self.runtime.loop_(&mut self.host, &mut self.shell);
    }

    fn key(&mut self, button: Button) {
        self.host.press(button);
        self.frame();
    }

    fn log(&self) -> Vec<Msg> {
        self.runtime.screen().log.clone()
    }

    fn focus(&self) -> usize {
        self.runtime.focused_index()
    }
}

fn rows(count: usize) -> Menu {
    Menu { rows: count, ..Menu::default() }
}

#[test]
fn down_and_up_walk_the_focus_and_wrap() {
    let mut f = Fixture::new(rows(3));
    assert_eq!(f.focus(), 0);
    f.key(Button::Down);
    assert_eq!(f.focus(), 1);
    f.key(Button::Up);
    f.key(Button::Up);
    assert_eq!(f.focus(), 2, "back from the first row wraps to the last");
    f.key(Button::PageForward);
    assert_eq!(f.focus(), 0, "the page pair walks the list too");
    assert!(f.log().is_empty());
}

#[test]
fn confirm_fires_the_focused_row() {
    let mut f = Fixture::new(rows(3));
    f.key(Button::Down);
    f.key(Button::Confirm);
    assert_eq!(f.log(), vec![Msg::Row(1)]);
    assert!(f.shell.needs_paint(), "dispatching asks for a repaint");
}

#[test]
fn the_screen_gets_first_refusal_of_a_key() {
    let mut f = Fixture::new(Menu { claim: Some(Button::Down), ..rows(3) });
    f.key(Button::Down);
    assert_eq!(f.log(), vec![Msg::Key(Button::Down)]);
    assert_eq!(f.focus(), 0, "a claimed key does not also move focus");
}

#[test]
fn back_finishes_the_screen() {
    let mut f = Fixture::new(rows(2));
    f.key(Button::Back);
    assert!(f.shell.take_finish());
    assert!(f.log().is_empty());
}

#[test]
fn the_back_gesture_reaches_on_key() {
    let mut f = Fixture::new(Menu { claim: Some(Button::Back), ..rows(2) });
    f.host.back_gesture();
    f.frame();
    assert_eq!(f.log(), vec![Msg::Key(Button::Back)], "offered to on_key");
    assert!(!f.shell.take_finish(), "a screen claiming Back keeps the gesture too");
}

#[test]
fn back_under_a_captured_walk_sends_its_dismissal() {
    let mut f = Fixture::new(Menu { dialog: Some(0), dismissable: true, ..rows(2) });
    f.key(Button::Back);
    assert_eq!(f.log(), vec![Msg::Dismiss]);
    assert!(!f.shell.take_finish(), "the screen under the dialog is still there");
}

#[test]
fn back_under_a_dialog_without_a_dismissal_does_nothing() {
    let mut f = Fixture::new(Menu { dialog: Some(0), ..rows(2) });
    f.key(Button::Back);
    assert!(f.log().is_empty(), "nothing was dispatched");
    assert!(!f.shell.take_finish(), "and the screen did not finish");
}

#[test]
fn focus_parks_while_a_dialog_is_open() {
    let mut f = Fixture::new(Menu { dialog: Some(1), dismissable: true, ..rows(3) });
    f.key(Button::Down);
    assert_eq!(f.focus(), 2, "the dialog opened on its preferred option, and Down moved within it");
    f.key(Button::Down);
    assert_eq!(f.focus(), 0, "wraps within the dialog");
    f.key(Button::Back);
    assert_eq!(f.log(), vec![Msg::Dismiss]);
    f.key(Button::Down);
    assert_eq!(f.focus(), 1, "focus returned to the row that was focused before the dialog, then moved");
}

#[test]
fn a_tap_resolves_to_the_row_under_it() {
    let mut f = Fixture::new(rows(3));
    f.host.tap_at(Point::new(10, 45));
    f.frame();
    assert_eq!(f.log(), vec![Msg::Row(1)]);
}

#[test]
fn no_touch_is_routed_before_the_first_paint() {
    let mut f = Fixture {
        runtime: Runtime::new(rows(3)),
        host: TestHost::new(),
        shell: AppShell::new(),
    };
    f.host.tap_at(Point::new(10, 45));
    f.frame();
    assert!(f.log().is_empty());
}

#[test]
fn a_tap_on_nothing_goes_to_the_screen() {
    let mut f = Fixture::new(Menu { claim_background: true, ..rows(1) });
    f.host.tap_at(Point::new(10, 500));
    f.frame();
    assert_eq!(f.log(), vec![Msg::Background]);
}

#[test]
fn a_tap_outside_a_captured_walk_dismisses_it() {
    let mut f = Fixture::new(Menu { dialog: Some(0), dismissable: true, ..rows(1) });
    f.host.tap_at(Point::new(10, 700));
    f.frame();
    assert_eq!(f.log(), vec![Msg::Dismiss]);
}

#[test]
fn a_swipe_walks_the_focus() {
    let mut f = Fixture::new(rows(3));
    f.host.set_swipe(SwipeDir::Up);
    f.frame();
    assert_eq!(f.focus(), 1, "swipe up moves the content, so the focus walks down");
    f.host.set_swipe(SwipeDir::Down);
    f.frame();
    assert_eq!(f.focus(), 0);
    f.host.set_swipe(SwipeDir::Left);
    f.frame();
    assert_eq!(f.focus(), 0, "horizontal swipes belong to the system gestures");
}

#[test]
fn a_screen_can_claim_the_swipe_instead() {
    let mut f = Fixture::new(Menu { claim_swipe: true, ..rows(3) });
    f.host.set_swipe(SwipeDir::Up);
    f.frame();
    assert_eq!(f.log(), vec![Msg::Swiped]);
    assert_eq!(f.focus(), 0, "a claimed swipe must not also move focus");
}

#[test]
fn a_held_button_repeats_once_past_the_delay() {
    let mut f = Fixture::new(rows(10));
    f.host.hold(Button::Down);
    f.frame();
    assert_eq!(f.focus(), 1);
    f.host.set_millis(250);
    f.frame();
    assert_eq!(f.focus(), 1, "nothing repeats before the delay is up");
    f.host.set_millis(500);
    f.frame();
    assert_eq!(f.focus(), 2, "past the delay it repeats");
    f.host.set_millis(700);
    f.frame();
    assert_eq!(f.focus(), 2, "and not again within the interval");
    f.host.release();
    f.host.set_millis(1000);
    f.frame();
    assert_eq!(f.focus(), 2, "a released button does not repeat");
}

#[test]
fn a_slow_panel_does_not_turn_one_press_into_many() {
    let mut f = Fixture::new(rows(10));
    f.host.hold(Button::Down);
    f.frame();
    assert_eq!(f.focus(), 1, "the press itself moves one row");
    f.host.set_millis(830);
    f.frame();
    assert_eq!(f.focus(), 1, "a gap the loop could not see through is not a hold");
}

#[test]
fn confirm_opens_a_value_and_commits_it_in_one_message() {
    let mut f = Fixture::new(Menu { level: Some(50), ..rows(0) });
    f.key(Button::Confirm);
    assert!(f.runtime.state().editing.is_some(), "no Left/Right pair, so Confirm opens the value");
    f.key(Button::Up);
    f.key(Button::Up);
    f.key(Button::Down);
    assert!(f.log().is_empty(), "still untold");
    assert_eq!(f.runtime.state().editing.map(|e| e.value), Some(51));
    f.key(Button::Confirm);
    assert_eq!(f.log(), vec![Msg::Level(51)], "one message for the whole edit");
    assert!(f.runtime.state().editing.is_none());
}

#[test]
fn back_drops_the_edit_and_stays_on_the_screen() {
    let mut f = Fixture::new(Menu { level: Some(50), ..rows(0) });
    f.key(Button::Confirm);
    f.key(Button::Up);
    f.key(Button::Back);
    assert!(f.log().is_empty(), "cancel dispatches nothing at all");
    assert!(!f.shell.take_finish(), "Back closed the edit, nothing more");
    f.key(Button::Back);
    assert!(f.shell.take_finish(), "now it leaves");
}

#[test]
fn left_and_right_nudge_a_value_where_the_pair_exists() {
    let mut f = Fixture::new(Menu { level: Some(0), ..rows(0) });
    f.host.set_has_left_right_keys(true);
    f.key(Button::Left);
    assert_eq!(f.log(), vec![Msg::Level(0)], "Left at zero stays at zero");
    f.key(Button::Right);
    assert_eq!(f.log(), vec![Msg::Level(0), Msg::Level(1)]);
    f.key(Button::Confirm);
    assert!(f.runtime.state().editing.is_none(), "with the pair, Confirm does not open the value");
}

#[test]
fn a_drag_is_dispatched_and_its_release_swallowed() {
    let mut f = Fixture::new(Menu { draggable: true, claim_background: true, ..rows(2) });
    f.host.touch_at(Point::new(10, 10));
    f.frame();
    assert_eq!(f.log(), vec![Msg::Row(0)]);
    assert!(f.runtime.state().dragging);
    f.host.lift();
    f.host.tap_at(Point::new(10, 500));
    f.frame();
    assert_eq!(f.log(), vec![Msg::Row(0)], "the release that ended the drag is not a tap");
    assert!(!f.runtime.state().dragging);
}

#[test]
fn a_long_press_is_answered_once_per_hold() {
    let mut f = Fixture::new(Menu { long_press: true, ..rows(2) });
    f.host.set_millis(1000);
    f.host.touch_at(Point::new(10, 10));
    f.frame();
    f.host.set_millis(1400);
    f.frame();
    assert!(f.log().is_empty(), "400 ms is not a long press yet");
    f.host.set_millis(1500);
    f.frame();
    assert_eq!(f.log(), vec![Msg::Held], "500 ms is");
    f.host.set_millis(1600);
    f.frame();
    f.host.set_millis(1700);
    f.host.lift();
    f.host.tap_at(Point::new(10, 10));
    f.frame();
    assert_eq!(f.log(), vec![Msg::Held], "neither holding on nor lifting adds anything");
    f.host.set_millis(2000);
    f.host.tap_at(Point::new(10, 10));
    f.frame();
    assert_eq!(f.log(), vec![Msg::Held, Msg::Held], "the next quick tap is an ordinary tap");
}

#[test]
fn a_blind_gap_rearms_a_held_finger() {
    let mut f = Fixture::new(Menu { long_press: true, ..rows(1) });
    f.host.set_millis(1000);
    f.host.touch_at(Point::new(10, 10));
    f.frame();
    f.host.set_millis(1700);
    f.frame();
    assert!(f.log().is_empty(), "the 700 ms nobody saw re-arms the hold");
    f.host.set_millis(2100);
    f.frame();
    f.host.set_millis(2200);
    f.frame();
    assert_eq!(f.log(), vec![Msg::Held], "500 ms of it seen, and it fires");
}

use lib::host::ControlState;
use lib::screen::NavigationScreen;
use lib::testing::DrawOp;
use lib::widgets::slider::Slider;

struct Brightness {
    level: i32,
}

impl Messages for Brightness {
    type Message = Msg;
}

impl Screen<TestHost, Runtime<Brightness>> for Brightness {
    type Body = NavigationScreen<Msg, TestHost>;

    fn body(&self) -> NavigationScreen<Msg, TestHost> {
        NavigationScreen::new(Slider::new(self.level, 100).on_change(SetLevel))
    }

    fn update(&mut self, message: Msg, _host: &mut TestHost, _shell: &mut AppShell<Runtime<Brightness>>) {
        if let Msg::Level(v) = message {
            self.level = v;
        }
    }

    fn spec_title(&self) -> Option<&'static str> {
        Some("Brightness")
    }

    fn title(&self) -> Option<&'static str> {
        Some("Brightness")
    }

    fn is_overlay(&self) -> bool {
        false
    }

    fn handle_home_gesture(&mut self, _host: &mut TestHost, _shell: &mut AppShell<Runtime<Brightness>>) -> bool {
        false
    }

    fn on_enter(&mut self, _host: &mut TestHost, _shell: &mut AppShell<Runtime<Brightness>>) {}

    fn on_exit(&mut self, _host: &mut TestHost, _shell: &mut AppShell<Runtime<Brightness>>) {}
}

fn hints_and_slider(host: &TestHost) -> (Vec<Option<String>>, ControlState) {
    let mut hints = Vec::new();
    let mut state = ControlState::Idle;
    for op in host.ops() {
        match op {
            DrawOp::Hints(slots) => hints = slots.clone(),
            DrawOp::Slider { state: s, .. } => state = *s,
            _ => {}
        }
    }
    (hints, state)
}

#[test]
fn the_three_states_of_a_value_row_look_different() {
    let mut runtime = Runtime::new(Brightness { level: 50 });
    let mut host = TestHost::new();
    let mut shell: AppShell<Runtime<Brightness>> = AppShell::new();
    runtime.render::<TestHost, Runtime<Brightness>>(&mut host);
    let (hints, state) = hints_and_slider(&host);
    assert_eq!(state, ControlState::Focused, "the keys are on this row, and it says so");
    assert_eq!(hints[1].as_deref(), Some("<edit>"), "Confirm offers to open it");
    assert!(host.ops().contains(&DrawOp::Header { title: Some("Brightness".into()), subtitle: None }));

    host.press(Button::Confirm);
    runtime.loop_(&mut host, &mut shell);
    host.press(Button::Up);
    runtime.loop_(&mut host, &mut shell);
    host.clear_ops();
    runtime.render::<TestHost, Runtime<Brightness>>(&mut host);
    let (hints, state) = hints_and_slider(&host);
    assert_eq!(state, ControlState::Editing, "and it says something else once the keys are moving the value");
    assert_eq!(hints[0].as_deref(), Some("<cancel>"));
    assert_eq!(hints[1].as_deref(), Some("<done>"));
    assert!(
        host.ops().iter().any(|op| matches!(op, DrawOp::Slider { value: 51, .. })),
        "the slider shows the working value"
    );

    host.press(Button::Back);
    runtime.loop_(&mut host, &mut shell);
    host.clear_ops();
    runtime.render::<TestHost, Runtime<Brightness>>(&mut host);
    let (hints, state) = hints_and_slider(&host);
    assert_eq!(state, ControlState::Focused, "and leaving it must change the frame back");
    assert_eq!(hints[1].as_deref(), Some("<edit>"));
    assert_eq!(runtime.screen().level, 50, "cancel left the screen's value alone");
}
