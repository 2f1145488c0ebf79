use std::cell::{Cell, RefCell};
use std::rc::Rc;

use lib::app::{App, AppShell};
use lib::geometry::{Point, Rect, Size};
use lib::host::{finish_screen, Button, Theme};
use lib::screen::{Driver, NavigationScreen, Runtime, Messages, Screen};
use lib::testing::host::{SCREEN_HEIGHT, SCREEN_WIDTH};
use lib::testing::TestHost;
use lib::view::{InputMask, Interactions, Make, Trigger, View};
use lib::widgets::modal::Modal;
use lib::widgets::text::Text;

/// Every message a screen was handed, in order.
type Log<M> = Rc<RefCell<Vec<M>>>;

/// One frame at `millis`: `input` sets what the frame carries, then the app
/// ticks and paints if asked.
fn frame<D: Driver<TestHost>>(app: &mut App<D>, host: &mut TestHost, millis: u32, input: impl FnOnce(&mut TestHost)) {
    host.set_millis(millis);
    input(host);
    app.tick(host);
    app.render_if_dirty(host);
}

/// A finger resting at `point`.
fn held(point: Point) -> impl FnOnce(&mut TestHost) {
    move |host| host.touch_at(point)
}

/// The finger lifting at `point`, completing a tap there.
fn lifted(point: Point) -> impl FnOnce(&mut TestHost) {
    move |host| {
        host.lift();
        host.tap_at(point);
    }
}

fn gesture_back(host: &mut TestHost) {
    host.back_gesture();
}

fn gesture_home(host: &mut TestHost) {
    host.home_gesture();
}

// -- long press ----------------------------------------------------------------

#[derive(Clone, Copy, Debug, PartialEq, Eq)]
enum Row {
    Open,
    Menu,
}

/// A label reading "Middlemarch" at the top-left corner that opens on a tap,
/// inside a hold-only region over it that offers a menu; or, `single`, one
/// region answering both with the menu.
struct Label {
    single: bool,
    size: Size,
}

impl View<Row, TestHost> for Label {
    fn measure(&mut self, host: &TestHost, available: Size) {
        let mut text = Text::new("Middlemarch");
        <Text as View<Row, TestHost>>::measure(&mut text, host, available);
        self.size = <Text as View<Row, TestHost>>::size(&text);
    }

    fn size(&self) -> Size {
        self.size
    }

    fn render(&self, _host: &mut TestHost, _origin: Point) {}

    fn interactions(&mut self, _host: &TestHost, origin: Point, out: &mut Interactions<Row>) {
        let rect = Rect { origin, size: self.size };
        if self.single {
            out.declare(
                rect,
                InputMask::tap().union(InputMask::long_press()),
                Trigger::Message(Row::Menu),
            );
        } else {
            out.declare(rect, InputMask::long_press(), Trigger::Message(Row::Menu));
            out.declare(rect, InputMask::tap(), Trigger::Message(Row::Open));
        }
    }
}

struct Library {
    single: bool,
    log: Log<Row>,
}

impl Messages for Library {
    type Message = Row;
}

impl Screen<TestHost, Runtime<Library>> for Library {
    type Body = Label;

    fn body(&self) -> Label {
        Label { single: self.single, size: Size::zero() }
    }

    fn update(&mut self, message: Row, _host: &mut TestHost, _shell: &mut AppShell<Runtime<Library>>) {
        self.log.borrow_mut().push(message);
    }

    fn is_overlay(&self) -> bool {
        false
    }

    fn title(&self) -> Option<&'static str> {
        None
    }

    fn handle_home_gesture(&mut self, _host: &mut TestHost, _shell: &mut AppShell<Runtime<Library>>) -> bool {
        false
    }

    fn on_enter(&mut self, _host: &mut TestHost, _shell: &mut AppShell<Runtime<Library>>) {}

    fn on_exit(&mut self, _host: &mut TestHost, _shell: &mut AppShell<Runtime<Library>>) {}
}

/// Well inside the label, which sits at the top-left corner.
const ON_LABEL: Point = Point { x: 4, y: 4 };

fn library(host: &mut TestHost, single: bool) -> (App<Runtime<Library>>, Log<Row>) {
    let log = Log::default();
    let mut app = App::new(host, Runtime::new(Library { single, log: log.clone() }));
    app.render(host);
    (app, log)
}

#[test]
fn a_long_press_fires_once_and_its_release_is_not_a_tap() {
    let mut host = TestHost::new();
    let (mut app, log) = library(&mut host, false);

    for millis in (1000..=1400).step_by(100) {
        frame(&mut app, &mut host, millis, held(ON_LABEL));
    }
    assert!(log.borrow().is_empty(), "400 ms is not a long press yet");

    frame(&mut app, &mut host, 1500, held(ON_LABEL));
    assert_eq!(*log.borrow(), [Row::Menu], "500 ms is");

    frame(&mut app, &mut host, 1600, held(ON_LABEL));
    frame(&mut app, &mut host, 1700, lifted(ON_LABEL));
    assert_eq!(*log.borrow(), [Row::Menu], "and neither holding on nor lifting adds anything");

    frame(&mut app, &mut host, 2000, lifted(ON_LABEL));
    assert_eq!(*log.borrow(), [Row::Menu, Row::Open], "the next quick tap is an ordinary tap");
}

#[test]
fn a_quick_press_is_still_a_tap() {
    let mut host = TestHost::new();
    let (mut app, log) = library(&mut host, false);

    frame(&mut app, &mut host, 1000, held(ON_LABEL));
    frame(&mut app, &mut host, 1300, held(ON_LABEL));
    frame(&mut app, &mut host, 1450, lifted(ON_LABEL));

    assert_eq!(*log.borrow(), [Row::Open]);
}

#[test]
fn on_long_press_answers_a_hold_as_well_as_a_tap() {
    let mut host = TestHost::new();
    let (mut app, log) = library(&mut host, true);

    frame(&mut app, &mut host, 1000, held(ON_LABEL));
    frame(&mut app, &mut host, 1500, held(ON_LABEL));
    frame(&mut app, &mut host, 1550, lifted(ON_LABEL));
    assert_eq!(*log.borrow(), [Row::Menu], "the hold, and not its release");

    frame(&mut app, &mut host, 2000, lifted(ON_LABEL));
    assert_eq!(*log.borrow(), [Row::Menu, Row::Menu], "and a tap");
}

#[test]
fn a_blind_gap_does_not_count_towards_a_hold() {
    let mut host = TestHost::new();
    let (mut app, log) = library(&mut host, false);

    frame(&mut app, &mut host, 1000, held(ON_LABEL));
    frame(&mut app, &mut host, 1700, held(ON_LABEL));
    assert!(log.borrow().is_empty(), "the 700 ms nobody saw re-arms the hold");

    frame(&mut app, &mut host, 2100, held(ON_LABEL));
    assert!(log.borrow().is_empty());
    frame(&mut app, &mut host, 2200, held(ON_LABEL));
    assert_eq!(*log.borrow(), [Row::Menu], "500 ms of it seen, and it fires");
}

#[test]
fn a_finger_that_slid_off_does_not_long_press() {
    let mut host = TestHost::new();
    let (mut app, log) = library(&mut host, false);
    let away = Point::new(SCREEN_WIDTH - 1, SCREEN_HEIGHT - 1);

    frame(&mut app, &mut host, 1000, held(ON_LABEL));
    frame(&mut app, &mut host, 1300, held(away));
    frame(&mut app, &mut host, 1600, held(away));

    assert!(log.borrow().is_empty());
}

// -- a tap outside a dialog ----------------------------------------------------

#[derive(Clone, Copy, Debug, PartialEq, Eq)]
enum Pick {
    Chose(usize),
    Dismiss,
    Background,
}

#[derive(Clone, Copy)]
struct Chose;

impl Make<usize, Pick> for Chose {
    fn made(&self, value: usize) -> Pick {
        Pick::Chose(value)
    }

    fn make(&self, value: usize) -> Pick {
        Pick::Chose(value)
    }
}

const FACES: [&str; 2] = ["Serif", "Sans"];

/// A tappable, focusable row across the width it is given.
struct Line<M> {
    message: M,
    size: Size,
}

impl<M: Clone> View<M, TestHost> for Line<M> {
    fn measure(&mut self, _host: &TestHost, available: Size) {
        self.size = Size::new(available.width, 40);
    }

    fn size(&self) -> Size {
        self.size
    }

    fn render(&self, _host: &mut TestHost, _origin: Point) {}

    fn interactions(&mut self, _host: &TestHost, origin: Point, out: &mut Interactions<M>) {
        out.declare(Rect { origin, size: self.size }, InputMask::default_mask(), Trigger::Message(self.message.clone()));
    }
}

struct Picking {
    dismissable: bool,
    log: Log<Pick>,
}

impl Messages for Picking {
    type Message = Pick;
}

impl Screen<TestHost, Runtime<Picking>> for Picking {
    type Body = NavigationScreen<Pick, TestHost>;

    fn body(&self) -> NavigationScreen<Pick, TestHost> {
        let dialog = Modal::picker("Typeface", &FACES).on_select(Chose);
        let dialog = if self.dismissable { dialog.on_dismiss(Pick::Dismiss) } else { dialog };
        NavigationScreen::new(Line { message: Pick::Chose(9), size: Size::zero() }).overlay(dialog)
    }

    fn update(&mut self, message: Pick, _host: &mut TestHost, _shell: &mut AppShell<Runtime<Picking>>) {
        self.log.borrow_mut().push(message);
    }

    fn on_background_tap(&self, _point: Point) -> Option<Pick> {
        Some(Pick::Background)
    }

    fn is_overlay(&self) -> bool {
        false
    }

    fn title(&self) -> Option<&'static str> {
        None
    }

    fn handle_home_gesture(&mut self, _host: &mut TestHost, _shell: &mut AppShell<Runtime<Picking>>) -> bool {
        false
    }

    fn on_enter(&mut self, _host: &mut TestHost, _shell: &mut AppShell<Runtime<Picking>>) {}

    fn on_exit(&mut self, _host: &mut TestHost, _shell: &mut AppShell<Runtime<Picking>>) {}
}

fn picking(host: &mut TestHost, dismissable: bool) -> (App<Runtime<Picking>>, Log<Pick>) {
    let log = Log::default();
    let mut app = App::new(host, Runtime::new(Picking { dismissable, log: log.clone() }));
    app.render(host);
    (app, log)
}

/// The bottom-left corner of the panel, which no option row reaches.
const OUTSIDE: Point = Point { x: 1, y: SCREEN_HEIGHT - 1 };

/// The middle of the second option.
fn second_option(host: &TestHost) -> Point {
    let options: Vec<String> = FACES.iter().map(|face| face.to_string()).collect();
    let rect = Theme::option_popup_row_rect(host, "Typeface", &options, 1)
        .expect("the fake lays the dialog out");
    Point::new(rect.x() + rect.width() / 2, rect.y() + rect.height() / 2)
}

#[test]
fn a_tap_outside_a_dismissable_dialog_dismisses_it() {
    let mut host = TestHost::new();
    let (mut app, log) = picking(&mut host, true);

    frame(&mut app, &mut host, 100, lifted(OUTSIDE));
    let option = second_option(&host);
    frame(&mut app, &mut host, 200, lifted(option));

    assert_eq!(*log.borrow(), [Pick::Dismiss, Pick::Chose(1)]);
}

#[test]
fn without_on_dismiss_an_outside_tap_still_reaches_the_screen() {
    let mut host = TestHost::new();
    let (mut app, log) = picking(&mut host, false);

    frame(&mut app, &mut host, 100, lifted(OUTSIDE));

    assert_eq!(*log.borrow(), [Pick::Background]);
}

#[test]
fn the_back_gesture_dismisses_a_dialog() {
    let mut host = TestHost::new();
    let (mut app, log) = picking(&mut host, true);

    frame(&mut app, &mut host, 100, gesture_back);

    assert_eq!(*log.borrow(), [Pick::Dismiss]);
    assert_eq!(app.depth(), 1);
}

// -- the gestures ------------------------------------------------------------

/// Counts what reaches it and claims Back only if asked; or, as a drop-down,
/// paints over the page beneath and claims the home gesture by finishing
/// itself.
#[derive(Clone, Default)]
struct Page {
    claims_back: bool,
    drop_down: bool,
    backs: Rc<Cell<u32>>,
    claims: Rc<Cell<u32>>,
}

type D = Runtime<Page>;

impl Messages for Page {
    type Message = ();
}

impl Screen<TestHost, D> for Page {
    type Body = NavigationScreen<(), TestHost>;

    fn body(&self) -> NavigationScreen<(), TestHost> {
        NavigationScreen::new(Text::new("page"))
    }

    fn update(&mut self, _message: (), _host: &mut TestHost, _shell: &mut AppShell<D>) {}

    fn on_key(&self, key: Button) -> Option<()> {
        if key == Button::Back {
            self.backs.set(self.backs.get() + 1);
        }
        (self.claims_back && key == Button::Back).then_some(())
    }

    fn spec_is_overlay(&self) -> bool {
        self.drop_down
    }

    fn spec_claims_home(&self) -> bool {
        self.drop_down
    }

    fn is_overlay(&self) -> bool {
        self.drop_down
    }

    fn handle_home_gesture(&mut self, _host: &mut TestHost, shell: &mut AppShell<D>) -> bool {
        if !self.drop_down {
            return false;
        }
        self.claims.set(self.claims.get() + 1);
        finish_screen(shell);
        true
    }

    fn title(&self) -> Option<&'static str> {
        None
    }

    fn on_enter(&mut self, _host: &mut TestHost, _shell: &mut AppShell<D>) {}

    fn on_exit(&mut self, _host: &mut TestHost, _shell: &mut AppShell<D>) {}
}

fn page(claims_back: bool) -> (Page, Rc<Cell<u32>>) {
    let page = Page { claims_back, ..Page::default() };
    let backs = page.backs.clone();
    (page, backs)
}

#[test]
fn the_back_gesture_is_back() {
    let mut host = TestHost::new();
    let (root, _) = page(false);
    let (claiming, claimed) = page(true);
    let (plain, offered) = page(false);
    let mut app = App::new(&mut host, Runtime::new(root));
    app.push(&mut host, Runtime::new(claiming));
    app.push(&mut host, Runtime::new(plain));
    app.render(&mut host);

    frame(&mut app, &mut host, 100, gesture_back);
    assert_eq!(offered.get(), 1, "offered to on_key");
    assert_eq!(app.depth(), 2, "and, unclaimed, it finished the screen");

    frame(&mut app, &mut host, 200, gesture_back);
    assert_eq!(claimed.get(), 1);
    assert_eq!(app.depth(), 2, "a screen claiming Back keeps the gesture too");
}

#[test]
fn tick_unwinds_on_the_home_gesture() {
    let mut host = TestHost::new();
    let mut app = App::new(&mut host, Runtime::new(page(false).0));
    app.push(&mut host, Runtime::new(page(false).0));
    app.push(&mut host, Runtime::new(page(false).0));
    app.render(&mut host);

    frame(&mut app, &mut host, 100, gesture_home);

    assert_eq!(app.depth(), 1);
    assert!(app.is_running());
}

fn under_a_drop_down(host: &mut TestHost) -> (App<D>, Rc<Cell<u32>>) {
    let drop_down = Page { drop_down: true, ..Page::default() };
    let claims = drop_down.claims.clone();
    let mut app = App::new(host, Runtime::new(page(false).0));
    app.push(host, Runtime::new(page(false).0));
    app.push(host, Runtime::new(drop_down));
    app.render(host);
    (app, claims)
}

#[test]
fn a_host_calling_home_gesture_after_tick_is_not_acted_on_twice() {
    let mut host = TestHost::new();
    let (mut app, claims) = under_a_drop_down(&mut host);

    host.set_millis(100);
    gesture_home(&mut host);
    app.tick(&mut host);
    app.home_gesture(&mut host);

    assert_eq!(claims.get(), 1, "the drop-down was offered it once");
    assert_eq!(app.depth(), 2, "and only the drop-down closed");

    frame(&mut app, &mut host, 200, gesture_home);
    assert_eq!(app.depth(), 1);
}

#[test]
fn a_host_calling_home_gesture_before_tick_is_not_acted_on_twice() {
    let mut host = TestHost::new();
    let (mut app, claims) = under_a_drop_down(&mut host);

    host.set_millis(100);
    gesture_home(&mut host);
    app.home_gesture(&mut host);
    app.tick(&mut host);

    assert_eq!(claims.get(), 1, "the drop-down was offered it once");
    assert_eq!(app.depth(), 2);
}
