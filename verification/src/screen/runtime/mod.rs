//! The state a screen never sees: which interaction holds focus, how far the
//! content is scrolled, and the tree painted from the two.

pub mod input;
pub mod touch;

pub use input::{Editing, Repeat};
use input::{opens_edit, spec_opens_edit};
pub use touch::{Hold, Outcome};

use vstd::prelude::*;

use crate::app::AppShell;
use crate::geometry::{Point, Rect, sat_i32};
use crate::host::canvas::Renderer;
use crate::host::drawing::Drawn;
use crate::host::chrome::ScreenChrome;
use crate::host::input::Input;
use crate::host::value_mode::{value_mode, ValueMode};
use crate::host::Host;
use crate::screen::routing::focused;
use crate::screen::{Messages, Screen};
use crate::view::interaction::{Interactions, count_focusable, focus_item, is_focus_position, lemma_focus_item};
use crate::view::trigger::{Trigger, clamp, trunc_div};
use crate::view::View;

verus! {

/// The larger of `a` and `b`.
pub open spec fn max_int(a: int, b: int) -> int {
    if a >= b {
        a
    } else {
        b
    }
}

/// `(focus + delta)` wrapped into `0..count`, as `rem_euclid` wraps it.
pub open spec fn spec_wrapped(focus: int, delta: int, count: int) -> int {
    (focus + delta) % count
}

/// How far down a scroll can go: the content past the viewport, or none.
pub open spec fn spec_furthest(viewport: Rect, content_height: int) -> int {
    max_int(content_height - viewport.size.height, 0)
}

/// Where the scroll settles to bring `focused` fully into `viewport`: the
/// least movement that shows it, except that the first stop scrolls to the
/// very top and the last to the very bottom, held inside the content.
pub open spec fn spec_settled_scroll(
    scroll: int,
    focus: int,
    last: int,
    viewport: Rect,
    content_height: int,
    focused: Rect,
) -> int {
    let below = if focused.spec_bottom() > viewport.spec_bottom() {
        scroll + (focused.spec_bottom() - viewport.spec_bottom())
    } else {
        scroll
    };
    let above = if focused.origin.y < viewport.origin.y {
        below - (viewport.origin.y - focused.origin.y)
    } else {
        below
    };
    let ends = if focus == 0 {
        0
    } else if focus == last {
        content_height - viewport.size.height
    } else {
        above
    };
    sat_i32(clamp(ends, 0, spec_furthest(viewport, content_height)))
}

/// Where a press of `delta` leaves the scroll: half a viewport per press, at
/// least a pixel, held inside the content.
pub open spec fn spec_scrolled_by(scroll: int, delta: int, viewport: Rect, content_height: int) -> int {
    let step = max_int(trunc_div(viewport.size.height as int, 2), 1);
    sat_i32(clamp(scroll + delta * step, 0, spec_furthest(viewport, content_height)))
}

/// Everything the runtime keeps about a screen besides the screen itself.
#[derive(Copy, Clone, Debug)]
pub struct RuntimeState {
    /// Index into the focusable interactions, in tree order.
    pub focus: usize,
    /// Whether the screen has been painted. No touch is routed before the
    /// first paint: the tree a touch would be tested against has not been
    /// shown yet.
    pub painted: bool,
    /// Swallows the release that ends a drag, so it cannot also read as a tap.
    pub dragging: bool,
    /// Where focus sat before a view captured input, so dismissing a dialog
    /// returns to the row that opened it.
    pub focus_before_capture: Option<usize>,
    /// How far the screen's scrolling view is scrolled.
    pub scroll: i32,
    /// Key-repeat timing.
    pub repeat: Repeat,
    /// The value open for editing, when one is.
    pub editing: Option<Editing>,
    /// A finger that has stayed down, and what became of it.
    pub hold: Option<Hold>,
}

impl RuntimeState {
    /// The state of a screen that has not run a frame yet.
    pub open spec fn spec_initial() -> RuntimeState {
        RuntimeState {
            focus: 0,
            painted: false,
            dragging: false,
            focus_before_capture: None,
            scroll: 0,
            repeat: Repeat { button: None, pressed_at: 0, fired_at: 0, seen_at: 0 },
            editing: None,
            hold: None,
        }
    }

    /// Whether `self` and `other` agree on what touch depends on: the first
    /// paint, a drag in progress, and a held finger.
    pub open spec fn same_touch(self, other: RuntimeState) -> bool {
        &&& self.painted == other.painted
        &&& self.dragging == other.dragging
        &&& self.hold == other.hold
    }

    /// Whether `self` and `other` agree on everything but focus and scroll.
    pub open spec fn same_but_cursor(self, other: RuntimeState) -> bool {
        &&& self.painted == other.painted
        &&& self.dragging == other.dragging
        &&& self.repeat == other.repeat
        &&& self.editing == other.editing
        &&& self.hold == other.hold
    }

    /// The working value of the edit that is open, if one is.
    pub open spec fn spec_open_value(self) -> Option<i32> {
        match self.editing {
            Some(open) => Some(open.value),
            None => None,
        }
    }

    /// The working value of the edit that is open, if one is.
    pub fn open_value(&self) -> (r: Option<i32>)
        ensures
            r == self.spec_open_value(),
    {
        match self.editing {
            Some(open) => Some(open.value),
            None => None,
        }
    }

    /// The state of a screen that has not run a frame yet.
    pub fn new() -> (r: RuntimeState)
        ensures
            r == RuntimeState::spec_initial(),
    {
        RuntimeState {
            focus: 0,
            painted: false,
            dragging: false,
            focus_before_capture: None,
            scroll: 0,
            repeat: Repeat { button: None, pressed_at: 0, fired_at: 0, seen_at: 0 },
            editing: None,
            hold: None,
        }
    }

    /// Moves focus in or out of a capturing view. Returns whether it moved.
    ///
    /// Entering capture parks the outer focus and adopts the view's
    /// preference, held to the last stop; leaving puts the parked focus back.
    pub fn adopt_capture(&mut self, captured: Option<usize>, count: usize) -> (r: bool)
        ensures
            final(self).same_but_cursor(*old(self)),
            final(self).scroll == old(self).scroll,
            match captured {
                Some(preferred) => if old(self).focus_before_capture is None {
                    &&& r
                    &&& final(self).focus_before_capture == Some(old(self).focus)
                    &&& final(self).focus == if preferred < count {
                        preferred as int
                    } else if count == 0 {
                        0
                    } else {
                        count - 1
                    }
                } else {
                    !r && *final(self) == *old(self)
                },
                None => match old(self).focus_before_capture {
                    Some(previous) => r && final(self).focus == previous
                        && final(self).focus_before_capture is None,
                    None => !r && *final(self) == *old(self),
                },
            },
    {
        match captured {
            Some(preferred) => {
                if self.focus_before_capture.is_none() {
                    self.focus_before_capture = Some(self.focus);
                    let last = if count == 0 { 0 } else { count - 1 };
                    self.focus = if preferred < last { preferred } else { last };
                    true
                } else {
                    false
                }
            },
            None => match self.focus_before_capture {
                Some(previous) => {
                    self.focus = previous;
                    self.focus_before_capture = None;
                    true
                },
                None => false,
            },
        }
    }

    /// Scrolls the minimum needed to bring the focused rect fully into view.
    /// Returns whether the offset moved.
    ///
    /// Minimum rather than centring: on a panel that repaints whole and slowly,
    /// the less that shifts under the eye the better.
    pub fn settle_scroll(&mut self, viewport: Option<(Rect, i32)>, focused: Option<Rect>, count: usize) -> (r: bool)
        ensures
            final(self).same_but_cursor(*old(self)),
            final(self).focus == old(self).focus,
            final(self).focus_before_capture == old(self).focus_before_capture,
            match (viewport, focused) {
                (Some((view, content)), Some(rect)) => {
                    let next = spec_settled_scroll(
                        old(self).scroll as int,
                        old(self).focus as int,
                        if count == 0 { 0 } else { count - 1 },
                        view,
                        content as int,
                        rect,
                    );
                    &&& final(self).scroll == next
                    &&& r == (next != old(self).scroll)
                },
                _ => !r && final(self).scroll == old(self).scroll,
            },
    {
        let (view, content) = match viewport {
            Some(v) => v,
            None => return false,
        };
        let rect = match focused {
            Some(rect) => rect,
            None => return false,
        };
        let last: usize = if count == 0 { 0 } else { count - 1 };
        let mut next: i64 = self.scroll as i64;
        let focused_bottom: i64 = rect.origin.y as i64 + rect.size.height as i64;
        let view_bottom: i64 = view.origin.y as i64 + view.size.height as i64;
        if focused_bottom > view_bottom {
            next = next + (focused_bottom - view_bottom);
        }
        if (rect.origin.y as i64) < (view.origin.y as i64) {
            next = next - (view.origin.y as i64 - rect.origin.y as i64);
        }
        if self.focus == 0 {
            next = 0;
        } else if self.focus == last {
            next = content as i64 - view.size.height as i64;
        }
        let spare: i64 = content as i64 - view.size.height as i64;
        let furthest: i64 = if spare > 0 { spare } else { 0 };
        let held: i64 = if next < 0 { 0 } else if next > furthest { furthest } else { next };
        let settled: i32 = if held > i32::MAX as i64 { i32::MAX } else { held as i32 };
        if settled == self.scroll {
            return false;
        }
        self.scroll = settled;
        true
    }

    /// Moves focus by `delta`, wrapping at both ends. Returns whether it moved.
    pub fn move_focus(&mut self, delta: isize, count: usize) -> (r: bool)
        ensures
            final(self).same_but_cursor(*old(self)),
            final(self).scroll == old(self).scroll,
            final(self).focus_before_capture == old(self).focus_before_capture,
            count == 0 ==> !r && final(self).focus == old(self).focus,
            count > 0 ==> {
                let next = spec_wrapped(old(self).focus as int, delta as int, count as int);
                &&& final(self).focus == next
                &&& r == (next != old(self).focus)
            },
    {
        if count == 0 {
            return false;
        }
        let sum: i128 = self.focus as i128 + delta as i128;
        let c: u128 = count as u128;
        let next: usize = if sum >= 0 {
            ((sum as u128) % c) as usize
        } else {
            let m: u128 = ((-sum) as u128) % c;
            proof {
                lemma_negative_wrap(sum as int, count as int);
            }
            if m == 0 {
                0
            } else {
                (c - m) as usize
            }
        };
        if next == self.focus {
            return false;
        }
        self.focus = next;
        true
    }

    /// Scrolls by half a viewport per press when moving the focus could not:
    /// the only way through a screen with nothing focusable on a device with
    /// no touch. Returns whether the offset moved.
    pub fn scroll_by(&mut self, delta: isize, viewport: Option<(Rect, i32)>) -> (r: bool)
        ensures
            final(self).same_but_cursor(*old(self)),
            final(self).focus == old(self).focus,
            final(self).focus_before_capture == old(self).focus_before_capture,
            match viewport {
                Some((view, content)) => if spec_furthest(view, content as int) == 0 {
                    !r && final(self).scroll == old(self).scroll
                } else {
                    let next = spec_scrolled_by(old(self).scroll as int, delta as int, view, content as int);
                    &&& final(self).scroll == next
                    &&& r == (next != old(self).scroll)
                },
                None => !r && final(self).scroll == old(self).scroll,
            },
    {
        let (view, content) = match viewport {
            Some(v) => v,
            None => return false,
        };
        let spare: i64 = content as i64 - view.size.height as i64;
        let furthest: i64 = if spare > 0 { spare } else { 0 };
        if furthest == 0 {
            return false;
        }
        let half: i64 = view.size.height as i64 / 2;
        proof {
            assert(half == trunc_div(view.size.height as int, 2));
        }
        let step: i64 = if half > 1 { half } else { 1 };
        let d: i128 = delta as i128;
        let k: i128 = step as i128;
        assert(-0x1_0000_0000_0000_0000_0000_0000 <= d * k <= 0x1_0000_0000_0000_0000_0000_0000)
            by (nonlinear_arith)
            requires
                -0x1_0000_0000_0000_0000 <= d <= 0x1_0000_0000_0000_0000,
                1 <= k <= 0x1_0000_0000,
        {
        }
        let moved: i128 = self.scroll as i128 + d * k;
        let held: i128 = if moved < 0 { 0 } else if moved > furthest as i128 { furthest as i128 } else { moved };
        let next: i32 = if held > i32::MAX as i128 { i32::MAX } else { held as i32 };
        if next == self.scroll {
            return false;
        }
        self.scroll = next;
        true
    }
}

/// What the runtime acts on in the table it settled this frame: where focus
/// and scroll settled, how many stops there are, what captured input and
/// whether it says how it is dismissed, the scrolling viewport, and, for each
/// focus stop, the range the keys step it through.
pub struct Settled {
    pub focus: usize,
    pub scroll: i32,
    pub focusable: nat,
    pub captured: Option<usize>,
    pub dismisses: bool,
    pub viewport: Option<(Rect, i32)>,
    pub stop_max: spec_fn(nat) -> Option<i32>,
}

/// The range a trigger is stepped through, when keys can step it.
pub open spec fn trigger_max<M>(trigger: Trigger<M>) -> Option<i32> {
    match trigger {
        Trigger::Value { max, .. } => Some(max),
        Trigger::Step { max, .. } => Some(max),
        Trigger::Message(_) => None,
    }
}

/// What a table tells the runtime.
pub open spec fn settled_of<M>(table: Interactions<M>) -> Settled {
    Settled {
        focus: table.spec_focus(),
        scroll: table.spec_scroll(),
        focusable: count_focusable(table.spec_items()),
        captured: table.spec_captured(),
        dismisses: table.spec_captured() is Some && table.spec_dismissal() is Some,
        viewport: table.spec_viewport(),
        stop_max: |k: nat|
            match focus_item(table.spec_items(), k) {
                Some(item) => trigger_max(item.trigger),
                None => None,
            },
    }
}

/// The message that sets `trigger` to `value` outright, when it has one.
pub open spec fn trigger_set_to<M>(trigger: Trigger<M>, value: i32) -> Option<M> {
    match trigger {
        Trigger::Value { make, .. } => Some(make.spec_make(value)),
        Trigger::Step { set, .. } => match set {
            Some(set) => Some(set.spec_make(value)),
            None => None,
        },
        Trigger::Message(_) => None,
    }
}

/// The message that commits `value` to focus stop `focus` of `table`, when
/// the stop exists and takes one.
pub open spec fn stop_set_to<M>(table: Interactions<M>, focus: nat, value: i32) -> Option<M> {
    match focus_item(table.spec_items(), focus) {
        Some(item) => trigger_set_to(item.trigger, value),
        None => None,
    }
}

/// `sent`, with `message` after it when there is one.
pub open spec fn sent_after<M>(sent: Seq<M>, message: Option<M>) -> Seq<M> {
    match message {
        Some(m) => sent.push(m),
        None => sent,
    }
}

/// Drives a [`Screen`]: owns focus, input routing, repeat timing and the
/// first-paint guard, and keeps a record of every message it hands the screen.
pub struct Runtime<S: Messages> {
    screen: S,
    state: RuntimeState,
    sent: Ghost<Seq<S::Message>>,
    table: Ghost<Interactions<S::Message>>,
    pass: Ghost<Interactions<S::Message>>,
    answer: Ghost<Option<S::Message>>,
    overlaid: Ghost<bool>,
    declined: Ghost<Option<(RuntimeState, Interactions<S::Message>, Option<S::Message>)>>,
    hooks: Ghost<(nat, nat, nat, nat)>,
    repaint: Ghost<bool>,
    paints: Ghost<nat>,
}

impl<S: Messages> Runtime<S> {
    /// The screen being driven.
    pub closed spec fn spec_screen(&self) -> S {
        self.screen
    }

    /// Every message handed to the screen's `update`, oldest first.
    pub closed spec fn spec_sent(&self) -> Seq<S::Message> {
        self.sent@
    }

    /// How many messages have been handed to the screen's `update`.
    pub open spec fn spec_dispatched(&self) -> nat {
        self.spec_sent().len()
    }

    /// The last table the runtime settled.
    pub closed spec fn spec_table(&self) -> Interactions<S::Message> {
        self.table@
    }

    /// The table the last paint walked the tree with, as it stood before the
    /// walk: what each control learned of focus, scroll, an open edit and the
    /// frame's mode.
    pub closed spec fn spec_pass(&self) -> Interactions<S::Message> {
        self.pass@
    }

    /// What the screen answered the last key or swipe the runtime offered it:
    /// the message that claimed it, or nothing.
    pub closed spec fn spec_answer(&self) -> Option<S::Message> {
        self.answer@
    }

    /// Whether the screen said, at the last paint, that it paints over what
    /// is beneath it.
    pub closed spec fn spec_overlaid(&self) -> bool {
        self.overlaid@
    }

    /// Where the last frame's input went on to the swipes and keys, when
    /// touch did not consume it: the state then, the table touch settled and
    /// what the screen answered it. `None` when touch consumed the frame.
    pub closed spec fn spec_declined(&self) -> Option<(RuntimeState, Interactions<S::Message>, Option<S::Message>)> {
        self.declined@
    }

    /// How many times the runtime has run a frame, told the screen it was
    /// pushed, told it it is being popped, and offered it the home gesture.
    pub closed spec fn spec_hooks(&self) -> (nat, nat, nat, nat) {
        self.hooks@
    }

    /// Whether the shell was asking for a repaint when the runtime's last
    /// frame ended.
    pub closed spec fn spec_repaint(&self) -> bool {
        self.repaint@
    }

    /// How many times the runtime has painted the screen.
    pub closed spec fn spec_paints(&self) -> nat {
        self.paints@
    }

    /// What the last table the runtime settled told it.
    pub open spec fn spec_settled(&self) -> Settled {
        settled_of(self.spec_table())
    }

    /// Everything the runtime keeps besides the screen.
    pub closed spec fn spec_state(&self) -> RuntimeState {
        self.state
    }

    /// A runtime for `screen`, which has not run a frame yet.
    pub fn new(screen: S) -> (r: Self)
        ensures
            r.spec_screen() == screen,
            r.spec_state() == RuntimeState::spec_initial(),
            r.spec_hooks() == (0nat, 0nat, 0nat, 0nat),
            !r.spec_repaint(),
            r.spec_paints() == 0,
    {
        Runtime {
            screen,
            state: RuntimeState::new(),
            sent: Ghost(Seq::empty()),
            table: Ghost(vstd::pervasive::arbitrary()),
            pass: Ghost(vstd::pervasive::arbitrary()),
            answer: Ghost(None),
            overlaid: Ghost(false),
            declined: Ghost(None),
            hooks: Ghost((0, 0, 0, 0)),
            repaint: Ghost(false),
            paints: Ghost(0),
        }
    }

    /// Which interaction holds focus. Screens never see focus at all; this is
    /// for a host or a test driving the runtime directly.
    pub fn focused_index(&self) -> (r: usize)
        ensures
            r == self.spec_state().focus,
    {
        self.state.focus
    }

    /// The screen being driven, for a host or a test that inspects it.
    pub fn screen(&self) -> (r: &S)
        ensures
            *r == self.spec_screen(),
    {
        &self.screen
    }

    /// Everything the runtime keeps besides the screen.
    pub fn state(&self) -> (r: &RuntimeState)
        ensures
            *r == self.spec_state(),
    {
        &self.state
    }

    /// Tells the screen it was pushed.
    pub fn enter<H: Host, D>(&mut self, host: &mut H, shell: &mut AppShell<D>)
        where S: Screen<H, D>,
        ensures
            final(self).spec_state() == old(self).spec_state(),
            final(self).spec_sent() == old(self).spec_sent(),
            final(self).spec_table() == old(self).spec_table(),
            final(self).spec_hooks() == ({
                let (frames, entries, exits, homes) = old(self).spec_hooks();
                (frames, entries + 1, exits, homes)
            }),
            old(self).spec_screen().spec_entering(final(self).spec_screen()),
            final(shell).spec_title() == old(shell).spec_title(),
    {
        self.screen.on_enter(host, shell);
        let ghost (frames, entries, exits, homes) = self.hooks@;
        self.hooks = Ghost((frames, entries + 1, exits, homes));
    }

    /// Tells the screen it is being popped.
    pub fn exit<H: Host, D>(&mut self, host: &mut H, shell: &mut AppShell<D>)
        where S: Screen<H, D>,
        ensures
            final(self).spec_state() == old(self).spec_state(),
            final(self).spec_sent() == old(self).spec_sent(),
            final(self).spec_table() == old(self).spec_table(),
            final(self).spec_hooks() == ({
                let (frames, entries, exits, homes) = old(self).spec_hooks();
                (frames, entries, exits + 1, homes)
            }),
            old(self).spec_screen().spec_exiting(final(self).spec_screen()),
    {
        self.screen.on_exit(host, shell);
        let ghost (frames, entries, exits, homes) = self.hooks@;
        self.hooks = Ghost((frames, entries, exits + 1, homes));
    }

    /// Offers the screen the system home gesture, and answers as it does.
    pub fn home_gesture<H: Host, D>(&mut self, host: &mut H, shell: &mut AppShell<D>) -> (r: bool)
        where S: Screen<H, D>,
        ensures
            r == old(self).spec_screen().spec_claims_home(),
            final(shell).spec_title() == old(shell).spec_title(),
            final(self).spec_state() == old(self).spec_state(),
            final(self).spec_sent() == old(self).spec_sent(),
            final(self).spec_table() == old(self).spec_table(),
            final(self).spec_hooks() == ({
                let (frames, entries, exits, homes) = old(self).spec_hooks();
                (frames, entries, exits, homes + 1)
            }),
    {
        let claimed = self.screen.handle_home_gesture(host, shell);
        let ghost (frames, entries, exits, homes) = self.hooks@;
        self.hooks = Ghost((frames, entries, exits, homes + 1));
        claimed
    }

    /// The screen's own title.
    pub fn screen_title<H: Host, D>(&self) -> (r: Option<&'static str>)
        where S: Screen<H, D>,
        ensures
            r == self.spec_screen().spec_title(),
    {
        self.screen.title()
    }

    /// Whether the screen paints over what is beneath it.
    pub fn screen_is_overlay<H: Host, D>(&self) -> (r: bool)
        where S: Screen<H, D>,
        ensures
            r == self.spec_screen().spec_is_overlay(),
    {
        self.screen.is_overlay()
    }

    /// Builds, measures and collects the tree's interactions, against the
    /// current focus and scroll.
    ///
    /// One pass is enough for routing: a capturing view discards whatever was
    /// declared before it, so the table already holds only what a dialog left
    /// reachable.
    pub fn collect<H: Host, D>(&self, host: &H) -> (r: Interactions<<S as Messages>::Message>)
        where S: Screen<H, D>,
        ensures
            r.wf(),
            r.spec_focus() == self.spec_state().focus,
            r.spec_scroll() == self.spec_state().scroll,
            r.spec_editing() == self.spec_state().spec_open_value(),
    {
        let mut view = self.screen.body();
        let size = Renderer::screen_size(host);
        view.measure(host, size);
        let mut out = Interactions::new(self.state.focus).scrolled(self.state.scroll).editing(
            self.state.open_value(),
        );
        view.interactions(host, Point::origin(), &mut out);
        out
    }

    /// Collects, then settles focus against whatever captured input this
    /// frame, so every caller (Confirm, Up/Down, taps) reads the same table.
    ///
    /// Scroll is not settled while something has captured input: focus then
    /// indexes the dialog's rows, and the content behind an overlay is frozen
    /// until the overlay goes.
    pub fn collect_settled<H: Host, D>(&mut self, host: &H) -> (r: Interactions<
        <S as Messages>::Message,
    >)
        where S: Screen<H, D>,
        ensures
            r.wf(),
            final(self).spec_screen() == old(self).spec_screen(),
            final(self).spec_state().same_but_cursor(old(self).spec_state()),
            r.spec_focus() == final(self).spec_state().focus,
            r.spec_scroll() == final(self).spec_state().scroll,
            r.spec_editing() == final(self).spec_state().spec_open_value(),
            final(self).spec_table() == r,
            final(self).spec_answer() == old(self).spec_answer(),
            final(self).spec_declined() == old(self).spec_declined(),
            final(self).spec_hooks() == old(self).spec_hooks(),
            final(self).spec_settled() == settled_of(r),
            final(self).spec_sent() == old(self).spec_sent(),
            final(self).spec_state().focus_before_capture is Some ==> final(self).spec_state().scroll == old(
                self,
            ).spec_state().scroll,
            old(self).spec_state().focus_before_capture is Some ==> final(self).spec_state().scroll == old(
                self,
            ).spec_state().scroll,
    {
        let interactions = self.collect::<H, D>(host);
        let count = interactions.focusable_count();
        if self.state.adopt_capture(interactions.captured_focus(), count) {
            let again = self.collect::<H, D>(host);
            self.table = Ghost(again);
            return again;
        }
        if interactions.captured_focus().is_none() {
            let focused = interactions.focused_rect(self.state.focus);
            if self.state.settle_scroll(interactions.viewport(), focused, count) {
                let again = self.collect::<H, D>(host);
                self.table = Ghost(again);
                return again;
            }
        }
        self.table = Ghost(interactions);
        interactions
    }

    /// Applies a message and schedules the repaint the screen would otherwise
    /// have to remember.
    pub fn dispatch<H: Host, D>(
        &mut self,
        message: <S as Messages>::Message,
        host: &mut H,
        shell: &mut AppShell<D>,
    )
        where S: Screen<H, D>,
        ensures
            final(self).spec_state() == old(self).spec_state(),
            final(self).spec_sent() == old(self).spec_sent().push(message),
            final(self).spec_table() == old(self).spec_table(),
            final(self).spec_answer() == old(self).spec_answer(),
            final(self).spec_declined() == old(self).spec_declined(),
            final(self).spec_hooks() == old(self).spec_hooks(),
            old(self).spec_screen().spec_updating(message, final(self).spec_screen()),
            final(shell).spec_needs_paint(),
    {
        self.sent = Ghost(self.sent@.push(message));
        self.screen.update(message, host, shell);
        shell.request_update(host);
    }

    /// Paints the screen.
    ///
    /// Focus is settled before painting, so the frame a dialog opens on
    /// highlights the right option. Behind a dialog, nothing is told it holds
    /// focus: the pass ignores every declaration until the dialog captures.
    pub fn render<H: Host, D>(&mut self, host: &mut H)
        where S: Screen<H, D>,
        ensures
            final(self).spec_screen() == old(self).spec_screen(),
            final(self).spec_hooks() == old(self).spec_hooks(),
            final(self).spec_paints() == old(self).spec_paints() + 1,
            final(self).spec_state().painted,
            final(self).spec_state().dragging == old(self).spec_state().dragging,
            final(self).spec_state().repeat == old(self).spec_state().repeat,
            final(self).spec_state().editing == old(self).spec_state().editing,
            final(self).spec_state().hold == old(self).spec_state().hold,
            ({
                let t = final(self).spec_table();
                let st = final(self).spec_state();
                let pass = final(self).spec_pass();
                &&& pass.spec_items().len() == 0
                &&& pass.spec_focus() == st.focus
                &&& pass.spec_scroll() == st.scroll
                &&& pass.spec_editing() == st.spec_open_value()
                &&& pass.spec_ignoring() == (t.spec_captured() is Some)
                &&& !final(self).spec_overlaid() ==> final(host).spec_drawn().len() > old(host).spec_drawn().len()
                    && final(host).spec_drawn()[old(host).spec_drawn().len() as int] == Drawn::Clear
                &&& pass.spec_mode() == if st.editing is Some {
                    ValueMode::Open
                } else if spec_opens_edit(
                    old(host).spec_has_left_right_keys(),
                    focus_item(t.spec_items(), st.focus as nat),
                ) is Some {
                    ValueMode::Openable
                } else {
                    ValueMode::Idle
                }
            }),
    {
        let ghost paints = self.paints@;
        let pair = Input::has_left_right_keys(&*host);
        let overlay = self.screen.is_overlay();
        let ghost blank = host.spec_drawn();
        if !overlay {
            Renderer::clear(host);
        }
        let ghost cleared = host.spec_drawn();
        let settled = self.collect_settled::<H, D>(&*host);
        let capturing = settled.captured_focus().is_some();
        let item = focused(&settled, self.state.focus);
        proof {
            lemma_focus_item(settled.spec_items(), self.state.focus as nat);
            match item {
                Some(it) => {
                    let i = choose|i: int|
                        is_focus_position(settled.spec_items(), self.state.focus as nat, i) && *it
                            == settled.spec_items()[i];
                    assert(focus_item(settled.spec_items(), self.state.focus as nat) == Some(*it));
                },
                None => {},
            }
        }
        let openable = opens_edit(pair, item).is_some();
        let mode = value_mode(self.state.editing.is_some(), openable);
        let title = ScreenChrome::screen_title(self.screen.title());
        let mut view = self.screen.body();
        let size = Renderer::screen_size(&*host);
        view.measure(&*host, size);
        let fresh = if capturing {
            Interactions::capturing(self.state.focus)
        } else {
            Interactions::new(self.state.focus)
        };
        let mut out = fresh.scrolled(self.state.scroll).editing(self.state.open_value()).with_mode(
            mode,
        ).titled(title);
        self.pass = Ghost(out);
        view.interactions(&*host, Point::origin(), &mut out);
        view.render(host, Point::origin());
        proof {
            if !overlay {
                assert(host.spec_drawn()[blank.len() as int] == cleared[blank.len() as int]);
            }
        }
        self.overlaid = Ghost(overlay);
        self.paints = Ghost(paints + 1);
        self.state.painted = true;
    }
}

/// **Focus wraps onto a stop.** Walking by any amount through `count > 0`
/// stops lands on one of them.
pub proof fn lemma_walking_lands_on_a_stop(focus: int, delta: int, count: int)
    requires
        count > 0,
    ensures
        0 <= spec_wrapped(focus, delta, count) < count,
{
}

/// **Scrolling never leaves the content.** Settling the scroll against a
/// focused rect leaves it between the top and the furthest the content
/// allows.
pub proof fn lemma_settled_scroll_stays_in_the_content(
    scroll: int,
    focus: int,
    last: int,
    viewport: Rect,
    content_height: int,
    focused: Rect,
)
    ensures
        0 <= spec_settled_scroll(scroll, focus, last, viewport, content_height, focused)
            <= spec_furthest(viewport, content_height),
{
}

/// **The ends are special.** Reaching the first stop scrolls to the very top,
/// so whatever sits above it (a section title) is not stranded off the edge;
/// reaching the last scrolls to the very bottom, when that fits.
pub proof fn lemma_the_first_and_last_stops_scroll_to_the_ends(
    scroll: int,
    last: int,
    viewport: Rect,
    content_height: int,
    focused: Rect,
)
    ensures
        spec_settled_scroll(scroll, 0, last, viewport, content_height, focused) == 0,
        last != 0 && spec_furthest(viewport, content_height) <= i32::MAX ==> spec_settled_scroll(
            scroll,
            last,
            last,
            viewport,
            content_height,
            focused,
        ) == spec_furthest(viewport, content_height),
{
}

/// **A press scrolls within the content**, by at least a pixel, and never
/// past either end.
pub proof fn lemma_scrolling_by_stays_in_the_content(
    scroll: int,
    delta: int,
    viewport: Rect,
    content_height: int,
)
    ensures
        0 <= spec_scrolled_by(scroll, delta, viewport, content_height) <= spec_furthest(
            viewport,
            content_height,
        ),
{
}

/// For a negative `s`, its remainder by `c` counted up from zero.
proof fn lemma_negative_wrap(s: int, c: int)
    requires
        s < 0,
        c > 0,
    ensures
        (-s) % c == 0 ==> s % c == 0,
        (-s) % c != 0 ==> s % c == c - (-s) % c,
{
    let q = (-s) / c;
    let m = (-s) % c;
    vstd::arithmetic::div_mod::lemma_fundamental_div_mod(-s, c);
    assert(-s == c * q + m);
    assert(0 <= m < c);
    if m == 0 {
        assert(s == (-q) * c + 0) by (nonlinear_arith)
            requires
                -s == c * q + m,
                m == 0,
        {
        }
        vstd::arithmetic::div_mod::lemma_fundamental_div_mod_converse(s, c, -q, 0);
    } else {
        assert(s == (-q - 1) * c + (c - m)) by (nonlinear_arith)
            requires
                -s == c * q + m,
        {
        }
        vstd::arithmetic::div_mod::lemma_fundamental_div_mod_converse(s, c, -q - 1, c - m);
    }
}

/// **A key scrolls half a viewport, the same either way.** One press down
/// moves the scroll half the viewport's height further (at least a pixel),
/// one press up moves it the same distance back, each held inside the
/// content; so a press down then up, or up then down, returns to where it
/// started when neither end was reached.
pub proof fn lemma_scrolling_moves_half_a_viewport_either_way(s: i32, view: Rect, content: i32)
    requires
        view.size.height >= 0,
        0 <= s <= spec_furthest(view, content as int),
    ensures
        ({
            let half = view.size.height / 2;
            let step = if half > 1 { half as int } else { 1int };
            let furthest = spec_furthest(view, content as int);
            &&& spec_scrolled_by(s as int, 1, view, content as int) == if s + step <= furthest {
                s + step
            } else {
                furthest
            }
            &&& spec_scrolled_by(s as int, -1, view, content as int) == if s - step >= 0 {
                s - step
            } else {
                0
            }
            &&& s + step <= furthest ==> spec_scrolled_by(
                spec_scrolled_by(s as int, 1, view, content as int),
                -1,
                view,
                content as int,
            ) == s
            &&& s - step >= 0 ==> spec_scrolled_by(
                spec_scrolled_by(s as int, -1, view, content as int),
                1,
                view,
                content as int,
            ) == s
        }),
{
}

/// **Settling shows the focused stop by the least movement.** For a stop
/// between the first and the last that fits the viewport and lies inside the
/// content, settling brings it fully into view; a stop already in view does
/// not move the scroll, one below it ends flush with the viewport's bottom
/// and one above it flush with its top.
pub proof fn lemma_settling_shows_the_focused_stop(
    scroll: int,
    focus: int,
    last: int,
    viewport: Rect,
    content_height: int,
    focused: Rect,
)
    requires
        0 < focus < last,
        0 <= focused.size.height <= viewport.size.height,
        content_height <= i32::MAX,
        0 <= scroll <= spec_furthest(viewport, content_height),
        0 <= focused.origin.y - viewport.origin.y + scroll,
        focused.spec_bottom() - viewport.origin.y + scroll <= content_height,
    ensures
        ({
            let settled = spec_settled_scroll(scroll, focus, last, viewport, content_height, focused);
            let shift = scroll - settled;
            &&& viewport.origin.y <= focused.origin.y + shift
            &&& focused.spec_bottom() + shift <= viewport.spec_bottom()
            &&& (viewport.origin.y <= focused.origin.y && focused.spec_bottom() <= viewport.spec_bottom())
                ==> settled == scroll
            &&& focused.spec_bottom() > viewport.spec_bottom() ==> focused.spec_bottom() + shift
                == viewport.spec_bottom()
            &&& focused.origin.y < viewport.origin.y ==> focused.origin.y + shift == viewport.origin.y
        }),
{
}

/// **A step back undoes a step.** Walking the focus by `delta` and then by
/// `-delta` returns to the stop it started on, whatever the wrap in between.
pub proof fn lemma_walking_back_undoes_a_walk(focus: int, delta: int, count: int)
    requires
        0 <= focus < count,
    ensures
        spec_wrapped(spec_wrapped(focus, delta, count), -delta, count) == focus,
{
    let q = (focus + delta) / count;
    vstd::arithmetic::div_mod::lemma_fundamental_div_mod(focus + delta, count);
    let r = (focus + delta) % count;
    assert(r - delta == count * (-q) + focus) by (nonlinear_arith)
        requires
            focus + delta == count * q + r,
    ;
    vstd::arithmetic::div_mod::lemma_mod_multiples_vanish(-q, focus, count);
    vstd::arithmetic::div_mod::lemma_small_mod(focus as nat, count as nat);
}

} // verus!
