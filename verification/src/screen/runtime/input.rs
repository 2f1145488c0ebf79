//! One frame of input, in the order a screen is offered it: touch, then a
//! swipe, then the buttons and the back gesture, and the screen gets first
//! refusal of each.
use vstd::prelude::*;

use crate::app::AppShell;
use crate::host::clock::Clock;
use crate::host::input::{Button, Input, InputSource, SwipeDir};
use crate::host::navigator::finish_screen;
use crate::host::Host;
use crate::screen::routing::{adjustable, focused, focused_message, focused_step, spec_step_message};
use crate::screen::{Messages, Screen};
use super::{sent_after, stop_set_to};
use super::touch::touch_outcome;
use crate::view::interaction::{InputMask, Interaction};
use super::{Runtime, RuntimeState, Settled, settled_of, spec_furthest, spec_scrolled_by, spec_wrapped};
use crate::view::interaction::{focus_item, is_focus_position, lemma_focus_item};
use crate::view::trigger::Trigger;
use crate::view::trigger::spec_stepped;
use crate::geometry::Point;

verus! {

/// Key-repeat timing for the button held down, if any.
#[derive(Copy, Clone, Debug)]
pub struct Repeat {
    /// The button whose press is being timed.
    pub button: Option<Button>,
    /// When the current press started, or last re-armed.
    pub pressed_at: u32,
    /// When it last fired.
    pub fired_at: u32,
    /// When input was last looked at, so a blind gap can be told from a hold.
    pub seen_at: u32,
}

/// A value open for editing: the focus stop it belongs to, and the working
/// value the keys move. The screen is told nothing until it is committed.
#[derive(Copy, Clone, Debug)]
pub struct Editing {
    /// The focus stop whose value is open.
    pub focus: usize,
    /// The value as the panel shows it.
    pub value: i32,
}

/// How long a press is held before it starts repeating.
pub const REPEAT_DELAY_MS: u32 = 500;

/// The gap between one repeat and the next.
pub const REPEAT_INTERVAL_MS: u32 = 500;

/// How many buttons are offered to a screen.
pub const KEY_COUNT: usize = 15;

/// The buttons in the order they are looked at, each offered to the screen
/// before the runtime gives it a meaning. The last seven have no meaning of
/// the runtime's own; a screen that wants one claims it.
pub open spec fn spec_key(i: int) -> Button {
    if i == 0 {
        Button::Left
    } else if i == 1 {
        Button::Right
    } else if i == 2 {
        Button::Up
    } else if i == 3 {
        Button::Down
    } else if i == 4 {
        Button::Confirm
    } else if i == 5 {
        Button::Back
    } else if i == 6 {
        Button::PageBack
    } else if i == 7 {
        Button::PageForward
    } else if i == 8 {
        Button::Power
    } else if i == 9 {
        Button::NavNext
    } else if i == 10 {
        Button::NavPrevious
    } else if i == 11 {
        Button::ScreenLeft
    } else if i == 12 {
        Button::ScreenRight
    } else if i == 13 {
        Button::ScreenUp
    } else {
        Button::ScreenDown
    }
}

/// The button numbered `i` in the order buttons are looked at.
pub fn key_at(i: usize) -> (r: Button)
    requires
        i < KEY_COUNT,
    ensures
        r == spec_key(i as int),
{
    match i {
        0 => Button::Left,
        1 => Button::Right,
        2 => Button::Up,
        3 => Button::Down,
        4 => Button::Confirm,
        5 => Button::Back,
        6 => Button::PageBack,
        7 => Button::PageForward,
        8 => Button::Power,
        9 => Button::NavNext,
        10 => Button::NavPrevious,
        11 => Button::ScreenLeft,
        12 => Button::ScreenRight,
        13 => Button::ScreenUp,
        _ => Button::ScreenDown,
    }
}

/// The first button, from number `from` on, that went down this frame.
pub open spec fn first_pressed<H: InputSource>(host: &H, from: int) -> Option<Button>
    decreases KEY_COUNT - from,
{
    if from < 0 || from >= KEY_COUNT {
        None
    } else if host.spec_was_pressed(spec_key(from)) {
        Some(spec_key(from))
    } else {
        first_pressed(host, from + 1)
    }
}

/// Which button acts this frame at time `now`, and the timing kept for the
/// next: the back gesture, else a fresh press, else the held button once it
/// has been down past the delay and a full interval since it last fired.
///
/// A gap of a full interval since input was last looked at re-arms the hold
/// rather than firing it: a panel that blocks through a refresh leaves the
/// loop blind, and crediting that gap to the hold would turn one tap into a
/// run.
pub open spec fn spec_active_key<H: InputSource>(host: &H, repeat: Repeat, now: u32) -> (
    Repeat,
    Option<Button>,
) {
    let seen = Repeat { seen_at: now, ..repeat };
    if host.spec_was_back_gesture() {
        (Repeat { button: None, ..seen }, Some(Button::Back))
    } else {
        match first_pressed(host, 0) {
            Some(key) => (
                Repeat { button: Some(key), pressed_at: now, fired_at: now, seen_at: now },
                Some(key),
            ),
            None => match repeat.button {
                None => (seen, None),
                Some(held) => if !host.spec_is_pressed(held) {
                    (Repeat { button: None, ..seen }, None)
                } else if now.wrapping_sub(repeat.seen_at) >= REPEAT_INTERVAL_MS {
                    (Repeat { pressed_at: now, fired_at: now, ..seen }, None)
                } else if now.wrapping_sub(repeat.pressed_at) < REPEAT_DELAY_MS {
                    (seen, None)
                } else if now.wrapping_sub(repeat.fired_at) < REPEAT_INTERVAL_MS {
                    (seen, None)
                } else {
                    (Repeat { fired_at: now, ..seen }, Some(held))
                },
            },
        }
    }
}

/// Hosts that report the same input press the same first button.
pub proof fn lemma_same_input_first_pressed<H: InputSource + Clock>(a: &H, b: &H, from: int)
    requires
        crate::host::same_input(a, b),
    ensures
        first_pressed(a, from) == first_pressed(b, from),
    decreases KEY_COUNT - from,
{
    if 0 <= from < KEY_COUNT {
        assert(a.spec_was_pressed(spec_key(from)) == b.spec_was_pressed(spec_key(from)));
        lemma_same_input_first_pressed(a, b, from + 1);
    }
}

/// Hosts that report the same input act on the same key.
pub proof fn lemma_same_input_active_key<H: InputSource + Clock>(a: &H, b: &H, repeat: Repeat, now: u32)
    requires
        crate::host::same_input(a, b),
    ensures
        spec_active_key(a, repeat, now) == spec_active_key(b, repeat, now),
{
    lemma_same_input_first_pressed(a, b, 0);
    match repeat.button {
        Some(held) => {
            assert(a.spec_is_pressed(held) == b.spec_is_pressed(held));
        },
        None => {},
    }
}

impl RuntimeState {
    /// Which button, if any, acts this frame, including auto-repeat for one
    /// held down.
    pub fn active_key<H: InputSource + Clock>(&mut self, host: &H) -> (r: Option<Button>)
        ensures
            (final(self).repeat, r) == spec_active_key(host, old(self).repeat, host.spec_millis()),
            final(self).focus == old(self).focus,
            final(self).painted == old(self).painted,
            final(self).dragging == old(self).dragging,
            final(self).focus_before_capture == old(self).focus_before_capture,
            final(self).scroll == old(self).scroll,
            final(self).editing == old(self).editing,
            final(self).hold == old(self).hold,
    {
        let now = host.millis();
        let seen_at = self.repeat.seen_at;
        self.repeat.seen_at = now;
        if host.was_back_gesture() {
            self.repeat.button = None;
            return Some(Button::Back);
        }
        let mut i: usize = 0;
        while i < KEY_COUNT
            invariant
                i <= KEY_COUNT,
                first_pressed(host, 0) == first_pressed(host, i as int),
                self.repeat == (Repeat { seen_at: now, ..old(self).repeat }),
                *self == (RuntimeState { repeat: self.repeat, ..*old(self) }),
                now == host.spec_millis(),
                seen_at == old(self).repeat.seen_at,
                !host.spec_was_back_gesture(),
            decreases KEY_COUNT - i,
        {
            let key = key_at(i);
            if host.was_pressed(key) {
                self.repeat = Repeat { button: Some(key), pressed_at: now, fired_at: now, seen_at: now };
                return Some(key);
            }
            i = i + 1;
        }
        let held = match self.repeat.button {
            Some(held) => held,
            None => return None,
        };
        if !host.is_pressed(held) {
            self.repeat.button = None;
            return None;
        }
        if now.wrapping_sub(seen_at) >= REPEAT_INTERVAL_MS {
            self.repeat.pressed_at = now;
            self.repeat.fired_at = now;
            return None;
        }
        if now.wrapping_sub(self.repeat.pressed_at) < REPEAT_DELAY_MS {
            return None;
        }
        if now.wrapping_sub(self.repeat.fired_at) < REPEAT_INTERVAL_MS {
            return None;
        }
        self.repeat.fired_at = now;
        Some(held)
    }
}

/// How far an open edit moves for `key`, if the key moves it at all.
///
/// Up **raises** and Down lowers, the opposite of what they mean in a list:
/// there Up walks towards the top, here it walks the number upwards. The page
/// pair follows Up and Down, and Left and Right move the value as they nudge
/// it.
pub open spec fn spec_edit_step(key: Button) -> Option<i32> {
    match key {
        Button::Up | Button::PageBack => Some(1i32),
        Button::Down | Button::PageForward => Some(-1i32),
        Button::Left => Some(-1i32),
        Button::Right => Some(1i32),
        _ => None,
    }
}

/// How far an open edit moves for `key`, if the key moves it at all.
pub fn edit_step(key: Button) -> (r: Option<i32>)
    ensures
        r == spec_edit_step(key),
{
    match key {
        Button::Up | Button::PageBack => Some(1),
        Button::Down | Button::PageForward => Some(-1),
        Button::Left => Some(-1),
        Button::Right => Some(1),
        _ => None,
    }
}

/// Which way `key` walks the focus through a list: Up and the back page key
/// towards the top, Down and the forward page key towards the bottom.
pub open spec fn spec_walk_step(key: Button) -> Option<isize> {
    match key {
        Button::Up | Button::PageBack => Some(-1isize),
        Button::Down | Button::PageForward => Some(1isize),
        _ => None,
    }
}

/// Which way `key` walks the focus through a list.
pub fn walk_step(key: Button) -> (r: Option<isize>)
    ensures
        r == spec_walk_step(key),
{
    match key {
        Button::Up | Button::PageBack => Some(-1),
        Button::Down | Button::PageForward => Some(1),
        _ => None,
    }
}

/// Which way a vertical swipe walks the focus. Left and right are left
/// alone: the back and home gestures own that axis. By default a swipe moves
/// the content, so swiping up walks the focus down the list; a host that
/// moves the selection with the finger reverses that.
pub open spec fn spec_swipe_step(direction: SwipeDir, moves_selection: bool) -> isize {
    match direction {
        SwipeDir::Up => if moves_selection { -1isize } else { 1isize },
        SwipeDir::Down => if moves_selection { 1isize } else { -1isize },
        _ => 0isize,
    }
}

/// Which way a vertical swipe walks the focus, or `0` for any other.
pub fn swipe_step(direction: SwipeDir, moves_selection: bool) -> (r: isize)
    ensures
        r == spec_swipe_step(direction, moves_selection),
{
    let forward: isize = if moves_selection { -1 } else { 1 };
    match direction {
        SwipeDir::Up => forward,
        SwipeDir::Down => -forward,
        _ => 0,
    }
}

/// What Back does once the screen has declined it and no edit took it.
pub enum BackAction<M> {
    /// Nothing captured input: the screen finishes.
    Finish,
    /// A dialog captured input and says how it is dismissed.
    Dismiss(M),
    /// A dialog captured input and has no dismissal: nothing happens.
    Stay,
}

/// What Back does, given what captured input this frame and what dismisses
/// it. **Back never finishes the screen from under a dialog**: the dialog is
/// what the reader is looking at, so Back is about the dialog.
pub fn back_action<M: Clone>(captured: Option<usize>, dismissal: Option<&M>) -> (r: BackAction<M>)
    ensures
        captured is None ==> r is Finish,
        captured is Some ==> match dismissal {
            Some(m) => r matches BackAction::Dismiss(d) && cloned(*m, d),
            None => r is Stay,
        },
{
    if captured.is_none() {
        return BackAction::Finish;
    }
    match dismissal {
        Some(m) => BackAction::Dismiss(m.clone()),
        None => BackAction::Stay,
    }
}

/// The value Confirm opens for editing on `item`, if it opens one.
pub open spec fn spec_opens_edit<M: Clone>(has_pair: bool, item: Option<Interaction<M>>) -> Option<i32> {
    match item {
        Some(item) => if !has_pair && item.mask.spec_contains(InputMask::adjust_spec())
            && item.trigger.spec_reading() is Some && item.trigger.spec_is_editable() {
            item.trigger.spec_reading()
        } else {
            None
        },
        None => None,
    }
}

/// The value Confirm opens for editing on `item`, if it opens one: only on a
/// device with no Left/Right pair, since that pair is otherwise the way in,
/// and only on an adjustable control that has a reading and can take a value
/// outright.
pub fn opens_edit<M: Clone>(has_pair: bool, item: Option<&Interaction<M>>) -> (r: Option<i32>)
    ensures
        r == match item {
            Some(item) => if !has_pair && item.mask.spec_contains(InputMask::adjust_spec())
                && item.trigger.spec_reading() is Some && item.trigger.spec_is_editable() {
                item.trigger.spec_reading()
            } else {
                None
            },
            None => None,
        },
{
    if has_pair {
        return None;
    }
    match item {
        Some(item) => {
            if !adjustable(item) {
                return None;
            }
            match item.trigger.reading() {
                Some(start) => if item.trigger.is_editable() {
                    Some(start)
                } else {
                    None
                },
                None => None,
            }
        },
        None => None,
    }
}

/// Whether `now` is where walking the focus by `d` through the settled
/// table `t` leaves it: onto the stop `d` away, wrapping, or, where focus
/// cannot move, the scroll half a viewport along; `painting` when either
/// moved.
pub open spec fn walked(now: RuntimeState, t: Settled, d: isize, painting: bool) -> bool {
    let moves = t.focusable > 0 && spec_wrapped(t.focus as int, d as int, t.focusable as int) != t.focus;
    &&& moves ==> now.focus == spec_wrapped(t.focus as int, d as int, t.focusable as int) && now.scroll
        == t.scroll && painting
    &&& !moves && now.scroll != t.scroll ==> painting
    &&& !moves ==> now.focus == t.focus && now.scroll == match t.viewport {
        Some((view, content)) => if spec_furthest(view, content as int) == 0 {
            t.scroll as int
        } else {
            spec_scrolled_by(t.scroll as int, d as int, view, content as int)
        },
        None => t.scroll as int,
    }
}

/// What a frame's key does to the runtime, from the state `base` it reached
/// the keys in, having handed the screen `sent0`, to `after`, on a frame whose
/// input `host` reports;
/// `finished` is whether the screen then asked to leave, and `painting`
/// whether a repaint is then asked for.
///
/// With no key, nothing moves but the timing. A key the screen claims sends
/// its one message and moves nothing else. Otherwise an open edit takes the
/// key: a step moves its copy along the focused control's range, Confirm
/// commits the copy as that control's message and Back drops it. With no edit
/// open, Up/Down and the page keys walk the focus, or scroll where it cannot
/// move; Confirm opens an edit on an adjustable control that can take a value,
/// else sends the focused control's message; and Back finishes the screen,
/// or, under a dialog, sends the dialog's dismissal when it has one.
pub open spec fn key_outcome<S: Messages, H: InputSource + Clock>(
    base: RuntimeState,
    sent0: Seq<S::Message>,
    after: Runtime<S>,
    host: &H,
    finished: bool,
    painting: bool,
) -> bool {
    let (rep, key) = spec_active_key(host, base.repeat, host.spec_millis());
    let now = after.spec_state();
    let idle = RuntimeState { repeat: rep, ..base };
    let t = after.spec_settled();
    let table = after.spec_table();
    let same = after.spec_sent() == sent0;
    let one_more = after.spec_sent() == sent0.push(after.spec_sent().last());
    &&& now.repeat == rep
    &&& !same ==> painting
    &&& key is None ==> now == idle && same
    &&& key matches Some(k) ==> match after.spec_answer() {
        Some(m) => after.spec_sent() == sent0.push(m) && now == idle && painting,
        None => match base.editing {
            Some(open) => {
                &&& k == Button::Confirm ==> now.editing is None && painting && after.spec_sent() == sent_after(
                    sent0,
                    stop_set_to(table, open.focus as nat, open.value),
                )
                &&& k == Button::Back ==> now.editing is None && same && painting
                &&& spec_edit_step(k) matches Some(delta) ==> {
                    &&& same
                    &&& now.editing != base.editing ==> painting
                    &&& now.editing == match (t.stop_max)(open.focus as nat) {
                        Some(max) => {
                            let w = spec_stepped(open.value as int, delta as int, max as int);
                            if w == open.value {
                                Some(open)
                            } else {
                                Some(Editing { focus: open.focus, value: w as i32 })
                            }
                        },
                        None => Some(open),
                    }
                }
                &&& (k != Button::Confirm && k != Button::Back && spec_edit_step(k) is None) ==> now == idle
                    && same
            },
            None => {
                &&& spec_walk_step(k) matches Some(d) ==> {
                    let moves = t.focusable > 0 && spec_wrapped(t.focus as int, d as int, t.focusable as int)
                        != t.focus;
                    &&& same
                    &&& now.same_but_cursor(idle)
                    &&& moves ==> now.focus == spec_wrapped(t.focus as int, d as int, t.focusable as int)
                        && now.scroll == t.scroll && painting
                    &&& !moves && now.scroll != t.scroll ==> painting
                    &&& !moves ==> now.focus == t.focus && now.scroll == match t.viewport {
                        Some((view, content)) => if spec_furthest(view, content as int) == 0 {
                            t.scroll as int
                        } else {
                            spec_scrolled_by(t.scroll as int, d as int, view, content as int)
                        },
                        None => t.scroll as int,
                    }
                }
                &&& k == Button::Confirm ==> match spec_opens_edit(
                    host.spec_has_left_right_keys(),
                    focus_item(table.spec_items(), t.focus as nat),
                ) {
                    Some(v) => same && painting && now.editing == Some(Editing { focus: t.focus, value: v }),
                    None => now.editing is None && match focus_item(table.spec_items(), t.focus as nat) {
                        Some(item) => if item.mask.spec_contains(InputMask::adjust_spec()) {
                            same
                        } else {
                            &&& one_more
                            &&& item.trigger matches Trigger::Message(m) ==> cloned(m, after.spec_sent().last())
                        },
                        None => same,
                    },
                }
                &&& k == Button::Back ==> {
                    &&& now.same_but_cursor(idle)
                    &&& t.captured is None ==> finished && same
                    &&& t.captured is Some && t.dismisses ==> one_more && cloned(
                        table.spec_dismissal().unwrap(),
                        after.spec_sent().last(),
                    )
                    &&& t.captured is Some && !t.dismisses ==> same
                }
                &&& (k == Button::Left || k == Button::Right) ==> {
                    let delta: i32 = if k == Button::Left { -1i32 } else { 1i32 };
                    &&& now.editing is None
                    &&& now.same_but_cursor(idle)
                    &&& {
                        ||| {
                            &&& one_more
                            &&& painting
                            &&& match focus_item(table.spec_items(), t.focus as nat) {
                                Some(item) => spec_step_message(item, delta) == Some(after.spec_sent().last()),
                                None => false,
                            }
                        }
                        ||| same && walked(now, t, delta as isize, painting)
                    }
                }
                &&& (spec_walk_step(k) is None && k != Button::Confirm && k != Button::Back && k != Button::Left
                    && k != Button::Right) ==> now == idle && same
            },
        }
    }
}

impl<S: Messages> Runtime<S> {
    /// Moves the open edit's own copy by `delta` steps from `from`, telling the
    /// screen nothing. Against the end of the track it moves nothing and asks
    /// for no repaint: an identical frame is a slow panel's second for nothing.
    pub fn step_open<H: Host, D>(
        &mut self,
        focus: usize,
        from: i32,
        delta: i32,
        host: &mut H,
        shell: &mut AppShell<D>,
    )
        where S: Screen<H, D>,
        ensures
            final(self).spec_answer() == old(self).spec_answer(),
            final(self).spec_declined() == old(self).spec_declined(),
            final(self).spec_hooks() == old(self).spec_hooks(),
            final(self).spec_screen() == old(self).spec_screen(),
            final(self).spec_state().same_touch(old(self).spec_state()),
            final(self).spec_state().repeat == old(self).spec_state().repeat,
            ({
                ||| (final(self).spec_state().editing == old(self).spec_state().editing && *final(shell) == *old(shell))
                ||| (final(self).spec_state().editing matches Some(open) && open.focus == focus && open.value != from
                    && final(shell).spec_needs_paint())
            }),
            final(shell).spec_finish() == old(shell).spec_finish(),
            final(shell).spec_pending() == old(shell).spec_pending(),
            final(self).spec_sent() == old(self).spec_sent(),
            match (final(self).spec_settled().stop_max)(focus as nat) {
                Some(max) => {
                    let w = spec_stepped(from as int, delta as int, max as int);
                    if w == from {
                        final(self).spec_state().editing == old(self).spec_state().editing && *final(shell)
                            == *old(shell)
                    } else {
                        final(self).spec_state().editing == Some(Editing { focus, value: w as i32 })
                            && final(shell).spec_needs_paint()
                    }
                },
                None => final(self).spec_state().editing == old(self).spec_state().editing && *final(shell)
                    == *old(shell),
            },
    {
        let interactions = self.collect_settled::<H, D>(&*host);
        proof {
            lemma_focus_item(interactions.spec_items(), focus as nat);
        }
        let value = match focused(&interactions, focus) {
            Some(item) => match item.trigger.stepped(from, delta) {
                Some(value) => value,
                None => return ,
            },
            None => return ,
        };
        if value == from {
            return ;
        }
        self.state.editing = Some(Editing { focus, value });
        shell.request_update(host);
    }

    /// One frame's key while a value is open.
    ///
    /// Every key up to Confirm moves the runtime's copy and tells the screen
    /// nothing. **Confirm commits**: the screen's one and only sight of the
    /// edit, one message for the value the panel was showing. **Back cancels
    /// and dispatches nothing at all**, and does not leave the screen: the
    /// screen's value never moved, so dropping the copy is already the value
    /// it opened on.
    pub fn edit_key<H: Host, D>(&mut self, key: Button, host: &mut H, shell: &mut AppShell<D>)
        where S: Screen<H, D>,
        ensures
            final(self).spec_answer() == old(self).spec_answer(),
            final(self).spec_declined() == old(self).spec_declined(),
            final(self).spec_hooks() == old(self).spec_hooks(),
            final(self).spec_state().same_touch(old(self).spec_state()),
            final(self).spec_state().repeat == old(self).spec_state().repeat,
            old(self).spec_state().editing is None ==> final(self).spec_screen() == old(self).spec_screen() && final(self).spec_state() == old(self).spec_state() && *final(shell)
                == *old(shell),
            old(self).spec_state().editing matches Some(open) ==> {
                &&& key == Button::Back ==> {
                    &&& final(self).spec_state().editing is None
                    &&& final(self).spec_screen() == old(self).spec_screen()
                    &&& final(shell).spec_needs_paint()
                    &&& final(shell).spec_finish() == old(shell).spec_finish()
                    &&& final(shell).spec_pending() == old(shell).spec_pending()
                }
                &&& key == Button::Confirm ==> {
                    &&& final(self).spec_state().editing is None
                    &&& final(shell).spec_needs_paint()
                }
                &&& spec_edit_step(key) is Some ==> {
                    &&& final(self).spec_screen() == old(self).spec_screen()
                    &&& final(shell).spec_finish() == old(shell).spec_finish()
                    &&& final(shell).spec_pending() == old(shell).spec_pending()
                    &&& final(self).spec_state().editing matches Some(now) && now.focus
                        == open.focus
                    &&& (final(self).spec_state().editing == old(self).spec_state().editing
                        ==> *final(shell) == *old(shell))
                    &&& (final(self).spec_state().editing != old(self).spec_state().editing
                        ==> final(shell).spec_needs_paint())
                    &&& final(self).spec_sent() == old(self).spec_sent()
                    &&& match (final(self).spec_settled().stop_max)(open.focus as nat) {
                        Some(max) => {
                            let w = spec_stepped(open.value as int, spec_edit_step(key).unwrap() as int, max as int);
                            final(self).spec_state().editing == if w == open.value {
                                Some(open)
                            } else {
                                Some(Editing { focus: open.focus, value: w as i32 })
                            }
                        },
                        None => final(self).spec_state().editing == old(self).spec_state().editing,
                    }
                }
                &&& key == Button::Confirm ==> final(self).spec_sent() == sent_after(
                    old(self).spec_sent(),
                    stop_set_to(final(self).spec_table(), open.focus as nat, open.value),
                )
                &&& key == Button::Back ==> final(self).spec_sent() == old(self).spec_sent()
                &&& (key != Button::Back && key != Button::Confirm && spec_edit_step(key) is None)
                    ==> final(self).spec_screen() == old(self).spec_screen() && final(self).spec_state() == old(self).spec_state() && *final(shell) == *old(shell)
                    && final(self).spec_sent() == old(self).spec_sent()
            },
    {
        let open = match self.state.editing {
            Some(open) => open,
            None => return ,
        };
        match edit_step(key) {
            Some(delta) => {
                self.step_open::<H, D>(open.focus, open.value, delta, host, shell);
                return ;
            },
            None => {},
        }
        if key == Button::Confirm {
            self.state.editing = None;
            let interactions = self.collect_settled::<H, D>(&*host);
            proof {
                lemma_focus_item(interactions.spec_items(), open.focus as nat);
            }
            let message = match focused(&interactions, open.focus) {
                Some(item) => item.trigger.set_to(open.value),
                None => None,
            };
            match message {
                Some(message) => self.dispatch::<H, D>(message, host, shell),
                None => {},
            }
            shell.request_update(host);
        } else if key == Button::Back {
            self.state.editing = None;
            shell.request_update(host);
        }
    }

    /// Back that nothing claimed and no edit took: finish the screen, or,
    /// under a dialog, send its dismissal if it has one.
    pub fn back<H: Host, D>(&mut self, host: &mut H, shell: &mut AppShell<D>)
        where S: Screen<H, D>,
        ensures
            final(self).spec_answer() == old(self).spec_answer(),
            final(self).spec_declined() == old(self).spec_declined(),
            final(self).spec_hooks() == old(self).spec_hooks(),
            final(self).spec_state().same_but_cursor(old(self).spec_state()),
            final(self).spec_settled().captured is None ==> {
                &&& final(shell).spec_finish()
                &&& final(self).spec_sent() == old(self).spec_sent()
                &&& final(self).spec_screen() == old(self).spec_screen()
            },
            final(self).spec_settled().captured is Some && final(self).spec_settled().dismisses ==> {
                &&& final(self).spec_sent() == old(self).spec_sent().push(final(self).spec_sent().last())
                &&& cloned(final(self).spec_table().spec_dismissal().unwrap(), final(self).spec_sent().last())
                &&& final(shell).spec_needs_paint()
            },
            final(self).spec_settled().captured is Some && !final(self).spec_settled().dismisses ==> {
                &&& final(self).spec_sent() == old(self).spec_sent()
                &&& final(self).spec_screen() == old(self).spec_screen()
                &&& *final(shell) == *old(shell)
            },
    {
        let interactions = self.collect_settled::<H, D>(&*host);
        match back_action(interactions.captured_focus(), interactions.dismissal()) {
            BackAction::Finish => finish_screen(shell),
            BackAction::Dismiss(message) => self.dispatch::<H, D>(message, host, shell),
            BackAction::Stay => {},
        }
    }

    /// Walks the focus by `delta`, or scrolls when the focus cannot move, and
    /// asks for a repaint when either moved.
    fn walk<H: Host, D>(&mut self, delta: isize, host: &mut H, shell: &mut AppShell<D>)
        where S: Screen<H, D>,
        ensures
            final(self).spec_answer() == old(self).spec_answer(),
            final(self).spec_declined() == old(self).spec_declined(),
            final(self).spec_hooks() == old(self).spec_hooks(),
            final(self).spec_screen() == old(self).spec_screen(),
            final(self).spec_state().same_but_cursor(old(self).spec_state()),
            final(self).spec_sent() == old(self).spec_sent(),
            ({
                let t = final(self).spec_settled();
                let moves = t.focusable > 0 && spec_wrapped(t.focus as int, delta as int, t.focusable as int) != t.focus;
                let scrolled = match t.viewport {
                    Some((view, content)) => if spec_furthest(view, content as int) == 0 {
                        t.scroll as int
                    } else {
                        spec_scrolled_by(t.scroll as int, delta as int, view, content as int)
                    },
                    None => t.scroll as int,
                };
                &&& moves ==> {
                    &&& final(self).spec_state().focus == spec_wrapped(t.focus as int, delta as int, t.focusable as int)
                    &&& final(self).spec_state().scroll == t.scroll
                    &&& final(shell).spec_needs_paint()
                }
                &&& !moves ==> {
                    &&& final(self).spec_state().focus == t.focus
                    &&& final(self).spec_state().scroll == scrolled
                    &&& scrolled != t.scroll ==> final(shell).spec_needs_paint()
                    &&& scrolled == t.scroll ==> *final(shell) == *old(shell)
                }
            }),
    {
        let interactions = self.collect_settled::<H, D>(&*host);
        let count = interactions.focusable_count();
        if self.state.move_focus(delta, count) || self.state.scroll_by(delta, interactions.viewport()) {
            shell.request_update(host);
        }
    }

    /// One frame of input, in priority order: the screen's tick, touch, a
    /// swipe, then the keys. The screen gets first refusal of each.
    ///
    /// Touch and swipe are declined while a value is open, since they know
    /// nothing about the edit, and before the first paint, since the tree a
    /// touch would be tested against has not been shown yet.
    #[verifier::rlimit(60)]
    pub fn loop_<H: Host, D>(&mut self, host: &mut H, shell: &mut AppShell<D>)
        where S: Screen<H, D>,
        ensures
            final(self).spec_hooks() == ({
                let (frames, entries, exits, homes) = old(self).spec_hooks();
                (frames + 1, entries, exits, homes)
            }),
            final(self).spec_repaint() == final(shell).spec_needs_paint(),
            final(self).spec_state().painted == old(self).spec_state().painted,
            (old(self).spec_state().editing is Some || !old(self).spec_state().painted) ==> {
                &&& final(self).spec_state().hold is None
                &&& final(self).spec_state().dragging == old(self).spec_state().dragging
            },
            ({
                let st = old(self).spec_state();
                let touching = st.editing is None && st.painted && old(host).spec_has_touch();
                let swiping = st.editing is None && st.painted && old(host).spec_swipe() != SwipeDir::NoSwipe;
                let step = spec_swipe_step(old(host).spec_swipe(), old(host).spec_swipe_moves_selection());
                let t = final(self).spec_settled();
                let after = final(self).spec_state();
                let declined = final(self).spec_declined() is Some;
                let base = match final(self).spec_declined() {
                    Some((start, _, _)) => start,
                    None => st,
                };
                &&& !touching ==> (final(self).spec_declined() matches Some((start, _, _)) && start
                    == RuntimeState { hold: None, ..st })
                &&& touching ==> exists|h: H|
                    #[trigger] crate::host::same_input(&*old(host), &h) && match final(self).spec_declined() {
                        None => touch_outcome(
                            st,
                            old(self).spec_sent(),
                            after,
                            final(self).spec_sent(),
                            final(self).spec_table(),
                            final(self).spec_answer(),
                            &h,
                            true,
                        ),
                        Some((start, table, answer)) => touch_outcome(
                            st,
                            old(self).spec_sent(),
                            start,
                            old(self).spec_sent(),
                            table,
                            answer,
                            &h,
                            false,
                        ),
                    }
                &&& (declined && swiping && step != 0) ==> match final(self).spec_answer() {
                    Some(m) => final(self).spec_sent() == old(self).spec_sent().push(m) && after == base
                        && final(shell).spec_needs_paint(),
                    None => {
                        &&& final(self).spec_sent() == old(self).spec_sent()
                        &&& after.same_but_cursor(base)
                        &&& after.scroll == t.scroll
                        &&& after.focus == if t.focusable > 0 {
                            spec_wrapped(t.focus as int, step as int, t.focusable as int)
                        } else {
                            t.focus as int
                        }
                        &&& after.focus != t.focus ==> final(shell).spec_needs_paint()
                    },
                }
                &&& (declined && (!swiping || step == 0)) ==> {
                    ||| swiping && (final(self).spec_answer() matches Some(m)
                        && final(self).spec_sent() == old(self).spec_sent().push(m)) && after == base
                    ||| key_outcome(
                        base,
                        old(self).spec_sent(),
                        *final(self),
                        &*old(host),
                        final(shell).spec_finish(),
                        final(shell).spec_needs_paint(),
                    )
                }
            }),
    {
        let ghost before = *host;
        let ghost (frames, entries, exits, homes) = self.hooks@;
        self.hooks = Ghost((frames + 1, entries, exits, homes));
        self.screen.tick(host, shell);
        proof {
            lemma_same_input_active_key(&before, &*host, self.state.repeat, before.spec_millis());
        }
        let ghost ticked = *host;
        if self.state.editing.is_none() && self.state.painted && Input::has_touch(&*host) {
            let taken = self.touch::<H, D>(host, shell);
            if taken {
                self.declined = Ghost(None);
                proof {
                    assert(crate::host::same_input(&before, &ticked));
                }
                self.repaint = Ghost(shell.spec_needs_paint());
                return ;
            }
        } else {
            self.state.hold = None;
        }
        self.declined = Ghost(Some((self.state, self.table@, self.answer@)));
        proof {
            assert(crate::host::same_input(&before, &ticked));
            lemma_same_input_active_key(&before, &*host, self.state.repeat, before.spec_millis());
        }
        if self.state.editing.is_none() && self.state.painted {
            let direction = Input::swipe(&*host);
            if direction != SwipeDir::NoSwipe {
                let answer = self.screen.on_swipe(direction);
                self.answer = Ghost(answer);
                match answer {
                    Some(message) => {
                        self.dispatch::<H, D>(message, host, shell);
                        self.repaint = Ghost(shell.spec_needs_paint());
                        return ;
                    },
                    None => {},
                }
                let delta = swipe_step(direction, Input::swipe_moves_selection(&*host));
                if delta != 0 {
                    let count = self.collect_settled::<H, D>(&*host).focusable_count();
                    if self.state.move_focus(delta, count) {
                        shell.request_update(host);
                    }
                    self.repaint = Ghost(shell.spec_needs_paint());
                    return ;
                }
            }
        }
        let key = match self.state.active_key(&*host) {
            Some(key) => key,
            None => {
                self.repaint = Ghost(shell.spec_needs_paint());
                return ;
            },
        };
        let answer = self.screen.on_key(key);
        self.answer = Ghost(answer);
        match answer {
            Some(message) => {
                self.dispatch::<H, D>(message, host, shell);
                self.repaint = Ghost(shell.spec_needs_paint());
                return ;
            },
            None => {},
        }
        if self.state.editing.is_some() {
            self.edit_key::<H, D>(key, host, shell);
            self.repaint = Ghost(shell.spec_needs_paint());
            return ;
        }
        match walk_step(key) {
            Some(delta) => {
                self.walk::<H, D>(delta, host, shell);
                self.repaint = Ghost(shell.spec_needs_paint());
                return ;
            },
            None => {},
        }
        if key == Button::Confirm {
            let interactions = self.collect_settled::<H, D>(&*host);
            let focus = self.state.focus;
            let item = focused(&interactions, focus);
            proof {
                lemma_focus_item(interactions.spec_items(), focus as nat);
                match item {
                    Some(it) => {
                        let i = choose|i: int|
                            is_focus_position(interactions.spec_items(), focus as nat, i) && *it
                                == interactions.spec_items()[i];
                        assert(focus_item(interactions.spec_items(), focus as nat) == Some(*it));
                    },
                    None => {},
                }
            }
            let start = opens_edit(Input::has_left_right_keys(&*host), item);
            match start {
                Some(value) => {
                    self.state.editing = Some(Editing { focus, value });
                    shell.request_update(host);
                    self.repaint = Ghost(shell.spec_needs_paint());
                    return ;
                },
                None => {},
            }
            match focused_message(&*host, &interactions, focus) {
                Some(message) => self.dispatch::<H, D>(message, host, shell),
                None => {},
            }
        } else if key == Button::Left || key == Button::Right {
            let delta: i32 = if key == Button::Left { -1 } else { 1 };
            let interactions = self.collect_settled::<H, D>(&*host);
            match focused_step(&interactions, self.state.focus, delta) {
                Some(message) => self.dispatch::<H, D>(message, host, shell),
                None => self.walk::<H, D>(delta as isize, host, shell),
            }
        } else if key == Button::Back {
            self.back::<H, D>(host, shell);
        }
        self.repaint = Ghost(shell.spec_needs_paint());
    }
}

/// **A tap moves by one.** A frame that comes a full interval or more after
/// input was last looked at never repeats a held button: whatever was held
/// through the blind gap, the frame after it acts only on a fresh press or
/// the back gesture.
pub proof fn lemma_a_blind_gap_never_repeats<H: InputSource>(host: &H, repeat: Repeat, now: u32)
    requires
        now.wrapping_sub(repeat.seen_at) >= REPEAT_INTERVAL_MS,
        !host.spec_was_back_gesture(),
        first_pressed(host, 0) is None,
    ensures
        spec_active_key(host, repeat, now).1 is None,
{
}

/// A repeat fires at most once per interval: a held button that fired at
/// `now` does not fire again until a full interval later.
pub proof fn lemma_repeats_are_an_interval_apart<H: InputSource>(
    host: &H,
    repeat: Repeat,
    now: u32,
    later_host: &H,
    later: u32,
)
    requires
        spec_active_key(host, repeat, now).1 is Some,
        first_pressed(host, 0) is None,
        !host.spec_was_back_gesture(),
        first_pressed(later_host, 0) is None,
        !later_host.spec_was_back_gesture(),
        later.wrapping_sub(now) < REPEAT_INTERVAL_MS,
    ensures
        ({
            let next = spec_active_key(host, repeat, now).0;
            spec_active_key(later_host, next, later).1 is None
        }),
{
}

/// **A claimed key sends its one message and moves nothing else.** In a frame
/// whose key the screen claimed with `m`, the screen's `update` is handed `m`
/// and nothing more, a repaint is asked for, and focus, scroll, an open edit,
/// a held finger and a drag all stay as the frame found them.
pub proof fn lemma_a_claimed_key_sends_one_message<S: Messages, H: InputSource + Clock>(
    base: RuntimeState,
    sent0: Seq<S::Message>,
    after: Runtime<S>,
    host: &H,
    finished: bool,
    painting: bool,
    m: S::Message,
)
    requires
        key_outcome(base, sent0, after, host, finished, painting),
        spec_active_key(host, base.repeat, host.spec_millis()).1 is Some,
        after.spec_answer() == Some(m),
    ensures
        after.spec_sent() == sent0.push(m),
        painting,
        after.spec_state().focus == base.focus,
        after.spec_state().scroll == base.scroll,
        after.spec_state().editing == base.editing,
        after.spec_state().hold == base.hold,
        after.spec_state().dragging == base.dragging,
        after.spec_state().focus_before_capture == base.focus_before_capture,
{
}

/// **Moving the focus repaints.** In a frame whose key the screen left to the
/// runtime, with no edit open, a walk that leaves focus on another stop than
/// the one it settled on asks for a repaint.
pub proof fn lemma_moving_the_focus_repaints<S: Messages, H: InputSource + Clock>(
    base: RuntimeState,
    sent0: Seq<S::Message>,
    after: Runtime<S>,
    host: &H,
    finished: bool,
    painting: bool,
    k: Button,
)
    requires
        key_outcome(base, sent0, after, host, finished, painting),
        spec_active_key(host, base.repeat, host.spec_millis()).1 == Some(k),
        after.spec_answer() is None,
        base.editing is None,
        spec_walk_step(k) is Some,
        after.spec_state().focus != after.spec_settled().focus,
    ensures
        painting,
{
}

/// **The page keys walk a list as Up and Down do.** On stop `f` of `n`, Up and
/// the back page key land on the stop before, wrapping from the first to the
/// last; Down and the forward page key land on the stop after, wrapping from
/// the last to the first. A device with only two side keys walks with the
/// page pair alone.
pub proof fn lemma_page_keys_walk_like_up_and_down(f: int, n: int)
    requires
        0 <= f < n,
    ensures
        spec_walk_step(Button::PageBack) == spec_walk_step(Button::Up),
        spec_walk_step(Button::PageForward) == spec_walk_step(Button::Down),
        spec_walk_step(Button::Up) is Some,
        spec_walk_step(Button::Down) is Some,
        spec_wrapped(f, spec_walk_step(Button::PageBack).unwrap() as int, n) == if f == 0 {
            n - 1
        } else {
            f - 1
        },
        spec_wrapped(f, spec_walk_step(Button::PageForward).unwrap() as int, n) == if f == n - 1 {
            0
        } else {
            f + 1
        },
{
    let back = spec_walk_step(Button::PageBack).unwrap() as int;
    let forward = spec_walk_step(Button::PageForward).unwrap() as int;
    assert(back == -1);
    assert(forward == 1);
    if f == 0 {
        assert((0 + -1int) % n == n - 1) by (nonlinear_arith)
            requires
                n > 0,
        ;
    } else {
        assert((f - 1) % n == f - 1) by (nonlinear_arith)
            requires
                0 < f < n,
        ;
    }
    if f == n - 1 {
        assert((f + 1) % n == 0) by (nonlinear_arith)
            requires
                f + 1 == n,
                n > 0,
        ;
    } else {
        assert((f + 1) % n == f + 1) by (nonlinear_arith)
            requires
                0 <= f,
                f + 1 < n,
        ;
    }
}

/// **In an open edit the page keys step as Up and Down do.** Up and the back
/// page key raise the working value by one, Down and the forward page key
/// lower it by one, Right raises and Left lowers; each stops at the ends of
/// the control's range.
pub proof fn lemma_page_keys_edit_like_up_and_down(v: int, max: int)
    requires
        0 <= v <= max <= i32::MAX,
    ensures
        spec_edit_step(Button::PageBack) == spec_edit_step(Button::Up),
        spec_edit_step(Button::PageForward) == spec_edit_step(Button::Down),
        spec_edit_step(Button::Right) == spec_edit_step(Button::Up),
        spec_edit_step(Button::Left) == spec_edit_step(Button::Down),
        spec_edit_step(Button::Up) is Some,
        spec_edit_step(Button::Down) is Some,
        spec_stepped(v, spec_edit_step(Button::Up).unwrap() as int, max) == if v < max {
            v + 1
        } else {
            max
        },
        spec_stepped(v, spec_edit_step(Button::Down).unwrap() as int, max) == if v > 0 {
            v - 1
        } else {
            0
        },
{
}

/// **A vertical swipe's step follows the host's preference, and down undoes
/// up.** Swiping down walks the focus the opposite way to swiping up; a host
/// that moves the selection with the finger reverses both; by default a swipe
/// up moves the content up, so the focus walks down the list. A sideways
/// swipe, or none, never walks the focus.
pub proof fn lemma_swipes_walk_opposite_ways(moves_selection: bool, f: int, n: int)
    requires
        0 <= f < n,
    ensures
        spec_swipe_step(SwipeDir::Down, moves_selection) == -spec_swipe_step(SwipeDir::Up, moves_selection),
        spec_swipe_step(SwipeDir::Up, true) == -spec_swipe_step(SwipeDir::Up, false),
        spec_swipe_step(SwipeDir::Up, false) == 1,
        spec_swipe_step(SwipeDir::Left, moves_selection) == 0,
        spec_swipe_step(SwipeDir::Right, moves_selection) == 0,
        spec_swipe_step(SwipeDir::NoSwipe, moves_selection) == 0,
        spec_wrapped(f, spec_swipe_step(SwipeDir::Down, true) as int, n) == if f == n - 1 {
            0
        } else {
            f + 1
        },
        spec_wrapped(f, spec_swipe_step(SwipeDir::Down, false) as int, n) == if f == 0 {
            n - 1
        } else {
            f - 1
        },
{
    lemma_page_keys_walk_like_up_and_down(f, n);
}

} // verus!
