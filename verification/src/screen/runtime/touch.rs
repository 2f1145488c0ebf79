//! One frame of touch: a drag, a long press, then a tap.
use vstd::prelude::*;

use crate::geometry::Point;
use crate::host::clock::Clock;
use super::{Runtime, RuntimeState};
use crate::app::AppShell;
use crate::host::input::{Input, InputSource};
use crate::host::chrome::Chrome;
use crate::view::interaction::Interactions;
use crate::host::Host;
use crate::screen::routing::{is_last_hit, long_press, resolve, resolves_to};
use crate::screen::{Messages, Screen};
use crate::view::interaction::InputMask;

verus! {

/// Whether a held finger crossed into a long press, and whether that fired.
#[derive(Copy, Clone, Debug, PartialEq, Eq, Structural)]
pub enum Outcome {
    /// Still under the threshold.
    Waiting,
    /// A long press fired. The release that ends the hold fires nothing.
    Fired,
    /// Crossed the threshold with nothing to fire, so the release is a tap.
    Declined,
}

/// A finger that has stayed down, and what became of it.
#[derive(Copy, Clone, Debug)]
pub struct Hold {
    /// Where the finger was first seen down. A long press resolves here, the
    /// way a tap resolves where the finger went down.
    pub origin: Point,
    /// When the hold started, or last re-armed.
    pub since: u32,
    /// When a held frame was last seen, so a blind loop cannot time the hold.
    pub seen: u32,
    /// Whether the threshold has been crossed, and whether that fired.
    pub outcome: Outcome,
}

/// How long a finger rests before a hold becomes a long press: the delay
/// before a held key starts repeating, so a finger and a key cross from a
/// press into a hold at the same moment.
pub const LONG_PRESS_MS: u32 = 500;

/// The hold a finger at `point` is in at time `now`, and where it went down
/// when this frame is the one it crosses the threshold on.
///
/// A hold starts where the finger is first seen. A gap of the threshold or
/// more since the last held frame re-arms it, so a blind loop cannot time it;
/// once it has crossed, it answers no more.
pub open spec fn spec_crossed(hold: Option<Hold>, point: Point, now: u32) -> (Hold, Option<Point>) {
    let h = match hold {
        Some(h) => h,
        None => Hold { origin: point, since: now, seen: now, outcome: Outcome::Waiting },
    };
    let gap = now.wrapping_sub(h.seen);
    let seen = Hold { seen: now, ..h };
    if h.outcome != Outcome::Waiting {
        (seen, None)
    } else if gap >= LONG_PRESS_MS {
        (Hold { since: now, ..seen }, None)
    } else if now.wrapping_sub(h.since) >= LONG_PRESS_MS {
        (seen, Some(h.origin))
    } else {
        (seen, None)
    }
}

impl RuntimeState {
    /// Times a held finger at `point`. Returns where it went down on the frame
    /// the hold crosses the threshold, and `None` on every other.
    ///
    /// The caller settles the outcome, so this answers once per hold.
    pub fn crossed<H: Clock>(&mut self, host: &H, point: Point) -> (r: Option<Point>)
        ensures
            (final(self).hold, r) == ({
                let (h, at) = spec_crossed(old(self).hold, point, host.spec_millis());
                (Some(h), at)
            }),
            *final(self) == (RuntimeState { hold: final(self).hold, ..*old(self) }),
    {
        let now = host.millis();
        let mut hold = match self.hold {
            Some(h) => h,
            None => Hold { origin: point, since: now, seen: now, outcome: Outcome::Waiting },
        };
        let gap = now.wrapping_sub(hold.seen);
        hold.seen = now;
        let answer = if hold.outcome != Outcome::Waiting {
            None
        } else if gap >= LONG_PRESS_MS {
            hold.since = now;
            None
        } else if now.wrapping_sub(hold.since) >= LONG_PRESS_MS {
            Some(hold.origin)
        } else {
            None
        };
        self.hold = Some(hold);
        answer
    }
}

/// What one frame of touch does, from the runtime's state `before` and the
/// messages `sent0` it had handed the screen, to `after` and `sent`, given the
/// table it settled, what the screen answered a background tap, and the
/// frame's input on `host`; `r` is whether the touch consumed the frame.
///
/// A finger held on a drag region sends that region's message and starts a
/// drag. A hold that crosses the long-press threshold on a long-press region
/// still under the finger sends that region's message once; any other held
/// frame sends nothing. The release that ends a drag, or a long press that
/// fired, is swallowed. A tap sends the tapped region's message, else under a
/// dialog its dismissal, else whatever the screen answers a background tap.
/// A frame the touch does not consume sends nothing.
pub open spec fn touch_outcome<M: Clone, H: InputSource + Clock + Chrome>(
    before: RuntimeState,
    sent0: Seq<M>,
    after: RuntimeState,
    sent: Seq<M>,
    table: Interactions<M>,
    answer: Option<M>,
    host: &H,
    r: bool,
) -> bool {
    let items = table.spec_items();
    let m = sent.last();
    let pushed = sent == sent0.push(m);
    &&& after.painted == before.painted
    &&& after.editing == before.editing
    &&& after.repeat == before.repeat
    &&& !r ==> sent == sent0
    &&& (host.spec_touch_held() is None && host.spec_touch_released() && before.dragging) ==> {
        &&& r
        &&& !after.dragging
        &&& after.hold is None
        &&& sent == sent0
    }
    &&& (host.spec_touch_held() is None && (host.spec_touch_released() || host.spec_tap() is Some) && !before.dragging
        && (before.hold matches Some(hold) && hold.outcome == Outcome::Fired)) ==> {
        &&& r
        &&& after.hold is None
        &&& sent == sent0
    }
    &&& (host.spec_touch_held() is None && !host.spec_touch_released() && host.spec_tap() is None) ==> !r && after
        == before
    &&& (host.spec_touch_held() is Some && !host.spec_touch_released() && host.spec_tap() is None) ==> {
        let p = host.spec_touch_held().unwrap();
        let (held, at) = spec_crossed(before.hold, p, host.spec_millis());
        let dragged = exists|i: int| is_last_hit(items, p, InputMask::drag_spec(), i);
        let pressed = at is Some && exists|i: int|
            is_last_hit(items, at.unwrap(), InputMask::long_press_spec(), i) && items[i].rect.spec_contains(p);
        &&& dragged ==> {
            &&& r && pushed
            &&& after.dragging
            &&& after.hold is None
            &&& exists|i: int| is_last_hit(items, p, InputMask::drag_spec(), i) && resolves_to(host, items[i], p.x, m)
        }
        &&& (!dragged && pressed) ==> {
            &&& r && pushed
            &&& after.hold == Some(Hold { outcome: Outcome::Fired, ..held })
            &&& exists|i: int|
                is_last_hit(items, at.unwrap(), InputMask::long_press_spec(), i) && items[i].rect.spec_contains(p)
                    && resolves_to(host, items[i], at.unwrap().x, m)
        }
        &&& (!dragged && !pressed) ==> {
            &&& !r && sent == sent0
            &&& after.dragging == before.dragging
            &&& after.hold == Some(if at is Some { Hold { outcome: Outcome::Declined, ..held } } else { held })
        }
    }
    &&& (host.spec_touch_held() is None && host.spec_tap() is Some && !before.dragging && !(before.hold matches Some(
        hold,
    ) && hold.outcome == Outcome::Fired)) ==> {
        let p = host.spec_tap().unwrap();
        let hit = exists|i: int| is_last_hit(items, p, InputMask::tap_spec(), i);
        &&& after.hold is None
        &&& hit ==> r && pushed && exists|i: int|
            is_last_hit(items, p, InputMask::tap_spec(), i) && resolves_to(host, items[i], p.x, m)
        &&& (!hit && table.spec_captured() is Some && table.spec_dismissal() is Some) ==> r && pushed && cloned(
            table.spec_dismissal().unwrap(),
            m,
        )
        &&& (!hit && !(table.spec_captured() is Some && table.spec_dismissal() is Some)) ==> match answer {
            Some(a) => r && sent == sent0.push(a),
            None => !r && sent == sent0,
        }
    }
}

impl<S: Messages> Runtime<S> {
    /// One frame of touch: a drag, a long press, then a tap. Returns whether
    /// it consumed the frame.
    ///
    /// **The release that ends a drag is swallowed**, or it would read as a
    /// tap elsewhere and, on an overlay, close the panel. **The release that
    /// ends a long press that fired is swallowed too**: the same finger
    /// already said what it meant.
    pub fn touch<H: Host, D>(&mut self, host: &mut H, shell: &mut AppShell<D>) -> (r: bool)
        where S: Screen<H, D>,
        ensures
            touch_outcome(
                old(self).spec_state(),
                old(self).spec_sent(),
                final(self).spec_state(),
                final(self).spec_sent(),
                final(self).spec_table(),
                final(self).spec_answer(),
                &*old(host),
                r,
            ),
            !r ==> *final(host) == *old(host),
            final(self).spec_hooks() == old(self).spec_hooks(),
            !r || (old(host).spec_touch_held() is None && ((old(host).spec_touch_released()
                && old(self).spec_state().dragging) || ((old(host).spec_touch_released() || old(host).spec_tap()
                is Some) && !old(self).spec_state().dragging && (old(self).spec_state().hold matches Some(hold)
                && hold.outcome == Outcome::Fired)))) ==> final(self).spec_screen() == old(self).spec_screen(),
    {
        match Input::touch_held(&*host) {
            Some(point) => {
                let interactions = self.collect_settled::<H, D>(&*host);
                match resolve(&*host, &interactions, point, InputMask::drag()) {
                    Some(message) => {
                        self.state.dragging = true;
                        self.state.hold = None;
                        self.dispatch::<H, D>(message, host, shell);
                        return true;
                    },
                    None => {},
                }
                match self.state.crossed(&*host, point) {
                    Some(origin) => {
                        let message = long_press(&*host, &interactions, origin, point);
                        match self.state.hold {
                            Some(hold) => {
                                let outcome = if message.is_some() {
                                    Outcome::Fired
                                } else {
                                    Outcome::Declined
                                };
                                self.state.hold = Some(Hold { outcome, ..hold });
                            },
                            None => {},
                        }
                        match message {
                            Some(message) => {
                                self.dispatch::<H, D>(message, host, shell);
                                return true;
                            },
                            None => {},
                        }
                    },
                    None => {},
                }
            },
            None => {},
        }
        let released = Input::touch_released(&*host);
        if released && self.state.dragging {
            self.state.dragging = false;
            self.state.hold = None;
            return true;
        }
        let tap = Input::tap(&*host);
        let fired = match self.state.hold {
            Some(hold) => hold.outcome == Outcome::Fired,
            None => false,
        };
        if released || tap.is_some() {
            self.state.hold = None;
        }
        if fired && (released || tap.is_some()) {
            return true;
        }
        let point = match tap {
            Some(point) => point,
            None => return false,
        };
        let interactions = self.collect_settled::<H, D>(&*host);
        match resolve(&*host, &interactions, point, InputMask::tap()) {
            Some(message) => {
                self.dispatch::<H, D>(message, host, shell);
                return true;
            },
            None => {},
        }
        if interactions.captured_focus().is_some() {
            match interactions.dismissal() {
                Some(message) => {
                    let message = message.clone();
                    self.dispatch::<H, D>(message, host, shell);
                    return true;
                },
                None => {},
            }
        }
        let answer = self.screen.on_background_tap(point);
        self.answer = Ghost(answer);
        match answer {
            Some(message) => {
                self.dispatch::<H, D>(message, host, shell);
                true
            },
            None => false,
        }
    }
}

/// **A hold answers once.** After the frame a hold crosses on, every later
/// frame of the same hold answers nothing, however long the finger stays,
/// once the caller has settled the outcome.
pub proof fn lemma_a_settled_hold_answers_no_more(hold: Hold, point: Point, now: u32)
    requires
        hold.outcome != Outcome::Waiting,
    ensures
        spec_crossed(Some(hold), point, now).1 is None,
        spec_crossed(Some(hold), point, now).0.outcome == hold.outcome,
{
}

/// **A blind gap does not count towards a hold.** A frame coming the
/// threshold or more after the last held frame re-arms the hold from now and
/// does not fire.
pub proof fn lemma_a_blind_gap_rearms_the_hold(hold: Hold, point: Point, now: u32)
    requires
        hold.outcome == Outcome::Waiting,
        now.wrapping_sub(hold.seen) >= LONG_PRESS_MS,
    ensures
        spec_crossed(Some(hold), point, now).1 is None,
        spec_crossed(Some(hold), point, now).0.since == now,
{
}

} // verus!
