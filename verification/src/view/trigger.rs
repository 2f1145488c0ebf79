//! What a declaration turns into: the message a touch or a key produces.
//!
//! A widget says *what kind of thing* it is — a row, an absolute value, a
//! relative nudge — and the runtime turns one frame of input into the screen's
//! own message. The arithmetic lives here: converting a touch position into a
//! value, nudging an absolute control by one step, and moving the copy an
//! open edit holds.
use vstd::prelude::*;

use crate::geometry::Rect;
use crate::host::chrome::{Chrome, ThemeMetric};
use crate::view::make::Maker;

verus! {

/// `a / b` rounded toward zero, as integer division on machine integers does.
pub open spec fn trunc_div(a: int, b: int) -> int {
    if a >= 0 {
        a / b
    } else {
        -((-a) / b)
    }
}

/// `v` held inside `lo..=hi`.
pub open spec fn clamp(v: int, lo: int, hi: int) -> int {
    if v < lo {
        lo
    } else if v > hi {
        hi
    } else {
        v
    }
}

/// `a + b` held inside `i32`, as `saturating_add` computes it.
pub open spec fn sat_add(a: int, b: int) -> int {
    clamp(a + b, i32::MIN as int, i32::MAX as int)
}

/// `a + b` held inside `i32`.
pub fn saturating_add(a: i32, b: i32) -> (r: i32)
    ensures
        r == sat_add(a as int, b as int),
{
    let wide: i64 = a as i64 + b as i64;
    if wide > i32::MAX as i64 {
        i32::MAX
    } else if wide < i32::MIN as i64 {
        i32::MIN
    } else {
        wide as i32
    }
}

/// The value one step of `delta` from `value` reaches inside `0..=max`: a
/// control whose `max` is not positive has no room to move and reads zero.
pub open spec fn spec_stepped(value: int, delta: int, max: int) -> int {
    clamp(sat_add(value, delta), 0, if max < 0 { 0 } else { max })
}

/// The value a touch at `x` represents within `track`, given the slider's
/// side inset and knob width, rounded to nearest.
pub open spec fn spec_value_at(inset: int, knob: int, track: Rect, x: int, max: int) -> int {
    let span = track.size.width - inset * 2 - knob;
    let usable = if span < 1 { 1 } else { span };
    let offset = clamp(x - track.origin.x - inset - trunc_div(knob, 2), 0, usable);
    trunc_div(offset * max + usable / 2, usable)
}

/// What a touch at `x` on `track` reads on `host`.
pub open spec fn spec_value_at_on<H: Chrome>(host: &H, track: Rect, x: int, max: int) -> int {
    spec_value_at(
        host.spec_metric(ThemeMetric::SliderSideInset) as int,
        host.spec_metric(ThemeMetric::SliderKnobWidth) as int,
        track,
        x,
        max,
    )
}

proof fn lemma_value_at_fits(offset: int, usable: int, max: int)
    requires
        usable >= 1,
        0 <= offset <= usable,
        i32::MIN <= max <= i32::MAX,
    ensures
        i32::MIN <= trunc_div(offset * max + usable / 2, usable) <= i32::MAX,
        max >= 0 ==> 0 <= trunc_div(offset * max + usable / 2, usable) <= max,
{
    if max >= 0 {
        assert(0 <= offset * max <= usable * max) by (nonlinear_arith)
            requires
                0 <= offset <= usable,
                max >= 0,
        ;
        assert((offset * max + usable / 2) / usable <= max) by (nonlinear_arith)
            requires
                0 <= offset * max <= usable * max,
                usable >= 1,
                max >= 0,
        ;
        assert((offset * max + usable / 2) / usable >= 0) by (nonlinear_arith)
            requires
                0 <= offset * max,
                usable >= 1,
        ;
    } else {
        assert(usable * max <= offset * max <= 0) by (nonlinear_arith)
            requires
                0 <= offset <= usable,
                max < 0,
        ;
        let a = offset * max + usable / 2;
        if a >= 0 {
            assert(a / usable <= usable / 2 / usable) by (nonlinear_arith)
                requires
                    a <= usable / 2,
                    usable >= 1,
                    a >= 0,
            ;
            assert(usable / 2 / usable == 0) by (nonlinear_arith)
                requires
                    usable >= 1,
            ;
        } else {
            assert((-a) / usable <= -max) by (nonlinear_arith)
                requires
                    -a <= -(usable * max),
                    usable >= 1,
                    max < 0,
            ;
            assert((-a) / usable >= 0) by (nonlinear_arith)
                requires
                    -a > 0,
                    usable >= 1,
            ;
        }
    }
}

/// The value a touch at `x` represents within `track`.
///
/// Rounds to nearest. The inset and knob width come from the theme, since the
/// host draws the knob. Worked in 64 bits, so no touch and no range can
/// overflow on the way; the answer always fits the control's own range.
pub fn value_at<H: Chrome>(host: &H, track: Rect, x: i32, max: i32) -> (r: i32)
    ensures
        r == spec_value_at_on(host, track, x as int, max as int),
        max >= 0 ==> 0 <= r <= max,
{
    let inset = host.metric(ThemeMetric::SliderSideInset) as i128;
    let knob = host.metric(ThemeMetric::SliderKnobWidth) as i128;
    let span: i128 = track.size.width as i128 - inset * 2 - knob;
    let usable: i128 = if span < 1 { 1 } else { span };
    let half_knob: i128 = knob / 2;
    assert(half_knob == trunc_div(knob as int, 2));
    let raw: i128 = x as i128 - track.origin.x as i128 - inset - half_knob;
    let offset: i128 = if raw < 0 { 0 } else if raw > usable { usable } else { raw };
    assert(-0x1_0000_0000_0000_0000_0000 <= offset * max as i128 <= 0x1_0000_0000_0000_0000_0000) by (nonlinear_arith)
        requires
            0 <= offset <= usable,
            usable <= 0x10_0000_0000,
            i32::MIN <= max <= i32::MAX,
    ;
    let numerator: i128 = offset * max as i128 + usable / 2;
    let q: i128 = numerator / usable;
    proof {
        lemma_value_at_fits(offset as int, usable as int, max as int);
    }
    assert(q == trunc_div(numerator as int, usable as int));
    q as i32
}

/// What an interaction produces when it fires.
///
/// [`Trigger::Message`] covers buttons, rows and toggles: the widget knows what
/// it means, so it builds the message when the tree is built.
/// [`Trigger::Value`] is for controls whose message depends on *where* the
/// touch landed; [`Trigger::Step`] is a relative nudge.
#[verifier::reject_recursive_types(M)]
pub enum Trigger<M> {
    /// A message built when the tree was.
    Message(M),
    /// An absolute value control.
    Value {
        /// Builds the message for a value.
        make: Maker<i32, M>,
        /// The top of the control's range.
        max: i32,
        /// What the control reads right now.
        value: i32,
    },
    /// A relative nudge: `-1` or `+1` from Left/Right, or from a `-`/`+` glyph.
    Step {
        /// Builds the message for a nudge.
        make: Maker<i32, M>,
        /// The top of the control's own range, so a held edit can clamp.
        max: i32,
        /// The message that sets this control outright, when it has one.
        set: Option<Maker<i32, M>>,
        /// What the control reads right now.
        value: i32,
    },
}

impl<M: Clone> Trigger<M> {
    /// Resolves to a message. `x` is the touch position, ignored by controls
    /// that do not depend on it; a nudge resolved from a position is a step
    /// of nothing.
    pub fn resolve<H: Chrome>(&self, host: &H, rect: Rect, x: i32) -> (r: M)
        ensures
            match self {
                Trigger::Message(message) => cloned(*message, r),
                Trigger::Value { make, max, .. } => r == make.spec_make(
                    spec_value_at_on(host, rect, x as int, *max as int) as i32,
                ),
                Trigger::Step { make, .. } => r == make.spec_make(0),
            },
    {
        match self {
            Trigger::Message(message) => message.clone(),
            Trigger::Value { make, max, .. } => make.make(value_at(host, rect, x, *max)),
            Trigger::Step { make, .. } => make.make(0),
        }
    }

    /// The message for a relative nudge, or `None` for a control that has no
    /// meaningful step. An absolute control is nudged by resolving
    /// `value + delta` against its own bounds.
    pub fn resolve_step(&self, delta: i32) -> (r: Option<M>)
        ensures
            match self {
                Trigger::Step { make, .. } => r == Some(make.spec_make(delta)),
                Trigger::Value { make, max, value } => r == Some(
                    make.spec_make(spec_stepped(*value as int, delta as int, *max as int) as i32),
                ),
                Trigger::Message(_) => r is None,
            },
    {
        match self {
            Trigger::Step { make, .. } => Some(make.make(delta)),
            Trigger::Value { make, max, value } => {
                let top = if *max < 0 { 0 } else { *max };
                let sum = saturating_add(*value, delta);
                let v = if sum < 0 { 0 } else if sum > top { top } else { sum };
                Some(make.make(v))
            },
            Trigger::Message(_) => None,
        }
    }

    /// The value the trigger carries, for a control that has one.
    pub open spec fn spec_reading(&self) -> Option<i32> {
        match self {
            Trigger::Value { value, .. } => Some(*value),
            Trigger::Step { value, .. } => Some(*value),
            Trigger::Message(_) => None,
        }
    }

    /// Whether the trigger can be set to a value outright.
    pub open spec fn spec_is_editable(&self) -> bool {
        match self {
            Trigger::Value { .. } => true,
            Trigger::Step { set, .. } => set is Some,
            Trigger::Message(_) => false,
        }
    }

    /// What the control reads now, for an editor to open on; `None` for a
    /// control with no reading at all.
    pub fn reading(&self) -> (r: Option<i32>)
        ensures
            match self {
                Trigger::Value { value, .. } | Trigger::Step { value, .. } => r == Some(*value),
                Trigger::Message(_) => r is None,
            },
            r == self.spec_reading(),
    {
        match self {
            Trigger::Value { value, .. } | Trigger::Step { value, .. } => Some(*value),
            Trigger::Message(_) => None,
        }
    }

    /// The message that sets this control to `value` outright, or `None` for
    /// one that can only be nudged.
    pub fn set_to(&self, value: i32) -> (r: Option<M>)
        ensures
            match self {
                Trigger::Value { make, .. } => r == Some(make.spec_make(value)),
                Trigger::Step { set, .. } => match set {
                    Some(set) => r == Some(set.spec_make(value)),
                    None => r is None,
                },
                Trigger::Message(_) => r is None,
            },
    {
        match self {
            Trigger::Value { make, .. } => Some(make.make(value)),
            Trigger::Step { set, .. } => match set {
                Some(set) => Some(set.make(value)),
                None => None,
            },
            Trigger::Message(_) => None,
        }
    }

    /// Whether an edit can open on this control at all: it needs a reading to
    /// open on and a way to be set outright.
    pub fn is_editable(&self) -> (r: bool)
        ensures
            r == (match self {
                Trigger::Value { .. } => true,
                Trigger::Step { set, .. } => set is Some,
                Trigger::Message(_) => false,
            }),
            r == self.spec_is_editable(),
    {
        match self {
            Trigger::Value { .. } => true,
            Trigger::Step { set, .. } => set.is_some(),
            Trigger::Message(_) => false,
        }
    }

    /// One step from `from`, held inside the control's own range; `None` for a
    /// control with no value at all. A control whose `max` is not positive has
    /// no room to move and answers `0`.
    pub fn stepped(&self, from: i32, delta: i32) -> (r: Option<i32>)
        ensures
            match self {
                Trigger::Value { max, .. } | Trigger::Step { max, .. } => r == Some(
                    spec_stepped(from as int, delta as int, *max as int) as i32,
                ),
                Trigger::Message(_) => r is None,
            },
            r matches Some(v) ==> 0 <= v,
    {
        let max = match self {
            Trigger::Value { max, .. } | Trigger::Step { max, .. } => *max,
            Trigger::Message(_) => return None,
        };
        let top = if max < 0 { 0 } else { max };
        let sum = saturating_add(from, delta);
        Some(if sum < 0 { 0 } else if sum > top { top } else { sum })
    }
}

/// Stepping an open value never leaves the control's range: however many
/// steps, the copy an edit holds stays inside `0..=max`.
pub proof fn lemma_stepped_stays_in_range(value: int, delta: int, max: int)
    ensures
        0 <= spec_stepped(value, delta, max),
        max >= 0 ==> spec_stepped(value, delta, max) <= max,
        max <= 0 ==> spec_stepped(value, delta, max) == 0,
{
}

/// At either end of the range a step outward stays put, and a step inward
/// moves by one.
pub proof fn lemma_stepped_stops_at_the_ends(max: int)
    requires
        1 <= max <= i32::MAX,
    ensures
        spec_stepped(0, -1, max) == 0,
        spec_stepped(0, 1, max) == 1,
        spec_stepped(max, 1, max) == max,
        spec_stepped(max, -1, max) == max - 1,
{
}

/// **A touch reads where it lands on the track, wherever the track sits.**
/// Moving the track and the touch together by `dx` reads the same value; the
/// touch at the knob's centre when the knob sits at the track's start reads
/// the bottom of the range, and one the usable width further on reads the
/// top.
pub proof fn lemma_value_at_moves_with_the_track(
    inset: int,
    knob: int,
    track: Rect,
    moved: Rect,
    x: int,
    dx: int,
    max: int,
)
    requires
        moved.size == track.size,
        moved.origin.x == track.origin.x + dx,
        max >= 0,
    ensures
        spec_value_at(inset, knob, moved, x + dx, max) == spec_value_at(inset, knob, track, x, max),
        ({
            let span = track.size.width - inset * 2 - knob;
            let usable = if span < 1 { 1 } else { span };
            let start = track.origin.x + inset + trunc_div(knob, 2);
            &&& spec_value_at(inset, knob, track, start, max) == 0
            &&& spec_value_at(inset, knob, track, start + usable, max) == max
        }),
{
    let span = track.size.width - inset * 2 - knob;
    let usable = if span < 1 { 1 } else { span };
    assert(usable / 2 / usable == 0) by (nonlinear_arith)
        requires
            usable >= 1,
    ;
    assert((usable * max + usable / 2) / usable == max) by (nonlinear_arith)
        requires
            usable >= 1,
            max >= 0,
            usable / 2 < usable,
            usable / 2 >= 0,
    ;
    assert(usable * max >= 0) by (nonlinear_arith)
        requires
            usable >= 1,
            max >= 0,
    ;
    let start = track.origin.x + inset + trunc_div(knob, 2);
    assert(start - track.origin.x - inset - trunc_div(knob, 2) == 0);
    assert(0 * max == 0);
    assert(spec_value_at(inset, knob, track, start, max) == trunc_div(0 * max + usable / 2, usable));
    assert(spec_value_at(inset, knob, track, start + usable, max) == trunc_div(usable * max + usable / 2, usable));
}

/// **A touch reads the nearest value.** Between the ends of its usable width a
/// touch `offset` pixels along reads the value nearest `offset * max /
/// usable`: it is off by at most half a step either way.
pub proof fn lemma_value_at_reads_the_nearest(inset: int, knob: int, track: Rect, x: int, max: int)
    requires
        max >= 0,
    ensures
        ({
            let span = track.size.width - inset * 2 - knob;
            let usable = if span < 1 { 1 } else { span };
            let offset = clamp(x - track.origin.x - inset - trunc_div(knob, 2), 0, usable);
            let r = spec_value_at(inset, knob, track, x, max);
            &&& -usable <= 2 * (offset * max - r * usable) <= usable
            &&& 0 <= r <= max
        }),
{
    let span = track.size.width - inset * 2 - knob;
    let usable = if span < 1 { 1 } else { span };
    let offset = clamp(x - track.origin.x - inset - trunc_div(knob, 2), 0, usable);
    let n = offset * max + usable / 2;
    assert(n >= 0) by (nonlinear_arith)
        requires
            offset >= 0,
            max >= 0,
            usable >= 1,
            n == offset * max + usable / 2,
    ;
    let r = n / usable;
    assert(r == spec_value_at(inset, knob, track, x, max));
    assert(r * usable <= n < r * usable + usable) by (nonlinear_arith)
        requires
            usable >= 1,
            n >= 0,
            r == n / usable,
    ;
    assert(-usable <= 2 * (offset * max - r * usable) <= usable) by (nonlinear_arith)
        requires
            r * usable <= offset * max + usable / 2 < r * usable + usable,
            usable >= 1,
    ;
    assert(r <= max) by (nonlinear_arith)
        requires
            r * usable <= offset * max + usable / 2,
            0 <= offset <= usable,
            usable / 2 < usable,
            max >= 0,
            usable >= 1,
    ;
    assert(r >= 0) by (nonlinear_arith)
        requires
            r == n / usable,
            n >= 0,
            usable >= 1,
    ;
}

/// **Inside the range a step moves by exactly its delta, and the opposite
/// step undoes it.**
pub proof fn lemma_stepping_back_undoes_a_step(value: int, delta: int, max: int)
    requires
        0 <= value <= max,
        0 <= value + delta <= max,
        max <= i32::MAX,
    ensures
        spec_stepped(value, delta, max) == value + delta,
        spec_stepped(spec_stepped(value, delta, max), -delta, max) == value,
{
}

} // verus!
