//! A value slider.
use vstd::prelude::*;

use crate::geometry::{Point, Rect, Size, add_sat, clamp_zero, sat_i32, sub_sat};
use crate::host::chrome::{ControlState, Theme, ThemeMetric};
use crate::host::Host;
use crate::view::interaction::{InputMask, Interactions};
use crate::view::make::{Make, Minter};
use crate::view::trigger::Trigger;
use crate::view::bounds;
use crate::widgets::readout::{Header, readout_text};
use crate::host::drawing::{Drawn, extends};
use crate::host::canvas::max_int;
use crate::host::metrics::{Font, FontRole};

verus! {

/// What the keys will do to a value control next: editing when it holds
/// focus while an edit is open, focused when it holds focus, idle otherwise.
pub open spec fn spec_control_state(holds_focus: bool, editing: bool) -> ControlState {
    if holds_focus && editing {
        ControlState::Editing
    } else if holds_focus {
        ControlState::Focused
    } else {
        ControlState::Idle
    }
}

/// What the keys will do to a value control next.
pub fn control_state(holds_focus: bool, editing: bool) -> (r: ControlState)
    ensures
        r == spec_control_state(holds_focus, editing),
{
    if holds_focus && editing {
        ControlState::Editing
    } else if holds_focus {
        ControlState::Focused
    } else {
        ControlState::Idle
    }
}

/// A horizontal slider showing `value` out of `max`.
///
/// Stateless by design: it draws the value it is given and never changes it.
/// Given [`on_change`](Slider::on_change), the framework converts a touch into
/// a value. It is also a focus stop: Up and Down reach it, and Left and Right
/// move it one step against its own bounds.
#[verifier::reject_recursive_types(M)]
pub struct Slider<M> {
    value: i32,
    max: i32,
    make: Option<Minter<i32, M>>,
    embedded: bool,
    state: ControlState,
    readout: Option<&'static str>,
    title: Option<String>,
    measured: Size,
}

impl<M> Slider<M> {
    /// What the slider reads.
    pub closed spec fn spec_value(&self) -> i32 {
        self.value
    }

    /// The top of its range.
    pub closed spec fn spec_max(&self) -> i32 {
        self.max
    }

    /// Whether a touch or a key can change it.
    pub closed spec fn spec_reports(&self) -> bool {
        self.make is Some
    }

    /// The message it reports `value` with, when it reports at all.
    pub closed spec fn spec_made(&self, value: i32) -> M {
        match self.make {
            Some(make) => make.spec_make(value),
            None => vstd::pervasive::arbitrary(),
        }
    }

    /// Whether the slider is a track inside a larger control, with no focus
    /// stop of its own.
    pub closed spec fn spec_embedded(&self) -> bool {
        self.embedded
    }

    /// What the keys will do to it next, as the last walk learned.
    pub closed spec fn spec_state(&self) -> ControlState {
        self.state
    }

    /// The unit shown after its number, when it shows one.
    pub closed spec fn spec_readout(&self) -> Option<&'static str> {
        self.readout
    }

    /// The name on its header line, when it carries one.
    pub closed spec fn spec_title(&self) -> Option<Seq<char>> {
        match self.title {
            Some(t) => Some(t@),
            None => None,
        }
    }

    /// The size the last `measure` settled on.
    pub closed spec fn spec_measured(&self) -> Size {
        self.measured
    }

    /// A slider at `value` of `max`. A `max` of zero renders empty rather than
    /// dividing by zero.
    pub fn new(value: i32, max: i32) -> (r: Self)
        ensures
            r.spec_value() == value,
            r.spec_max() == max,
            !r.spec_reports(),
            !r.spec_embedded(),
            r.spec_state() == ControlState::Idle,
            r.spec_readout() is None,
            r.spec_title() is None,
            r.spec_measured() == (Size { width: 0, height: 0 }),
    {
        Slider {
            value,
            max,
            make: None,
            embedded: false,
            state: ControlState::Idle,
            readout: None,
            title: None,
            measured: Size::zero(),
        }
    }

    /// A slider at `percent` of the way along, held inside `0..=100`.
    pub fn percent(percent: i32) -> (r: Self)
        ensures
            r.spec_value() == (if percent < 0 {
                0
            } else if percent > 100 {
                100
            } else {
                percent
            }),
            r.spec_max() == 100,
            !r.spec_reports(),
    {
        let v = if percent < 0 {
            0
        } else if percent > 100 {
            100
        } else {
            percent
        };
        Slider::new(v, 100)
    }

    /// Reports drags, taps and nudges by building a message from the new
    /// value.
    pub fn on_change<F: Make<i32, M> + Copy + 'static>(self, make: F) -> (r: Self)
        ensures
            forall|value: i32| #[trigger] r.spec_made(value) == make.made(value),
            r.spec_value() == self.spec_value(),
            r.spec_max() == self.spec_max(),
            r.spec_reports(),
            r.spec_embedded() == self.spec_embedded(),
            r.spec_readout() == self.spec_readout(),
            r.spec_title() == self.spec_title(),
    {
        Slider { make: Some(Minter::new(make)), ..self }
    }

    /// Reports through a constructor already kept, as a larger control hands
    /// its track one.
    pub fn on_change_with(self, make: Minter<i32, M>) -> (r: Self)
        ensures
            forall|value: i32| #[trigger] r.spec_made(value) == make.spec_make(value),
            r.spec_value() == self.spec_value(),
            r.spec_max() == self.spec_max(),
            r.spec_reports(),
            r.spec_embedded() == self.spec_embedded(),
            r.spec_readout() == self.spec_readout(),
            r.spec_title() == self.spec_title(),
    {
        Slider { make: Some(make), ..self }
    }

    /// Draws the value as a number on a line above the track, at its trailing
    /// edge, followed by `suffix`.
    pub fn readout(self, suffix: &'static str) -> (r: Self)
        ensures
            forall|value: i32| #[trigger] r.spec_made(value) == self.spec_made(value),
            r.spec_value() == self.spec_value(),
            r.spec_max() == self.spec_max(),
            r.spec_reports() == self.spec_reports(),
            r.spec_embedded() == self.spec_embedded(),
            r.spec_readout() == Some(suffix),
            r.spec_title() == self.spec_title(),
    {
        Slider { readout: Some(suffix), ..self }
    }

    /// Names the control on the same line as its number.
    pub fn title(self, title: &str) -> (r: Self)
        ensures
            forall|value: i32| #[trigger] r.spec_made(value) == self.spec_made(value),
            r.spec_value() == self.spec_value(),
            r.spec_max() == self.spec_max(),
            r.spec_reports() == self.spec_reports(),
            r.spec_embedded() == self.spec_embedded(),
            r.spec_readout() == self.spec_readout(),
            r.spec_title() == Some(title@),
    {
        Slider { title: Some(title.to_owned()), ..self }
    }

    /// Keeps this track from declaring a focus stop of its own, as
    /// [`without_focus`](Slider::without_focus) does, for the control that
    /// holds it and owns the stop.
    pub fn embed(&mut self)
        ensures
            final(self).spec_embedded(),
            final(self).spec_value() == old(self).spec_value(),
            final(self).spec_max() == old(self).spec_max(),
            final(self).spec_reports() == old(self).spec_reports(),
            final(self).spec_readout() == old(self).spec_readout(),
            final(self).spec_title() == old(self).spec_title(),
            final(self).spec_measured() == old(self).spec_measured(),
    {
        self.embedded = true;
    }

    /// Drops this slider's focus stop, for a track inside a larger control that
    /// owns the stop itself. Touch is unaffected.
    pub fn without_focus(self) -> (r: Self)
        ensures
            forall|value: i32| #[trigger] r.spec_made(value) == self.spec_made(value),
            r.spec_value() == self.spec_value(),
            r.spec_max() == self.spec_max(),
            r.spec_reports() == self.spec_reports(),
            r.spec_embedded(),
            r.spec_readout() == self.spec_readout(),
            r.spec_title() == self.spec_title(),
    {
        Slider { embedded: true, ..self }
    }

    /// The size the last `measure` settled on.
    pub fn measured(&self) -> (r: Size)
        ensures
            r == self.spec_measured(),
    {
        self.measured
    }

    /// The name-and-number line above the track.
    pub fn header(&self) -> (r: Header<'_>)
        ensures
            r.title is None <==> self.spec_title() is None,
            r.title matches Some(t) ==> self.spec_title() == Some(t@),
            r.value == (match self.spec_readout() {
                Some(suffix) => Some((self.spec_value(), suffix)),
                None => None,
            }),
    {
        let title = match &self.title {
            Some(t) => Some(t.as_str()),
            None => None,
        };
        let value = match self.readout {
            Some(suffix) => Some((self.value, suffix)),
            None => None,
        };
        Header { title, value }
    }

    /// What the header line costs above the track, gap included, or zero.
    pub open spec fn spec_header_height<H: Host>(&self, host: &H) -> int {
        if self.spec_title() is None && self.spec_readout() is None {
            0
        } else {
            sat_i32(
                Font::spec_role(host, FontRole::Ui).spec_line_height(host) + host.spec_metric(
                    ThemeMetric::SpacingSmall,
                ),
            )
        }
    }

    /// The track's rect at `origin`: below the header, across the width.
    pub open spec fn spec_track_bounds<H: Host>(&self, host: &H, origin: Point) -> Rect {
        let top = self.spec_header_height(host);
        let height = sat_i32(self.spec_measured().height - top);
        Rect::spec_new(
            origin.x as int,
            sat_i32(origin.y + top),
            self.spec_measured().width as int,
            if height < 0 { 0 } else { height },
        )
    }

    /// The track alone: the control's rect less whatever the header took. Used
    /// for the touch region as well as the paint, so the knob sits where the
    /// finger is.
    pub fn track_bounds<H: Host>(&self, host: &H, origin: Point) -> (r: Rect)
        ensures
            r.origin.x == origin.x,
            r.size.width == clamp_zero(self.spec_measured().width as int),
            r == self.spec_track_bounds(host, origin),
    {
        let top = self.header().height(host);
        let y = add_sat(origin.y, top);
        let height = sub_sat(self.measured.height, top);
        Rect::new(origin.x, y, self.measured.width, if height < 0 { 0 } else { height })
    }
}

impl<M, H: Host> crate::view::View<M, H> for Slider<M> {
    /// The whole width it is given; a row tall enough for the knob, under a
    /// header line when the slider has a name or a number to show.
    fn measure(&mut self, host: &H, available: Size)
        ensures
            final(self).spec_measured().width == clamp_zero(available.width as int),
            final(self).spec_measured().height == clamp_zero(
                sat_i32(
                    max_int(
                        host.spec_metric(ThemeMetric::ListRowHeight) as int,
                        host.spec_metric(ThemeMetric::SliderKnobHeight) as int,
                    ) + (if old(self).spec_title() is None && old(self).spec_readout() is None {
                        0
                    } else {
                        sat_i32(
                            Font::spec_role(host, FontRole::Ui).spec_line_height(host)
                                + host.spec_metric(ThemeMetric::SpacingSmall),
                        )
                    }),
                ),
            ),
            final(self).spec_value() == old(self).spec_value(),
            final(self).spec_max() == old(self).spec_max(),
            final(self).spec_title() == old(self).spec_title(),
            final(self).spec_readout() == old(self).spec_readout(),
            final(self).spec_state() == old(self).spec_state(),
            final(self).spec_reports() == old(self).spec_reports(),
            final(self).spec_embedded() == old(self).spec_embedded(),
    {
        let row_height = Theme::metric(host, ThemeMetric::ListRowHeight);
        let knob = Theme::metric(host, ThemeMetric::SliderKnobHeight);
        let row = if row_height >= knob { row_height } else { knob };
        let header = self.header().height(host);
        self.measured = Size::new(available.width, add_sat(row, header));
    }

    fn size(&self) -> Size {
        self.measured
    }

    /// A slider that reports declares, unless a larger control owns its
    /// stop, one focus stop over the whole control that the keys adjust, then
    /// a touch region over the track that answers taps and drags; both carry
    /// its value and range. While it holds focus and an edit is open, it
    /// shows the edit's working value.
    fn interactions(&mut self, host: &H, origin: Point, out: &mut Interactions<M>)
        ensures
            !old(self).spec_reports() ==> *final(out) == *old(out) && *final(self) == *old(self),
            old(self).spec_reports() && !old(out).spec_ignoring() ==> {
                let n = old(out).spec_items().len();
                let items = final(out).spec_items();
                let stops = if old(self).spec_embedded() { 0int } else { 1int };
                &&& items.len() == n + stops + 1
                &&& items.take(n as int) == old(out).spec_items()
                &&& !old(self).spec_embedded() ==> {
                    &&& items[n as int].rect == (Rect { origin, size: old(self).spec_measured() })
                    &&& items[n as int].mask.spec_contains(InputMask::focus_spec())
                    &&& items[n as int].mask.spec_contains(InputMask::adjust_spec())
                    &&& (items[n as int].trigger matches Trigger::Value { max, value, .. } && max
                        == old(self).spec_max() && value == old(self).spec_value())
                }
                &&& items.last().mask.spec_contains(InputMask::tap_spec())
                &&& items.last().mask.spec_contains(InputMask::drag_spec())
                &&& !old(self).spec_embedded() ==> items[n as int].mask.bits() == 18
                &&& items.last().mask.bits() == 5
                &&& items.last().rect == old(self).spec_track_bounds(host, origin)
                &&& final(out).spec_focusable() == old(out).spec_focusable() + stops
                &&& (items.last().trigger matches Trigger::Value { max, value, .. } && max == old(
                    self,
                ).spec_max() && value == old(self).spec_value())
                &&& (items.last().trigger matches Trigger::Value { make, .. } && forall|v: i32|
                    #[trigger] make.spec_make(v) == old(self).spec_made(v))
                &&& !old(self).spec_embedded() ==> (items[n as int].trigger matches Trigger::Value { make, .. }
                    && forall|v: i32| #[trigger] make.spec_make(v) == old(self).spec_made(v))
            },
            old(self).spec_reports() ==> ({
                let holds = if old(self).spec_embedded() {
                    old(out).spec_parent_focused()
                } else {
                    !old(out).spec_ignoring() && old(out).spec_focusable() == old(out).spec_focus()
                };
                &&& final(self).spec_value() == (if holds && old(out).spec_editing() is Some {
                    old(out).spec_editing().unwrap()
                } else {
                    old(self).spec_value()
                })
                &&& final(self).spec_state() == spec_control_state(
                    holds,
                    old(out).spec_editing() is Some,
                )
            }),
            final(out).spec_items().len() >= old(out).spec_items().len(),
            final(out).spec_items().take(old(out).spec_items().len() as int) == old(out).spec_items(),
            final(out).spec_ignoring() == old(out).spec_ignoring(),
            old(self).spec_embedded() || !old(self).spec_reports() ==> final(out).spec_focusable() == old(
                out,
            ).spec_focusable(),
            final(self).spec_max() == old(self).spec_max(),
            final(self).spec_reports() == old(self).spec_reports(),
            final(self).spec_embedded() == old(self).spec_embedded(),
            final(self).spec_measured() == old(self).spec_measured(),
    {
        proof {
            InputMask::lemma_bits();
            assert(out.spec_items().take(out.spec_items().len() as int) =~= out.spec_items());
            assert(2u8 | 16u8 == 18u8) by (bit_vector);
            assert(1u8 | 4u8 == 5u8) by (bit_vector);
            assert(18u8 & 2u8 == 2u8) by (bit_vector);
            assert(5u8 & 2u8 == 0u8) by (bit_vector);
        }
        let focused = match &self.make {
            None => {
                return;
            },
            Some(make) => {
                let whole = bounds(self.measured, origin);
                let track = self.track_bounds(host, origin);
                let focused = if !self.embedded {
                    out.declare(
                        whole,
                        InputMask::focus().union(InputMask::adjust()),
                        Trigger::Value { make: make.mint(), max: self.max, value: self.value },
                    )
                } else {
                    false
                };
                out.declare(
                    track,
                    InputMask::tap().union(InputMask::drag()),
                    Trigger::Value { make: make.mint(), max: self.max, value: self.value },
                );
                focused
            },
        };
        let holds_focus = if self.embedded {
            out.parent_focused()
        } else {
            focused
        };
        if holds_focus {
            match out.editing_value() {
                Some(value) => {
                    self.value = value;
                },
                None => {},
            }
        }
        self.state = control_state(holds_focus, out.is_editing());
    }

    /// The header line, then, where the range is not empty, the themed track
    /// under it at the slider's value, in the state the last walk learned.
    fn render(&self, host: &mut H, origin: Point)
        ensures
            (self.spec_measured().width == 0 || self.spec_measured().height == 0) ==> final(host).spec_drawn()
                == old(host).spec_drawn(),
            !(self.spec_measured().width == 0 || self.spec_measured().height == 0) ==> {
                let before = old(host).spec_drawn();
                let after = final(host).spec_drawn();
                let face = Font::spec_role(old(host), FontRole::Ui);
                &&& after.len() == before.len() + (if self.spec_title() is Some { 1int } else { 0 })
                    + (if self.spec_readout() is Some { 1int } else { 0 }) + (if self.spec_max() > 0 {
                    1int
                } else {
                    0
                })
                &&& self.spec_title() matches Some(t) ==> after[before.len() as int] == Drawn::Text {
                    origin,
                    text: t,
                    font: face.spec_id(),
                    style: face.spec_style(),
                }
                &&& self.spec_max() > 0 ==> (after.last() matches Drawn::Slider { rect, value, max, state }
                    && value == self.spec_value() && max == self.spec_max() && state == self.spec_state()
                    && rect.origin.x == origin.x && rect.size.width == clamp_zero(
                    self.spec_measured().width as int,
                ))
                &&& (self.spec_max() > 0 && self.spec_readout() is Some) ==> (after[after.len() - 2] matches Drawn::Text {
                    text,
                    ..
                } && text == readout_text(self.spec_value() as int, self.spec_readout().unwrap()@))
                &&& (self.spec_max() <= 0 && self.spec_readout() is Some) ==> (after.last() matches Drawn::Text {
                    text,
                    ..
                } && text == readout_text(self.spec_value() as int, self.spec_readout().unwrap()@))
            },
            extends(old(host).spec_drawn(), final(host).spec_drawn()),
    {
        if self.measured.is_empty() {
            return;
        }
        self.header().render(host, bounds(self.measured, origin));
        if self.max <= 0 {
            return;
        }
        let track = self.track_bounds(&*host, origin);
        Theme::draw_slider(host, track, self.value, self.max, self.state);
    }
}

} // verus!
