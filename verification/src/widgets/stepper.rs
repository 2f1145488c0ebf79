//! A slider flanked by `-` and `+` steps.
use vstd::prelude::*;

use crate::geometry::{Point, Rect, Size, add_sat, clamp_zero, sat_i32, sub_sat};
use crate::host::canvas::{Renderer, max_int};
use crate::host::drawing::{Drawn, extends};
use crate::host::chrome::{Theme, ThemeMetric};
use crate::host::metrics::{Font, FontRole};
use crate::host::Host;
use crate::view::interaction::{InputMask, Interaction, Interactions};
use crate::view::make::{Make, Minter};
use crate::view::trigger::{Trigger, saturating_add, spec_stepped, trunc_div};
use crate::view::bounds;
use crate::widgets::readout::Header;
use crate::widgets::slider::Slider;

verus! {

/// The laid-out row: the glyphs either side and the track between them.
#[verifier::reject_recursive_types(M)]
struct Row<M> {
    slider: Slider<M>,
    minus: Option<M>,
    plus: Option<M>,
    glyph: i32,
    gap: i32,
    touch: i32,
    height: i32,
    track_width: i32,
}

/// The row every adjustable setting uses: fine steps at each end, a draggable
/// track between them.
///
/// The glyphs sit in row-height squares, and each takes a touch target no
/// smaller than the theme's minimum, so a one-character `-` is still
/// comfortably hittable. The whole control is **one** focus stop, adjusted by
/// Left/Right.
#[verifier::reject_recursive_types(M)]
pub struct Stepper<M> {
    value: i32,
    max: i32,
    change: Option<Minter<i32, M>>,
    step: Option<Minter<i32, M>>,
    readout: Option<&'static str>,
    title: Option<String>,
    row: Option<Row<M>>,
    measured: Size,
}

impl<M: Clone + 'static> Stepper<M> {
    /// What the stepper reads.
    pub closed spec fn spec_value(&self) -> i32 {
        self.value
    }

    /// The top of its range.
    pub closed spec fn spec_max(&self) -> i32 {
        self.max
    }

    /// Whether it sends an absolute value.
    pub closed spec fn spec_has_change(&self) -> bool {
        self.change is Some
    }

    /// Whether it sends a relative nudge.
    pub closed spec fn spec_has_step(&self) -> bool {
        self.step is Some
    }

    /// The unit shown after its number, when it shows one.
    pub closed spec fn spec_readout(&self) -> Option<&'static str> {
        self.readout
    }

    /// The size the last `measure` settled on.
    pub closed spec fn spec_measured(&self) -> Size {
        self.measured
    }

    /// The name on its header line, when it carries one.
    pub closed spec fn spec_title(&self) -> Option<Seq<char>> {
        match self.title {
            Some(t) => Some(t@),
            None => None,
        }
    }

    /// The message its absolute constructor builds from `value`, when it has
    /// one.
    pub closed spec fn spec_change_made(&self, value: i32) -> M {
        match self.change {
            Some(change) => change.spec_make(value),
            None => vstd::pervasive::arbitrary(),
        }
    }

    /// The message its nudge constructor builds from `delta`, when it has
    /// one.
    pub closed spec fn spec_step_made(&self, delta: i32) -> M {
        match self.step {
            Some(step) => step.spec_make(delta),
            None => vstd::pervasive::arbitrary(),
        }
    }

    /// What a glyph `delta` steps away sends: the nudge when there is one,
    /// otherwise the value that far along, held inside the range.
    pub open spec fn spec_nudge(&self, delta: i32) -> Option<M> {
        if self.spec_has_step() {
            Some(self.spec_step_made(delta))
        } else if self.spec_has_change() {
            Some(self.spec_change_made(spec_stepped(self.spec_value() as int, delta as int, self.spec_max() as int) as i32))
        } else {
            None
        }
    }

    /// The message the built row's `-` glyph sends, when it has one.
    pub closed spec fn spec_minus(&self) -> Option<M> {
        match self.row {
            Some(row) => row.minus,
            None => None,
        }
    }

    /// The message the built row's `+` glyph sends, when it has one.
    pub closed spec fn spec_plus(&self) -> Option<M> {
        match self.row {
            Some(row) => row.plus,
            None => None,
        }
    }

    /// The embedded track's reading, range, and the message it reports
    /// `value` with.
    pub closed spec fn spec_track(&self, value: i32) -> (i32, i32, M) {
        match self.row {
            Some(row) => (row.slider.spec_value(), row.slider.spec_max(), row.slider.spec_made(value)),
            None => vstd::pervasive::arbitrary(),
        }
    }

    /// Whether the glyph row has been built, on the first `measure`.
    pub closed spec fn spec_built(&self) -> bool {
        self.row is Some
    }

    /// The edge of a glyph's square, as the row was built with.
    pub closed spec fn spec_glyph(&self) -> i32 {
        match self.row {
            Some(row) => row.glyph,
            None => 0,
        }
    }

    /// The gap between a glyph and the track, as the row was built with.
    pub closed spec fn spec_gap(&self) -> i32 {
        match self.row {
            Some(row) => row.gap,
            None => 0,
        }
    }

    /// The edge of a glyph's touch target, as the row was built with.
    pub closed spec fn spec_touch(&self) -> i32 {
        match self.row {
            Some(row) => row.touch,
            None => 0,
        }
    }

    /// Whether the built row draws a `-` glyph before its track.
    pub closed spec fn spec_has_minus(&self) -> bool {
        self.row matches Some(row) && row.minus is Some
    }

    /// Whether the built row draws a `+` glyph after its track.
    pub closed spec fn spec_has_plus(&self) -> bool {
        self.row matches Some(row) && row.plus is Some
    }

    /// How tall the embedded track measured.
    pub closed spec fn spec_track_height(&self) -> i32 {
        match self.row {
            Some(row) => row.slider.spec_measured().height,
            None => 0,
        }
    }

    /// How many lines the header draws: the name, the number, or both.
    pub open spec fn spec_header_lines(&self) -> int {
        (if self.spec_title() is Some { 1int } else { 0 }) + (if self.spec_readout() is Some { 1int } else { 0 })
    }

    /// A stepper over `0..=100`.
    pub fn new(value: i32) -> (r: Self)
        ensures
            r.spec_value() == value,
            r.spec_max() == 100,
            !r.spec_has_change(),
            !r.spec_has_step(),
    {
        Stepper::ranged(value, 100)
    }

    /// A stepper over `0..=max`.
    pub fn ranged(value: i32, max: i32) -> (r: Self)
        ensures
            r.spec_value() == value,
            r.spec_max() == max,
            !r.spec_has_change(),
            !r.spec_has_step(),
    {
        Stepper {
            value,
            max,
            change: None,
            step: None,
            readout: None,
            title: None,
            row: None,
            measured: Size::zero(),
        }
    }

    /// Draws the value as a number on the line above the row.
    pub fn readout(self, suffix: &'static str) -> (r: Self)
        ensures
            forall|value: i32| #[trigger] r.spec_change_made(value) == self.spec_change_made(value),
            forall|delta: i32| #[trigger] r.spec_step_made(delta) == self.spec_step_made(delta),
            r.spec_value() == self.spec_value(),
            r.spec_max() == self.spec_max(),
            r.spec_has_change() == self.spec_has_change(),
            r.spec_has_step() == self.spec_has_step(),
            r.spec_readout() == Some(suffix),
            r.spec_title() == self.spec_title(),
            r.spec_built() == self.spec_built(),
            r.spec_measured() == self.spec_measured(),
    {
        Stepper { readout: Some(suffix), ..self }
    }

    /// Names the control on the same line as its number.
    pub fn title(self, title: &str) -> (r: Self)
        ensures
            forall|value: i32| #[trigger] r.spec_change_made(value) == self.spec_change_made(value),
            forall|delta: i32| #[trigger] r.spec_step_made(delta) == self.spec_step_made(delta),
            r.spec_value() == self.spec_value(),
            r.spec_max() == self.spec_max(),
            r.spec_has_change() == self.spec_has_change(),
            r.spec_has_step() == self.spec_has_step(),
            r.spec_title() == Some(title@),
            r.spec_readout() == self.spec_readout(),
            r.spec_built() == self.spec_built(),
            r.spec_measured() == self.spec_measured(),
    {
        Stepper { title: Some(title.to_owned()), ..self }
    }

    /// Sends `make(new_value)` when the track is dragged or tapped. It is also
    /// what an open edit commits; given no `on_step`, it drives the glyphs and
    /// the Left/Right keys as well, one step either side, held inside the
    /// range.
    pub fn on_change<F: Make<i32, M> + Copy + 'static>(self, make: F) -> (r: Self)
        ensures
            forall|value: i32| #[trigger] r.spec_change_made(value) == make.made(value),
            forall|delta: i32| #[trigger] r.spec_step_made(delta) == self.spec_step_made(delta),
            r.spec_value() == self.spec_value(),
            r.spec_max() == self.spec_max(),
            r.spec_has_change(),
            r.spec_has_step() == self.spec_has_step(),
    {
        Stepper { change: Some(Minter::new(make)), ..self }
    }

    /// Sends `make(-1)` or `make(+1)` from the end glyphs and the Left/Right
    /// keys.
    pub fn on_step<F: Make<i32, M> + Copy + 'static>(self, make: F) -> (r: Self)
        ensures
            forall|delta: i32| #[trigger] r.spec_step_made(delta) == make.made(delta),
            forall|value: i32| #[trigger] r.spec_change_made(value) == self.spec_change_made(value),
            r.spec_value() == self.spec_value(),
            r.spec_max() == self.spec_max(),
            r.spec_has_change() == self.spec_has_change(),
            r.spec_has_step(),
    {
        Stepper { step: Some(Minter::new(make)), ..self }
    }

    /// What a glyph `delta` steps away sends: the nudge when there is one,
    /// otherwise the value that far along, held inside the range; nothing
    /// when the stepper reports nothing.
    pub fn nudge(&self, delta: i32) -> (r: Option<M>)
        ensures
            r is Some <==> (self.spec_has_step() || self.spec_has_change()),
            r == self.spec_nudge(delta),
    {
        match &self.step {
            Some(step) => Some(step.mint().make(delta)),
            None => match &self.change {
                Some(change) => {
                    let top = if self.max < 0 { 0 } else { self.max };
                    let sum = saturating_add(self.value, delta);
                    let v = if sum < 0 { 0 } else if sum > top { top } else { sum };
                    Some(change.mint().make(v))
                },
                None => None,
            },
        }
    }

    /// The one focus stop's trigger: relative when the screen asked for
    /// nudges, absolute otherwise, and `None` when nothing could change it.
    pub fn trigger(&self) -> (r: Option<Trigger<M>>)
        ensures
            r is None <==> !(self.spec_has_step() || self.spec_has_change()),
            self.spec_has_step() ==> (r matches Some(Trigger::Step { max, value, set, .. }) && max
                == self.spec_max() && value == self.spec_value() && (set is Some
                == self.spec_has_change())),
            !self.spec_has_step() && self.spec_has_change() ==> (r matches Some(
                Trigger::Value { max, value, .. },
            ) && max == self.spec_max() && value == self.spec_value()),
            self.spec_has_step() ==> (r matches Some(Trigger::Step { make, set, .. }) && (forall|v: i32|
                #[trigger] make.spec_make(v) == self.spec_step_made(v)) && (set matches Some(set) ==> forall|v: i32|
                #[trigger] set.spec_make(v) == self.spec_change_made(v))),
            !self.spec_has_step() && self.spec_has_change() ==> (r matches Some(Trigger::Value { make, .. })
                && forall|v: i32| #[trigger] make.spec_make(v) == self.spec_change_made(v)),
    {
        match &self.step {
            Some(step) => {
                let set = match &self.change {
                    Some(change) => Some(change.mint()),
                    None => None,
                };
                Some(Trigger::Step { make: step.mint(), max: self.max, set, value: self.value })
            },
            None => match &self.change {
                Some(change) => Some(Trigger::Value { make: change.mint(), max: self.max, value: self.value }),
                None => None,
            },
        }
    }

    /// The name-and-number line above the row.
    pub fn header(&self) -> (r: Header<'_>)
        ensures
            r.title is None <==> self.spec_title() is None,
            r.title matches Some(t) ==> self.spec_title() == Some(t@),
            r.value == (match self.spec_readout() {
                Some(suffix) => Some((self.spec_value(), suffix)),
                None => None,
            }),
    {
        let title = match &self.title {
            Some(t) => Some(t.as_str()),
            None => None,
        };
        let value = match self.readout {
            Some(suffix) => Some((self.value, suffix)),
            None => None,
        };
        Header { title, value }
    }

    /// The glyph row, below whatever the header took.
    pub fn row_bounds<H: Host>(&self, host: &H, origin: Point) -> (r: Rect)
        ensures
            r.origin.x == origin.x,
            r.size.width == clamp_zero(self.spec_measured().width as int),
    {
        let top = self.header().height(host);
        let height = sub_sat(self.measured.height, top);
        Rect::new(origin.x, add_sat(origin.y, top), self.measured.width, if height < 0 { 0 } else { height })
    }

    /// Builds the row once, on first measure, so the tree is assembled with
    /// live theme metrics rather than at construction time.
    fn build<H: Host>(&mut self, host: &H)
        ensures
            final(self).spec_built(),
            old(self).spec_built() ==> *final(self) == *old(self),
            !old(self).spec_built() ==> {
                &&& final(self).spec_glyph() == host.spec_metric(ThemeMetric::ListRowHeight)
                &&& final(self).spec_gap() == host.spec_metric(ThemeMetric::VerticalSpacing)
                &&& final(self).spec_touch() == max_int(
                    host.spec_metric(ThemeMetric::ListRowHeight) as int,
                    host.spec_metric(ThemeMetric::MinTouchSize) as int,
                )
                &&& final(self).spec_has_minus() == (old(self).spec_has_step() || old(self).spec_has_change())
                &&& final(self).spec_has_plus() == (old(self).spec_has_step() || old(self).spec_has_change())
                &&& final(self).spec_minus() == old(self).spec_nudge(-1i32)
                &&& final(self).spec_plus() == old(self).spec_nudge(1i32)
                &&& forall|v: i32| {
                    let (value, max, made) = #[trigger] final(self).spec_track(v);
                    &&& value == old(self).spec_value()
                    &&& max == old(self).spec_max()
                    &&& old(self).spec_has_change() ==> made == old(self).spec_change_made(v)
                }
            },
            final(self).spec_value() == old(self).spec_value(),
            final(self).spec_max() == old(self).spec_max(),
            final(self).spec_has_change() == old(self).spec_has_change(),
            final(self).spec_has_step() == old(self).spec_has_step(),
            final(self).spec_title() == old(self).spec_title(),
            final(self).spec_readout() == old(self).spec_readout(),
            final(self).spec_measured() == old(self).spec_measured(),
    {
        if self.row.is_some() {
            return;
        }
        let glyph = Theme::metric(host, ThemeMetric::ListRowHeight);
        let gap = Theme::metric(host, ThemeMetric::VerticalSpacing);
        let min_touch = Theme::metric(host, ThemeMetric::MinTouchSize);
        let touch = if glyph >= min_touch { glyph } else { min_touch };
        let mut slider = Slider::new(self.value, self.max).without_focus();
        match &self.change {
            Some(change) => {
                slider = slider.on_change_with(change.share());
            },
            None => {},
        }
        let minus = self.nudge(-1);
        let plus = self.nudge(1);
        self.row = Some(Row { slider, minus, plus, glyph, gap, touch, height: 0, track_width: 0 });
    }
}

/// Where a glyph's `side`-long square sits at `at`, its touch target widened
/// to `touch` around it.
fn glyph_target(at: Point, side: i32, touch: i32) -> (r: Rect)
    ensures
        r.origin.x == sat_i32(at.x - trunc_div(sat_i32(touch - side), 2)),
        r.origin.y == sat_i32(at.y - trunc_div(sat_i32(touch - side), 2)),
        r.size.width == clamp_zero(touch as int),
        r.size.height == clamp_zero(touch as int),
{
    let spare = sub_sat(touch, side);
    let half = spare / 2;
    Rect::new(sub_sat(at.x, half), sub_sat(at.y, half), touch, touch)
}

/// Draws `label` centred in the `side`-long square at `at`.
fn draw_glyph<H: Host>(host: &mut H, at: Point, side: i32, label: &str)
    ensures
        ({
            let face = Font::spec_role(old(host), FontRole::Ui);
            let dx = trunc_div(sat_i32(side - face.spec_text_width(old(host), label@)), 2);
            let dy = trunc_div(sat_i32(side - face.spec_line_height(old(host))), 2);
            final(host).spec_drawn() == old(host).spec_drawn().push(
                Drawn::Text {
                    origin: Point { x: sat_i32(at.x + dx) as i32, y: sat_i32(at.y + dy) as i32 },
                    text: label@,
                    font: face.spec_id(),
                    style: face.spec_style(),
                },
            )
        }),
{
    let face = Font::ui(&*host);
    let width = face.text_width(&*host, label);
    let height = face.line_height(&*host);
    let dx = sub_sat(side, width) / 2;
    let dy = sub_sat(side, height) / 2;
    Renderer::draw_text(host, at.translate(dx, dy), label, face.id(), face.style());
}

impl<M: Clone + 'static, H: Host> crate::view::View<M, H> for Stepper<M> {
    /// Builds the row on first use, then takes the whole width it is given:
    /// a row as tall as the taller of a glyph and the track, under the
    /// header line when there is a name or a number to show.
    fn measure(&mut self, host: &H, available: Size)
        ensures
            final(self).spec_built(),
            !old(self).spec_built() ==> {
                &&& final(self).spec_glyph() == host.spec_metric(ThemeMetric::ListRowHeight)
                &&& final(self).spec_gap() == host.spec_metric(ThemeMetric::VerticalSpacing)
                &&& final(self).spec_touch() == max_int(
                    host.spec_metric(ThemeMetric::ListRowHeight) as int,
                    host.spec_metric(ThemeMetric::MinTouchSize) as int,
                )
                &&& final(self).spec_has_minus() == (old(self).spec_has_step() || old(self).spec_has_change())
                &&& final(self).spec_has_plus() == (old(self).spec_has_step() || old(self).spec_has_change())
                &&& final(self).spec_minus() == old(self).spec_nudge(-1i32)
                &&& final(self).spec_plus() == old(self).spec_nudge(1i32)
            },
            old(self).spec_built() ==> {
                &&& final(self).spec_glyph() == old(self).spec_glyph()
                &&& final(self).spec_gap() == old(self).spec_gap()
                &&& final(self).spec_touch() == old(self).spec_touch()
                &&& final(self).spec_has_minus() == old(self).spec_has_minus()
                &&& final(self).spec_has_plus() == old(self).spec_has_plus()
            },
            final(self).spec_measured().width == clamp_zero(available.width as int),
            final(self).spec_measured().height == clamp_zero(
                sat_i32(
                    max_int(final(self).spec_glyph() as int, final(self).spec_track_height() as int)
                        + (if old(self).spec_title() is None && old(self).spec_readout() is None {
                        0
                    } else {
                        sat_i32(
                            Font::spec_role(host, FontRole::Ui).spec_line_height(host)
                                + host.spec_metric(ThemeMetric::SpacingSmall),
                        )
                    }),
                ),
            ),
            final(self).spec_value() == old(self).spec_value(),
            final(self).spec_max() == old(self).spec_max(),
            final(self).spec_has_change() == old(self).spec_has_change(),
            final(self).spec_has_step() == old(self).spec_has_step(),
            final(self).spec_title() == old(self).spec_title(),
            final(self).spec_readout() == old(self).spec_readout(),
    {
        self.build(host);
        let header = self.header().height(host);
        let mut row_height: i32 = 0;
        let mut width: i32 = 0;
        match &mut self.row {
            Some(row) => {
                let mut glyphs: i32 = 0;
                if row.minus.is_some() {
                    glyphs = glyphs + 1;
                }
                if row.plus.is_some() {
                    glyphs = glyphs + 1;
                }
                let per_glyph = add_sat(row.glyph, row.gap);
                assert(0 <= glyphs <= 2);
                let wide: i64 = if glyphs == 2 { per_glyph as i64 + per_glyph as i64 } else if glyphs == 1 { per_glyph as i64 } else { 0 };
                let taken = clamp_to(wide);
                let track_width = sub_sat(available.width, taken);
                row.track_width = if track_width < 0 { 0 } else { track_width };
                row.slider.measure(host, Size::new(row.track_width, available.height));
                let slider_height = row.slider.measured().height;
                row.height = if row.glyph >= slider_height { row.glyph } else { slider_height };
                row_height = row.height;
                width = available.width;
            },
            None => {},
        }
        self.measured = Size::new(width, add_sat(row_height, header));
    }

    fn size(&self) -> Size {
        self.measured
    }

    /// The header line, then the `-` glyph, the track and the `+` glyph, each
    /// glyph only where the stepper has something to send from it.
    fn render(&self, host: &mut H, origin: Point)
        ensures
            (self.spec_measured().width == 0 || self.spec_measured().height == 0) ==> final(host).spec_drawn()
                == old(host).spec_drawn(),
            !(self.spec_measured().width == 0 || self.spec_measured().height == 0) ==> {
                let before = old(host).spec_drawn();
                let after = final(host).spec_drawn();
                let face = Font::spec_role(old(host), FontRole::Ui);
                &&& self.spec_title() matches Some(t) ==> after[before.len() as int] == Drawn::Text {
                    origin,
                    text: t,
                    font: face.spec_id(),
                    style: face.spec_style(),
                }
                &&& self.spec_has_minus() ==> (after[before.len() + self.spec_header_lines()] matches Drawn::Text {
                    text,
                    ..
                } && text == "-"@)
                &&& self.spec_has_plus() ==> (after.last() matches Drawn::Text { text, .. } && text == "+"@)
                &&& after.len() >= before.len() + self.spec_header_lines()
                    + (if self.spec_has_minus() { 1int } else { 0 }) + (if self.spec_has_plus() {
                    1int
                } else {
                    0
                })
            },
            extends(old(host).spec_drawn(), final(host).spec_drawn()),
    {
        if self.measured.is_empty() {
            return;
        }
        self.header().render(host, bounds(self.measured, origin));
        let at = self.row_bounds(&*host, origin).origin;
        match &self.row {
            Some(row) => {
                let glyph_y = sub_sat(row.height, row.glyph) / 2;
                let mut x = at.x;
                if row.minus.is_some() {
                    draw_glyph(host, Point::new(x, add_sat(at.y, glyph_y)), row.glyph, "-");
                    x = add_sat(x, add_sat(row.glyph, row.gap));
                }
                let slider_height = row.slider.measured().height;
                let slider_y = sub_sat(row.height, slider_height) / 2;
                row.slider.render(host, Point::new(x, add_sat(at.y, slider_y)));
                x = add_sat(x, row.track_width);
                if row.plus.is_some() {
                    x = add_sat(x, row.gap);
                    draw_glyph(host, Point::new(x, add_sat(at.y, glyph_y)), row.glyph, "+");
                }
            },
            None => {},
        }
    }

    /// A stepper that reports declares one focus stop over the whole control
    /// that the keys adjust, carrying its value and range, before its glyphs
    /// and its track; however many touch targets it has, it is one stop for
    /// the keys. While it holds focus and an edit is open, it shows the
    /// edit's working value.
    fn interactions(&mut self, host: &H, origin: Point, out: &mut Interactions<M>)
        ensures
            (old(self).spec_has_step() || old(self).spec_has_change()) && !old(out).spec_ignoring()
                ==> {
                let n = old(out).spec_items().len();
                let items = final(out).spec_items();
                &&& items.len() > n
                &&& items.take(n as int) == old(out).spec_items()
                &&& items[n as int].rect == (Rect { origin, size: old(self).spec_measured() })
                &&& items[n as int].mask.spec_contains(InputMask::focus_spec())
                &&& items[n as int].mask.spec_contains(InputMask::adjust_spec())
                &&& items[n as int].trigger.spec_reading() == Some(old(self).spec_value())
                &&& old(self).spec_has_step() ==> (items[n as int].trigger matches Trigger::Step { make, set, .. }
                    && (forall|v: i32| #[trigger] make.spec_make(v) == old(self).spec_step_made(v)) && (set matches Some(
                    set,
                ) ==> forall|v: i32| #[trigger] set.spec_make(v) == old(self).spec_change_made(v)))
                &&& !old(self).spec_has_step() ==> (items[n as int].trigger matches Trigger::Value { make, .. }
                    && forall|v: i32| #[trigger] make.spec_make(v) == old(self).spec_change_made(v))
                &&& final(self).spec_value() == (if old(out).spec_focusable() == old(out).spec_focus()
                    && old(out).spec_editing() is Some {
                    old(out).spec_editing().unwrap()
                } else {
                    old(self).spec_value()
                })
                &&& old(self).spec_minus() matches Some(minus) ==> {
                    &&& items.len() > n + 1
                    &&& items[n + 1int].mask == InputMask::tap_spec()
                    &&& items[n + 1int].trigger matches Trigger::Message(m) && cloned(minus, m)
                }
                &&& old(self).spec_plus() matches Some(plus) ==> {
                    &&& items.last().mask == InputMask::tap_spec()
                    &&& items.last().trigger matches Trigger::Message(m) && cloned(plus, m)
                    &&& old(self).spec_minus() is Some ==> items.len() > n + 2
                }
            },
            final(out).spec_parent_focused() == old(out).spec_parent_focused(),
            final(self).spec_minus() == old(self).spec_minus(),
            final(self).spec_plus() == old(self).spec_plus(),
            final(self).spec_max() == old(self).spec_max(),
            final(self).spec_measured() == old(self).spec_measured(),
            final(out).spec_focusable() == old(out).spec_focusable() + if (old(self).spec_has_step()
                || old(self).spec_has_change()) && !old(out).spec_ignoring() {
                1int
            } else {
                0int
            },
    {
        proof {
            InputMask::lemma_bits();
            assert(2u8 | 16u8 == 18u8) by (bit_vector);
            assert(18u8 & 2u8 == 2u8) by (bit_vector);
            assert(1u8 & 2u8 == 0u8) by (bit_vector);
        }
        let whole = bounds(self.measured, origin);
        let ghost before = out.spec_items();
        let focused = match self.trigger() {
            Some(trigger) => out.declare(whole, InputMask::focus().union(InputMask::adjust()), trigger),
            None => false,
        };
        let ghost first = out.spec_items();
        proof {
            assert(first.take(before.len() as int) =~= before);
        }
        if focused {
            match out.editing_value() {
                Some(value) => {
                    self.value = value;
                },
                None => {},
            }
        }
        let at = self.row_bounds(host, origin).origin;
        match &mut self.row {
            Some(row) => {
                let glyph_y = sub_sat(row.height, row.glyph) / 2;
                let mut x = at.x;
                match &row.minus {
                    Some(message) => {
                        let target = glyph_target(Point::new(x, add_sat(at.y, glyph_y)), row.glyph, row.touch);
                        let sent = message.clone();
                        let ghost glyph = Interaction { rect: target, mask: InputMask::tap_spec(), trigger: Trigger::Message(sent) };
                        out.declare(target, InputMask::tap(), Trigger::Message(sent));
                        proof {
                            if !old(out).spec_ignoring() {
                                assert(out.spec_items().len() == first.len() + 1);
                                assert(out.spec_items()[first.len() as int] == glyph);
                            }
                        }
                        x = add_sat(x, add_sat(row.glyph, row.gap));
                    },
                    None => {},
                }
                proof {
                    assert(out.spec_items().take(first.len() as int) =~= first);
                }
                let ghost second = out.spec_items();
                let slider_height = row.slider.measured().height;
                let slider_y = sub_sat(row.height, slider_height) / 2;
                let outer = out.parent_focused();
                out.set_parent_focused(focused);
                row.slider.embed();
                row.slider.interactions(host, Point::new(x, add_sat(at.y, slider_y)), out);
                out.set_parent_focused(outer);
                proof {
                    assert(out.spec_items().take(first.len() as int) =~= first) by {
                        assert(out.spec_items().take(second.len() as int) == second);
                        assert(second.take(first.len() as int) == first);
                    }
                }
                let ghost third = out.spec_items();
                x = add_sat(x, row.track_width);
                match &row.plus {
                    Some(message) => {
                        x = add_sat(x, row.gap);
                        let target = glyph_target(Point::new(x, add_sat(at.y, glyph_y)), row.glyph, row.touch);
                        let sent = message.clone();
                        out.declare(target, InputMask::tap(), Trigger::Message(sent));
                    },
                    None => {},
                }
                proof {
                    assert(out.spec_items().take(third.len() as int) =~= third);
                    assert(out.spec_items().take(first.len() as int) =~= first) by {
                        assert(third.take(first.len() as int) == first);
                    }
                    assert(out.spec_items().take(second.len() as int) =~= second) by {
                        assert(third.take(second.len() as int) == second);
                    }
                    if second.len() > first.len() {
                        assert(out.spec_items()[first.len() as int] == second[first.len() as int]) by {
                            assert(out.spec_items().take(second.len() as int)[first.len() as int]
                                == out.spec_items()[first.len() as int]);
                        }
                    }
                }
            },
            None => {},
        }
        proof {
            if (old(self).spec_has_step() || old(self).spec_has_change()) && !old(out).spec_ignoring() {
                assert(first.len() == before.len() + 1);
                assert(out.spec_items()[before.len() as int] == first[before.len() as int]) by {
                    assert(out.spec_items().take(first.len() as int)[before.len() as int]
                        == out.spec_items()[before.len() as int]);
                }
                assert(out.spec_items().take(before.len() as int) =~= before) by {
                    assert(out.spec_items().take(first.len() as int).take(before.len() as int)
                        =~= out.spec_items().take(before.len() as int));
                }
            }
        }
    }
}

/// `v` held inside `i32`.
fn clamp_to(v: i64) -> (r: i32)
    ensures
        r == sat_i32(v as int),
{
    crate::geometry::clamp_to_i32(v)
}

} // verus!
