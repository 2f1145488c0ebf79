//! A host that writes down what was drawn on its way through to another one.
//!
//! The fake host records every draw call, but its geometry is fixed. A test
//! against a real backend needs both: the backend's layout, because that is
//! what decides where a control ends up, and a record of what was drawn,
//! because that is how a test finds the control it wants to tap. This wraps
//! one to get the other.
//!
//! Everything is forwarded, and nothing is answered from the recording, so a
//! screen measures, lays out and paints exactly as it would without this in
//! the way.
use vstd::prelude::*;

use crate::geometry::{Point, Rect, Size};
use crate::host::drawing::{Drawing, Drawn};
use crate::host::canvas::{Canvas, IconRef};
use crate::host::chrome::{Chrome, ControlState, Hint, ListRowText, ThemeMetric};
use crate::host::clock::Clock;
use crate::host::input::{Button, InputSource, SwipeDir};
use crate::host::metrics::{FontId, FontRole, FontStyle, TextMetrics};
use crate::host::Host;
use crate::testing::host::{DrawOp, RectKind, copies, copy_row, hint_label, hint_recorded, owned};

verus! {

/// Wraps a host, recording every draw call before passing it on.
pub struct Recorder<H> {
    inner: H,
    ops: Vec<DrawOp>,
    updates: u32,
}

impl<H: Host> Recorder<H> {
    /// The host underneath.
    pub closed spec fn spec_inner(&self) -> H {
        self.inner
    }

    /// What was recorded, in order.
    pub closed spec fn spec_ops(&self) -> Seq<DrawOp> {
        self.ops@
    }

    /// How many repaints were asked for on the way through.
    pub closed spec fn spec_updates(&self) -> u32 {
        self.updates
    }

    /// Wraps `inner`, with nothing recorded yet.
    pub fn wrap(inner: H) -> (r: Self)
        ensures
            r.spec_inner() == inner,
            r.spec_ops() == Seq::<DrawOp>::empty(),
            r.spec_updates() == 0,
    {
        Recorder { inner, ops: Vec::new(), updates: 0 }
    }

    /// The host underneath, for anything this wrapper does not model.
    pub fn inner(&self) -> (r: &H)
        ensures
            *r == self.spec_inner(),
    {
        &self.inner
    }

    /// What was recorded, in order.
    pub fn ops(&self) -> (r: &[DrawOp])
        ensures
            r@ == self.spec_ops(),
    {
        self.ops.as_slice()
    }

    /// How many repaints were asked for on the way through.
    pub fn updates(&self) -> (r: u32)
        ensures
            r == self.spec_updates(),
    {
        self.updates
    }

    /// Records `op`.
    fn record(&mut self, op: DrawOp)
        ensures
            final(self).spec_ops() == old(self).spec_ops().push(op),
            final(self).spec_inner() == old(self).spec_inner(),
            final(self).spec_updates() == old(self).spec_updates(),
    {
        self.ops.push(op);
    }
}

impl<H: Host> Drawing for Recorder<H> {
    closed spec fn spec_drawn(&self) -> Seq<Drawn> {
        self.inner.spec_drawn()
    }
}

impl<H: Host> Canvas for Recorder<H> {
    closed spec fn spec_screen_size(&self) -> Size {
        self.inner.spec_screen_size()
    }

    closed spec fn spec_icon_size(&self, icon: IconRef) -> i32 {
        self.inner.spec_icon_size(icon)
    }

    fn screen_size(&self) -> (r: Size) {
        self.inner.screen_size()
    }

    fn clear(&mut self)
        ensures
            final(self).spec_ops() == old(self).spec_ops().push(DrawOp::Clear),
            final(self).spec_updates() == old(self).spec_updates(),
    {
        self.record(DrawOp::Clear);
        self.inner.clear();
    }

    /// A font this build omitted draws nothing, and is not recorded: the log
    /// would otherwise hold text that never reached the panel.
    fn draw_text(&mut self, origin: Point, text: &str, font: FontId, style: FontStyle)
        ensures
            font.0 == 0 ==> final(self).spec_ops() == old(self).spec_ops(),
            font.0 != 0 ==> {
                &&& final(self).spec_ops().drop_last() == old(self).spec_ops()
                &&& final(self).spec_ops().len() == old(self).spec_ops().len() + 1
                &&& final(self).spec_ops().last() matches DrawOp::Text { origin: o, text: t, font: f, style: st }
                    && o == origin && t@ == text@ && f == font.0 && st == style
            },
            final(self).spec_updates() == old(self).spec_updates(),
    {
        if font.0 != 0 {
            self.record(DrawOp::Text { origin, text: text.to_owned(), font: font.0, style });
        }
        self.inner.draw_text(origin, text, font, style);
    }

    fn fill_rect(&mut self, rect: Rect, black: bool)
        ensures
            final(self).spec_ops() == old(self).spec_ops().push(DrawOp::Rect { rect, kind: RectKind::Filled, black }),
            final(self).spec_updates() == old(self).spec_updates(),
    {
        self.record(DrawOp::Rect { rect, kind: RectKind::Filled, black });
        self.inner.fill_rect(rect, black);
    }

    fn stroke_rect(&mut self, rect: Rect)
        ensures
            final(self).spec_ops() == old(self).spec_ops().push(DrawOp::Rect { rect, kind: RectKind::Stroked, black: true }),
            final(self).spec_updates() == old(self).spec_updates(),
    {
        self.record(DrawOp::Rect { rect, kind: RectKind::Stroked, black: true });
        self.inner.stroke_rect(rect);
    }

    fn draw_line(&mut self, from: Point, to: Point)
        ensures
            final(self).spec_ops() == old(self).spec_ops().push(DrawOp::Line { from, to }),
            final(self).spec_updates() == old(self).spec_updates(),
    {
        self.record(DrawOp::Line { from, to });
        self.inner.draw_line(from, to);
    }

    fn fill_rect_dither(&mut self, rect: Rect, light: bool)
        ensures
            final(self).spec_ops() == old(self).spec_ops().push(DrawOp::Rect { rect, kind: RectKind::Dither, black: light }),
            final(self).spec_updates() == old(self).spec_updates(),
    {
        self.record(DrawOp::Rect { rect, kind: RectKind::Dither, black: light });
        self.inner.fill_rect_dither(rect, light);
    }

    fn scrim(&mut self, rect: Rect)
        ensures
            final(self).spec_ops() == old(self).spec_ops().push(DrawOp::Rect { rect, kind: RectKind::Scrim, black: true }),
            final(self).spec_updates() == old(self).spec_updates(),
    {
        self.record(DrawOp::Rect { rect, kind: RectKind::Scrim, black: true });
        self.inner.scrim(rect);
    }

    fn set_clip(&mut self, rect: Option<Rect>)
        ensures
            final(self).spec_ops() == old(self).spec_ops().push(DrawOp::Clip(rect)),
            final(self).spec_updates() == old(self).spec_updates(),
    {
        self.record(DrawOp::Clip(rect));
        self.inner.set_clip(rect);
    }

    fn draw_image(&mut self, origin: Point, data: &[u8], size: Size)
        ensures
            final(self).spec_ops() == old(self).spec_ops().push(DrawOp::Image { origin, size, bytes: data@.len() as usize }),
            final(self).spec_updates() == old(self).spec_updates(),
    {
        self.record(DrawOp::Image { origin, size, bytes: data.len() });
        self.inner.draw_image(origin, data, size);
    }

    fn draw_icon(&mut self, origin: Point, icon: IconRef)
        ensures
            final(self).spec_ops() == old(self).spec_ops().push(DrawOp::Icon { origin, icon }),
            final(self).spec_updates() == old(self).spec_updates(),
    {
        self.record(DrawOp::Icon { origin, icon });
        self.inner.draw_icon(origin, icon);
    }

    fn icon_size(&self, icon: IconRef) -> (r: i32) {
        self.inner.icon_size(icon)
    }
}

impl<H: Host> TextMetrics for Recorder<H> {
    closed spec fn spec_font(&self, role: FontRole) -> FontId {
        self.inner.spec_font(role)
    }

    closed spec fn spec_text_width(&self, font: FontId, text: Seq<char>, style: FontStyle) -> i32 {
        self.inner.spec_text_width(font, text, style)
    }

    closed spec fn spec_line_height(&self, font: FontId) -> i32 {
        self.inner.spec_line_height(font)
    }

    fn font(&self, role: FontRole) -> (r: FontId) {
        self.inner.font(role)
    }

    fn text_width(&self, font: FontId, text: &str, style: FontStyle) -> (r: i32) {
        self.inner.text_width(font, text, style)
    }

    fn line_height(&self, font: FontId) -> (r: i32) {
        self.inner.line_height(font)
    }
}

impl<H: Host> Chrome for Recorder<H> {
    closed spec fn spec_metric(&self, metric: ThemeMetric) -> i32 {
        self.inner.spec_metric(metric)
    }

    closed spec fn spec_option_popup_row_rect(
        &self,
        title: Seq<char>,
        options: Seq<String>,
        index: usize,
    ) -> Option<Rect> {
        self.inner.spec_option_popup_row_rect(title, options, index)
    }

    fn metric(&self, metric: ThemeMetric) -> (r: i32) {
        self.inner.metric(metric)
    }

    fn draw_header(&mut self, title: Option<&str>, subtitle: Option<&str>)
        ensures
            final(self).spec_ops().drop_last() == old(self).spec_ops(),
            final(self).spec_ops().len() == old(self).spec_ops().len() + 1,
            final(self).spec_ops().last() matches DrawOp::Header { title: t, subtitle: st } && copies(t, title) && copies(st, subtitle),
            final(self).spec_updates() == old(self).spec_updates(),
    {
        self.record(DrawOp::Header { title: owned(title), subtitle: owned(subtitle) });
        self.inner.draw_header(title, subtitle);
    }

    fn draw_sub_header(&mut self, rect: Rect, label: &str, right_label: Option<&str>)
        ensures
            final(self).spec_ops().drop_last() == old(self).spec_ops(),
            final(self).spec_ops().len() == old(self).spec_ops().len() + 1,
            final(self).spec_ops().last() matches DrawOp::SubHeader { rect: r, label: l, right: rl } && r == rect && l@ == label@ && copies(rl, right_label),
            final(self).spec_updates() == old(self).spec_updates(),
    {
        self.record(DrawOp::SubHeader { rect, label: label.to_owned(), right: owned(right_label) });
        self.inner.draw_sub_header(rect, label, right_label);
    }

    /// Recorded by which word each slot asked for, so a golden can tell the
    /// host's usual label from the one a mode wants.
    fn draw_button_hints(&mut self, back: &Hint, confirm: &Hint, previous: &Hint, next: &Hint)
        ensures
            final(self).spec_ops().drop_last() == old(self).spec_ops(),
            final(self).spec_ops().len() == old(self).spec_ops().len() + 1,
            final(self).spec_ops().last() matches DrawOp::Hints(slots) && slots@.len() == 4
                && hint_recorded(slots@[0], *back) && hint_recorded(slots@[1], *confirm)
                && hint_recorded(slots@[2], *previous) && hint_recorded(slots@[3], *next),
            final(self).spec_updates() == old(self).spec_updates(),
    {
        let mut slots: Vec<Option<String>> = Vec::new();
        slots.push(hint_label(back));
        slots.push(hint_label(confirm));
        slots.push(hint_label(previous));
        slots.push(hint_label(next));
        self.record(DrawOp::Hints(slots));
        self.inner.draw_button_hints(back, confirm, previous, next);
    }

    fn draw_progress_bar(&mut self, rect: Rect, current: u32, total: u32)
        ensures
            final(self).spec_ops() == old(self).spec_ops().push(DrawOp::ProgressBar { rect, current, total }),
            final(self).spec_updates() == old(self).spec_updates(),
    {
        self.record(DrawOp::ProgressBar { rect, current, total });
        self.inner.draw_progress_bar(rect, current, total);
    }

    fn draw_slider(&mut self, rect: Rect, value: i32, max: i32, state: ControlState)
        ensures
            final(self).spec_ops() == old(self).spec_ops().push(DrawOp::Slider { rect, value, max, state }),
            final(self).spec_updates() == old(self).spec_updates(),
    {
        self.record(DrawOp::Slider { rect, value, max, state });
        self.inner.draw_slider(rect, value, max, state);
    }

    fn draw_scroll_indicator(&mut self, rect: Rect, content: i32, visible: i32, offset: i32)
        ensures
            final(self).spec_ops() == old(self).spec_ops().push(DrawOp::ScrollIndicator { rect, content, visible, offset }),
            final(self).spec_updates() == old(self).spec_updates(),
    {
        self.record(DrawOp::ScrollIndicator { rect, content, visible, offset });
        self.inner.draw_scroll_indicator(rect, content, visible, offset);
    }

    /// Every row is copied now: the strings it borrows live only as long as
    /// the widget that built them.
    fn draw_list(&mut self, rect: Rect, rows: &[ListRowText], selected: i32)
        ensures
            final(self).spec_ops().drop_last() == old(self).spec_ops(),
            final(self).spec_ops().len() == old(self).spec_ops().len() + 1,
            final(self).spec_ops().last() matches DrawOp::List { rect: r, selected: sel, rows: copied } && r == rect && sel == selected && copied@ == rows@,
            final(self).spec_updates() == old(self).spec_updates(),
    {
        let mut copied: Vec<ListRowText> = Vec::new();
        let mut i: usize = 0;
        while i < rows.len()
            invariant
                i <= rows@.len(),
                copied@ == rows@.take(i as int),
            decreases rows@.len() - i,
        {
            copied.push(copy_row(&rows[i]));
            proof {
                assert(rows@.take(i + 1) =~= rows@.take(i as int).push(rows@[i as int]));
            }
            i = i + 1;
        }
        proof {
            assert(rows@.take(rows@.len() as int) =~= rows@);
        }
        self.record(DrawOp::List { rect, selected, rows: copied });
        self.inner.draw_list(rect, rows, selected);
    }

    fn draw_option_popup(&mut self, title: &str, options: &[String], selected: i32)
        ensures
            final(self).spec_ops().drop_last() == old(self).spec_ops(),
            final(self).spec_ops().len() == old(self).spec_ops().len() + 1,
            final(self).spec_ops().last() matches DrawOp::OptionPopup { title: t, selected: sel, options: copied } && t@ == title@ && sel == selected && copied@ == options@,
            final(self).spec_updates() == old(self).spec_updates(),
    {
        let mut copied: Vec<String> = Vec::new();
        let mut i: usize = 0;
        while i < options.len()
            invariant
                i <= options@.len(),
                copied@ == options@.take(i as int),
            decreases options@.len() - i,
        {
            copied.push(options[i].clone());
            proof {
                assert(options@.take(i + 1) =~= options@.take(i as int).push(options@[i as int]));
            }
            i = i + 1;
        }
        proof {
            assert(options@.take(options@.len() as int) =~= options@);
        }
        self.record(DrawOp::OptionPopup { title: title.to_owned(), selected, options: copied });
        self.inner.draw_option_popup(title, options, selected);
    }

    fn option_popup_row_rect(&self, title: &str, options: &[String], index: usize) -> (r: Option<
        Rect,
    >) {
        self.inner.option_popup_row_rect(title, options, index)
    }

    /// Counted on its way through, as the fake counts its own.
    fn request_update(&mut self)
        ensures
            final(self).spec_updates() == if old(self).spec_updates() < u32::MAX {
                (old(self).spec_updates() + 1) as u32
            } else {
                old(self).spec_updates()
            },
            final(self).spec_ops() == old(self).spec_ops(),
    {
        if self.updates < u32::MAX {
            self.updates = self.updates + 1;
        }
        self.inner.request_update();
    }
}

impl<H: Host> InputSource for Recorder<H> {
    closed spec fn spec_was_pressed(&self, button: Button) -> bool {
        self.inner.spec_was_pressed(button)
    }

    closed spec fn spec_is_pressed(&self, button: Button) -> bool {
        self.inner.spec_is_pressed(button)
    }

    closed spec fn spec_was_released(&self, button: Button) -> bool {
        self.inner.spec_was_released(button)
    }

    closed spec fn spec_has_touch(&self) -> bool {
        self.inner.spec_has_touch()
    }

    closed spec fn spec_has_left_right_keys(&self) -> bool {
        self.inner.spec_has_left_right_keys()
    }

    closed spec fn spec_tap(&self) -> Option<Point> {
        self.inner.spec_tap()
    }

    closed spec fn spec_touch_held(&self) -> Option<Point> {
        self.inner.spec_touch_held()
    }

    closed spec fn spec_touch_released(&self) -> bool {
        self.inner.spec_touch_released()
    }

    closed spec fn spec_swipe(&self) -> SwipeDir {
        self.inner.spec_swipe()
    }

    closed spec fn spec_was_back_gesture(&self) -> bool {
        self.inner.spec_was_back_gesture()
    }

    closed spec fn spec_was_home_gesture(&self) -> bool {
        self.inner.spec_was_home_gesture()
    }

    closed spec fn spec_swipe_moves_selection(&self) -> bool {
        self.inner.spec_swipe_moves_selection()
    }

    fn was_pressed(&self, button: Button) -> (r: bool) {
        self.inner.was_pressed(button)
    }

    fn is_pressed(&self, button: Button) -> (r: bool) {
        self.inner.is_pressed(button)
    }

    fn was_released(&self, button: Button) -> (r: bool) {
        self.inner.was_released(button)
    }

    fn has_touch(&self) -> (r: bool) {
        self.inner.has_touch()
    }

    fn has_left_right_keys(&self) -> (r: bool) {
        self.inner.has_left_right_keys()
    }

    fn tap(&self) -> (r: Option<Point>) {
        self.inner.tap()
    }

    fn touch_held(&self) -> (r: Option<Point>) {
        self.inner.touch_held()
    }

    fn touch_released(&self) -> (r: bool) {
        self.inner.touch_released()
    }

    fn swipe(&self) -> (r: SwipeDir) {
        self.inner.swipe()
    }

    fn was_back_gesture(&self) -> (r: bool) {
        self.inner.was_back_gesture()
    }

    fn was_home_gesture(&self) -> (r: bool) {
        self.inner.was_home_gesture()
    }

    fn swipe_moves_selection(&self) -> (r: bool) {
        self.inner.swipe_moves_selection()
    }
}

impl<H: Host> Clock for Recorder<H> {
    closed spec fn spec_millis(&self) -> u32 {
        self.inner.spec_millis()
    }

    fn millis(&self) -> (r: u32) {
        self.inner.millis()
    }
}

} // verus!
