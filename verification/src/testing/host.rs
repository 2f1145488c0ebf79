//! A deterministic stand-in for a host, so layouts and screens can be tested
//! on a desktop with no backend.
//!
//! Everything drawn lands in one ordered log. Input describes one frame at a
//! time: reading does not consume anything, so a query asked twice in a frame
//! answers the same, and the first write after a read starts the next frame,
//! clearing every edge the last one carried. Two writes before any read
//! describe one frame together.
use vstd::prelude::*;
use vstd::cell::invcell::InvCell;
use vstd::predicate::Predicate;

use crate::geometry::{Point, Rect, Size};
use crate::host::drawing::{Drawing, Drawn, opt_text};
use crate::host::canvas::{Canvas, IconRef};
use crate::host::chrome::{Chrome, ControlState, Hint, HintWord, ListRowText, ThemeMetric};
use crate::host::clock::Clock;
use crate::host::input::{Button, InputSource, SwipeDir};
use crate::host::metrics::{FontId, FontRole, FontStyle, TextMetrics};

verus! {

/// The fake panel's width.
pub const SCREEN_WIDTH: i32 = 480;
/// The fake panel's height.
pub const SCREEN_HEIGHT: i32 = 800;
/// Gap above the header band.
pub const TOP_PADDING: i32 = 8;
/// Height of the header band.
pub const HEADER_HEIGHT: i32 = 40;
/// The gap between stacked elements.
pub const VERTICAL_SPACING: i32 = 12;
/// The band reserved for the button hints.
pub const BUTTON_HINTS_HEIGHT: i32 = 40;
/// Space between the panel's side edges and the content.
pub const SIDE_PADDING: i32 = 16;
/// The smallest comfortably tappable dimension.
pub const MIN_TOUCH_SIZE: i32 = 44;
/// Height of a one-line list row.
pub const LIST_ROW_HEIGHT: i32 = 40;
/// Height of a list row carrying a subtitle.
pub const LIST_ROW_HEIGHT_WITH_SUBTITLE: i32 = 56;
/// Space between list rows.
pub const LIST_ROW_GAP: i32 = 4;
/// Height of the progress bar.
pub const PROGRESS_BAR_HEIGHT: i32 = 6;
/// A slider knob's width.
pub const SLIDER_KNOB_WIDTH: i32 = 14;
/// A slider knob's height.
pub const SLIDER_KNOB_HEIGHT: i32 = 22;
/// A slider track's inset at each end.
pub const SLIDER_SIDE_INSET: i32 = 8;
/// Height of a sub-header band.
pub const SUB_HEADER_HEIGHT: i32 = 17;
/// The theme's small step.
pub const SPACING_SMALL: i32 = 4;
/// First y below the header that content may use.
pub const CONTENT_TOP: i32 = 60;
/// First y occupied by the button hints.
pub const CONTENT_BOTTOM: i32 = 760;
/// The fake's interface font.
pub const UI_FONT: i32 = 1003;
/// The fake's small interface font.
pub const UI_SMALL_FONT: i32 = 1004;
/// The fake's reading font.
pub const READER_FONT: i32 = 1001;

/// How a rectangle was painted.
#[derive(Copy, Clone, Debug, PartialEq, Eq, Structural)]
pub enum RectKind {
    /// Solid ink or background.
    Filled,
    /// An outline, one pixel wide.
    Stroked,
    /// Dithered, which reads as grey on a 1-bit panel.
    Dither,
    /// Darkened without erasing, so what was behind stays legible.
    Scrim,
}

/// One call the framework made on the host.
#[derive(Clone, Debug, PartialEq, Eq)]
#[allow(inconsistent_fields)]
pub enum DrawOp {
    /// The whole panel cleared to background.
    Clear,
    /// A line of text, with its top-left corner, the host's font id and style.
    Text { origin: Point, text: String, font: i32, style: FontStyle },
    /// A rectangle painted one of four ways. `black` is ink or background for
    /// a fill, and carries `light` for a dither.
    Rect { rect: Rect, kind: RectKind, black: bool },
    /// A one-pixel line.
    Line { from: Point, to: Point },
    /// A 1-bit bitmap, recorded by its size and how many bytes came with it.
    Image { origin: Point, size: Size, bytes: usize },
    /// An icon the host owns.
    Icon { origin: Point, icon: IconRef },
    /// A clip set on the host, or lifted when `None`.
    Clip(Option<Rect>),
    /// The header band.
    Header { title: Option<String>, subtitle: Option<String> },
    /// A section heading.
    SubHeader { rect: Rect, label: String, right: Option<String> },
    /// The button hints in meaning order: back, confirm, previous, next. `None`
    /// is the host's own label; a word the host owns is `<edit>`, `<done>` or
    /// `<cancel>`; a blank slot is the empty string.
    Hints(Vec<Option<String>>),
    /// A determinate progress bar.
    ProgressBar { rect: Rect, current: u32, total: u32 },
    /// A themed slider.
    Slider { rect: Rect, value: i32, max: i32, state: ControlState },
    /// The scroll indicator beside a scrolling region.
    ScrollIndicator { rect: Rect, content: i32, visible: i32, offset: i32 },
    /// A themed list, with the selected row or -1.
    List { rect: Rect, selected: i32, rows: Vec<ListRowText> },
    /// A themed option dialog, with the highlighted option.
    OptionPopup { title: String, selected: i32, options: Vec<String> },
}

/// Any value at all: what a cell holding a plain flag allows.
pub struct AnyValue;

impl Predicate<bool> for AnyValue {
    open spec fn predicate(&self, v: bool) -> bool {
        true
    }
}

/// The fake host.
pub struct TestHost {
    ops: Vec<DrawOp>,
    updates: u32,
    now: u32,
    pressed: Option<Button>,
    held: Option<Button>,
    released: Option<Button>,
    swipe: SwipeDir,
    tap: Option<Point>,
    touch: Option<Point>,
    lifted: bool,
    back_gesture: bool,
    home_gesture: bool,
    swipe_moves_selection: bool,
    has_left_right_keys: bool,
    read: InvCell<bool, AnyValue>,
    drawn: Ghost<Seq<Drawn>>,
}

/// The per-character advance and the line height of the fake's font `id`.
pub open spec fn font_metrics(id: i32) -> (i32, i32) {
    if id == UI_SMALL_FONT {
        (14, 5)
    } else if id == READER_FONT {
        (19, 8)
    } else {
        (17, 6)
    }
}

/// What the fake answers for each theme metric.
pub open spec fn spec_fake_metric(metric: ThemeMetric) -> i32 {
    match metric {
        ThemeMetric::TopPadding => TOP_PADDING,
        ThemeMetric::HeaderHeight => HEADER_HEIGHT,
        ThemeMetric::VerticalSpacing => VERTICAL_SPACING,
        ThemeMetric::ButtonHintsHeight => BUTTON_HINTS_HEIGHT,
        ThemeMetric::ContentSidePadding => SIDE_PADDING,
        ThemeMetric::ContentTop => CONTENT_TOP,
        ThemeMetric::ContentBottom => CONTENT_BOTTOM,
        ThemeMetric::ListRowHeight => LIST_ROW_HEIGHT,
        ThemeMetric::ListRowHeightWithSubtitle => LIST_ROW_HEIGHT_WITH_SUBTITLE,
        ThemeMetric::ListRowGap => LIST_ROW_GAP,
        ThemeMetric::ProgressBarHeight => PROGRESS_BAR_HEIGHT,
        ThemeMetric::MinTouchSize => MIN_TOUCH_SIZE,
        ThemeMetric::SliderKnobWidth => SLIDER_KNOB_WIDTH,
        ThemeMetric::SliderKnobHeight => SLIDER_KNOB_HEIGHT,
        ThemeMetric::SliderSideInset => SLIDER_SIDE_INSET,
        ThemeMetric::SubHeaderHeight => SUB_HEADER_HEIGHT,
        ThemeMetric::SpacingSmall => SPACING_SMALL,
    }
}

/// The owned copy of an optional label.
pub(crate) fn owned(text: Option<&str>) -> (r: Option<String>)
    ensures
        match text {
            Some(t) => r matches Some(s) && s@ == t@,
            None => r is None,
        },
{
    match text {
        Some(t) => Some(t.to_owned()),
        None => None,
    }
}

/// How a hint slot is recorded: by the word it asks for, or its label.
pub(crate) fn hint_label(hint: &Hint) -> (r: Option<String>)
    ensures
        hint_recorded(r, *hint),
{
    match hint.word() {
        HintWord::Standard => owned(hint.label()),
        HintWord::Edit => Some("<edit>".to_owned()),
        HintWord::Done => Some("<done>".to_owned()),
        HintWord::Cancel => Some("<cancel>".to_owned()),
    }
}

/// Whether `recorded` is the fake's own copy of `text`.
pub open spec fn copies(recorded: Option<String>, text: Option<&str>) -> bool {
    match text {
        Some(t) => recorded matches Some(s) && s@ == t@,
        None => recorded is None,
    }
}

/// Whether `slot` is how the fake records `hint`: no label for the board's
/// standard one, an empty label for a blank slot, the text of a labelled one,
/// and a marker for each word the mode puts there.
pub open spec fn hint_recorded(slot: Option<String>, hint: Hint) -> bool {
    match hint {
        Hint::Standard => slot is None,
        Hint::Blank => slot matches Some(s) && s@ == Seq::<char>::empty(),
        Hint::Text(text) => slot matches Some(s) && s@ == text@,
        Hint::Edit => slot matches Some(s) && s@ == "<edit>"@,
        Hint::Done => slot matches Some(s) && s@ == "<done>"@,
        Hint::Cancel => slot matches Some(s) && s@ == "<cancel>"@,
    }
}

/// An owned copy of a list row's text.
pub(crate) fn copy_row(row: &ListRowText) -> (r: ListRowText)
    ensures
        r == *row,
{
    let title = match &row.title {
        Some(t) => Some(t.clone()),
        None => None,
    };
    let subtitle = match &row.subtitle {
        Some(t) => Some(t.clone()),
        None => None,
    };
    let value = match &row.value {
        Some(t) => Some(t.clone()),
        None => None,
    };
    ListRowText { title, subtitle, value }
}

impl TestHost {
    /// What the fake holds for input this frame, for reasoning about it.
    pub closed spec fn spec_pressed(&self) -> Option<Button> {
        self.pressed
    }

    /// The button being held down, if any.
    pub closed spec fn spec_held(&self) -> Option<Button> {
        self.held
    }

    /// The swipe this frame carries.
    pub closed spec fn spec_swipe_now(&self) -> SwipeDir {
        self.swipe
    }

    /// What the fake clock reads.
    pub closed spec fn spec_now(&self) -> u32 {
        self.now
    }

    /// Everything drawn so far, in order.
    pub closed spec fn spec_ops(&self) -> Seq<DrawOp> {
        self.ops@
    }

    /// How many repaints were asked for.
    pub closed spec fn spec_updates(&self) -> u32 {
        self.updates
    }

    /// A fake with nothing drawn, no input, and the clock at zero.
    pub fn new() -> (r: Self)
        ensures
            r.spec_ops() == Seq::<DrawOp>::empty(),
            r.spec_updates() == 0,
            r.spec_now() == 0,
            r.spec_pressed() is None,
            r.spec_held() is None,
            r.spec_swipe_now() == SwipeDir::NoSwipe,
    {
        TestHost {
            ops: Vec::new(),
            updates: 0,
            now: 0,
            pressed: None,
            held: None,
            released: None,
            swipe: SwipeDir::NoSwipe,
            tap: None,
            touch: None,
            lifted: false,
            back_gesture: false,
            home_gesture: false,
            swipe_moves_selection: false,
            has_left_right_keys: false,
            read: InvCell::new(false, Ghost(AnyValue)),
            drawn: Ghost(Seq::empty()),
        }
    }

    /// Everything drawn since the fake was made or last cleared, in order.
    pub fn ops(&self) -> (r: &[DrawOp])
        ensures
            r@ == self.spec_ops(),
    {
        self.ops.as_slice()
    }

    /// Forgets every recorded draw and repaint request.
    pub fn clear_ops(&mut self)
        ensures
            final(self).spec_ops() == Seq::<DrawOp>::empty(),
            final(self).spec_updates() == 0,
            final(self).spec_now() == old(self).spec_now(),
    {
        self.ops = Vec::new();
        self.updates = 0;
    }

    /// How many repaints were asked for since the fake was made or cleared.
    pub fn updates(&self) -> (r: u32)
        ensures
            r == self.spec_updates(),
    {
        self.updates
    }

    /// Ends the frame: every edge it carried is gone, levels stay.
    pub fn next_frame(&mut self)
        ensures
            final(self).spec_pressed() is None,
            final(self).spec_swipe_now() == SwipeDir::NoSwipe,
            final(self).spec_held() == old(self).spec_held(),
            final(self).spec_now() == old(self).spec_now(),
            final(self).spec_ops() == old(self).spec_ops(),
    {
        self.pressed = None;
        self.released = None;
        self.swipe = SwipeDir::NoSwipe;
        self.tap = None;
        self.lifted = false;
        self.back_gesture = false;
        self.home_gesture = false;
        self.read.set(false);
    }

    /// Starts the next frame if this one has been read.
    fn write(&mut self)
        ensures
            final(self).spec_held() == old(self).spec_held(),
            final(self).spec_now() == old(self).spec_now(),
            final(self).spec_ops() == old(self).spec_ops(),
    {
        if self.read.get() {
            self.next_frame();
        }
    }

    /// Reports `button` going down this frame, so briefly that no frame sees
    /// it held.
    pub fn press(&mut self, button: Button)
        ensures
            final(self).spec_pressed() == Some(button),
            final(self).spec_held() == old(self).spec_held(),
    {
        self.write();
        self.pressed = Some(button);
    }

    /// Reports `button` going down and staying down, as a finger holds it.
    pub fn hold(&mut self, button: Button)
        ensures
            final(self).spec_pressed() == Some(button),
            final(self).spec_held() == Some(button),
    {
        self.press(button);
        self.held = Some(button);
    }

    /// Lifts whatever `hold` put down.
    pub fn release(&mut self)
        ensures
            final(self).spec_held() is None,
    {
        self.write();
        self.released = self.held;
        self.held = None;
    }

    /// Reports one swipe this frame.
    pub fn set_swipe(&mut self, direction: SwipeDir)
        ensures
            final(self).spec_swipe_now() == direction,
            final(self).spec_held() == old(self).spec_held(),
    {
        self.write();
        self.swipe = direction;
    }

    /// Moves the fake clock.
    pub fn set_millis(&mut self, now: u32)
        ensures
            final(self).spec_now() == now,
            final(self).spec_held() == old(self).spec_held(),
    {
        self.write();
        self.now = now;
    }

    /// Reports a completed tap at `point` this frame.
    pub fn tap_at(&mut self, point: Point)
        ensures
            final(self).spec_tap() == Some(point),
            final(self).spec_held() == old(self).spec_held(),
            final(self).spec_now() == old(self).spec_now(),
    {
        self.write();
        self.tap = Some(point);
    }

    /// Reports a finger down at `point`, and keeps it there until lifted.
    pub fn touch_at(&mut self, point: Point)
        ensures
            final(self).spec_touch_held() == Some(point),
            final(self).spec_held() == old(self).spec_held(),
            final(self).spec_now() == old(self).spec_now(),
    {
        self.write();
        self.touch = Some(point);
    }

    /// Lifts the finger `touch_at` put down, this frame.
    pub fn lift(&mut self)
        ensures
            final(self).spec_touch_held() is None,
            final(self).spec_touch_released(),
            final(self).spec_held() == old(self).spec_held(),
            final(self).spec_now() == old(self).spec_now(),
    {
        self.write();
        self.touch = None;
        self.lifted = true;
    }

    /// Reports the system back gesture this frame.
    pub fn back_gesture(&mut self)
        ensures
            final(self).spec_was_back_gesture(),
            final(self).spec_held() == old(self).spec_held(),
            final(self).spec_now() == old(self).spec_now(),
    {
        self.write();
        self.back_gesture = true;
    }

    /// Reports the system home gesture this frame.
    pub fn home_gesture(&mut self)
        ensures
            final(self).spec_was_home_gesture(),
            final(self).spec_held() == old(self).spec_held(),
            final(self).spec_now() == old(self).spec_now(),
    {
        self.write();
        self.home_gesture = true;
    }

    /// Chooses which way a swipe moves focus.
    pub fn set_swipe_moves_selection(&mut self, enabled: bool)
        ensures
            final(self).spec_swipe_moves_selection() == enabled,
            final(self).spec_has_left_right_keys() == old(self).spec_has_left_right_keys(),
            final(self).spec_ops() == old(self).spec_ops(),
    {
        self.swipe_moves_selection = enabled;
    }

    /// Says whether the device the fake stands for has a Left/Right pair.
    pub fn set_has_left_right_keys(&mut self, present: bool)
        ensures
            final(self).spec_has_left_right_keys() == present,
            final(self).spec_swipe_moves_selection() == old(self).spec_swipe_moves_selection(),
            final(self).spec_ops() == old(self).spec_ops(),
    {
        self.has_left_right_keys = present;
    }

    /// Notes that input was read, so the next write starts a frame.
    fn seen(&self) {
        self.read.set(true);
    }

    /// Records `op`.
    fn push(&mut self, op: DrawOp)
        ensures
            final(self).spec_ops() == old(self).spec_ops().push(op),
            final(self).spec_updates() == old(self).spec_updates(),
            final(self).drawn@ == old(self).drawn@,
    {
        self.ops.push(op);
    }
}

impl Drawing for TestHost {
    closed spec fn spec_drawn(&self) -> Seq<Drawn> {
        self.drawn@
    }
}

impl Canvas for TestHost {
    closed spec fn spec_screen_size(&self) -> Size {
        Size { width: SCREEN_WIDTH, height: SCREEN_HEIGHT }
    }

    closed spec fn spec_icon_size(&self, icon: IconRef) -> i32 {
        icon.size
    }

    fn screen_size(&self) -> (r: Size) {
        Size::new(SCREEN_WIDTH, SCREEN_HEIGHT)
    }

    fn clear(&mut self)
        ensures
            final(self).spec_ops() == old(self).spec_ops().push(DrawOp::Clear),
            final(self).spec_updates() == old(self).spec_updates(),
    {
        self.drawn = Ghost(self.drawn@.push(Drawn::Clear));
        self.push(DrawOp::Clear);
    }

    fn draw_text(&mut self, origin: Point, text: &str, font: FontId, style: FontStyle)
        ensures
            font.0 == 0 ==> final(self).spec_ops() == old(self).spec_ops(),
            font.0 != 0 ==> {
                &&& final(self).spec_ops().drop_last() == old(self).spec_ops()
                &&& final(self).spec_ops().len() == old(self).spec_ops().len() + 1
                &&& final(self).spec_ops().last() matches DrawOp::Text { origin: o, text: t, font: f, style: st }
                    && o == origin && t@ == text@ && f == font.0 && st == style
            },
            final(self).spec_updates() == old(self).spec_updates(),
    {
        self.drawn = Ghost(self.drawn@.push(Drawn::Text { origin, text: text@, font, style }));
        if font.0 == 0 {
            return ;
        }
        self.push(DrawOp::Text { origin, text: text.to_owned(), font: font.0, style });
    }

    fn fill_rect(&mut self, rect: Rect, black: bool)
        ensures
            final(self).spec_ops() == old(self).spec_ops().push(DrawOp::Rect { rect, kind: RectKind::Filled, black }),
            final(self).spec_updates() == old(self).spec_updates(),
    {
        self.drawn = Ghost(self.drawn@.push(Drawn::Fill { rect, black }));
        self.push(DrawOp::Rect { rect, kind: RectKind::Filled, black });
    }

    fn stroke_rect(&mut self, rect: Rect)
        ensures
            final(self).spec_ops() == old(self).spec_ops().push(DrawOp::Rect { rect, kind: RectKind::Stroked, black: true }),
            final(self).spec_updates() == old(self).spec_updates(),
    {
        self.drawn = Ghost(self.drawn@.push(Drawn::Stroke { rect }));
        self.push(DrawOp::Rect { rect, kind: RectKind::Stroked, black: true });
    }

    fn draw_line(&mut self, from: Point, to: Point)
        ensures
            final(self).spec_ops() == old(self).spec_ops().push(DrawOp::Line { from, to }),
            final(self).spec_updates() == old(self).spec_updates(),
    {
        self.drawn = Ghost(self.drawn@.push(Drawn::Line { from, to }));
        self.push(DrawOp::Line { from, to });
    }

    fn fill_rect_dither(&mut self, rect: Rect, light: bool)
        ensures
            final(self).spec_ops() == old(self).spec_ops().push(DrawOp::Rect { rect, kind: RectKind::Dither, black: light }),
            final(self).spec_updates() == old(self).spec_updates(),
    {
        self.drawn = Ghost(self.drawn@.push(Drawn::Dither { rect, light }));
        self.push(DrawOp::Rect { rect, kind: RectKind::Dither, black: light });
    }

    fn scrim(&mut self, rect: Rect)
        ensures
            final(self).spec_ops() == old(self).spec_ops().push(DrawOp::Rect { rect, kind: RectKind::Scrim, black: true }),
            final(self).spec_updates() == old(self).spec_updates(),
    {
        self.drawn = Ghost(self.drawn@.push(Drawn::Scrim { rect }));
        self.push(DrawOp::Rect { rect, kind: RectKind::Scrim, black: true });
    }

    fn set_clip(&mut self, rect: Option<Rect>)
        ensures
            final(self).spec_ops() == old(self).spec_ops().push(DrawOp::Clip(rect)),
            final(self).spec_updates() == old(self).spec_updates(),
    {
        self.drawn = Ghost(self.drawn@.push(Drawn::Clip { rect }));
        self.push(DrawOp::Clip(rect));
    }

    fn draw_image(&mut self, origin: Point, data: &[u8], size: Size)
        ensures
            final(self).spec_ops() == old(self).spec_ops().push(DrawOp::Image { origin, size, bytes: data@.len() as usize }),
            final(self).spec_updates() == old(self).spec_updates(),
    {
        self.drawn = Ghost(self.drawn@.push(Drawn::Image { origin, data: data@, size }));
        self.push(DrawOp::Image { origin, size, bytes: data.len() });
    }

    fn draw_icon(&mut self, origin: Point, icon: IconRef)
        ensures
            final(self).spec_ops() == old(self).spec_ops().push(DrawOp::Icon { origin, icon }),
            final(self).spec_updates() == old(self).spec_updates(),
    {
        self.drawn = Ghost(self.drawn@.push(Drawn::Icon { origin, icon }));
        self.push(DrawOp::Icon { origin, icon });
    }

    fn icon_size(&self, icon: IconRef) -> (r: i32) {
        icon.size
    }
}

impl TextMetrics for TestHost {
    closed spec fn spec_font(&self, role: FontRole) -> FontId {
        match role {
            FontRole::Ui => FontId(UI_FONT),
            FontRole::UiSmall => FontId(UI_SMALL_FONT),
            FontRole::Reader => FontId(READER_FONT),
        }
    }

    closed spec fn spec_text_width(&self, font: FontId, text: Seq<char>, style: FontStyle) -> i32 {
        if font.0 == 0 {
            0
        } else {
            let w = text.len() * font_metrics(font.0).1;
            if w > i32::MAX {
                i32::MAX
            } else {
                w as i32
            }
        }
    }

    closed spec fn spec_line_height(&self, font: FontId) -> i32 {
        if font.0 == 0 {
            0
        } else {
            font_metrics(font.0).0
        }
    }

    fn font(&self, role: FontRole) -> (r: FontId) {
        match role {
            FontRole::Ui => FontId(UI_FONT),
            FontRole::UiSmall => FontId(UI_SMALL_FONT),
            FontRole::Reader => FontId(READER_FONT),
        }
    }

    fn text_width(&self, font: FontId, text: &str, style: FontStyle) -> (r: i32) {
        if font.0 == 0 {
            return 0;
        }
        let advance: u64 = if font.0 == UI_SMALL_FONT {
            5
        } else if font.0 == READER_FONT {
            8
        } else {
            6
        };
        let n = text.unicode_len() as u64;
        if n > 0x1_0000_0000 {
            return i32::MAX;
        }
        let w: u64 = n * advance;
        if w > i32::MAX as u64 {
            i32::MAX
        } else {
            w as i32
        }
    }

    fn line_height(&self, font: FontId) -> (r: i32) {
        if font.0 == 0 {
            0
        } else if font.0 == UI_SMALL_FONT {
            14
        } else if font.0 == READER_FONT {
            19
        } else {
            17
        }
    }
}

impl Chrome for TestHost {
    closed spec fn spec_metric(&self, metric: ThemeMetric) -> i32 {
        spec_fake_metric(metric)
    }

    closed spec fn spec_option_popup_row_rect(
        &self,
        title: Seq<char>,
        options: Seq<String>,
        index: usize,
    ) -> Option<Rect> {
        if index >= options.len() || index > 100_000 {
            None
        } else {
            Some(
                Rect {
                    origin: Point { x: SIDE_PADDING, y: (SCREEN_HEIGHT / 4 + index * LIST_ROW_HEIGHT) as i32 },
                    size: Size { width: 448i32, height: LIST_ROW_HEIGHT },
                },
            )
        }
    }

    fn metric(&self, metric: ThemeMetric) -> (r: i32) {
        match metric {
            ThemeMetric::TopPadding => TOP_PADDING,
            ThemeMetric::HeaderHeight => HEADER_HEIGHT,
            ThemeMetric::VerticalSpacing => VERTICAL_SPACING,
            ThemeMetric::ButtonHintsHeight => BUTTON_HINTS_HEIGHT,
            ThemeMetric::ContentSidePadding => SIDE_PADDING,
            ThemeMetric::ContentTop => CONTENT_TOP,
            ThemeMetric::ContentBottom => CONTENT_BOTTOM,
            ThemeMetric::ListRowHeight => LIST_ROW_HEIGHT,
            ThemeMetric::ListRowHeightWithSubtitle => LIST_ROW_HEIGHT_WITH_SUBTITLE,
            ThemeMetric::ListRowGap => LIST_ROW_GAP,
            ThemeMetric::ProgressBarHeight => PROGRESS_BAR_HEIGHT,
            ThemeMetric::MinTouchSize => MIN_TOUCH_SIZE,
            ThemeMetric::SliderKnobWidth => SLIDER_KNOB_WIDTH,
            ThemeMetric::SliderKnobHeight => SLIDER_KNOB_HEIGHT,
            ThemeMetric::SliderSideInset => SLIDER_SIDE_INSET,
            ThemeMetric::SubHeaderHeight => SUB_HEADER_HEIGHT,
            ThemeMetric::SpacingSmall => SPACING_SMALL,
        }
    }

    fn draw_header(&mut self, title: Option<&str>, subtitle: Option<&str>)
        ensures
            final(self).spec_ops().drop_last() == old(self).spec_ops(),
            final(self).spec_ops().len() == old(self).spec_ops().len() + 1,
            final(self).spec_ops().last() matches DrawOp::Header { title: t, subtitle: st } && copies(t, title) && copies(st, subtitle),
            final(self).spec_updates() == old(self).spec_updates(),
    {
        self.drawn = Ghost(self.drawn@.push(Drawn::Header { title: opt_text(title), subtitle: opt_text(subtitle) }));
        self.push(DrawOp::Header { title: owned(title), subtitle: owned(subtitle) });
    }

    fn draw_sub_header(&mut self, rect: Rect, label: &str, right_label: Option<&str>)
        ensures
            final(self).spec_ops().drop_last() == old(self).spec_ops(),
            final(self).spec_ops().len() == old(self).spec_ops().len() + 1,
            final(self).spec_ops().last() matches DrawOp::SubHeader { rect: r, label: l, right: rl } && r == rect && l@ == label@ && copies(rl, right_label),
            final(self).spec_updates() == old(self).spec_updates(),
    {
        self.drawn = Ghost(self.drawn@.push(Drawn::SubHeader { rect, label: label@, right: opt_text(right_label) }));
        self.push(DrawOp::SubHeader { rect, label: label.to_owned(), right: owned(right_label) });
    }

    fn draw_button_hints(&mut self, back: &Hint, confirm: &Hint, previous: &Hint, next: &Hint)
        ensures
            final(self).spec_ops().drop_last() == old(self).spec_ops(),
            final(self).spec_ops().len() == old(self).spec_ops().len() + 1,
            final(self).spec_ops().last() matches DrawOp::Hints(slots) && slots@.len() == 4
                && hint_recorded(slots@[0], *back) && hint_recorded(slots@[1], *confirm)
                && hint_recorded(slots@[2], *previous) && hint_recorded(slots@[3], *next),
            final(self).spec_updates() == old(self).spec_updates(),
    {
        self.drawn = Ghost(self.drawn@.push(Drawn::Hints { back: *back, confirm: *confirm, previous: *previous, next: *next }));
        let mut slots: Vec<Option<String>> = Vec::new();
        slots.push(hint_label(back));
        slots.push(hint_label(confirm));
        slots.push(hint_label(previous));
        slots.push(hint_label(next));
        self.push(DrawOp::Hints(slots));
    }

    fn draw_progress_bar(&mut self, rect: Rect, current: u32, total: u32)
        ensures
            final(self).spec_ops() == old(self).spec_ops().push(DrawOp::ProgressBar { rect, current, total }),
            final(self).spec_updates() == old(self).spec_updates(),
    {
        self.drawn = Ghost(self.drawn@.push(Drawn::ProgressBar { rect, current, total }));
        self.push(DrawOp::ProgressBar { rect, current, total });
    }

    fn draw_slider(&mut self, rect: Rect, value: i32, max: i32, state: ControlState)
        ensures
            final(self).spec_ops() == old(self).spec_ops().push(DrawOp::Slider { rect, value, max, state }),
            final(self).spec_updates() == old(self).spec_updates(),
    {
        self.drawn = Ghost(self.drawn@.push(Drawn::Slider { rect, value, max, state }));
        self.push(DrawOp::Slider { rect, value, max, state });
    }

    fn draw_scroll_indicator(&mut self, rect: Rect, content: i32, visible: i32, offset: i32)
        ensures
            final(self).spec_ops() == old(self).spec_ops().push(DrawOp::ScrollIndicator { rect, content, visible, offset }),
            final(self).spec_updates() == old(self).spec_updates(),
    {
        self.drawn = Ghost(self.drawn@.push(Drawn::ScrollIndicator { rect, content, visible, offset }));
        self.push(DrawOp::ScrollIndicator { rect, content, visible, offset });
    }

    fn draw_list(&mut self, rect: Rect, rows: &[ListRowText], selected: i32)
        ensures
            final(self).spec_ops().drop_last() == old(self).spec_ops(),
            final(self).spec_ops().len() == old(self).spec_ops().len() + 1,
            final(self).spec_ops().last() matches DrawOp::List { rect: r, selected: sel, rows: copied } && r == rect && sel == selected && copied@ == rows@,
            final(self).spec_updates() == old(self).spec_updates(),
    {
        self.drawn = Ghost(self.drawn@.push(Drawn::List { rect, rows: rows@, selected }));
        let mut copied: Vec<ListRowText> = Vec::new();
        let mut i: usize = 0;
        while i < rows.len()
            invariant
                i <= rows@.len(),
                copied@ == rows@.take(i as int),
            decreases rows@.len() - i,
        {
            copied.push(copy_row(&rows[i]));
            proof {
                assert(rows@.take(i + 1) =~= rows@.take(i as int).push(rows@[i as int]));
            }
            i = i + 1;
        }
        proof {
            assert(rows@.take(rows@.len() as int) =~= rows@);
        }
        self.push(DrawOp::List { rect, selected, rows: copied });
    }

    fn draw_option_popup(&mut self, title: &str, options: &[String], selected: i32)
        ensures
            final(self).spec_ops().drop_last() == old(self).spec_ops(),
            final(self).spec_ops().len() == old(self).spec_ops().len() + 1,
            final(self).spec_ops().last() matches DrawOp::OptionPopup { title: t, selected: sel, options: copied } && t@ == title@ && sel == selected && copied@ == options@,
            final(self).spec_updates() == old(self).spec_updates(),
    {
        self.drawn = Ghost(self.drawn@.push(Drawn::OptionPopup { title: title@, options: options@, selected }));
        let mut copied: Vec<String> = Vec::new();
        let mut i: usize = 0;
        while i < options.len()
            invariant
                i <= options@.len(),
                copied@ == options@.take(i as int),
            decreases options@.len() - i,
        {
            copied.push(options[i].clone());
            proof {
                assert(options@.take(i + 1) =~= options@.take(i as int).push(options@[i as int]));
            }
            i = i + 1;
        }
        proof {
            assert(options@.take(options@.len() as int) =~= options@);
        }
        self.push(DrawOp::OptionPopup { title: title.to_owned(), selected, options: copied });
    }

    fn option_popup_row_rect(&self, title: &str, options: &[String], index: usize) -> (r: Option<
        Rect,
    >) {
        if index >= options.len() || index > 100_000 {
            return None;
        }
        let y: i32 = SCREEN_HEIGHT / 4 + index as i32 * LIST_ROW_HEIGHT;
        Some(Rect { origin: Point { x: SIDE_PADDING, y }, size: Size { width: SCREEN_WIDTH - SIDE_PADDING * 2, height: LIST_ROW_HEIGHT } })
    }

    fn request_update(&mut self)
        ensures
            final(self).spec_updates() == if old(self).spec_updates() < u32::MAX {
                (old(self).spec_updates() + 1) as u32
            } else {
                old(self).spec_updates()
            },
            final(self).spec_ops() == old(self).spec_ops(),
    {
        if self.updates < u32::MAX {
            self.updates = self.updates + 1;
        }
    }
}

impl InputSource for TestHost {
    closed spec fn spec_was_pressed(&self, button: Button) -> bool {
        self.pressed == Some(button)
    }

    closed spec fn spec_is_pressed(&self, button: Button) -> bool {
        self.held == Some(button)
    }

    closed spec fn spec_was_released(&self, button: Button) -> bool {
        self.released == Some(button)
    }

    closed spec fn spec_has_touch(&self) -> bool {
        self.tap is Some || self.touch is Some || self.lifted
    }

    closed spec fn spec_has_left_right_keys(&self) -> bool {
        self.has_left_right_keys
    }

    closed spec fn spec_tap(&self) -> Option<Point> {
        self.tap
    }

    closed spec fn spec_touch_held(&self) -> Option<Point> {
        self.touch
    }

    closed spec fn spec_touch_released(&self) -> bool {
        self.lifted
    }

    closed spec fn spec_swipe(&self) -> SwipeDir {
        self.swipe
    }

    closed spec fn spec_was_back_gesture(&self) -> bool {
        self.back_gesture
    }

    closed spec fn spec_was_home_gesture(&self) -> bool {
        self.home_gesture
    }

    closed spec fn spec_swipe_moves_selection(&self) -> bool {
        self.swipe_moves_selection
    }

    fn was_pressed(&self, button: Button) -> (r: bool) {
        self.seen();
        self.pressed == Some(button)
    }

    fn is_pressed(&self, button: Button) -> (r: bool) {
        self.seen();
        self.held == Some(button)
    }

    fn was_released(&self, button: Button) -> (r: bool) {
        self.seen();
        self.released == Some(button)
    }

    fn has_touch(&self) -> (r: bool) {
        self.seen();
        self.tap.is_some() || self.touch.is_some() || self.lifted
    }

    fn has_left_right_keys(&self) -> (r: bool) {
        self.has_left_right_keys
    }

    fn tap(&self) -> (r: Option<Point>) {
        self.seen();
        self.tap
    }

    fn touch_held(&self) -> (r: Option<Point>) {
        self.seen();
        self.touch
    }

    fn touch_released(&self) -> (r: bool) {
        self.seen();
        self.lifted
    }

    fn swipe(&self) -> (r: SwipeDir) {
        self.seen();
        self.swipe
    }

    fn was_back_gesture(&self) -> (r: bool) {
        self.seen();
        self.back_gesture
    }

    fn was_home_gesture(&self) -> (r: bool) {
        self.seen();
        self.home_gesture
    }

    fn swipe_moves_selection(&self) -> (r: bool) {
        self.swipe_moves_selection
    }
}

impl Clock for TestHost {
    closed spec fn spec_millis(&self) -> u32 {
        self.now
    }

    fn millis(&self) -> (r: u32) {
        self.now
    }
}

} // verus!
