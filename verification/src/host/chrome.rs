//! The themed furniture: metrics the theme owns, and the parts it paints
//! itself.
//!
//! A list, a modal and a progress bar are drawn by the host rather than by the
//! framework, so a screen looks identical to a native one and follows the
//! user's theme without the framework knowing what a theme is.
use vstd::prelude::*;

use crate::geometry::{Rect, clamp_to_i32, clamp_zero, fits_i32, sat_i32};
use crate::host::canvas::Canvas;
use crate::host::drawing::{Drawing, Drawn, opt_text};

verus! {

/// A geometry value from the active theme, requested one at a time by tag.
#[derive(Copy, Clone, Debug, PartialEq, Eq, Structural)]
pub enum ThemeMetric {
    /// Gap above the header band.
    TopPadding,
    /// Height of the header band.
    HeaderHeight,
    /// The gap between stacked elements.
    VerticalSpacing,
    /// The band reserved at the bottom for the button hints.
    ButtonHintsHeight,
    /// Space between the panel's side edges and the content.
    ContentSidePadding,
    /// First y below the header that content may use.
    ContentTop,
    /// First y occupied by the button hints; content must stay above.
    ContentBottom,
    /// Height of a one-line list row.
    ListRowHeight,
    /// Height of a list row carrying a subtitle.
    ListRowHeightWithSubtitle,
    /// Space the theme leaves between one row and the next.
    ListRowGap,
    /// Height of the progress bar.
    ProgressBarHeight,
    /// The smallest comfortably tappable dimension.
    MinTouchSize,
    /// A slider knob's width.
    SliderKnobWidth,
    /// A slider knob's height.
    SliderKnobHeight,
    /// The padding a slider's track is inset by at each end.
    SliderSideInset,
    /// Height of the band a sub-header needs.
    SubHeaderHeight,
    /// The theme's small step, for space within a group.
    SpacingSmall,
}

/// What the keys will do to a control next, so a person can see it.
#[derive(Copy, Clone, Debug, PartialEq, Eq, Structural)]
pub enum ControlState {
    /// The keys are elsewhere.
    Idle,
    /// The keys would act on this control if they moved a value now.
    Focused,
    /// The control is open: the keys are moving this value.
    Editing,
}

impl Default for ControlState {
    fn default() -> (r: Self)
        ensures
            r == ControlState::Idle,
    {
        ControlState::Idle
    }
}

/// Which piece of a list row is being asked for.
#[derive(Copy, Clone, Debug, PartialEq, Eq, Structural)]
pub enum RowField {
    /// The row's title.
    Title,
    /// The second line, when there is one.
    Subtitle,
    /// The value at the trailing edge.
    Value,
}

/// The text of one themed list row, by field; `None` omits the field.
#[derive(Clone, Debug, PartialEq, Eq)]
pub struct ListRowText {
    /// The row's title.
    pub title: Option<String>,
    /// The second line, when there is one.
    pub subtitle: Option<String>,
    /// The value at the trailing edge.
    pub value: Option<String>,
}

impl ListRowText {
    /// The text for one field of the row.
    pub fn field(&self, field: RowField) -> (r: Option<&String>)
        ensures
            r == (match field {
                RowField::Title => match &self.title { Some(t) => Some(t), None => None },
                RowField::Subtitle => match &self.subtitle { Some(t) => Some(t), None => None },
                RowField::Value => match &self.value { Some(t) => Some(t), None => None },
            }),
    {
        match field {
            RowField::Title => self.title.as_ref(),
            RowField::Subtitle => self.subtitle.as_ref(),
            RowField::Value => self.value.as_ref(),
        }
    }
}

/// Chrome the host draws on the framework's behalf.
pub trait Chrome: Drawing {
    /// What `metric` answers for `metric`.
    spec fn spec_metric(&self, metric: ThemeMetric) -> i32;

    /// What `option_popup_row_rect` answers.
    spec fn spec_option_popup_row_rect(
        &self,
        title: Seq<char>,
        options: Seq<String>,
        index: usize,
    ) -> Option<Rect>;

    /// A geometry value from the active theme.
    fn metric(&self, metric: ThemeMetric) -> (r: i32)
        ensures
            r == self.spec_metric(metric),
    ;

    /// The header band. `None` draws an empty band.
    fn draw_header(&mut self, title: Option<&str>, subtitle: Option<&str>)
        ensures
            final(self).spec_drawn() == old(self).spec_drawn().push(
                Drawn::Header { title: opt_text(title), subtitle: opt_text(subtitle) },
            ),
    ;

    /// A section heading in `rect`.
    fn draw_sub_header(&mut self, rect: Rect, label: &str, right_label: Option<&str>)
        ensures
            final(self).spec_drawn() == old(self).spec_drawn().push(
                Drawn::SubHeader { rect, label: label@, right: opt_text(right_label) },
            ),
    ;

    /// The four hints, given by meaning. The host reorders them to match the
    /// user's button layout.
    fn draw_button_hints(&mut self, back: &Hint, confirm: &Hint, previous: &Hint, next: &Hint)
        ensures
            final(self).spec_drawn() == old(self).spec_drawn().push(
                Drawn::Hints { back: *back, confirm: *confirm, previous: *previous, next: *next },
            ),
    ;

    /// A determinate progress bar.
    fn draw_progress_bar(&mut self, rect: Rect, current: u32, total: u32)
        ensures
            final(self).spec_drawn() == old(self).spec_drawn().push(Drawn::ProgressBar { rect, current, total }),
    ;

    /// The themed slider: a track, a fill up to `value`, and a knob over both.
    fn draw_slider(&mut self, rect: Rect, value: i32, max: i32, state: ControlState)
        ensures
            final(self).spec_drawn() == old(self).spec_drawn().push(Drawn::Slider { rect, value, max, state }),
    ;

    /// The scroll indicator beside a scrolling region.
    fn draw_scroll_indicator(&mut self, rect: Rect, content: i32, visible: i32, offset: i32)
        ensures
            final(self).spec_drawn() == old(self).spec_drawn().push(
                Drawn::ScrollIndicator { rect, content, visible, offset },
            ),
    ;

    /// The themed list, one entry per row.
    fn draw_list(&mut self, rect: Rect, rows: &[ListRowText], selected: i32)
        ensures
            final(self).spec_drawn() == old(self).spec_drawn().push(Drawn::List { rect, rows: rows@, selected }),
    ;

    /// The themed modal, one entry per option.
    fn draw_option_popup(&mut self, title: &str, options: &[String], selected: i32)
        ensures
            final(self).spec_drawn() == old(self).spec_drawn().push(
                Drawn::OptionPopup { title: title@, options: options@, selected },
            ),
    ;

    /// Screen rect of one modal row, so hit-testing does not re-derive the
    /// dialog geometry the host already owns.
    fn option_popup_row_rect(&self, title: &str, options: &[String], index: usize) -> (r: Option<
        Rect,
    >)
        ensures
            r == self.spec_option_popup_row_rect(title@, options@, index),
    ;

    /// Asks for a repaint. E-ink does not refresh on its own.
    fn request_update(&mut self)
        ensures
            final(self).spec_drawn() == old(self).spec_drawn(),
    ;
}

/// One button-hint slot.
#[derive(Clone, Debug, PartialEq, Eq)]
pub enum Hint {
    /// The host's own translated label for this slot.
    Standard,
    /// Leave the slot blank.
    Blank,
    /// A label this screen supplies.
    Text(String),
    /// The host's word for opening a value control.
    Edit,
    /// The host's word for keeping what a value now reads.
    Done,
    /// The host's word for putting a value back.
    Cancel,
}

impl Default for Hint {
    fn default() -> (r: Self)
        ensures
            r == Hint::Standard,
    {
        Hint::Standard
    }
}

impl Hint {
    /// A label this screen supplies.
    pub fn text(label: &str) -> (r: Self)
        ensures
            r matches Hint::Text(s) && s@ == label@,
    {
        Hint::Text(label.to_owned())
    }

    /// What the host should draw: `None` means "a word of your own", and
    /// [`word`](Hint::word) says which; a blank slot is the empty label.
    pub fn label(&self) -> (r: Option<&str>)
        ensures
            match self {
                Hint::Standard | Hint::Edit | Hint::Done | Hint::Cancel => r is None,
                Hint::Blank => r matches Some(s) && s@ == Seq::<char>::empty(),
                Hint::Text(text) => r matches Some(s) && s@ == text@,
            },
    {
        match self {
            Hint::Standard | Hint::Edit | Hint::Done | Hint::Cancel => None,
            Hint::Blank => {
                let empty = "";
                proof {
                    reveal_strlit("");
                }
                Some(empty)
            },
            Hint::Text(text) => Some(text.as_str()),
        }
    }

    /// Which of the host's own words this slot wants.
    pub fn word(&self) -> (r: HintWord)
        ensures
            r == (match self {
                Hint::Edit => HintWord::Edit,
                Hint::Done => HintWord::Done,
                Hint::Cancel => HintWord::Cancel,
                _ => HintWord::Standard,
            }),
    {
        match self {
            Hint::Edit => HintWord::Edit,
            Hint::Done => HintWord::Done,
            Hint::Cancel => HintWord::Cancel,
            Hint::Standard | Hint::Blank | Hint::Text(_) => HintWord::Standard,
        }
    }
}

/// Which of a host's own words a hint slot is asking for.
#[derive(Copy, Clone, Debug, PartialEq, Eq, Structural)]
pub enum HintWord {
    /// Whatever this slot's key is normally called.
    Standard,
    /// "This control can be opened".
    Edit,
    /// "Keep what this now reads".
    Done,
    /// "Leave it as you found it".
    Cancel,
}

impl Default for HintWord {
    fn default() -> (r: Self)
        ensures
            r == HintWord::Standard,
    {
        HintWord::Standard
    }
}

/// The region between the header and the button hints, inset horizontally by
/// the theme's side padding, on a host with these answers. Each number is held
/// inside `i32`.
pub open spec fn spec_content_area(side: i32, top: i32, bottom: i32, width: i32) -> Rect {
    Rect::spec_new(side as int, top as int, sat_i32(width - side * 2), sat_i32(bottom - top))
}

/// The active theme, as widgets reach for it.
pub struct Theme;

impl Theme {
    /// A geometry value from the active theme.
    pub fn metric<H: Chrome>(host: &H, metric: ThemeMetric) -> (r: i32)
        ensures
            r == host.spec_metric(metric),
    {
        host.metric(metric)
    }

    /// The region between the header and the button hints, already inset
    /// horizontally by the theme's side padding.
    pub fn content_area<H: Canvas + Chrome>(host: &H) -> (r: Rect)
        ensures
            r == spec_content_area(
                host.spec_metric(ThemeMetric::ContentSidePadding),
                host.spec_metric(ThemeMetric::ContentTop),
                host.spec_metric(ThemeMetric::ContentBottom),
                host.spec_screen_size().width,
            ),
    {
        let top = Self::metric(host, ThemeMetric::ContentTop);
        let bottom = Self::metric(host, ThemeMetric::ContentBottom);
        let side = Self::metric(host, ThemeMetric::ContentSidePadding);
        let width = host.screen_size().width;
        let w = clamp_to_i32(width as i64 - side as i64 * 2);
        let h = clamp_to_i32(bottom as i64 - top as i64);
        Rect::new(side, top, w, h)
    }

    /// See [`Chrome::draw_sub_header`].
    pub fn draw_sub_header<H: Chrome>(host: &mut H, rect: Rect, label: &str, right_label: Option<&str>)
        ensures
            final(host).spec_drawn() == old(host).spec_drawn().push(Drawn::SubHeader { rect, label: label@, right: opt_text(right_label) }),
    {
        host.draw_sub_header(rect, label, right_label)
    }

    /// See [`Chrome::draw_progress_bar`].
    pub fn draw_progress_bar<H: Chrome>(host: &mut H, rect: Rect, current: u32, total: u32)
        ensures
            final(host).spec_drawn() == old(host).spec_drawn().push(Drawn::ProgressBar { rect, current, total }),
    {
        host.draw_progress_bar(rect, current, total)
    }

    /// See [`Chrome::draw_slider`].
    pub fn draw_slider<H: Chrome>(host: &mut H, rect: Rect, value: i32, max: i32, state: ControlState)
        ensures
            final(host).spec_drawn() == old(host).spec_drawn().push(Drawn::Slider { rect, value, max, state }),
    {
        host.draw_slider(rect, value, max, state)
    }

    /// See [`Chrome::draw_scroll_indicator`].
    pub fn draw_scroll_indicator<H: Chrome>(
        host: &mut H,
        rect: Rect,
        content: i32,
        visible: i32,
        offset: i32,
    )
        ensures
            final(host).spec_drawn() == old(host).spec_drawn().push(Drawn::ScrollIndicator { rect, content, visible, offset }),
    {
        host.draw_scroll_indicator(rect, content, visible, offset)
    }

    /// The themed list — see [`Chrome::draw_list`].
    pub fn draw_list<H: Chrome>(host: &mut H, rect: Rect, rows: &[ListRowText], selected: i32)
        ensures
            final(host).spec_drawn() == old(host).spec_drawn().push(Drawn::List { rect, rows: rows@, selected }),
    {
        host.draw_list(rect, rows, selected)
    }

    /// See [`Chrome::draw_option_popup`].
    pub fn draw_option_popup<H: Chrome>(host: &mut H, title: &str, options: &[String], selected: i32)
        ensures
            final(host).spec_drawn() == old(host).spec_drawn().push(Drawn::OptionPopup { title: title@, options: options@, selected }),
    {
        host.draw_option_popup(title, options, selected)
    }

    /// See [`Chrome::option_popup_row_rect`].
    pub fn option_popup_row_rect<H: Chrome>(
        host: &H,
        title: &str,
        options: &[String],
        index: usize,
    ) -> (r: Option<Rect>)
        ensures
            r == host.spec_option_popup_row_rect(title@, options@, index),
    {
        host.option_popup_row_rect(title, options, index)
    }
}

/// The screen's own furniture: header band and button hints.
pub struct ScreenChrome;

impl ScreenChrome {
    /// Draws the header with an explicit title.
    pub fn draw_header<H: Chrome>(host: &mut H, title: &str)
        ensures
            final(host).spec_drawn() == old(host).spec_drawn().push(Drawn::Header { title: Some(title@), subtitle: None }),
    {
        host.draw_header(Some(title), None)
    }

    /// Draws the header with the running screen's own title, passed as a
    /// title rather than as `None`: to a `Chrome` implementation `None` means
    /// no title, and the band comes out empty.
    pub fn draw_screen_header<H: Chrome>(host: &mut H, screen_title: &str)
        ensures
            final(host).spec_drawn() == old(host).spec_drawn().push(Drawn::Header { title: Some(screen_title@), subtitle: None }),
    {
        host.draw_header(Some(screen_title), None)
    }

    /// See [`Chrome::draw_button_hints`].
    pub fn draw_button_hints<H: Chrome>(
        host: &mut H,
        back: &Hint,
        confirm: &Hint,
        previous: &Hint,
        next: &Hint,
    )
        ensures
            final(host).spec_drawn() == old(host).spec_drawn().push(Drawn::Hints { back: *back, confirm: *confirm, previous: *previous, next: *next }),
    {
        host.draw_button_hints(back, confirm, previous, next)
    }

    /// The running screen's own title, from its declared title: the empty
    /// string when it declared none.
    pub fn screen_title(declared: Option<&'static str>) -> (r: &'static str)
        ensures
            declared matches Some(t) ==> r == t,
            declared is None ==> r@ == Seq::<char>::empty(),
    {
        match declared {
            Some(title) => title,
            None => {
                proof {
                    reveal_strlit("");
                }
                ""
            },
        }
    }
}

/// Whether a repaint has been asked for and not yet done.
pub struct PaintRequest {
    needed: bool,
}

impl PaintRequest {
    /// Whether a repaint is outstanding.
    pub closed spec fn spec_needed(&self) -> bool {
        self.needed
    }

    /// Nothing outstanding.
    pub fn new() -> (r: PaintRequest)
        ensures
            !r.spec_needed(),
    {
        PaintRequest { needed: false }
    }

    /// Whether a repaint is outstanding.
    pub fn needed(&self) -> (r: bool)
        ensures
            r == self.spec_needed(),
    {
        self.needed
    }

    /// Marks the outstanding repaint as satisfied.
    pub fn clear(&mut self)
        ensures
            !final(self).spec_needed(),
    {
        self.needed = false;
    }
}

/// Asks for a repaint. E-ink does not refresh on its own.
///
/// Anything that changes what the panel should show calls this; it is
/// remembered in `paint` for whoever owns the loop, and passed to the host.
pub fn request_update<H: Chrome>(host: &mut H, paint: &mut PaintRequest)
    ensures
        final(paint).spec_needed(),
        final(host).spec_drawn() == old(host).spec_drawn(),
{
    paint.needed = true;
    host.request_update()
}

} // verus!
