//! What a host was asked to draw, as the framework's contracts speak of it.
//!
//! Drawing answers nothing, so the only thing a contract can say about a draw
//! call is that it was made, with which arguments, and in which order. Every
//! host keeps that record as a specification-only log; the pixels it puts on
//! the panel are its own business.
use vstd::prelude::*;

use crate::geometry::{Point, Rect, Size};
use crate::host::canvas::IconRef;
use crate::host::chrome::{ControlState, Hint, ListRowText};
use crate::host::metrics::{FontId, FontStyle};

verus! {

/// One draw call a host was asked to make.
pub enum Drawn {
    /// `Canvas::clear`.
    Clear,
    /// `Canvas::draw_text`.
    Text { origin: Point, text: Seq<char>, font: FontId, style: FontStyle },
    /// `Canvas::fill_rect`.
    Fill { rect: Rect, black: bool },
    /// `Canvas::stroke_rect`.
    Stroke { rect: Rect },
    /// `Canvas::draw_line`.
    Line { from: Point, to: Point },
    /// `Canvas::fill_rect_dither`.
    Dither { rect: Rect, light: bool },
    /// `Canvas::scrim`.
    Scrim { rect: Rect },
    /// `Canvas::set_clip`.
    Clip { rect: Option<Rect> },
    /// `Canvas::draw_image`.
    Image { origin: Point, data: Seq<u8>, size: Size },
    /// `Canvas::draw_icon`.
    Icon { origin: Point, icon: IconRef },
    /// `Chrome::draw_header`.
    Header { title: Option<Seq<char>>, subtitle: Option<Seq<char>> },
    /// `Chrome::draw_sub_header`.
    SubHeader { rect: Rect, label: Seq<char>, right: Option<Seq<char>> },
    /// `Chrome::draw_button_hints`.
    Hints { back: Hint, confirm: Hint, previous: Hint, next: Hint },
    /// `Chrome::draw_progress_bar`.
    ProgressBar { rect: Rect, current: u32, total: u32 },
    /// `Chrome::draw_slider`.
    Slider { rect: Rect, value: i32, max: i32, state: ControlState },
    /// `Chrome::draw_scroll_indicator`.
    ScrollIndicator { rect: Rect, content: i32, visible: i32, offset: i32 },
    /// `Chrome::draw_list`.
    List { rect: Rect, rows: Seq<ListRowText>, selected: i32 },
    /// `Chrome::draw_option_popup`.
    OptionPopup { title: Seq<char>, options: Seq<String>, selected: i32 },
}

/// The view of an optional borrowed string.
pub open spec fn opt_text(text: Option<&str>) -> Option<Seq<char>> {
    match text {
        Some(t) => Some(t@),
        None => None,
    }
}

/// Whether `after` is `before` with more calls after it: drawing never takes
/// back a call already made.
pub open spec fn extends(before: Seq<Drawn>, after: Seq<Drawn>) -> bool {
    &&& before.len() <= after.len()
    &&& forall|i: int| 0 <= i < before.len() ==> #[trigger] after[i] == before[i]
}

/// A host's record of the draw calls it was asked to make, in order.
pub trait Drawing {
    /// Every draw call made so far, oldest first.
    spec fn spec_drawn(&self) -> Seq<Drawn>;
}

} // verus!
