//! What the UI needs from whatever hosts it.
//!
//! The framework never talks to a backend directly. It declares this contract and a
//! host passes an implementation to every frame, so the framework can be
//! built, tested and reasoned about without a device.

pub mod input;

pub use input::{Button, Input, InputSource, KeyRow, RowKey, SwipeDir};
pub mod clock;
pub mod metrics;

pub use clock::{Clock, millis};
pub use metrics::{Font, FontId, FontRole, FontStyle, TextMetrics};
pub mod drawing;

pub use drawing::{Drawing, Drawn, extends, opt_text};
pub mod canvas;

pub use canvas::{Canvas, Clips, IconRef, Renderer};
pub mod chrome;

pub use chrome::{
    Chrome, ControlState, Hint, HintWord, ListRowText, PaintRequest, RowField, ScreenChrome, Theme,
    ThemeMetric, request_update,
};
pub mod value_mode;
pub mod navigator;

pub use navigator::{Navigator, finish_screen, present};

pub use value_mode::{ValueMode, value_mode};

use vstd::prelude::*;

verus! {

/// Everything a backend must provide, as one object implementing all five
/// traits. Nothing implements it by hand: any type that implements the five
/// is a `Host`.
pub trait Host: Canvas + TextMetrics + Chrome + InputSource + Clock {}

impl<T: Canvas + TextMetrics + Chrome + InputSource + Clock> Host for T {}

/// Whether `a` and `b` report the same frame of input at the same time.
pub open spec fn same_input<H: InputSource + Clock>(a: &H, b: &H) -> bool {
    &&& forall|k: Button| #[trigger] a.spec_was_pressed(k) == b.spec_was_pressed(k)
    &&& forall|k: Button| #[trigger] a.spec_is_pressed(k) == b.spec_is_pressed(k)
    &&& forall|k: Button| #[trigger] a.spec_was_released(k) == b.spec_was_released(k)
    &&& a.spec_has_touch() == b.spec_has_touch()
    &&& a.spec_has_left_right_keys() == b.spec_has_left_right_keys()
    &&& a.spec_tap() == b.spec_tap()
    &&& a.spec_touch_held() == b.spec_touch_held()
    &&& a.spec_touch_released() == b.spec_touch_released()
    &&& a.spec_swipe() == b.spec_swipe()
    &&& a.spec_was_back_gesture() == b.spec_was_back_gesture()
    &&& a.spec_was_home_gesture() == b.spec_was_home_gesture()
    &&& a.spec_swipe_moves_selection() == b.spec_swipe_moves_selection()
    &&& a.spec_millis() == b.spec_millis()
}

} // verus!
