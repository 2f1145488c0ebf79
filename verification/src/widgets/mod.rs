//! Leaf views that draw content.

pub mod divider;
pub mod text;

pub use divider::Divider;
pub use text::Text;
pub mod readout;

pub use readout::{Header, Readout};
pub mod slider;

pub use slider::Slider;
pub mod stepper;

pub use stepper::Stepper;
pub mod modal;

pub use modal::Modal;
pub mod toggle;

pub use toggle::Toggle;
