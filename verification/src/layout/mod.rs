//! How containers position their children.

pub mod axis;

pub use axis::{Alignment, Axis};
