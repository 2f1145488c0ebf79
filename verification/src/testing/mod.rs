//! Support for testing screens: a fake host that records what a frame drew,
//! and a diff for comparing that record against a committed golden.

pub mod host;
pub mod ops;
pub mod recorder;
pub mod snapshot;

pub use host::{DrawOp, RectKind, TestHost};
pub use ops::render;
pub use recorder::Recorder;
