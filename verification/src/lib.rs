//! A declarative UI framework for e-ink screens, with the logic that routes
//! input, keeps focus and lays out controls proved against its contracts.

pub mod app;
pub mod geometry;
pub mod host;
pub mod layout;
pub mod view;
pub mod screen;
pub mod widgets;
pub mod testing;
pub mod lint;
pub mod text;
