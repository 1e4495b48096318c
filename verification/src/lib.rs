//! Windows and tabs of a terminal emulator.
//!
//! A [`WindowContext`] owns the tabs of one window and decides what selecting, closing, reordering
//! and renaming them, a new configuration, a frame or a batch of events does. It touches neither
//! the platform nor a terminal: what a call reads of them has been written to the window before,
//! and what it asks of them is appended to the window's effects.
//!
//! Every window has a mathematical model, [`window_context::WindowModel`], and every call is
//! specified by the model that it leads to.

pub mod config;
pub mod decimal;
pub mod display;
pub mod draw;
pub mod effect;
pub mod events;
pub mod laws;
pub mod opening;
pub mod ref_test;
pub mod tab;
pub mod tab_id;
pub mod tabs;
pub mod trusted;
pub mod window_context;

pub use crate::tab::Tab;
pub use crate::window_context::WindowContext;
