//! Laws of windows and tabs.

pub mod batches;
pub mod change;
pub mod config;
pub mod decimal;
pub mod events;
pub mod focus;
pub mod frames;
pub mod ids;
pub mod models;
pub mod opening;
pub mod tabs;
pub mod titles;
