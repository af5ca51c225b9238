//! Widgets of the native backend.

pub mod floating_button;
pub mod modal;
