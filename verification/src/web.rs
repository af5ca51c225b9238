//! Widgets of the web backend, which are styled by CSS.

pub mod badge;
pub mod css;
pub mod floating_button;
