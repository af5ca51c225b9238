//! Widget logic for tab bars, floating buttons, modals and badges: selection
//! state, overlay placement and the draw instructions of a tab bar, stated and
//! proved over integer coordinates.

pub mod graphics;
pub mod model;
pub mod native;
pub mod style;
pub mod tabs;
pub mod web;
