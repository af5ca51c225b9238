//! Value types shared by the widgets.

pub mod anchor;
pub mod color;
pub mod font;
pub mod geometry;
pub mod interaction;
pub mod length;
pub mod offset;
pub mod tab_label;
pub mod text;
