//! The looks of the widgets.

pub mod tab_bar;
