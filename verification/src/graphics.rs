//! Draw instructions and the widgets that produce them.

pub mod layout;
pub mod primitive;
pub mod tab_bar;
