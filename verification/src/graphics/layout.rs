//! The outcome of a layout pass: a tree of bounding rectangles.

use vstd::prelude::*;
use crate::model::geometry::Rectangle;

verus! {

/// The bounds of a widget and, below them, the layouts of its parts.
#[derive(Debug, PartialEq, Eq)]
pub struct Layout {
    /// The bounds of the widget, in absolute coordinates.
    pub bounds: Rectangle,
    /// The layouts of the widget's parts, in order.
    pub children: Vec<Layout>,
}

} // verus!
