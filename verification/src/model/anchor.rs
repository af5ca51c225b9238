//! The corner of a container that an overlay is measured from.

use vstd::prelude::*;
use crate::model::geometry::{Point, Rectangle};

verus! {

/// A corner of a container.
#[derive(Clone, Copy, Debug, PartialEq, Eq, Hash, Structural)]
pub enum Anchor {
    /// The top-left corner.
    NorthWest,
    /// The top-right corner.
    NorthEast,
    /// The bottom-left corner.
    SouthWest,
    /// The bottom-right corner.
    SouthEast,
}

impl Anchor {
    /// Whether the corner lies on the right edge.
    pub open spec fn is_east(self) -> bool {
        self == Anchor::NorthEast || self == Anchor::SouthEast
    }

    /// Whether the corner lies on the bottom edge.
    pub open spec fn is_south(self) -> bool {
        self == Anchor::SouthWest || self == Anchor::SouthEast
    }

    /// The corner of `bounds`, in absolute coordinates: the origin of the
    /// container, moved by its width for an eastern corner and by its height
    /// for a southern one.
    pub open spec fn corner_of(self, bounds: Rectangle) -> (int, int) {
        (
            bounds.x + if self.is_east() {
                bounds.width as int
            } else {
                0
            },
            bounds.y + if self.is_south() {
                bounds.height as int
            } else {
                0
            },
        )
    }

    /// Computes the corner of `bounds` that the anchor names.
    pub fn corner(self, bounds: Rectangle) -> (p: Point)
        requires
            bounds.valid(),
        ensures
            p.coords() == self.corner_of(bounds),
            p.reachable(),
    {
        let position = match self {
            Anchor::NorthWest => Point::new(0, 0),
            Anchor::NorthEast => Point::new(bounds.width, 0),
            Anchor::SouthWest => Point::new(0, bounds.height),
            Anchor::SouthEast => Point::new(bounds.width, bounds.height),
        };
        Point::new(bounds.x + position.x, bounds.y + position.y)
    }
}

} // verus!
