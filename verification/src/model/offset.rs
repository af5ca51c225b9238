//! The distance of an overlay from the corner it is anchored to.

use vstd::prelude::*;
use vstd::std_specs::convert::FromSpecImpl;
use crate::model::anchor::Anchor;
use crate::model::geometry::{in_space, Point, COORD_MAX};

verus! {

/// A distance from a corner, measured into the container: to the right from
/// a western corner and to the left from an eastern one, downwards from a
/// northern corner and upwards from a southern one.
#[derive(Clone, Copy, Debug, PartialEq, Eq, Hash, Structural)]
pub struct Offset {
    /// The horizontal distance.
    pub x: i32,
    /// The vertical distance.
    pub y: i32,
}

impl Offset {
    /// An offset is valid when both distances lie within the layout space.
    pub open spec fn valid(&self) -> bool {
        in_space(self.x as int) && in_space(self.y as int)
    }

    /// Where `position` comes to lie when it is moved by the offset, away
    /// from the corner `anchor`.
    pub open spec fn moved(&self, anchor: Anchor, position: (int, int)) -> (int, int) {
        (
            if anchor.is_east() {
                position.0 - self.x
            } else {
                position.0 + self.x
            },
            if anchor.is_south() {
                position.1 - self.y
            } else {
                position.1 + self.y
            },
        )
    }

    /// Tells whether the offset is valid.
    pub fn is_valid(&self) -> (r: bool)
        ensures
            r == self.valid(),
    {
        -COORD_MAX <= self.x && self.x <= COORD_MAX && -COORD_MAX <= self.y && self.y
            <= COORD_MAX
    }

    /// Moves `position` by the offset, away from the corner `anchor`.
    pub fn apply(&self, anchor: Anchor, position: Point) -> (p: Point)
        requires
            self.valid(),
            position.reachable(),
        ensures
            p.coords() == self.moved(anchor, position.coords()),
    {
        let x = match anchor {
            Anchor::NorthWest | Anchor::SouthWest => position.x + self.x,
            Anchor::NorthEast | Anchor::SouthEast => position.x - self.x,
        };
        let y = match anchor {
            Anchor::NorthWest | Anchor::NorthEast => position.y + self.y,
            Anchor::SouthWest | Anchor::SouthEast => position.y - self.y,
        };
        Point::new(x, y)
    }
}

impl From<i32> for Offset {
    /// The offset with the same distance in both directions.
    fn from(distance: i32) -> (r: Offset) {
        Offset { x: distance, y: distance }
    }
}

impl FromSpecImpl<i32> for Offset {
    open spec fn obeys_from_spec() -> bool {
        true
    }

    open spec fn from_spec(distance: i32) -> Offset {
        Offset { x: distance, y: distance }
    }
}

} // verus!
