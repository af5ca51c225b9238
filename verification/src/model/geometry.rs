//! Points and rectangles on the integer pixel grid.

use vstd::prelude::*;

verus! {

/// The largest magnitude of a coordinate or an extent in the layout space.
///
/// Sums of a few values within this bound stay far inside `i32`.
pub const COORD_MAX: i32 = 0x0100_0000;

/// Whether `v` lies within the layout space.
pub open spec fn in_space(v: int) -> bool {
    -(COORD_MAX as int) <= v <= COORD_MAX as int
}

/// A position on the pixel grid.
#[derive(Clone, Copy, Debug, PartialEq, Eq, Structural)]
pub struct Point {
    pub x: i32,
    pub y: i32,
}

impl Point {
    /// The coordinates as a pair of integers.
    pub open spec fn coords(self) -> (int, int) {
        (self.x as int, self.y as int)
    }

    /// Whether the point is a corner that a valid rectangle can have: each
    /// coordinate is at most twice the bound of the layout space away from 0.
    pub open spec fn reachable(self) -> bool {
        &&& -2 * COORD_MAX <= self.x <= 2 * COORD_MAX
        &&& -2 * COORD_MAX <= self.y <= 2 * COORD_MAX
    }

    /// Tells whether the point is a corner that a valid rectangle can have.
    pub fn is_reachable(&self) -> (r: bool)
        ensures
            r == self.reachable(),
    {
        -2 * COORD_MAX <= self.x && self.x <= 2 * COORD_MAX && -2 * COORD_MAX <= self.y
            && self.y <= 2 * COORD_MAX
    }

    /// The point with the given coordinates.
    pub fn new(x: i32, y: i32) -> (p: Self)
        ensures
            p == (Point { x, y }),
    {
        Point { x, y }
    }
}

/// An axis-aligned rectangle: its top-left corner and its extent.
#[derive(Clone, Copy, Debug, PartialEq, Eq, Structural)]
pub struct Rectangle {
    pub x: i32,
    pub y: i32,
    pub width: i32,
    pub height: i32,
}

impl Rectangle {
    /// A rectangle is valid when its corner lies in the layout space and its
    /// extent is non-negative and within the same bound.
    pub open spec fn valid(&self) -> bool {
        &&& in_space(self.x as int)
        &&& in_space(self.y as int)
        &&& 0 <= self.width <= COORD_MAX
        &&& 0 <= self.height <= COORD_MAX
    }

    /// Whether `point` lies inside the rectangle, edges included.
    pub open spec fn covers(&self, point: Point) -> bool {
        &&& self.x <= point.x <= self.x + self.width
        &&& self.y <= point.y <= self.y + self.height
    }

    /// The horizontal centre: the left edge plus half the width, rounded down.
    pub open spec fn mid_x(&self) -> int {
        self.x + self.width / 2
    }

    /// The vertical centre: the top edge plus half the height, rounded down.
    pub open spec fn mid_y(&self) -> int {
        self.y + self.height / 2
    }

    /// The rectangle of the same extent whose corner is this one's centre.
    pub open spec fn centered(&self) -> Rectangle {
        Rectangle {
            x: self.mid_x() as i32,
            y: self.mid_y() as i32,
            width: self.width,
            height: self.height,
        }
    }

    /// Tells whether the rectangle is valid.
    pub fn is_valid(&self) -> (r: bool)
        ensures
            r == self.valid(),
    {
        -COORD_MAX <= self.x && self.x <= COORD_MAX && -COORD_MAX <= self.y && self.y
            <= COORD_MAX && 0 <= self.width && self.width <= COORD_MAX && 0 <= self.height
            && self.height <= COORD_MAX
    }

    /// Tells whether `point` lies inside the rectangle, edges included.
    pub fn contains(&self, point: Point) -> (r: bool)
        ensures
            r == self.covers(point),
    {
        let right: i64 = self.x as i64 + self.width as i64;
        let bottom: i64 = self.y as i64 + self.height as i64;
        self.x <= point.x && point.x as i64 <= right && self.y <= point.y && point.y as i64
            <= bottom
    }

    /// The horizontal centre of the rectangle.
    pub fn center_x(&self) -> (r: i32)
        requires
            self.valid(),
        ensures
            r == self.mid_x(),
    {
        self.x + self.width / 2
    }

    /// The vertical centre of the rectangle.
    pub fn center_y(&self) -> (r: i32)
        requires
            self.valid(),
        ensures
            r == self.mid_y(),
    {
        self.y + self.height / 2
    }
}

} // verus!
