//! A button that floats over some content, anchored to a corner of it.

use vstd::prelude::*;
use crate::model::anchor::Anchor;
use crate::model::geometry::{Point, Rectangle, COORD_MAX};
use crate::model::offset::Offset;

verus! {

/// The distance from the corner that a floating button starts with.
pub const DEFAULT_OFFSET: i32 = 5;

/// Where a floating button lies over its content, and whether it shows.
#[derive(Clone, Copy, Debug, PartialEq, Eq, Hash, Structural)]
pub struct FloatingButton {
    pub anchor: Anchor,
    pub offset: Offset,
    pub hidden: bool,
}

impl FloatingButton {
    /// The corner that the overlay is measured from, or nothing while the
    /// button is hidden.
    pub open spec fn anchor_point(&self, bounds: Rectangle) -> Option<(int, int)> {
        if self.hidden {
            None
        } else {
            Some(self.anchor.corner_of(bounds))
        }
    }

    /// Where the button lies: its corner, moved by the offset into the
    /// container, or nothing while the button is hidden.
    pub open spec fn placement(&self, bounds: Rectangle) -> Option<(int, int)> {
        if self.hidden {
            None
        } else {
            Some(self.offset.moved(self.anchor, self.anchor.corner_of(bounds)))
        }
    }

    /// The top-left corner of a button of the given size: the button lies
    /// with its own corner, the one that the anchor names, at the placement.
    /// Nothing while the button is hidden.
    pub open spec fn origin_of(&self, bounds: Rectangle, width: int, height: int) -> Option<
        (int, int),
    > {
        match self.placement(bounds) {
            Some(placed) => Some(
                (
                    placed.0 - if self.anchor.is_east() {
                        width
                    } else {
                        0
                    },
                    placed.1 - if self.anchor.is_south() {
                        height
                    } else {
                        0
                    },
                ),
            ),
            None => None,
        }
    }

    /// What tells one layout of the button from another: the anchor, the two
    /// distances of the offset, each counted as 0 where it is negative, and
    /// whether the button is hidden.
    pub open spec fn layout_key_of(&self) -> (Anchor, u32, u32, bool) {
        (
            self.anchor,
            if self.offset.x < 0 {
                0u32
            } else {
                self.offset.x as u32
            },
            if self.offset.y < 0 {
                0u32
            } else {
                self.offset.y as u32
            },
            self.hidden,
        )
    }

    /// A visible button in the bottom-right corner, at the default distance.
    pub fn new() -> (r: Self)
        ensures
            r == (FloatingButton {
                anchor: Anchor::SouthEast,
                offset: Offset { x: DEFAULT_OFFSET, y: DEFAULT_OFFSET },
                hidden: false,
            }),
    {
        FloatingButton {
            anchor: Anchor::SouthEast,
            offset: Offset { x: DEFAULT_OFFSET, y: DEFAULT_OFFSET },
            hidden: false,
        }
    }

    /// Sets the corner that the button is anchored to.
    pub fn anchor(self, anchor: Anchor) -> (r: Self)
        ensures
            r == (FloatingButton { anchor, ..self }),
    {
        FloatingButton { anchor, ..self }
    }

    /// Sets the distance of the button from its corner.
    pub fn offset(self, offset: Offset) -> (r: Self)
        ensures
            r == (FloatingButton { offset, ..self }),
    {
        FloatingButton { offset, ..self }
    }

    /// Hides (`true`) or shows (`false`) the button.
    pub fn hidden(self, hidden: bool) -> (r: Self)
        ensures
            r == (FloatingButton { hidden, ..self }),
    {
        FloatingButton { hidden, ..self }
    }

    /// The values that are hashed to tell whether the layout of the button
    /// has changed.
    pub fn layout_key(&self) -> (r: (Anchor, u32, u32, bool))
        ensures
            r == self.layout_key_of(),
    {
        let x: u32 = if self.offset.x < 0 {
            0
        } else {
            self.offset.x as u32
        };
        let y: u32 = if self.offset.y < 0 {
            0
        } else {
            self.offset.y as u32
        };
        (self.anchor, x, y, self.hidden)
    }

    /// The point that the overlay of the button is measured from: the corner
    /// of `bounds` that the anchor names. A hidden button has no overlay.
    pub fn overlay(&self, bounds: Rectangle) -> (r: Option<Point>)
        requires
            bounds.valid(),
        ensures
            match r {
                Some(p) => self.anchor_point(bounds) == Some(p.coords()),
                None => self.anchor_point(bounds) is None,
            },
    {
        if self.hidden {
            return None;
        }
        Some(self.anchor.corner(bounds))
    }

    /// Where the button is put over content with the given bounds. A hidden
    /// button is put nowhere.
    pub fn position(&self, bounds: Rectangle) -> (r: Option<Point>)
        requires
            bounds.valid(),
            self.offset.valid(),
        ensures
            match r {
                Some(p) => self.placement(bounds) == Some(p.coords()),
                None => self.placement(bounds) is None,
            },
    {
        match self.overlay(bounds) {
            Some(corner) => Some(self.offset.apply(self.anchor, corner)),
            None => None,
        }
    }

    /// The top-left corner of a button of the given size over content with
    /// the given bounds. A hidden button is put nowhere.
    pub fn origin(&self, bounds: Rectangle, width: i32, height: i32) -> (r: Option<Point>)
        requires
            bounds.valid(),
            self.offset.valid(),
            0 <= width <= COORD_MAX,
            0 <= height <= COORD_MAX,
        ensures
            match r {
                Some(p) => self.origin_of(bounds, width as int, height as int) == Some(
                    p.coords(),
                ),
                None => self.origin_of(bounds, width as int, height as int) is None,
            },
    {
        match self.position(bounds) {
            Some(placed) => {
                let x = match self.anchor {
                    Anchor::NorthWest | Anchor::SouthWest => placed.x,
                    Anchor::NorthEast | Anchor::SouthEast => placed.x - width,
                };
                let y = match self.anchor {
                    Anchor::NorthWest | Anchor::NorthEast => placed.y,
                    Anchor::SouthWest | Anchor::SouthEast => placed.y - height,
                };
                Some(Point::new(x, y))
            },
            None => None,
        }
    }
}

/// Placing a button twice on the same inputs gives the same point: what
/// `position` returns is fixed by the button and the bounds alone.
pub proof fn lemma_placement_repeatable(
    button: FloatingButton,
    bounds: Rectangle,
    first: Option<Point>,
    second: Option<Point>,
)
    requires
        match first {
            Some(p) => button.placement(bounds) == Some(p.coords()),
            None => button.placement(bounds) is None,
        },
        match second {
            Some(p) => button.placement(bounds) == Some(p.coords()),
            None => button.placement(bounds) is None,
        },
    ensures
        first == second,
{
}

/// A hidden button has no overlay, whatever its anchor and offset, and a
/// button that is hidden and then shown again is placed exactly where the
/// same button is placed when it was never hidden.
pub proof fn lemma_hidden_button_has_no_overlay(button: FloatingButton, bounds: Rectangle)
    ensures
        (FloatingButton { hidden: true, ..button }).anchor_point(bounds) is None,
        (FloatingButton { hidden: true, ..button }).placement(bounds) is None,
        (FloatingButton { hidden: false, ..button }).placement(bounds) is Some,
        (FloatingButton { hidden: false, ..(FloatingButton { hidden: true, ..button }) })
            == (FloatingButton { hidden: false, ..button }),
        !button.hidden ==> (FloatingButton {
            hidden: false,
            ..(FloatingButton { hidden: true, ..button })
        }).placement(bounds) == button.placement(bounds),
{
}

} // verus!
