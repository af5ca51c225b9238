//! How a widget fills the space it is given, and how it aligns its content.

use vstd::prelude::*;

verus! {

/// The strategy by which a widget fills space in one direction.
#[derive(Clone, Copy, Debug, PartialEq, Eq, Hash, Structural)]
pub enum Length {
    /// All the space that is left.
    Fill,
    /// A share of the space that is left, relative to the shares of others.
    FillPortion(u16),
    /// As little space as possible.
    Shrink,
    /// A fixed number of pixels.
    Units(u16),
}

/// Where content lies along one direction.
#[derive(Clone, Copy, Debug, PartialEq, Eq, Hash, Structural)]
pub enum Align {
    Start,
    Center,
    End,
}

} // verus!
