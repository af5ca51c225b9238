//! Fonts and the alignment of text.

use vstd::prelude::*;

verus! {

/// The font that a text is drawn with.
#[derive(Clone, Copy, Debug, PartialEq, Eq)]
pub enum Font {
    /// The font that the backend uses when none is named.
    Default,
    /// A font that the application brings along.
    External {
        /// The name of the font.
        name: &'static str,
        /// The bytes of the font file.
        bytes: &'static [u8],
    },
}

/// Where a text lies horizontally, relative to the corner of its bounds.
#[derive(Clone, Copy, Debug, PartialEq, Eq, Structural)]
pub enum HorizontalAlignment {
    Left,
    Center,
    Right,
}

/// Where a text lies vertically, relative to the corner of its bounds.
#[derive(Clone, Copy, Debug, PartialEq, Eq, Structural)]
pub enum VerticalAlignment {
    Top,
    Center,
    Bottom,
}

} // verus!
