//! What a tab shows.

use vstd::prelude::*;

verus! {

/// The label of a tab: an icon, a text, or both.
#[derive(Clone, Debug, PartialEq, Eq)]
pub enum TabLabel {
    /// A glyph of the icon font.
    Icon(char),
    /// A text.
    Text(String),
    /// A glyph of the icon font, followed by a text.
    IconText(char, String),
}

impl TabLabel {
    /// How many pieces the label is laid out in: one for an icon or a text,
    /// two for both.
    pub open spec fn parts(&self) -> nat {
        match self {
            TabLabel::Icon(_) => 1,
            TabLabel::Text(_) => 1,
            TabLabel::IconText(_, _) => 2,
        }
    }
}

} // verus!
