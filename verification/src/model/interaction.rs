//! The hint that a widget gives about what the mouse cursor can do.

use vstd::prelude::*;

verus! {

/// What the mouse cursor can do at its position. Later variants are stronger
/// hints and win over earlier ones.
#[derive(Clone, Copy, Debug, PartialEq, Eq, Structural)]
pub enum Interaction {
    Idle,
    Pointer,
    Grab,
    Text,
    Crosshair,
    Working,
    Grabbing,
    ResizingHorizontally,
    ResizingVertically,
}

impl Interaction {
    /// The strength of the hint: the position of the variant in the list.
    pub open spec fn priority(self) -> nat {
        match self {
            Interaction::Idle => 0,
            Interaction::Pointer => 1,
            Interaction::Grab => 2,
            Interaction::Text => 3,
            Interaction::Crosshair => 4,
            Interaction::Working => 5,
            Interaction::Grabbing => 6,
            Interaction::ResizingHorizontally => 7,
            Interaction::ResizingVertically => 8,
        }
    }

    /// The stronger of two hints; the first one where both are equally strong.
    pub open spec fn stronger(self, other: Interaction) -> Interaction {
        if other.priority() > self.priority() {
            other
        } else {
            self
        }
    }

    /// The strength of the hint as a number.
    pub fn rank(self) -> (r: u8)
        ensures
            r == self.priority(),
    {
        match self {
            Interaction::Idle => 0,
            Interaction::Pointer => 1,
            Interaction::Grab => 2,
            Interaction::Text => 3,
            Interaction::Crosshair => 4,
            Interaction::Working => 5,
            Interaction::Grabbing => 6,
            Interaction::ResizingHorizontally => 7,
            Interaction::ResizingVertically => 8,
        }
    }

    /// Returns the stronger of the two hints.
    pub fn max(self, other: Interaction) -> (r: Interaction)
        ensures
            r == self.stronger(other),
    {
        if other.rank() > self.rank() {
            other
        } else {
            self
        }
    }
}

impl Default for Interaction {
    /// The weakest hint.
    fn default() -> (r: Interaction)
        ensures
            r == Interaction::Idle,
    {
        Interaction::Idle
    }
}

/// Two hints of equal strength are the same hint, so the stronger of two
/// hints does not depend on the order in which they are compared, and it is
/// at least as strong as either.
pub proof fn lemma_stronger_is_symmetric(a: Interaction, b: Interaction)
    ensures
        a.priority() == b.priority() ==> a == b,
        a.stronger(b) == b.stronger(a),
        a.stronger(b).priority() >= a.priority(),
        a.stronger(b).priority() >= b.priority(),
{
}

} // verus!
