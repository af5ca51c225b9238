//! Strings made of single characters.

use vstd::prelude::*;

verus! {

/// `char::to_string` of std: the string made of the one character `c`.
#[verifier::external_body]
pub(crate) fn char_string(c: char) -> (s: String)
    ensures
        s@ == seq![c],
{
    c.to_string()
}

} // verus!
