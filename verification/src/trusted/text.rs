//! What is taken on trust of the standard library's case mapping.

use vstd::prelude::*;

verus! {

/// A text with each of its letters in its upper case.
pub uninterp spec fn uppercased(text: Seq<char>) -> Seq<char>;

/// `str::to_uppercase`: the text with each letter in its upper case.
#[verifier::external_body]
pub(crate) fn to_uppercase(text: &str) -> (r: String)
    ensures
        r@ == uppercased(text@),
{
    text.to_uppercase()
}

} // verus!
