//! Lower-casing of text, left to the standard library.

use vstd::prelude::*;

verus! {

// The lower-case form of `text` as `str::to_lowercase` computes it from the
// Unicode tables. It depends on the characters of `text` and on nothing else.
pub uninterp spec fn lowercase_of(text: Seq<char>) -> Seq<char>;

/// Calls `str::to_lowercase` of the standard library.
///
/// Trusted, not proved: the result is the lower-case form of `text`. The
/// contract does not say which characters that form holds.
#[verifier::external_body]
pub(crate) fn to_lowercase(text: &str) -> (lowered: String)
    ensures
        lowered@ == lowercase_of(text@),
{
    text.to_lowercase()
}

} // verus!
