//! What the library takes from the standard library's handling of text.

use vstd::prelude::*;

verus! {

/// The text that `str::trim` makes of `text`: `text` without the white space,
/// in Unicode's sense, at its two ends.
pub uninterp spec fn trimmed(text: Seq<char>) -> Seq<char>;

/// The text that `str::to_lowercase` makes of `text`: each character replaced
/// by its lower-case form in Unicode's sense, which may be more than one
/// character.
pub uninterp spec fn lowercased(text: Seq<char>) -> Seq<char>;

/// Calls `str::trim`. Believed, not proved: the slice that comes back is the
/// one that the standard library documents, which depends on the characters
/// of `text` alone.
#[verifier::external_body]
pub(crate) fn trim(text: &str) -> (inner: &str)
    ensures
        inner@ == trimmed(text@),
{
    text.trim()
}

/// Calls `str::to_lowercase`. Believed, not proved: the string that comes back
/// is the one that the standard library documents, which depends on the
/// characters of `text` alone.
#[verifier::external_body]
pub(crate) fn to_lowercase(text: &str) -> (lower: String)
    ensures
        lower@ == lowercased(text@),
{
    text.to_lowercase()
}

} // verus!
