//! Case folding and substring search on text, stated over sequences of
//! characters.

use vstd::prelude::*;

verus! {

/// `needle` occurs in `hay` as a contiguous run of characters. The empty
/// sequence occurs in every sequence.
pub open spec fn is_substring(needle: Seq<char>, hay: Seq<char>) -> bool {
    exists|i: int|
        0 <= i && i + needle.len() <= hay.len() && #[trigger] hay.subrange(i, i + needle.len())
            == needle
}

/// The lower-case form that `str::to_lowercase` gives to a text, as the
/// Unicode character tables of the standard library define it. It depends on
/// the text alone. Nothing else is known of it here: not its length, nor
/// that it leaves a lower-case text as it is.
pub uninterp spec fn lowercase(s: Seq<char>) -> Seq<char>;

/// Calls `str::to_lowercase`. Trusted: the result is the lower-case form of
/// the argument, which `lowercase` names; nothing more is claimed of it.
#[verifier::external_body]
pub(crate) fn to_lowercase(s: &str) -> (folded: String)
    ensures
        folded@ == lowercase(s@),
{
    s.to_lowercase()
}

/// Calls `str::contains` with a string pattern. Trusted: the result says
/// whether the pattern matches a sub-slice of the text. Both being UTF-8,
/// that is the case exactly if the pattern's characters occur in the text as
/// a contiguous run; an empty pattern matches every text.
#[verifier::external_body]
pub(crate) fn contains(hay: &str, needle: &str) -> (found: bool)
    ensures
        found == is_substring(needle@, hay@),
{
    hay.contains(needle)
}

} // verus!
