//! Case folding and substring search on text.

use vstd::prelude::*;

verus! {

/// The lowercase equivalent of `text`, as `str::to_lowercase` computes it from
/// the Unicode tables of the standard library.
pub uninterp spec fn lowercase(text: Seq<char>) -> Seq<char>;

/// Case-folded text, as the search compares it: the empty text stays empty,
/// any other text is replaced by its lowercase equivalent.
pub open spec fn folded(text: Seq<char>) -> Seq<char> {
    if text.len() == 0 {
        text
    } else {
        lowercase(text)
    }
}

/// Whether `needle` stands in `hay` from position `at` on.
pub open spec fn occurs_at(needle: Seq<char>, hay: Seq<char>, at: int) -> bool {
    &&& 0 <= at
    &&& at + needle.len() <= hay.len()
    &&& hay.subrange(at, at + needle.len()) == needle
}

/// Whether `needle` is a contiguous part of `hay`.
pub open spec fn is_substring(needle: Seq<char>, hay: Seq<char>) -> bool {
    exists|at: int| occurs_at(needle, hay, at)
}

/// Calls `str::to_lowercase`. Trusted: the result is the lowercase equivalent
/// of the argument and depends on nothing else. Nothing is claimed about what
/// that equivalent is.
#[verifier::external_body]
pub(crate) fn to_lowercase(text: &str) -> (lowered: String)
    ensures
        lowered@ == lowercase(text@),
{
    text.to_lowercase()
}

/// Calls `str::contains` with a string pattern. Trusted: the result tells
/// whether the characters of `needle` occur in `hay` as one contiguous run,
/// which the empty `needle` does in every `hay`.
#[verifier::external_body]
pub(crate) fn contains(hay: &str, needle: &str) -> (found: bool)
    ensures
        found == is_substring(needle@, hay@),
{
    hay.contains(needle)
}

/// Folds the case of `text`.
///
/// The empty text is answered without a call into the standard library, so
/// that `folded` is known on it.
pub fn fold_case(text: &str) -> (out: String)
    ensures
        out@ == folded(text@),
{
    if text.is_empty() {
        String::new()
    } else {
        to_lowercase(text)
    }
}

/// The empty text occurs in every text.
pub proof fn lemma_empty_is_substring(hay: Seq<char>)
    ensures
        is_substring(Seq::<char>::empty(), hay),
{
    assert(hay.subrange(0, 0) =~= Seq::<char>::empty());
    assert(occurs_at(Seq::<char>::empty(), hay, 0));
}

} // verus!
