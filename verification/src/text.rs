//! Character-level text search used by the catalog lookups.

use vstd::prelude::*;
use vstd::string::StrSliceExecFns;

verus! {

/// The needle occurs in the haystack starting at character position `i`.
pub open spec fn match_at(hay: Seq<char>, needle: Seq<char>, i: int) -> bool {
    &&& 0 <= i
    &&& i + needle.len() <= hay.len()
    &&& hay.subrange(i, i + needle.len() as int) == needle
}

/// The needle occurs somewhere in the haystack.
pub open spec fn has_substring(hay: Seq<char>, needle: Seq<char>) -> bool {
    exists|i: int| match_at(hay, needle, i)
}

/// What `str::to_lowercase` returns for a given sequence of characters.
pub uninterp spec fn lower_of(s: Seq<char>) -> Seq<char>;

/// Relies on `str::to_lowercase`: the result is the Unicode lowercase mapping
/// of the input, a function of the input characters alone; an empty string
/// stays empty.
#[verifier::external_body]
pub(crate) fn to_lowercase(s: &str) -> (lowered: String)
    ensures
        lowered@ == lower_of(s@),
        s@.len() == 0 ==> lowered@.len() == 0,
{
    s.to_lowercase()
}

/// Compares the needle against the characters of the haystack read from
/// position `start` on.
fn matches_at(hay: &str, needle: &str, start: usize) -> (same: bool)
    requires
        start + needle@.len() <= hay@.len(),
        hay@.len() <= usize::MAX,
    ensures
        same == match_at(hay@, needle@, start as int),
{
    let needle_len: usize = needle.unicode_len();
    let mut j: usize = 0;
    while j < needle_len
        invariant
            j <= needle_len,
            needle_len == needle@.len(),
            start + needle_len <= hay@.len() <= usize::MAX,
            forall|t: int| 0 <= t < j ==> hay@[start + t] == needle@[t],
        decreases needle_len - j,
    {
        if hay.get_char(start + j) != needle.get_char(j) {
            proof {
                assert(hay@.subrange(start as int, start + needle@.len() as int)[j as int]
                    == hay@[start + j]);
            }
            return false;
        }
        j = j + 1;
    }
    proof {
        assert(hay@.subrange(start as int, start + needle@.len() as int) =~= needle@);
    }
    true
}

/// Whether the needle occurs in the haystack, compared character by
/// character.
pub fn contains_substring(hay: &str, needle: &str) -> (found: bool)
    ensures
        found == has_substring(hay@, needle@),
{
    let hay_len: usize = hay.unicode_len();
    let needle_len: usize = needle.unicode_len();
    if needle_len > hay_len {
        return false;
    }
    if needle_len == 0 {
        proof {
            assert(hay@.subrange(0, 0) =~= needle@);
            assert(match_at(hay@, needle@, 0));
        }
        return true;
    }
    let mut i: usize = 0;
    while i <= hay_len - needle_len
        invariant
            hay_len == hay@.len(),
            needle_len == needle@.len(),
            1 <= needle_len <= hay_len,
            i <= hay_len - needle_len + 1,
            forall|k: int| 0 <= k < i ==> !match_at(hay@, needle@, k),
        decreases hay_len - needle_len + 1 - i,
    {
        if matches_at(hay, needle, i) {
            return true;
        }
        i = i + 1;
    }
    false
}

} // verus!
