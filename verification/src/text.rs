//! Case folding and case-insensitive substring matching.
//!
//! The search endpoint matches each provided field against the stored
//! columns with a case-insensitive substring test (the SQL form is
//! `LOWER(column) LIKE LOWER('%value%')`).  The store lowers characters
//! ASCII-wise, so the model here folds only the letters `A`..`Z`.

use vstd::prelude::*;
use vstd::string::StrSliceExecFns;

verus! {

/// ASCII lower-casing of one character: `A`..`Z` map to `a`..`z`,
/// everything else is unchanged.
pub open spec fn lower_char(c: char) -> char {
    if 65 <= c as u32 && c as u32 <= 90 {
        (((c as u32) + 32) as u8) as char
    } else {
        c
    }
}

/// Pointwise ASCII lower-casing of a character sequence.
pub open spec fn lower_seq(s: Seq<char>) -> Seq<char> {
    Seq::new(s.len(), |i: int| lower_char(s[i]))
}

/// The needle occurs at offset `i` of the haystack, compared
/// case-insensitively.
pub open spec fn match_at(hay: Seq<char>, needle: Seq<char>, i: int) -> bool {
    forall|j: int|
        0 <= j < needle.len() ==> lower_char(#[trigger] hay[i + j]) == lower_char(needle[j])
}

/// The needle occurs somewhere in the haystack, compared
/// case-insensitively.  An empty needle occurs in every haystack.
pub open spec fn contains_ci(hay: Seq<char>, needle: Seq<char>) -> bool {
    exists|i: int| 0 <= i <= hay.len() - needle.len() && match_at(hay, needle, i)
}

/// ASCII lower-casing of one character, executable form.
pub fn lower(c: char) -> (r: char)
    ensures
        r == lower_char(c),
{
    let u = c as u32;
    if 65 <= u && u <= 90 {
        ((u + 32) as u8) as char
    } else {
        c
    }
}

/// Does the needle occur at offset `i` of the haystack, case-insensitively?
fn match_at_str(hay: &str, needle: &str, i: usize) -> (r: bool)
    requires
        i + needle@.len() <= hay@.len(),
    ensures
        r == match_at(hay@, needle@, i as int),
{
    let hl = hay.unicode_len();
    let n = needle.unicode_len();
    let mut j: usize = 0;
    while j < n
        invariant
            hl == hay@.len(),
            n == needle@.len(),
            i + n <= hl,
            j <= n,
            forall|k: int|
                0 <= k < j ==> lower_char(#[trigger] hay@[i + k]) == lower_char(needle@[k]),
        decreases n - j,
    {
        let hc = lower(hay.get_char(i + j));
        let nc = lower(needle.get_char(j));
        if hc != nc {
            assert(!match_at(hay@, needle@, i as int));
            return false;
        }
        j += 1;
    }
    true
}

/// Case-insensitive substring test: the executable counterpart of
/// `contains_ci`.
pub fn contains_ci_str(hay: &str, needle: &str) -> (r: bool)
    ensures
        r == contains_ci(hay@, needle@),
{
    let hl = hay.unicode_len();
    let nl = needle.unicode_len();
    if nl > hl {
        return false;
    }
    let end = hl - nl;
    let mut i: usize = 0;
    while i <= end
        invariant
            hl == hay@.len(),
            nl == needle@.len(),
            nl <= hl,
            end == hl - nl,
            i <= end + 1,
            forall|k: int| 0 <= k < i ==> !#[trigger] match_at(hay@, needle@, k),
        decreases end + 1 - i,
    {
        if match_at_str(hay, needle, i) {
            return true;
        }
        i += 1;
    }
    false
}

/// A sequence contains itself, case-insensitively: matching a stored
/// field against its own full text always succeeds.
pub proof fn lemma_contains_ci_self(s: Seq<char>)
    ensures
        contains_ci(s, s),
{
    assert(match_at(s, s, 0));
}

/// Substring matching depends only on the folded form of the needle:
/// queries that differ only in letter case filter identically.
pub proof fn lemma_contains_ci_case_of_needle(hay: Seq<char>, n1: Seq<char>, n2: Seq<char>)
    requires
        lower_seq(n1) == lower_seq(n2),
    ensures
        contains_ci(hay, n1) == contains_ci(hay, n2),
{
    assert(lower_seq(n1).len() == n1.len());
    assert(lower_seq(n2).len() == n2.len());
    assert(n1.len() == n2.len());
    assert forall|j: int| 0 <= j < n1.len() implies lower_char(n1[j]) == lower_char(#[trigger] n2[j]) by {
        assert(lower_seq(n1)[j] == lower_char(n1[j]));
        assert(lower_seq(n2)[j] == lower_char(n2[j]));
        assert(lower_seq(n1)[j] == lower_seq(n2)[j]);
    }
    if contains_ci(hay, n1) {
        let i = choose|i: int| 0 <= i <= hay.len() - n1.len() && match_at(hay, n1, i);
        assert(match_at(hay, n2, i));
    }
    if contains_ci(hay, n2) {
        let i = choose|i: int| 0 <= i <= hay.len() - n2.len() && match_at(hay, n2, i);
        assert(match_at(hay, n1, i));
    }
}

} // verus!
