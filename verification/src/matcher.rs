//! Textual marker matching over captured worker output.
//!
//! Lifecycle transitions are inferred from known markers in a worker's
//! output stream. The matcher is a plain substring search, kept apart from
//! the watchdog loop so that the fragile dependence on exact log wording
//! stays in one place.

use vstd::prelude::*;

verus! {

/// `needle` occurs in `hay` starting at position `i`.
pub open spec fn match_at(hay: Seq<char>, needle: Seq<char>, i: int) -> bool {
    0 <= i && i + needle.len() <= hay.len() && hay.subrange(i, i + needle.len() as int)
        == needle
}

/// `needle` occurs somewhere in `hay`.
pub open spec fn is_match(hay: Seq<char>, needle: Seq<char>) -> bool {
    exists|i: int| match_at(hay, needle, i)
}

/// Nothing occurs in an empty buffer but the empty marker.
pub proof fn lemma_empty_buffer_no_match(needle: Seq<char>)
    requires
        needle.len() > 0,
    ensures
        !is_match(Seq::<char>::empty(), needle),
{
    assert forall|i: int| !match_at(Seq::<char>::empty(), needle, i) by {
        assert(Seq::<char>::empty().len() == 0);
    }
}

/// Character-for-character string equality.
pub fn str_eq(a: &str, b: &str) -> (r: bool)
    ensures
        r == (a@ == b@),
{
    let a_len = a.unicode_len();
    let b_len = b.unicode_len();
    if a_len != b_len {
        return false;
    }
    let mut j: usize = 0;
    while j < a_len
        invariant
            a_len == a@.len(),
            b_len == b@.len(),
            a_len == b_len,
            j <= a_len,
            forall|k: int| 0 <= k < j ==> a@[k] == b@[k],
        decreases a_len - j,
    {
        if a.get_char(j) != b.get_char(j) {
            assert(a@ != b@);
            return false;
        }
        j += 1;
    }
    proof {
        assert(a@ =~= b@);
    }
    true
}

/// Whether `needle` occurs at position `i` of `hay`.
fn match_here(hay: &str, needle: &str, i: usize) -> (r: bool)
    requires
        i + needle@.len() <= hay@.len(),
        hay@.len() <= usize::MAX,
    ensures
        r == match_at(hay@, needle@, i as int),
{
    let n = needle.unicode_len();
    let mut j: usize = 0;
    while j < n
        invariant
            n == needle@.len(),
            i + n <= hay@.len(),
            hay@.len() <= usize::MAX,
            j <= n,
            forall|k: int| 0 <= k < j ==> hay@[i + k] == needle@[k],
        decreases n - j,
    {
        if hay.get_char(i + j) != needle.get_char(j) {
            assert(!match_at(hay@, needle@, i as int)) by {
                if hay@.subrange(i as int, i + n as int) == needle@ {
                    assert(hay@.subrange(i as int, i + n as int)[j as int] == needle@[j as int]);
                }
            }
            return false;
        }
        j += 1;
    }
    proof {
        assert(hay@.subrange(i as int, i + n as int) =~= needle@);
    }
    true
}

/// Whether the marker `needle` occurs anywhere in the captured text `hay`.
pub fn contains_str(hay: &str, needle: &str) -> (r: bool)
    ensures
        r == is_match(hay@, needle@),
{
    let h = hay.unicode_len();
    let n = needle.unicode_len();
    if n > h {
        assert(forall|i: int| !match_at(hay@, needle@, i));
        return false;
    }
    if n == 0 {
        proof {
            assert(hay@.subrange(0, 0) =~= needle@);
            assert(match_at(hay@, needle@, 0));
        }
        return true;
    }
    let mut i: usize = 0;
    while i <= h - n
        invariant
            h == hay@.len(),
            n == needle@.len(),
            1 <= n <= h,
            i <= h - n + 1,
            forall|k: int| 0 <= k < i ==> !match_at(hay@, needle@, k),
        decreases h - n + 1 - i,
    {
        if match_here(hay, needle, i) {
            return true;
        }
        i += 1;
    }
    assert forall|k: int| !match_at(hay@, needle@, k) by {
        if k < 0 || k + n > h {
            assert(!match_at(hay@, needle@, k));
        }
    }
    false
}

} // verus!
