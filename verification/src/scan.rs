//! Character scans over path strings.
//!
//! Output-path derivation needs the last occurrence of a separator or an
//! extension dot, and the native boundary needs to know that a path carries
//! no embedded null character. `last_char_index` is the mathematical
//! last-occurrence function; the exec scans are proved against it.

use vstd::prelude::*;
use vstd::string::*;

verus! {

/// Index of the last occurrence of `c` in `s`, or -1 when `c` does not occur.
pub open spec fn last_char_index(s: Seq<char>, c: char) -> int
    decreases s.len(),
{
    if s.len() == 0 {
        -1
    } else if s[s.len() - 1] == c {
        s.len() - 1
    } else {
        last_char_index(s.drop_last(), c)
    }
}

/// A position that holds `c` with nothing but other characters after it is
/// the last occurrence.
pub proof fn lemma_last_char_index_at(s: Seq<char>, c: char, i: int)
    requires
        0 <= i < s.len(),
        s[i] == c,
        forall|j: int| i < j < s.len() ==> s[j] != c,
    ensures
        last_char_index(s, c) == i,
    decreases s.len(),
{
    if i < s.len() - 1 {
        assert forall|j: int| i < j < s.drop_last().len() implies s.drop_last()[j] != c by {
            assert(s.drop_last()[j] == s[j]);
        }
        lemma_last_char_index_at(s.drop_last(), c, i);
    }
}

/// When `c` occurs nowhere in `s`, the last occurrence is -1.
pub proof fn lemma_last_char_index_none(s: Seq<char>, c: char)
    requires
        forall|j: int| 0 <= j < s.len() ==> s[j] != c,
    ensures
        last_char_index(s, c) == -1,
    decreases s.len(),
{
    if s.len() > 0 {
        assert forall|j: int| 0 <= j < s.drop_last().len() implies s.drop_last()[j] != c by {
            assert(s.drop_last()[j] == s[j]);
        }
        lemma_last_char_index_none(s.drop_last(), c);
    }
}

/// Scan for the last occurrence of `c` in `s`.
pub fn find_last_char(s: &str, c: char) -> (r: Option<usize>)
    ensures
        match r {
            Some(i) => i < s@.len() && last_char_index(s@, c) == i,
            None => last_char_index(s@, c) == -1,
        },
{
    let n: usize = s.unicode_len();
    let mut i: usize = n;
    while i > 0
        invariant
            i <= n,
            n == s@.len(),
            forall|j: int| i <= j < n ==> s@[j] != c,
        decreases i,
    {
        i = i - 1;
        if s.get_char(i) == c {
            proof {
                lemma_last_char_index_at(s@, c, i as int);
            }
            return Some(i);
        }
    }
    proof {
        lemma_last_char_index_none(s@, c);
    }
    None
}

/// Whether the string holds an embedded null character. A path with one
/// cannot cross the native boundary as a null-terminated buffer.
pub open spec fn contains_null(s: Seq<char>) -> bool {
    exists|i: int| 0 <= i < s.len() && s[i] == '\0'
}

/// Scan for an embedded null character.
pub fn has_null_char(s: &str) -> (b: bool)
    ensures
        b == contains_null(s@),
{
    let n: usize = s.unicode_len();
    let mut k: usize = 0;
    while k < n
        invariant
            k <= n,
            n == s@.len(),
            forall|j: int| 0 <= j < k ==> s@[j] != '\0',
        decreases n - k,
    {
        if s.get_char(k) == '\0' {
            proof {
                assert(s@[k as int] == '\0');
            }
            return true;
        }
        k = k + 1;
    }
    false
}

} // verus!
