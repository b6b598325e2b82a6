//! Character-level string helpers shared by the parsers.
//!
//! All contracts speak about the character sequence view (`Seq<char>`) of
//! the strings involved; indices are character indices, not byte offsets.

use vstd::prelude::*;

verus! {

/// The whitespace characters the trimming helpers strip.
pub open spec fn is_ws(c: char) -> bool {
    c == ' ' || c == '\t' || c == '\n' || c == '\r'
}

/// Index of the first non-whitespace character at or after `i`
/// (`s.len()` if there is none).
pub open spec fn first_non_ws(s: Seq<char>, i: int) -> int
    decreases s.len() - i,
{
    if i < 0 || i >= s.len() {
        s.len() as int
    } else if is_ws(s[i]) {
        first_non_ws(s, i + 1)
    } else {
        i
    }
}

/// One past the last non-whitespace character strictly before `j`
/// (`0` if there is none).
pub open spec fn last_non_ws(s: Seq<char>, j: int) -> int
    decreases j,
{
    if j <= 0 || j > s.len() {
        0
    } else if is_ws(s[j - 1]) {
        last_non_ws(s, j - 1)
    } else {
        j
    }
}

/// `s` with leading whitespace removed.
pub open spec fn spec_trim_start(s: Seq<char>) -> Seq<char> {
    s.subrange(first_non_ws(s, 0), s.len() as int)
}

/// `s` with trailing whitespace removed.
pub open spec fn spec_trim_end(s: Seq<char>) -> Seq<char> {
    s.subrange(0, last_non_ws(s, s.len() as int))
}

/// `s` with whitespace removed on both ends.
pub open spec fn spec_trim(s: Seq<char>) -> Seq<char> {
    spec_trim_end(spec_trim_start(s))
}

pub proof fn lemma_first_non_ws_bounds(s: Seq<char>, i: int)
    requires
        0 <= i <= s.len(),
    ensures
        i <= first_non_ws(s, i) <= s.len(),
        forall|k: int| i <= k < first_non_ws(s, i) ==> is_ws(s[k]),
        first_non_ws(s, i) < s.len() ==> !is_ws(s[first_non_ws(s, i)]),
    decreases s.len() - i,
{
    if i < s.len() && is_ws(s[i]) {
        lemma_first_non_ws_bounds(s, i + 1);
    }
}

pub proof fn lemma_last_non_ws_bounds(s: Seq<char>, j: int)
    requires
        0 <= j <= s.len(),
    ensures
        0 <= last_non_ws(s, j) <= j,
        forall|k: int| last_non_ws(s, j) <= k < j ==> is_ws(s[k]),
        last_non_ws(s, j) > 0 ==> !is_ws(s[last_non_ws(s, j) - 1]),
    decreases j,
{
    if j > 0 && is_ws(s[j - 1]) {
        lemma_last_non_ws_bounds(s, j - 1);
    }
}

/// Removes leading whitespace.
pub fn trim_start_chars(s: &str) -> (r: &str)
    ensures
        r@ == spec_trim_start(s@),
{
    let n: usize = s.unicode_len();
    let mut i: usize = 0;
    while i < n && ws_char(s.get_char(i))
        invariant
            0 <= i <= n,
            n == s@.len(),
            forall|k: int| 0 <= k < i ==> is_ws(s@[k]),
            first_non_ws(s@, 0) == first_non_ws(s@, i as int),
        decreases n - i,
    {
        proof {
            assert(first_non_ws(s@, i as int) == first_non_ws(s@, i + 1));
        }
        i = i + 1;
    }
    proof {
        lemma_first_non_ws_bounds(s@, i as int);
        assert(first_non_ws(s@, i as int) == i as int);
    }
    s.substring_char(i, n)
}

/// Removes trailing whitespace.
pub fn trim_end_chars(s: &str) -> (r: &str)
    ensures
        r@ == spec_trim_end(s@),
{
    let n: usize = s.unicode_len();
    let mut j: usize = n;
    while j > 0 && ws_char(s.get_char(j - 1))
        invariant
            0 <= j <= n,
            n == s@.len(),
            forall|k: int| j <= k < n ==> is_ws(s@[k]),
            last_non_ws(s@, n as int) == last_non_ws(s@, j as int),
        decreases j,
    {
        proof {
            assert(last_non_ws(s@, j as int) == last_non_ws(s@, j - 1));
        }
        j = j - 1;
    }
    proof {
        lemma_last_non_ws_bounds(s@, j as int);
        assert(last_non_ws(s@, j as int) == j as int);
    }
    s.substring_char(0, j)
}

/// Removes whitespace on both ends.
pub fn trim_chars(s: &str) -> (r: &str)
    ensures
        r@ == spec_trim(s@),
{
    let t = trim_start_chars(s);
    trim_end_chars(t)
}

/// Executable twin of [`is_ws`].
pub fn ws_char(c: char) -> (r: bool)
    ensures
        r == is_ws(c),
{
    c == ' ' || c == '\t' || c == '\n' || c == '\r'
}

/// Character-wise string equality.
pub fn str_eq(a: &str, b: &str) -> (r: bool)
    ensures
        r == (a@ == b@),
{
    let n: usize = a.unicode_len();
    let m: usize = b.unicode_len();
    if n != m {
        return false;
    }
    let mut i: usize = 0;
    while i < n
        invariant
            0 <= i <= n,
            n == a@.len(),
            n == b@.len(),
            forall|k: int| 0 <= k < i ==> a@[k] == b@[k],
        decreases n - i,
    {
        if a.get_char(i) != b.get_char(i) {
            return false;
        }
        i = i + 1;
    }
    proof {
        assert(a@ =~= b@);
    }
    true
}

/// `pat` occurs in `s` at position `i`.
pub open spec fn matches_at(s: Seq<char>, pat: Seq<char>, i: int) -> bool {
    0 <= i && i + pat.len() <= s.len() && s.subrange(i, i + pat.len()) == pat
}

/// First position `>= from` where `pat` occurs in `s`, if any.
pub open spec fn spec_find(s: Seq<char>, pat: Seq<char>, from: int) -> Option<int>
    decreases s.len() - from + 1,
{
    if from < 0 || from + pat.len() > s.len() {
        None
    } else if matches_at(s, pat, from) {
        Some(from)
    } else {
        spec_find(s, pat, from + 1)
    }
}

/// `s` starts with `pat` at character position `i`.
pub fn starts_with_at(s: &str, pat: &str, i: usize) -> (r: bool)
    requires
        i <= s@.len(),
    ensures
        r == matches_at(s@, pat@, i as int),
{
    let n: usize = s.unicode_len();
    let m: usize = pat.unicode_len();
    if m > n - i {
        proof {
            assert(!matches_at(s@, pat@, i as int));
        }
        return false;
    }
    let mut k: usize = 0;
    while k < m
        invariant
            0 <= k <= m,
            i + m <= n,
            n == s@.len(),
            m == pat@.len(),
            forall|t: int| 0 <= t < k ==> s@[i + t] == pat@[t],
        decreases m - k,
    {
        if s.get_char(i + k) != pat.get_char(k) {
            proof {
                assert(s@.subrange(i as int, i + m) != pat@) by {
                    assert(s@.subrange(i as int, i + m)[k as int] != pat@[k as int]);
                }
            }
            return false;
        }
        k = k + 1;
    }
    proof {
        assert(s@.subrange(i as int, i + m) =~= pat@);
    }
    true
}

/// Finds the first occurrence of `pat` in `s` at a character position
/// `>= from`, returning its character index.
pub fn find_sub(s: &str, pat: &str, from: usize) -> (r: Option<usize>)
    requires
        from <= s@.len(),
    ensures
        match r {
            Some(i) => spec_find(s@, pat@, from as int) == Some(i as int),
            None => spec_find(s@, pat@, from as int) is None,
        },
{
    let n: usize = s.unicode_len();
    let m: usize = pat.unicode_len();
    if m > n - from {
        return None;
    }
    if m == 0 {
        proof {
            assert(s@.subrange(from as int, from as int) =~= pat@);
        }
        return Some(from);
    }
    let mut i: usize = from;
    while i <= n - m
        invariant
            from <= i,
            1 <= m <= n,
            i + m <= n + 1,
            n == s@.len(),
            m == pat@.len(),
            spec_find(s@, pat@, from as int) == spec_find(s@, pat@, i as int),
        decreases n - i,
    {
        if starts_with_at(s, pat, i) {
            return Some(i);
        }
        proof {
            assert(spec_find(s@, pat@, i as int) == spec_find(s@, pat@, i + 1));
        }
        i = i + 1;
    }
    None
}

} // verus!
