//! Hex colour parsing for theme configuration.  Named-colour resolution
//! belongs to the terminal layer; the hex grammar is this library's own.

use vstd::prelude::*;

verus! {

/// The value of one hexadecimal digit character, if it is one.
pub open spec fn spec_hex_val(c: char) -> Option<u8> {
    let v = c as u32;
    if 48 <= v <= 57 {
        Some((v - 48) as u8)
    } else if 97 <= v <= 102 {
        Some((v - 87) as u8)
    } else if 65 <= v <= 70 {
        Some((v - 55) as u8)
    } else {
        None
    }
}

/// Index of the first character of `t` at or after `k` that is not `'#'`.
pub open spec fn hash_end(t: Seq<char>, k: int) -> int
    decreases t.len() - k,
{
    if k < 0 || k >= t.len() {
        t.len() as int
    } else if t[k] == '#' {
        hash_end(t, k + 1)
    } else {
        k
    }
}

/// The byte a pair of hex digit characters denotes, if both are digits.
pub open spec fn spec_hex_pair(hi: char, lo: char) -> Option<u8> {
    match (spec_hex_val(hi), spec_hex_val(lo)) {
        (Some(h), Some(l)) => Some((h * 16 + l) as u8),
        _ => None,
    }
}

/// What [`parse_hex_color`] accepts: after any leading `'#'` signs, six
/// hex digits as three bytes, or three hex digits each doubled.
pub open spec fn spec_hex_color(s: Seq<char>) -> Option<(u8, u8, u8)> {
    let t = s.subrange(hash_end(s, 0), s.len() as int);
    if t.len() == 6 {
        match (spec_hex_pair(t[0], t[1]), spec_hex_pair(t[2], t[3]), spec_hex_pair(t[4], t[5])) {
            (Some(r), Some(g), Some(b)) => Some((r, g, b)),
            _ => None,
        }
    } else if t.len() == 3 {
        match (spec_hex_pair(t[0], t[0]), spec_hex_pair(t[1], t[1]), spec_hex_pair(t[2], t[2])) {
            (Some(r), Some(g), Some(b)) => Some((r, g, b)),
            _ => None,
        }
    } else {
        None
    }
}

/// Executable twin of [`spec_hex_val`].
fn hex_val(c: char) -> (r: Option<u8>)
    ensures
        r == spec_hex_val(c),
{
    let v = c as u32;
    if 48 <= v && v <= 57 {
        Some((v - 48) as u8)
    } else if 97 <= v && v <= 102 {
        Some((v - 87) as u8)
    } else if 65 <= v && v <= 70 {
        Some((v - 55) as u8)
    } else {
        None
    }
}

fn hex_pair(s: &str, i: usize, j: usize) -> (r: Option<u8>)
    requires
        i < s@.len(),
        j < s@.len(),
    ensures
        r == spec_hex_pair(s@[i as int], s@[j as int]),
{
    match (hex_val(s.get_char(i)), hex_val(s.get_char(j))) {
        (Some(h), Some(l)) => Some(h * 16 + l),
        _ => None,
    }
}

/// Parses `"#rrggbb"` or `"#rgb"` (any number of leading `'#'` signs)
/// into a colour triple; anything else is rejected.
pub fn parse_hex_color(s: &str) -> (r: Result<(u8, u8, u8), ()>)
    ensures
        match r {
            Ok(c) => spec_hex_color(s@) == Some(c),
            Err(_) => spec_hex_color(s@) is None,
        },
{
    let n: usize = s.unicode_len();
    let mut k: usize = 0;
    while k < n && s.get_char(k) == '#'
        invariant
            0 <= k <= n,
            n == s@.len(),
            hash_end(s@, 0) == hash_end(s@, k as int),
        decreases n - k,
    {
        proof {
            assert(hash_end(s@, k as int) == hash_end(s@, k + 1));
        }
        k = k + 1;
    }
    let t = s.substring_char(k, n);
    proof {
        assert(t@ == s@.subrange(hash_end(s@, 0), s@.len() as int));
    }
    let m: usize = t.unicode_len();
    if m == 6 {
        match (hex_pair(t, 0, 1), hex_pair(t, 2, 3), hex_pair(t, 4, 5)) {
            (Some(r), Some(g), Some(b)) => Ok((r, g, b)),
            _ => Err(()),
        }
    } else if m == 3 {
        match (hex_pair(t, 0, 0), hex_pair(t, 1, 1), hex_pair(t, 2, 2)) {
            (Some(r), Some(g), Some(b)) => Ok((r, g, b)),
            _ => Err(()),
        }
    } else {
        Err(())
    }
}

} // verus!
