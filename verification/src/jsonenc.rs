//! Verified building blocks for the deterministic JSON the codec emits:
//! decimal rendering of integers and JSON string escaping.

use vstd::prelude::*;

verus! {

/// The character for one decimal digit.
pub open spec fn spec_digit_char(d: int) -> char {
    if d == 0 {
        '0'
    } else if d == 1 {
        '1'
    } else if d == 2 {
        '2'
    } else if d == 3 {
        '3'
    } else if d == 4 {
        '4'
    } else if d == 5 {
        '5'
    } else if d == 6 {
        '6'
    } else if d == 7 {
        '7'
    } else if d == 8 {
        '8'
    } else {
        '9'
    }
}

/// The decimal digit string of a non-negative integer, most significant
/// digit first, with no leading zeroes (a single `'0'` for zero).
pub open spec fn spec_dec_digits(v: int) -> Seq<char>
    decreases v,
{
    if v < 10 {
        seq![spec_digit_char(v)]
    } else {
        spec_dec_digits(v / 10).push(spec_digit_char(v % 10))
    }
}

/// The character for one hexadecimal digit (lower case).
pub open spec fn spec_hex_char(d: int) -> char {
    if d < 10 {
        spec_digit_char(d)
    } else if d == 10 {
        'a'
    } else if d == 11 {
        'b'
    } else if d == 12 {
        'c'
    } else if d == 13 {
        'd'
    } else if d == 14 {
        'e'
    } else {
        'f'
    }
}

/// How one character appears inside a JSON string literal.
pub open spec fn spec_escape_char(c: char) -> Seq<char> {
    if c == '"' {
        seq!['\\', '"']
    } else if c == '\\' {
        seq!['\\', '\\']
    } else if c == '\n' {
        seq!['\\', 'n']
    } else if c == '\r' {
        seq!['\\', 'r']
    } else if c == '\t' {
        seq!['\\', 't']
    } else if (c as u32) < 0x20 {
        seq!['\\', 'u', '0', '0', spec_hex_char((c as u32) as int / 16), spec_hex_char(
            (c as u32) as int % 16,
        )]
    } else {
        seq![c]
    }
}

/// The body of a JSON string literal holding exactly the text `s`.
pub open spec fn spec_json_escape(s: Seq<char>) -> Seq<char>
    decreases s.len(),
{
    if s.len() == 0 {
        Seq::empty()
    } else {
        spec_escape_char(s[0]) + spec_json_escape(s.subrange(1, s.len() as int))
    }
}

proof fn lemma_json_escape_step(s: Seq<char>, i: int)
    requires
        0 <= i < s.len(),
    ensures
        spec_json_escape(s.subrange(0, i + 1)) == spec_json_escape(s.subrange(0, i))
            + spec_escape_char(s[i]),
    decreases i,
{
    let a = s.subrange(0, i + 1);
    let b = s.subrange(0, i);
    if i == 0 {
        assert(a =~= seq![s[0]]);
        assert(a.subrange(1, 1) =~= Seq::<char>::empty());
        assert(b =~= Seq::<char>::empty());
        assert(spec_json_escape(Seq::<char>::empty()) =~= Seq::<char>::empty());
        assert(spec_json_escape(a) == spec_escape_char(a[0]) + spec_json_escape(
            a.subrange(1, 1),
        ));
        assert(spec_json_escape(a) =~= spec_escape_char(s[0]));
    } else {
        let t = s.subrange(1, s.len() as int);
        lemma_json_escape_step(t, i - 1);
        assert(a.subrange(1, a.len() as int) =~= t.subrange(0, i));
        assert(b.subrange(1, b.len() as int) =~= t.subrange(0, i - 1));
        assert(t.subrange(0, i - 1 + 1) =~= t.subrange(0, i));
        assert(t[i - 1] == s[i]);
        assert(spec_json_escape(a) == spec_escape_char(s[0]) + (spec_json_escape(
            t.subrange(0, i - 1),
        ) + spec_escape_char(s[i])));
        assert(spec_json_escape(a) =~= spec_json_escape(b) + spec_escape_char(s[i]));
    }
}

/// Relies on `String::push`: appends exactly the one character.
#[verifier::external_body]
pub(crate) fn push_char(out: &mut String, c: char)
    ensures
        final(out)@ == old(out)@.push(c),
{
    out.push(c);
}

/// Executable twin of [`spec_digit_char`].
pub fn digit_char(d: u64) -> (c: char)
    requires
        d < 10,
    ensures
        c == spec_digit_char(d as int),
{
    match d {
        0 => '0',
        1 => '1',
        2 => '2',
        3 => '3',
        4 => '4',
        5 => '5',
        6 => '6',
        7 => '7',
        8 => '8',
        _ => '9',
    }
}

/// Executable twin of [`spec_hex_char`].
pub fn hex_char(d: u32) -> (c: char)
    requires
        d < 16,
    ensures
        c == spec_hex_char(d as int),
{
    match d {
        0 => '0',
        1 => '1',
        2 => '2',
        3 => '3',
        4 => '4',
        5 => '5',
        6 => '6',
        7 => '7',
        8 => '8',
        9 => '9',
        10 => 'a',
        11 => 'b',
        12 => 'c',
        13 => 'd',
        14 => 'e',
        _ => 'f',
    }
}

/// Appends the decimal digits of `v` to `out`.
pub fn append_dec(out: &mut String, v: u64)
    ensures
        final(out)@ == old(out)@ + spec_dec_digits(v as int),
{
    let mut digits: Vec<char> = Vec::new();
    let mut w: u64 = v;
    proof {
        assert(spec_dec_digits(v as int) =~= spec_dec_digits(v as int) + digits@);
    }
    while w >= 10
        invariant
            spec_dec_digits(v as int) == spec_dec_digits(w as int) + digits@,
        decreases w,
    {
        let d = digit_char(w % 10);
        digits.insert(0, d);
        proof {
            assert(spec_dec_digits(w as int) == spec_dec_digits(w as int / 10).push(
                spec_digit_char(w as int % 10),
            ));
            assert(spec_dec_digits(w as int / 10).push(spec_digit_char(w as int % 10)) + digits@
                .subrange(1, digits@.len() as int) =~= spec_dec_digits(w as int / 10) + digits@);
        }
        w = w / 10;
    }
    let d = digit_char(w);
    digits.insert(0, d);
    proof {
        assert(spec_dec_digits(w as int) =~= seq![spec_digit_char(w as int)]);
        assert(spec_dec_digits(v as int) =~= digits@);
    }
    let n = digits.len();
    let mut i: usize = 0;
    while i < n
        invariant
            n == digits@.len(),
            0 <= i <= n,
            out@ == old(out)@ + digits@.subrange(0, i as int),
        decreases n - i,
    {
        push_char(out, digits[i]);
        proof {
            assert(old(out)@ + digits@.subrange(0, i as int + 1) =~= (old(out)@ + digits@.subrange(
                0,
                i as int,
            )).push(digits@[i as int]));
        }
        i = i + 1;
    }
    proof {
        assert(digits@.subrange(0, n as int) =~= digits@);
    }
}

/// Appends `s`, escaped as the body of a JSON string literal, to `out`.
pub fn append_json_escaped(out: &mut String, s: &str)
    ensures
        final(out)@ == old(out)@ + spec_json_escape(s@),
{
    let n: usize = s.unicode_len();
    let mut i: usize = 0;
    proof {
        assert(s@.subrange(0, 0) =~= Seq::<char>::empty());
        assert(out@ =~= old(out)@ + spec_json_escape(s@.subrange(0, 0)));
    }
    while i < n
        invariant
            0 <= i <= n,
            n == s@.len(),
            out@ == old(out)@ + spec_json_escape(s@.subrange(0, i as int)),
        decreases n - i,
    {
        let c = s.get_char(i);
        if c == '"' {
            out.append("\\\"");
        } else if c == '\\' {
            out.append("\\\\");
        } else if c == '\n' {
            out.append("\\n");
        } else if c == '\r' {
            out.append("\\r");
        } else if c == '\t' {
            out.append("\\t");
        } else if (c as u32) < 0x20 {
            out.append("\\u00");
            let code: u32 = c as u32;
            push_char(out, hex_char(code / 16));
            push_char(out, hex_char(code % 16));
        } else {
            push_char(out, c);
        }
        proof {
            reveal_strlit("\\\"");
            reveal_strlit("\\\\");
            reveal_strlit("\\n");
            reveal_strlit("\\r");
            reveal_strlit("\\t");
            reveal_strlit("\\u00");
            lemma_json_escape_step(s@, i as int);
            assert(out@ =~= old(out)@ + spec_json_escape(s@.subrange(0, i as int + 1)));
        }
        i = i + 1;
    }
    proof {
        assert(s@.subrange(0, n as int) =~= s@);
    }
}

} // verus!
