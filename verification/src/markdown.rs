//! The chat markdown dialect: parsing message text into a block/inline
//! tree.
//!
//! The grammar is specified by the recursive functions over character
//! sequences ([`spec_parse_inline`] here, the block grammar beside it);
//! the executable parser returns trees whose ghost views equal those
//! functions' results, character for character.

use vstd::prelude::*;
use crate::strutil::{find_sub, matches_at, spec_find, starts_with_at};

verus! {

broadcast use {vstd::std_specs::vec::axiom_vec_decreases_to_view, vstd::seq::axiom_seq_index_decreases};

/// Resolves a mention id to a display name; implemented by collaborators.
pub trait MentionResolver {
    fn resolve(&self, user_id: &str) -> Option<String>;
}

/// Inline markup inside one line.
#[derive(Debug)]
pub enum MdInline {
    Text(String),
    Bold(Vec<MdInline>),
    Italic(Vec<MdInline>),
    Underline(Vec<MdInline>),
    Strike(Vec<MdInline>),
    Spoiler(Vec<MdInline>),
    Code(String),
    Mention(String),
}

/// A block of the message.
#[derive(Debug)]
pub enum MdBlock {
    Header(u8, Vec<MdInline>),
    List { indent: u8, content: Vec<MdInline>, bullet: char },
    BlockQuote(Vec<MdBlock>),
    CodeBlock { lang: Option<String>, code: String },
    Subtext(Vec<MdInline>),
    Paragraph(Vec<MdInline>),
    Empty,
}

/// The mathematical shape of inline markup.
pub ghost enum MdInlineV {
    Text(Seq<char>),
    Bold(Seq<MdInlineV>),
    Italic(Seq<MdInlineV>),
    Underline(Seq<MdInlineV>),
    Strike(Seq<MdInlineV>),
    Spoiler(Seq<MdInlineV>),
    Code(Seq<char>),
    Mention(Seq<char>),
}

/// The mathematical shape of a block.
pub ghost enum MdBlockV {
    Header(u8, Seq<MdInlineV>),
    List { indent: u8, content: Seq<MdInlineV>, bullet: char },
    BlockQuote(Seq<MdBlockV>),
    CodeBlock { lang: Option<Seq<char>>, code: Seq<char> },
    Subtext(Seq<MdInlineV>),
    Paragraph(Seq<MdInlineV>),
    Empty,
}

/// The shape of one inline node.
pub open spec fn view_inline(i: MdInline) -> MdInlineV
    decreases i,
{
    match i {
        MdInline::Text(s) => MdInlineV::Text(s@),
        MdInline::Bold(v) => MdInlineV::Bold(view_inlines(v@)),
        MdInline::Italic(v) => MdInlineV::Italic(view_inlines(v@)),
        MdInline::Underline(v) => MdInlineV::Underline(view_inlines(v@)),
        MdInline::Strike(v) => MdInlineV::Strike(view_inlines(v@)),
        MdInline::Spoiler(v) => MdInlineV::Spoiler(view_inlines(v@)),
        MdInline::Code(s) => MdInlineV::Code(s@),
        MdInline::Mention(s) => MdInlineV::Mention(s@),
    }
}

/// The shapes of a sequence of inline nodes.
pub open spec fn view_inlines(s: Seq<MdInline>) -> Seq<MdInlineV>
    decreases s,
{
    if s.len() == 0 {
        Seq::empty()
    } else {
        seq![view_inline(s[0])] + view_inlines(s.drop_first())
    }
}

/// The shape of one block.
pub open spec fn view_block(b: MdBlock) -> MdBlockV
    decreases b,
{
    match b {
        MdBlock::Header(level, v) => MdBlockV::Header(level, view_inlines(v@)),
        MdBlock::List { indent, content, bullet } => MdBlockV::List {
            indent,
            content: view_inlines(content@),
            bullet,
        },
        MdBlock::BlockQuote(v) => MdBlockV::BlockQuote(view_blocks(v@)),
        MdBlock::CodeBlock { lang, code } => MdBlockV::CodeBlock {
            lang: match lang {
                Some(l) => Some(l@),
                None => None,
            },
            code: code@,
        },
        MdBlock::Subtext(v) => MdBlockV::Subtext(view_inlines(v@)),
        MdBlock::Paragraph(v) => MdBlockV::Paragraph(view_inlines(v@)),
        MdBlock::Empty => MdBlockV::Empty,
    }
}

/// The shapes of a sequence of blocks.
pub open spec fn view_blocks(s: Seq<MdBlock>) -> Seq<MdBlockV>
    decreases s,
{
    if s.len() == 0 {
        Seq::empty()
    } else {
        seq![view_block(s[0])] + view_blocks(s.drop_first())
    }
}

pub proof fn lemma_view_inlines_push(s: Seq<MdInline>, x: MdInline)
    ensures
        view_inlines(s.push(x)) == view_inlines(s).push(view_inline(x)),
    decreases s.len(),
{
    if s.len() == 0 {
        assert(s.push(x).drop_first() =~= s);
        assert(s.push(x)[0] == x);
        assert(view_inlines(s.push(x)) =~= view_inlines(s).push(view_inline(x)));
    } else {
        lemma_view_inlines_push(s.drop_first(), x);
        assert(s.push(x).drop_first() =~= s.drop_first().push(x));
        assert(s.push(x)[0] == s[0]);
        assert(view_inlines(s.push(x)) =~= view_inlines(s).push(view_inline(x)));
    }
}

pub proof fn lemma_view_blocks_push(s: Seq<MdBlock>, x: MdBlock)
    ensures
        view_blocks(s.push(x)) == view_blocks(s).push(view_block(x)),
    decreases s.len(),
{
    if s.len() == 0 {
        assert(s.push(x).drop_first() =~= s);
        assert(s.push(x)[0] == x);
        assert(view_blocks(s.push(x)) =~= view_blocks(s).push(view_block(x)));
    } else {
        lemma_view_blocks_push(s.drop_first(), x);
        assert(s.push(x).drop_first() =~= s.drop_first().push(x));
        assert(s.push(x)[0] == s[0]);
        assert(view_blocks(s.push(x)) =~= view_blocks(s).push(view_block(x)));
    }
}

/// A decimal digit.
pub open spec fn is_digit_char(c: char) -> bool {
    48 <= (c as u32) <= 57
}

/// All characters of `t` are decimal digits.
pub open spec fn all_digits(t: Seq<char>) -> bool {
    forall|k: int| 0 <= k < t.len() ==> is_digit_char(#[trigger] t[k])
}

/// Index of the first character of `t` at or after `k` that is not `'!'`.
pub open spec fn bang_end(t: Seq<char>, k: int) -> int
    decreases t.len() - k,
{
    if k < 0 || k >= t.len() {
        t.len() as int
    } else if t[k] == '!' {
        bang_end(t, k + 1)
    } else {
        k
    }
}

proof fn lemma_bang_end_le(t: Seq<char>, k: int, m: int)
    requires
        0 <= k <= m < t.len(),
        t[m] != '!',
    ensures
        bang_end(t, k) <= m,
    decreases m - k,
{
    if k < m && t[k] == '!' {
        lemma_bang_end_le(t, k + 1, m);
    }
}

/// The pending plain text, flushed into the accumulator.
pub open spec fn spec_flush(s: Seq<char>, start: int, i: int, acc: Seq<MdInlineV>) -> Seq<
    MdInlineV,
> {
    if i > start {
        acc.push(MdInlineV::Text(s.subrange(start, i)))
    } else {
        acc
    }
}

/// One scan step of the inline parser at position `i`, with `start` the
/// beginning of the pending plain text and `acc` the nodes built so far.
pub open spec fn spec_inline_go(s: Seq<char>, i: int, start: int, acc: Seq<MdInlineV>) -> Seq<
    MdInlineV,
>
    decreases s.len() + 1, s.len() - i, 1int,
{
    if i < 0 || start < 0 || start > i {
        acc  // outside the parser's reachable states
    } else if i >= s.len() {
        spec_flush(s, start, s.len() as int, acc)
    } else {
        let c = s[i];
        if c == '*' {
            if matches_at(s, "***"@, i) {
                spec_container(s, i, start, acc, "***"@, 0)
            } else if matches_at(s, "**"@, i) {
                spec_container(s, i, start, acc, "**"@, 1)
            } else {
                spec_container(s, i, start, acc, "*"@, 2)
            }
        } else if c == '_' {
            if matches_at(s, "__"@, i) {
                spec_container(s, i, start, acc, "__"@, 3)
            } else {
                spec_container(s, i, start, acc, "_"@, 2)
            }
        } else if c == '~' {
            if matches_at(s, "~~"@, i) {
                spec_container(s, i, start, acc, "~~"@, 4)
            } else {
                spec_inline_go(s, i + 1, start, acc)
            }
        } else if c == '|' {
            if matches_at(s, "||"@, i) {
                spec_container(s, i, start, acc, "||"@, 5)
            } else {
                spec_inline_go(s, i + 1, start, acc)
            }
        } else if c == '`' {
            let acc1 = spec_flush(s, start, i, acc);
            match spec_find(s, seq!['`'], i + 1) {
                Some(end) => if i < end && end < s.len() {
                    spec_inline_go(
                        s,
                        end + 1,
                        end + 1,
                        acc1.push(MdInlineV::Code(s.subrange(i + 1, end))),
                    )
                } else {
                    acc1
                },
                None => spec_inline_go(s, i + 1, start, acc1),
            }
        } else if c == '<' {
            if matches_at(s, "<@"@, i) && spec_find(s, seq!['>'], i) is Some {
                let end = spec_find(s, seq!['>'], i).unwrap();
                let acc1 = spec_flush(s, start, i, acc);
                if i < end && end < s.len() {
                    let id = s.subrange(bang_end(s, i + 2), end);
                    if bang_end(s, i + 2) <= end && id.len() > 0 && all_digits(id) {
                        spec_inline_go(s, end + 1, end + 1, acc1.push(MdInlineV::Mention(id)))
                    } else {
                        spec_inline_go(s, i + 1, start, acc1)
                    }
                } else {
                    acc1
                }
            } else {
                spec_inline_go(s, i + 1, start, acc)
            }
        } else if c == '\\' {
            let acc1 = spec_flush(s, start, i, acc);
            if i + 1 < s.len() {
                spec_inline_go(s, i + 2, i + 2, acc1.push(MdInlineV::Text(seq![s[i + 1]])))
            } else {
                spec_inline_go(s, i + 1, i + 1, acc1.push(MdInlineV::Text(seq!['\\'])))
            }
        } else {
            spec_inline_go(s, i + 1, start, acc)
        }
    }
}

/// The node a delimiter kind wraps its children in.
pub open spec fn spec_wrap(kind: int, children: Seq<MdInlineV>) -> MdInlineV {
    if kind == 0 {
        MdInlineV::Italic(seq![MdInlineV::Bold(children)])
    } else if kind == 1 {
        MdInlineV::Bold(children)
    } else if kind == 2 {
        MdInlineV::Italic(children)
    } else if kind == 3 {
        MdInlineV::Underline(children)
    } else if kind == 4 {
        MdInlineV::Strike(children)
    } else {
        MdInlineV::Spoiler(children)
    }
}

/// A paired delimiter at `i`: when the closing delimiter exists, the
/// inner text is parsed recursively and wrapped; otherwise the scan just
/// moves on past the first character.
pub open spec fn spec_container(
    s: Seq<char>,
    i: int,
    start: int,
    acc: Seq<MdInlineV>,
    delim: Seq<char>,
    kind: int,
) -> Seq<MdInlineV>
    decreases s.len() + 1, s.len() - i, 0int,
{
    if i < 0 || start < 0 || start > i || i >= s.len() || delim.len() < 1 {
        acc
    } else {
        let d = delim.len() as int;
        match spec_find(s, delim, i + d) {
            None => spec_inline_go(s, i + 1, start, acc),
            Some(end) => if i + d <= end && end + d <= s.len() {
                let inner = s.subrange(i + d, end);
                let acc1 = spec_flush(s, start, i, acc);
                let acc2 = acc1.push(spec_wrap(kind, spec_parse_inline(inner)));
                spec_inline_go(s, end + d, end + d, acc2)
            } else {
                acc
            },
        }
    }
}

/// The inline parse of a whole line.
pub open spec fn spec_parse_inline(s: Seq<char>) -> Seq<MdInlineV>
    decreases s.len() + 1, s.len() + 1, 0int,
{
    spec_inline_go(s, 0, 0, Seq::empty())
}

proof fn lemma_find_bounds(s: Seq<char>, pat: Seq<char>, from: int)
    requires
        spec_find(s, pat, from) is Some,
    ensures
        from <= spec_find(s, pat, from).unwrap(),
        spec_find(s, pat, from).unwrap() + pat.len() <= s.len(),
        matches_at(s, pat, spec_find(s, pat, from).unwrap()),
    decreases s.len() - from + 1,
{
    if !(from < 0 || from + pat.len() > s.len()) && !matches_at(s, pat, from) {
        lemma_find_bounds(s, pat, from + 1);
    }
}

proof fn lemma_find_skips(s: Seq<char>, pat: Seq<char>, from: int)
    requires
        0 <= from,
        from + pat.len() <= s.len(),
        !matches_at(s, pat, from),
    ensures
        spec_find(s, pat, from) == spec_find(s, pat, from + 1),
{
}

/// Executable twin of [`bang_end`]: skips leading `'!'` characters.
fn skip_bangs(s: &str, from: usize) -> (r: usize)
    requires
        from <= s@.len(),
    ensures
        r == bang_end(s@, from as int),
        from <= r <= s@.len(),
{
    let n: usize = s.unicode_len();
    let mut k: usize = from;
    while k < n && s.get_char(k) == '!'
        invariant
            from <= k <= n,
            n == s@.len(),
            bang_end(s@, from as int) == bang_end(s@, k as int),
        decreases n - k,
    {
        proof {
            assert(bang_end(s@, k as int) == bang_end(s@, k + 1));
        }
        k = k + 1;
    }
    k
}

/// Executable twin of [`all_digits`] on a substring.
fn digits_only(s: &str, from: usize, to: usize) -> (r: bool)
    requires
        from <= to <= s@.len(),
    ensures
        r == all_digits(s@.subrange(from as int, to as int)),
{
    let ghost t = s@.subrange(from as int, to as int);
    let mut k: usize = from;
    while k < to
        invariant
            from <= k <= to <= s@.len(),
            t == s@.subrange(from as int, to as int),
            forall|u: int| 0 <= u < k - from ==> is_digit_char(#[trigger] t[u]),
        decreases to - k,
    {
        let c = s.get_char(k);
        proof {
            assert(t[k - from] == s@[k as int]);
        }
        if !('0' <= c && c <= '9') {
            proof {
                assert(!is_digit_char(t[k - from]));
            }
            return false;
        }
        k = k + 1;
    }
    true
}

/// Pushes the pending plain text, if any.
fn flush(s: &str, start: usize, i: usize, acc: Vec<MdInline>) -> (r: Vec<MdInline>)
    requires
        start <= i,
        i <= s@.len(),
    ensures
        view_inlines(r@) == spec_flush(s@, start as int, i as int, view_inlines(acc@)),
{
    if i > start {
        let text = s.substring_char(start, i).to_owned();
        let mut out = acc;
        let ghost out0 = out@;
        let ghost textv = text@;
        out.push(MdInline::Text(text));
        proof {
            lemma_view_inlines_push(out0, out@[out0.len() as int]);
            assert(view_inline(out@[out0.len() as int]) == MdInlineV::Text(textv));
        }
        out
    } else {
        acc
    }
}

/// Parses the inline markup of one line.
pub fn parse_inline(input: &str) -> (r: Vec<MdInline>)
    ensures
        view_inlines(r@) == spec_parse_inline(input@),
    decreases input@.len() + 1, input@.len() + 1, 0int,
{
    let acc: Vec<MdInline> = Vec::new();
    proof {
        assert(view_inlines(acc@) =~= Seq::<MdInlineV>::empty());
    }
    inline_go(input, 0, 0, acc)
}

fn inline_go(s: &str, i: usize, start: usize, acc: Vec<MdInline>) -> (r: Vec<MdInline>)
    requires
        start <= i,
        i <= s@.len(),
    ensures
        view_inlines(r@) == spec_inline_go(s@, i as int, start as int, view_inlines(acc@)),
    decreases s@.len() + 1, s@.len() - i, 1int,
{
    let n: usize = s.unicode_len();
    if i >= n {
        return flush(s, start, n, acc);
    }
    let c = s.get_char(i);
    if c == '*' {
        proof {
            reveal_strlit("***");
            reveal_strlit("**");
        }
        if starts_with_at(s, "***", i) {
            container(s, i, start, acc, "***", 0)
        } else if starts_with_at(s, "**", i) {
            container(s, i, start, acc, "**", 1)
        } else {
            proof {
                reveal_strlit("*");
                assert(s@.subrange(i as int, i + 1) =~= "*"@);
            }
            container(s, i, start, acc, "*", 2)
        }
    } else if c == '_' {
        proof {
            reveal_strlit("__");
        }
        if starts_with_at(s, "__", i) {
            container(s, i, start, acc, "__", 3)
        } else {
            proof {
                reveal_strlit("_");
                assert(s@.subrange(i as int, i + 1) =~= "_"@);
            }
            container(s, i, start, acc, "_", 2)
        }
    } else if c == '~' {
        proof {
            reveal_strlit("~~");
        }
        if starts_with_at(s, "~~", i) {
            container(s, i, start, acc, "~~", 4)
        } else {
            inline_go(s, i + 1, start, acc)
        }
    } else if c == '|' {
        proof {
            reveal_strlit("||");
        }
        if starts_with_at(s, "||", i) {
            container(s, i, start, acc, "||", 5)
        } else {
            inline_go(s, i + 1, start, acc)
        }
    } else if c == '`' {
        proof {
            reveal_strlit("`");
            assert("`"@ =~= seq!['`']);
        }
        let acc1 = flush(s, start, i, acc);
        let ghost acc1v = view_inlines(acc1@);
        match find_sub(s, "`", i + 1) {
            Some(end) => {
                proof {
                    lemma_find_bounds(s@, seq!['`'], i + 1);
                }
                let code = s.substring_char(i + 1, end).to_owned();
                let mut acc2 = acc1;
                let ghost acc2v0 = acc2@;
                let ghost codev = code@;
                acc2.push(MdInline::Code(code));
                proof {
                    lemma_view_inlines_push(acc2v0, acc2@[acc2v0.len() as int]);
                    assert(view_inlines(acc2@) == acc1v.push(MdInlineV::Code(codev)));
                }
                inline_go(s, end + 1, end + 1, acc2)
            },
            None => inline_go(s, i + 1, start, acc1),
        }
    } else if c == '<' {
        proof {
            reveal_strlit(">");
            assert(">"@ =~= seq!['>']);
        }
        if starts_with_at(s, "<@", i) {
            match find_sub(s, ">", i) {
                Some(end) => {
                    proof {
                        reveal_strlit("<@");
                        lemma_find_bounds(s@, seq!['>'], i as int);
                        assert(s@.subrange(i as int, i + 2)[1] == s@[i + 1]);
                        assert(s@[i + 1] == '@');
                        assert(!matches_at(s@, seq!['>'], i as int)) by {
                            if matches_at(s@, seq!['>'], i as int) {
                                assert(s@.subrange(i as int, i + 1)[0] == '>');
                            }
                        }
                        lemma_find_skips(s@, seq!['>'], i as int);
                        assert(!matches_at(s@, seq!['>'], i + 1)) by {
                            if matches_at(s@, seq!['>'], i + 1) {
                                assert(s@.subrange(i + 1, i + 2)[0] == '>');
                            }
                        }
                        lemma_find_skips(s@, seq!['>'], i + 1);
                        assert(end >= i + 2);
                        assert(s@[end as int] == '>') by {
                            assert(s@.subrange(end as int, end + 1)[0] == s@[end as int]);
                        }
                        lemma_bang_end_le(s@, i + 2, end as int);
                    }
                    let acc1 = flush(s, start, i, acc);
                    let ghost acc1v = view_inlines(acc1@);
                    let id_start = skip_bangs(s, i + 2);
                    if id_start < end && digits_only(s, id_start, end) {
                        let id = s.substring_char(id_start, end).to_owned();
                        let mut acc2 = acc1;
                        let ghost acc2v0 = acc2@;
                        let ghost idv = id@;
                        acc2.push(MdInline::Mention(id));
                        proof {
                            lemma_view_inlines_push(acc2v0, acc2@[acc2v0.len() as int]);
                            assert(view_inlines(acc2@) == acc1v.push(MdInlineV::Mention(idv)));
                        }
                        inline_go(s, end + 1, end + 1, acc2)
                    } else {
                        inline_go(s, i + 1, start, acc1)
                    }
                },
                None => inline_go(s, i + 1, start, acc),
            }
        } else {
            inline_go(s, i + 1, start, acc)
        }
    } else if c == '\\' {
        let acc1 = flush(s, start, i, acc);
        let ghost acc1v = view_inlines(acc1@);
        if i + 1 < n {
            let escaped = s.substring_char(i + 1, i + 2).to_owned();
            proof {
                assert(s@.subrange(i + 1, i + 2) =~= seq![s@[i + 1]]);
            }
            let mut acc2 = acc1;
            let ghost acc2v0 = acc2@;
            acc2.push(MdInline::Text(escaped));
            proof {
                lemma_view_inlines_push(acc2v0, acc2@[acc2v0.len() as int]);
                assert(view_inlines(acc2@) == acc1v.push(MdInlineV::Text(seq![s@[i + 1]])));
            }
            inline_go(s, i + 2, i + 2, acc2)
        } else {
            let mut acc2 = acc1;
            let ghost acc2v0 = acc2@;
            acc2.push(MdInline::Text("\\".to_owned()));
            proof {
                reveal_strlit("\\");
                assert("\\"@ =~= seq!['\\']);
                lemma_view_inlines_push(acc2v0, acc2@[acc2v0.len() as int]);
                assert(view_inlines(acc2@) == acc1v.push(MdInlineV::Text(seq!['\\'])));
            }
            inline_go(s, i + 1, i + 1, acc2)
        }
    } else {
        inline_go(s, i + 1, start, acc)
    }
}

fn container(s: &str, i: usize, start: usize, acc: Vec<MdInline>, delim: &str, kind: u8) -> (r:
    Vec<MdInline>)
    requires
        start <= i,
        i < s@.len(),
        1 <= delim@.len(),
        matches_at(s@, delim@, i as int),
        kind <= 5,
    ensures
        view_inlines(r@) == spec_container(
            s@,
            i as int,
            start as int,
            view_inlines(acc@),
            delim@,
            kind as int,
        ),
    decreases s@.len() + 1, s@.len() - i, 0int,
{
    let n: usize = s.unicode_len();
    let d: usize = delim.unicode_len();
    match find_sub(s, delim, i + d) {
        None => inline_go(s, i + 1, start, acc),
        Some(end) => {
            proof {
                lemma_find_bounds(s@, delim@, i + d);
            }
            let inner = s.substring_char(i + d, end);
            let children = parse_inline(inner);
            let ghost childrenv = view_inlines(children@);
            let node = wrap(kind, children);
            let ghost nodev = view_inline(node);
            let acc1 = flush(s, start, i, acc);
            let ghost acc1v = view_inlines(acc1@);
            let mut acc2 = acc1;
            let ghost acc2v0 = acc2@;
            acc2.push(node);
            proof {
                lemma_view_inlines_push(acc2v0, acc2@[acc2v0.len() as int]);
                assert(view_inlines(acc2@) == acc1v.push(nodev));
                assert(nodev == spec_wrap(kind as int, spec_parse_inline(s@.subrange(i + d, end as int))));
            }
            inline_go(s, end + d, end + d, acc2)
        },
    }
}

fn wrap(kind: u8, children: Vec<MdInline>) -> (r: MdInline)
    requires
        kind <= 5,
    ensures
        view_inline(r) == spec_wrap(kind as int, view_inlines(children@)),
{
    let ghost cv = view_inlines(children@);
    match kind {
        0 => {
            let inner_node = MdInline::Bold(children);
            let ghost innerv = view_inline(inner_node);
            proof {
                assert(innerv == MdInlineV::Bold(cv));
            }
            let mut outer: Vec<MdInline> = Vec::new();
            outer.push(inner_node);
            proof {
                assert(view_inlines(outer@.drop_first()) =~= Seq::<MdInlineV>::empty());
                assert(view_inline(outer@[0]) == innerv);
                assert(view_inlines(outer@) =~= seq![MdInlineV::Bold(cv)]);
            }
            MdInline::Italic(outer)
        },
        1 => MdInline::Bold(children),
        2 => MdInline::Italic(children),
        3 => MdInline::Underline(children),
        4 => MdInline::Strike(children),
        _ => MdInline::Spoiler(children),
    }
}

/// `t` with one trailing carriage return removed.
pub open spec fn strip_cr(t: Seq<char>) -> Seq<char> {
    if t.len() > 0 && t[t.len() - 1] == '\r' {
        t.take(t.len() - 1)
    } else {
        t
    }
}

/// The lines of `s`, split at newlines, each with one trailing carriage
/// return removed, starting at position `p`.
pub open spec fn spec_lines_from(s: Seq<char>, p: int) -> Seq<Seq<char>>
    decreases s.len() - p,
{
    if p < 0 || p >= s.len() {
        Seq::empty()
    } else {
        match spec_find(s, seq!['\n'], p) {
            None => seq![strip_cr(s.subrange(p, s.len() as int))],
            Some(k) => if p <= k < s.len() {
                seq![strip_cr(s.subrange(p, k))] + spec_lines_from(s, k + 1)
            } else {
                seq![strip_cr(s.subrange(p, s.len() as int))]
            },
        }
    }
}

/// The lines of a message text.
pub open spec fn spec_lines(s: Seq<char>) -> Seq<Seq<char>> {
    spec_lines_from(s, 0)
}

/// The character views of a vector of lines.
pub open spec fn view_lines(ls: Seq<String>) -> Seq<Seq<char>> {
    ls.map_values(|l: String| l@)
}

/// Splits a message into lines, mirroring [`spec_lines`].
fn split_lines(s: &str) -> (r: Vec<String>)
    ensures
        view_lines(r@) == spec_lines(s@),
{
    let mut lines: Vec<String> = Vec::new();
    let n: usize = s.unicode_len();
    let mut pos: usize = 0;
    proof {
        reveal_strlit("\n");
        assert("\n"@ =~= seq!['\n']);
        assert(view_lines(lines@) =~= Seq::<Seq<char>>::empty());
    }
    while pos < n
        invariant
            0 <= pos <= n,
            n == s@.len(),
            spec_lines(s@) == view_lines(lines@) + spec_lines_from(s@, pos as int),
        decreases n - pos,
    {
        proof {
            reveal_strlit("\n");
            assert("\n"@ =~= seq!['\n']);
        }
        let ghost lines0 = view_lines(lines@);
        let cut: usize = match find_sub(s, "\n", pos) {
            Some(k) => {
                proof {
                    reveal_strlit("\n");
                    assert("\n"@ =~= seq!['\n']);
                    lemma_find_bounds(s@, seq!['\n'], pos as int);
                }
                k
            },
            None => n,
        };
        let line = if cut > pos && s.get_char(cut - 1) == '\r' {
            s.substring_char(pos, cut - 1).to_owned()
        } else {
            s.substring_char(pos, cut).to_owned()
        };
        proof {
            assert(s@.subrange(pos as int, cut as int).len() == cut - pos);
            if cut > pos && s@[cut - 1] == '\r' {
                assert(s@.subrange(pos as int, cut as int).take(cut - pos - 1) =~= s@.subrange(
                    pos as int,
                    cut - 1,
                ));
                assert(line@ == strip_cr(s@.subrange(pos as int, cut as int)));
            } else {
                assert(line@ == strip_cr(s@.subrange(pos as int, cut as int)));
            }
        }
        lines.push(line);
        proof {
            assert(view_lines(lines@) =~= lines0.push(lines@[lines0.len() as int]@));
            if cut < n {
                assert(spec_lines_from(s@, pos as int) =~= seq![
                    strip_cr(s@.subrange(pos as int, cut as int)),
                ] + spec_lines_from(s@, cut + 1));
                assert(spec_lines(s@) =~= view_lines(lines@) + spec_lines_from(s@, cut + 1));
            } else {
                assert(spec_lines_from(s@, pos as int) =~= seq![
                    strip_cr(s@.subrange(pos as int, n as int)),
                ]);
                assert(spec_lines_from(s@, n as int) =~= Seq::<Seq<char>>::empty());
                assert(spec_lines(s@) =~= view_lines(lines@) + spec_lines_from(s@, n as int));
            }
        }
        pos = if cut < n {
            cut + 1
        } else {
            n
        };
    }
    proof {
        assert(spec_lines_from(s@, pos as int) =~= Seq::<Seq<char>>::empty());
        assert(view_lines(lines@) + spec_lines_from(s@, pos as int) =~= view_lines(lines@));
    }
    lines
}

/// The remaining cost of the lines at and after `i`: used as the
/// termination measure of the block grammar.
pub open spec fn lines_weight(ls: Seq<Seq<char>>, i: int) -> nat
    decreases ls.len() - i,
{
    if i < 0 || i >= ls.len() {
        0
    } else {
        ls[i].len() + 1 + lines_weight(ls, i + 1)
    }
}

proof fn lemma_weight_mono(ls: Seq<Seq<char>>, a: int, b: int)
    requires
        0 <= a <= b,
    ensures
        lines_weight(ls, b) <= lines_weight(ls, a),
    decreases b - a,
{
    if a < b {
        lemma_weight_mono(ls, a + 1, b);
    }
}

proof fn lemma_weight_suffix_eq(ls1: Seq<Seq<char>>, i1: int, ls2: Seq<Seq<char>>, i2: int)
    requires
        0 <= i1 <= ls1.len(),
        0 <= i2 <= ls2.len(),
        ls1.len() - i1 == ls2.len() - i2,
        forall|k: int| 0 <= k < ls1.len() - i1 ==> ls1[i1 + k] == #[trigger] ls2[i2 + k],
    ensures
        lines_weight(ls1, i1) == lines_weight(ls2, i2),
    decreases ls1.len() - i1,
{
    if i1 < ls1.len() {
        assert(ls1[i1] == ls2[i2]) by {
            assert(ls1[i1 + 0] == ls2[i2 + 0]);
        }
        assert forall|k: int| 0 <= k < ls1.len() - (i1 + 1) implies ls1[i1 + 1 + k]
            == #[trigger] ls2[i2 + 1 + k] by {
            assert(ls1[i1 + (k + 1)] == ls2[i2 + (k + 1)]);
        }
        lemma_weight_suffix_eq(ls1, i1 + 1, ls2, i2 + 1);
    }
}

/// Index of the first character of `t` at or after `k` that is not a
/// backtick.
pub open spec fn backtick_end(t: Seq<char>, k: int) -> int
    decreases t.len() - k,
{
    if k < 0 || k >= t.len() {
        t.len() as int
    } else if t[k] == '`' {
        backtick_end(t, k + 1)
    } else {
        k
    }
}

/// The code-fence language tag of an opening fence line: the line with
/// its leading backticks removed and trimmed, or nothing when that is
/// empty.
pub open spec fn spec_fence_lang(t: Seq<char>) -> Option<Seq<char>> {
    let lang = crate::strutil::spec_trim(t.subrange(backtick_end(t, 0), t.len() as int));
    if lang.len() == 0 {
        None
    } else {
        Some(lang)
    }
}

/// The first line at or after `j` whose trimmed text opens a fence.
pub open spec fn spec_fence_close(ls: Seq<Seq<char>>, j: int) -> Option<int>
    decreases ls.len() - j,
{
    if j < 0 || j >= ls.len() {
        None
    } else if matches_at(crate::strutil::spec_trim(ls[j]), "```"@, 0) {
        Some(j)
    } else {
        spec_fence_close(ls, j + 1)
    }
}

/// The lines `a..b` joined with newlines.
pub open spec fn spec_join(ls: Seq<Seq<char>>, a: int, b: int) -> Seq<char>
    decreases b - a,
{
    if a >= b {
        Seq::empty()
    } else {
        ls[a] + seq!['\n'] + spec_join(ls, a + 1, b)
    }
}

/// The code text between a fence pair: the lines joined with newlines,
/// without a trailing newline.
pub open spec fn spec_code_text(ls: Seq<Seq<char>>, a: int, b: int) -> Seq<char> {
    let j = spec_join(ls, a, b);
    if j.len() > 0 {
        j.take(j.len() - 1)
    } else {
        j
    }
}

/// The run of quoted lines: paragraphs for each following line starting
/// `"> "` (but not `">>> "`), and the index of the first line after the
/// run.
pub open spec fn spec_quote_run(ls: Seq<Seq<char>>, j: int) -> (Seq<MdBlockV>, int)
    decreases ls.len() - j,
{
    if j < 0 || j >= ls.len() || !(matches_at(ls[j], "> "@, 0) && !matches_at(ls[j], ">>> "@, 0)) {
        (Seq::empty(), j)
    } else {
        let rest = spec_quote_run(ls, j + 1);
        (
            seq![
                MdBlockV::Paragraph(
                    spec_parse_inline(ls[j].subrange(2, ls[j].len() as int)),
                ),
            ] + rest.0,
            rest.1,
        )
    }
}

proof fn lemma_quote_run_bounds(ls: Seq<Seq<char>>, j: int)
    requires
        0 <= j <= ls.len(),
    ensures
        j <= spec_quote_run(ls, j).1 <= ls.len(),
    decreases ls.len() - j,
{
    if !(j >= ls.len() || !(matches_at(ls[j], "> "@, 0) && !matches_at(ls[j], ">>> "@, 0))) {
        lemma_quote_run_bounds(ls, j + 1);
    }
}

/// Leading-whitespace length of a line.
pub open spec fn spec_indent_len(t: Seq<char>) -> int {
    crate::strutil::first_non_ws(t, 0)
}

/// The list indent level recorded for a line: half the leading
/// whitespace, clamped into a byte.
pub open spec fn spec_indent_level(t: Seq<char>) -> u8 {
    if spec_indent_len(t) / 2 > 255 {
        0u8
    } else {
        (spec_indent_len(t) / 2) as u8
    }
}

/// What one line (or the fenced or quoted run it opens) contributes, and
/// the blocks built so far.  This is the block grammar.
pub open spec fn spec_blocks_go(ls: Seq<Seq<char>>, i: int, acc: Seq<MdBlockV>) -> Seq<MdBlockV>
    decreases lines_weight(ls, i), 1int
        via spec_blocks_go_decreases
{
    if i < 0 || i >= ls.len() {
        acc
    } else {
        let line = ls[i];
        let line_te = crate::strutil::spec_trim_end(line);
        if line_te.len() == 0 {
            spec_blocks_go(ls, i + 1, acc.push(MdBlockV::Empty))
        } else if matches_at(line_te, "```"@, 0) {
            let lang = spec_fence_lang(line_te);
            match spec_fence_close(ls, i + 1) {
                Some(j) => if i < j {
                    spec_blocks_go(
                        ls,
                        j + 1,
                        acc.push(
                            MdBlockV::CodeBlock { lang, code: spec_code_text(ls, i + 1, j) },
                        ),
                    )
                } else {
                    acc
                },
                None => spec_blocks_go(
                    ls,
                    ls.len() as int,
                    acc.push(
                        MdBlockV::CodeBlock {
                            lang,
                            code: spec_code_text(ls, i + 1, ls.len() as int),
                        },
                    ),
                ),
            }
        } else if matches_at(line, "-# "@, 0) {
            spec_blocks_go(
                ls,
                i + 1,
                acc.push(
                    MdBlockV::Subtext(spec_parse_inline(line.subrange(3, line.len() as int))),
                ),
            )
        } else if line == "-#"@ {
            spec_blocks_go(ls, i + 1, acc.push(MdBlockV::Subtext(Seq::empty())))
        } else if matches_at(line, "### "@, 0) {
            spec_blocks_go(
                ls,
                i + 1,
                acc.push(
                    MdBlockV::Header(3, spec_parse_inline(line.subrange(4, line.len() as int))),
                ),
            )
        } else if matches_at(line, "## "@, 0) {
            spec_blocks_go(
                ls,
                i + 1,
                acc.push(
                    MdBlockV::Header(2, spec_parse_inline(line.subrange(3, line.len() as int))),
                ),
            )
        } else if matches_at(line, "# "@, 0) {
            spec_blocks_go(
                ls,
                i + 1,
                acc.push(
                    MdBlockV::Header(1, spec_parse_inline(line.subrange(2, line.len() as int))),
                ),
            )
        } else if matches_at(line, ">>> "@, 0) {
            let inner = seq![line.subrange(4, line.len() as int)] + ls.skip(i + 1);
            acc.push(MdBlockV::BlockQuote(spec_blocks_go(inner, 0, Seq::empty())))
        } else if matches_at(line, "> "@, 0) {
            let first = MdBlockV::Paragraph(
                spec_parse_inline(line.subrange(2, line.len() as int)),
            );
            let run = spec_quote_run(ls, i + 1);
            spec_blocks_go(ls, run.1, acc.push(MdBlockV::BlockQuote(seq![first] + run.0)))
        } else {
            let trimmed = crate::strutil::spec_trim_start(line);
            if matches_at(trimmed, "- "@, 0) {
                spec_blocks_go(
                    ls,
                    i + 1,
                    acc.push(
                        MdBlockV::List {
                            indent: spec_indent_level(line),
                            content: spec_parse_inline(trimmed.subrange(2, trimmed.len() as int)),
                            bullet: '-',
                        },
                    ),
                )
            } else if matches_at(trimmed, "* "@, 0) {
                spec_blocks_go(
                    ls,
                    i + 1,
                    acc.push(
                        MdBlockV::List {
                            indent: spec_indent_level(line),
                            content: spec_parse_inline(trimmed.subrange(2, trimmed.len() as int)),
                            bullet: '*',
                        },
                    ),
                )
            } else {
                spec_blocks_go(ls, i + 1, acc.push(MdBlockV::Paragraph(spec_parse_inline(line))))
            }
        }
    }
}

#[via_fn]
proof fn spec_blocks_go_decreases(ls: Seq<Seq<char>>, i: int, acc: Seq<MdBlockV>) {
    if 0 <= i < ls.len() {
        let line = ls[i];
        lemma_weight_mono(ls, i, i + 1);
        if matches_at(crate::strutil::spec_trim_end(line), "```"@, 0) {
            match spec_fence_close(ls, i + 1) {
                Some(j) => {
                    lemma_fence_close_bounds(ls, i + 1);
                    if i < j {
                        lemma_weight_mono(ls, i + 1, j + 1);
                    }
                },
                None => {
                    lemma_weight_mono(ls, i + 1, ls.len() as int);
                },
            }
        }
        if matches_at(line, ">>> "@, 0) {
            reveal_strlit(">>> ");
            let inner = seq![line.subrange(4, line.len() as int)] + ls.skip(i + 1);
            assert(inner.len() - 1 == ls.len() - (i + 1));
            assert forall|k: int| 0 <= k < inner.len() - 1 implies inner[1 + k]
                == #[trigger] ls[i + 1 + k] by {
                assert(inner[1 + k] == ls.skip(i + 1)[k]);
            }
            lemma_weight_suffix_eq(inner, 1, ls, i + 1);
            assert(lines_weight(inner, 0) == inner[0].len() + 1 + lines_weight(inner, 1));
            assert(lines_weight(ls, i) == line.len() + 1 + lines_weight(ls, i + 1));
            assert(inner[0].len() == line.len() - 4);
        }
        if matches_at(line, "> "@, 0) && !matches_at(line, ">>> "@, 0) {
            lemma_quote_run_bounds(ls, i + 1);
            lemma_weight_mono(ls, i + 1, spec_quote_run(ls, i + 1).1);
        }
    }
}

proof fn lemma_fence_close_bounds(ls: Seq<Seq<char>>, j: int)
    requires
        spec_fence_close(ls, j) is Some,
    ensures
        j <= spec_fence_close(ls, j).unwrap() < ls.len(),
    decreases ls.len() - j,
{
    if !(j < 0 || j >= ls.len()) && !matches_at(crate::strutil::spec_trim(ls[j]), "```"@, 0) {
        lemma_fence_close_bounds(ls, j + 1);
    }
}

/// The block parse of a whole message.
pub open spec fn spec_parse_markdown(s: Seq<char>) -> Seq<MdBlockV> {
    spec_blocks_go(spec_lines(s), 0, Seq::empty())
}

/// Appends one block, with its view.
fn push_block(acc: Vec<MdBlock>, b: MdBlock) -> (r: Vec<MdBlock>)
    ensures
        view_blocks(r@) == view_blocks(acc@).push(view_block(b)),
{
    let ghost accv = acc@;
    let mut out = acc;
    out.push(b);
    proof {
        lemma_view_blocks_push(accv, out@[accv.len() as int]);
    }
    out
}

/// Executable twin of [`backtick_end`]: skips leading backticks.
fn skip_ticks(s: &str, from: usize) -> (r: usize)
    requires
        from <= s@.len(),
    ensures
        r == backtick_end(s@, from as int),
        from <= r <= s@.len(),
{
    let n: usize = s.unicode_len();
    let mut k: usize = from;
    while k < n && s.get_char(k) == '`'
        invariant
            from <= k <= n,
            n == s@.len(),
            backtick_end(s@, from as int) == backtick_end(s@, k as int),
        decreases n - k,
    {
        proof {
            assert(backtick_end(s@, k as int) == backtick_end(s@, k + 1));
        }
        k = k + 1;
    }
    k
}

/// Finds the closing fence line, mirroring [`spec_fence_close`].
fn fence_close(lines: &Vec<String>, from: usize) -> (r: Option<usize>)
    requires
        from <= lines@.len(),
    ensures
        match r {
            Some(j) => spec_fence_close(view_lines(lines@), from as int) == Some(j as int) && from
                <= j < lines@.len(),
            None => spec_fence_close(view_lines(lines@), from as int) is None,
        },
{
    let n = lines.len();
    let mut j: usize = from;
    while j < n
        invariant
            from <= j <= n,
            n == lines@.len(),
            spec_fence_close(view_lines(lines@), from as int) == spec_fence_close(
                view_lines(lines@),
                j as int,
            ),
        decreases n - j,
    {
        let t = crate::strutil::trim_chars(lines[j].as_str());
        proof {
            assert(view_lines(lines@)[j as int] == lines@[j as int]@);
        }
        if starts_with_at(t, "```", 0) {
            return Some(j);
        }
        proof {
            assert(spec_fence_close(view_lines(lines@), j as int) == spec_fence_close(
                view_lines(lines@),
                j + 1,
            ));
        }
        j = j + 1;
    }
    None
}

proof fn lemma_join_snoc(ls: Seq<Seq<char>>, a: int, b: int)
    requires
        a <= b,
    ensures
        spec_join(ls, a, b + 1) == spec_join(ls, a, b) + ls[b] + seq!['\n'],
    decreases b - a,
{
    if a < b {
        lemma_join_snoc(ls, a + 1, b);
        assert(spec_join(ls, a, b + 1) =~= spec_join(ls, a, b) + ls[b] + seq!['\n']);
    } else {
        assert(spec_join(ls, a + 1, a + 1) =~= Seq::<char>::empty());
        assert(spec_join(ls, a, a) =~= Seq::<char>::empty());
        assert(spec_join(ls, a, a + 1) =~= spec_join(ls, a, a) + ls[a] + seq!['\n']);
    }
}

/// Joins the lines `a..b` as the text of a code block, mirroring
/// [`spec_code_text`].
fn join_code(lines: &Vec<String>, a: usize, b: usize) -> (r: String)
    requires
        a <= b <= lines@.len(),
    ensures
        r@ == spec_code_text(view_lines(lines@), a as int, b as int),
{
    let ghost ls = view_lines(lines@);
    let mut out = String::new();
    let mut k: usize = a;
    proof {
        assert(spec_join(ls, a as int, a as int) =~= Seq::<char>::empty());
        assert(out@ =~= spec_code_text(ls, a as int, a as int));
    }
    while k < b
        invariant
            a <= k <= b <= lines@.len(),
            ls == view_lines(lines@),
            out@ == spec_code_text(ls, a as int, k as int),
        decreases b - k,
    {
        proof {
            reveal_strlit("\n");
            assert("\n"@ =~= seq!['\n']);
            lemma_join_snoc(ls, a as int, k as int);
            if k > a {
                lemma_join_snoc(ls, a as int, k - 1);
            }
            assert(ls[k as int] == lines@[k as int]@);
        }
        if k > a {
            out.append("\n");
        }
        out.append(lines[k].as_str());
        proof {
            let j1 = spec_join(ls, a as int, k + 1);
            assert(j1.take(j1.len() - 1) =~= spec_join(ls, a as int, k as int) + ls[k as int]);
            if k > a {
                let j0 = spec_join(ls, a as int, k as int);
                assert(j0.len() > 0 && j0[j0.len() - 1] == '\n');
                assert(spec_join(ls, a as int, k as int) =~= spec_code_text(
                    ls,
                    a as int,
                    k as int,
                ) + seq!['\n']);
            } else {
                assert(spec_join(ls, a as int, a as int) =~= Seq::<char>::empty());
            }
            assert(out@ =~= spec_code_text(ls, a as int, k + 1));
        }
        k = k + 1;
    }
    out
}

/// Collects the run of quoted lines, mirroring [`spec_quote_run`].
fn quote_run(lines: &Vec<String>, j: usize) -> (r: (Vec<MdBlock>, usize))
    requires
        j <= lines@.len(),
    ensures
        view_blocks(r.0@) == spec_quote_run(view_lines(lines@), j as int).0,
        r.1 == spec_quote_run(view_lines(lines@), j as int).1,
        j <= r.1 <= lines@.len(),
    decreases lines@.len() - j,
{
    proof {
        reveal_strlit("> ");
        reveal_strlit(">>> ");
    }
    if j >= lines.len() {
        let out: Vec<MdBlock> = Vec::new();
        proof {
            assert(view_blocks(out@) =~= Seq::<MdBlockV>::empty());
        }
        return (out, j);
    }
    let line = lines[j].as_str();
    proof {
        assert(view_lines(lines@)[j as int] == lines@[j as int]@);
    }
    let n = line.unicode_len();
    if starts_with_at(line, "> ", 0) && !starts_with_at(line, ">>> ", 0) {
        let content = line.substring_char(2, n);
        let para = MdBlock::Paragraph(parse_inline(content));
        let rest = quote_run(lines, j + 1);
        let mut out = rest.0;
        let ghost outv = out@;
        out.insert(0, para);
        proof {
            assert(out@ =~= seq![out@[0]] + outv);
            assert(out@.drop_first() =~= outv);
            assert(view_blocks(out@) =~= seq![view_block(out@[0])] + view_blocks(outv));
        }
        (out, rest.1)
    } else {
        let out: Vec<MdBlock> = Vec::new();
        proof {
            assert(view_blocks(out@) =~= Seq::<MdBlockV>::empty());
        }
        (out, j)
    }
}

/// Parses one line (or the fenced or quoted run it opens) and goes on,
/// mirroring [`spec_blocks_go`].
fn blocks_go(lines: &Vec<String>, i: usize, acc: Vec<MdBlock>) -> (r: Vec<MdBlock>)
    requires
        i <= lines@.len(),
    ensures
        view_blocks(r@) == spec_blocks_go(view_lines(lines@), i as int, view_blocks(acc@)),
    decreases lines_weight(view_lines(lines@), i as int), 1int,
{
    proof {
        reveal_strlit("```");
        reveal_strlit("-# ");
        reveal_strlit("-#");
        reveal_strlit("### ");
        reveal_strlit("## ");
        reveal_strlit("# ");
        reveal_strlit(">>> ");
        reveal_strlit("> ");
        reveal_strlit("- ");
        reveal_strlit("* ");
    }
    let ghost ls = view_lines(lines@);
    if i >= lines.len() {
        return acc;
    }
    proof {
        assert(ls[i as int] == lines@[i as int]@);
        lemma_weight_mono(ls, i + 1, i + 1);
        assert(lines_weight(ls, i as int) == ls[i as int].len() + 1 + lines_weight(ls, i + 1));
    }
    let line = lines[i].as_str();
    let n = line.unicode_len();
    let line_te = crate::strutil::trim_end_chars(line);
    if line_te.unicode_len() == 0 {
        let acc2 = push_block(acc, MdBlock::Empty);
        blocks_go(lines, i + 1, acc2)
    } else if starts_with_at(line_te, "```", 0) {
        let te_n = line_te.unicode_len();
        let tick_end = skip_ticks(line_te, 0);
        let lang_part = line_te.substring_char(tick_end, te_n);
        let lang_trimmed = crate::strutil::trim_chars(lang_part);
        let lang = if lang_trimmed.unicode_len() == 0 {
            None
        } else {
            Some(lang_trimmed.to_owned())
        };
        match fence_close(lines, i + 1) {
            Some(j) => {
                let code = join_code(lines, i + 1, j);
                let acc2 = push_block(acc, MdBlock::CodeBlock { lang, code });
                proof {
                    lemma_weight_mono(ls, i + 1, j + 1);
                }
                blocks_go(lines, j + 1, acc2)
            },
            None => {
                let code = join_code(lines, i + 1, lines.len());
                let acc2 = push_block(acc, MdBlock::CodeBlock { lang, code });
                proof {
                    lemma_weight_mono(ls, i + 1, ls.len() as int);
                }
                blocks_go(lines, lines.len(), acc2)
            },
        }
    } else if starts_with_at(line, "-# ", 0) {
        let content = line.substring_char(3, n);
        let acc2 = push_block(acc, MdBlock::Subtext(parse_inline(content)));
        blocks_go(lines, i + 1, acc2)
    } else if crate::strutil::str_eq(line, "-#") {
        let acc2 = push_block(acc, MdBlock::Subtext(Vec::new()));
        proof {
            assert(view_inlines(Seq::<MdInline>::empty()) =~= Seq::<MdInlineV>::empty());
        }
        blocks_go(lines, i + 1, acc2)
    } else if starts_with_at(line, "### ", 0) {
        let content = line.substring_char(4, n);
        let acc2 = push_block(acc, MdBlock::Header(3, parse_inline(content)));
        blocks_go(lines, i + 1, acc2)
    } else if starts_with_at(line, "## ", 0) {
        let content = line.substring_char(3, n);
        let acc2 = push_block(acc, MdBlock::Header(2, parse_inline(content)));
        blocks_go(lines, i + 1, acc2)
    } else if starts_with_at(line, "# ", 0) {
        let content = line.substring_char(2, n);
        let acc2 = push_block(acc, MdBlock::Header(1, parse_inline(content)));
        blocks_go(lines, i + 1, acc2)
    } else if starts_with_at(line, ">>> ", 0) {
        let mut inner: Vec<String> = Vec::new();
        inner.push(line.substring_char(4, n).to_owned());
        let mut k: usize = i + 1;
        while k < lines.len()
            invariant
                i + 1 <= k <= lines@.len(),
                ls == view_lines(lines@),
                inner@.len() == 1 + k - (i + 1),
                view_lines(inner@)[0] == ls[i as int].subrange(4, ls[i as int].len() as int),
                forall|t: int|
                    0 <= t < k - (i + 1) ==> view_lines(inner@)[1 + t] == #[trigger] ls[i + 1 + t],
            decreases lines@.len() - k,
        {
            let ghost innerv0 = inner@;
            inner.push(lines[k].clone());
            proof {
                assert(lines@[k as int]@ == ls[k as int]);
                assert forall|t: int|
                    0 <= t < k + 1 - (i + 1) implies view_lines(inner@)[1 + t] == #[trigger] ls[
                    i + 1 + t
                ] by {
                    if t < k - (i + 1) {
                        assert(view_lines(innerv0)[1 + t] == ls[i + 1 + t]);
                        assert(inner@[1 + t] == innerv0[1 + t]);
                    } else {
                        assert(inner@[1 + t] == lines@[k as int]);
                    }
                }
            }
            k = k + 1;
        }
        proof {
            let innerls = view_lines(inner@);
            assert(innerls =~= seq![ls[i as int].subrange(4, ls[i as int].len() as int)] + ls.skip(
                i + 1,
            )) by {
                assert forall|t: int| 0 <= t < innerls.len() implies innerls[t] == (seq![
                    ls[i as int].subrange(4, ls[i as int].len() as int),
                ] + ls.skip(i + 1))[t] by {
                    if t == 0 {
                    } else {
                        assert(innerls[1 + (t - 1)] == ls[i + 1 + (t - 1)]);
                    }
                }
            }
            lemma_weight_suffix_eq(innerls, 1, ls, i + 1);
            assert(lines_weight(innerls, 0) == innerls[0].len() + 1 + lines_weight(innerls, 1));
        }
        let empty_acc: Vec<MdBlock> = Vec::new();
        proof {
            assert(view_blocks(empty_acc@) =~= Seq::<MdBlockV>::empty());
        }
        let quoted = blocks_go(&inner, 0, empty_acc);
        push_block(acc, MdBlock::BlockQuote(quoted))
    } else if starts_with_at(line, "> ", 0) {
        let content = line.substring_char(2, n);
        let first = MdBlock::Paragraph(parse_inline(content));
        let run = quote_run(lines, i + 1);
        let mut quoted = run.0;
        let ghost quotedv = quoted@;
        quoted.insert(0, first);
        proof {
            assert(quoted@ =~= seq![quoted@[0]] + quotedv);
            assert(quoted@.drop_first() =~= quotedv);
            assert(view_blocks(quoted@) =~= seq![view_block(quoted@[0])] + view_blocks(quotedv));
            lemma_weight_mono(ls, i + 1, run.1 as int);
        }
        let acc2 = push_block(acc, MdBlock::BlockQuote(quoted));
        blocks_go(lines, run.1, acc2)
    } else {
        let trimmed = crate::strutil::trim_start_chars(line);
        let tn = trimmed.unicode_len();
        let is_dash = starts_with_at(trimmed, "- ", 0);
        let is_star = starts_with_at(trimmed, "* ", 0);
        if is_dash || is_star {
            proof {
                crate::strutil::lemma_first_non_ws_bounds(ls[i as int], 0);
            }
            let indent_chars = n - tn;
            let half: usize = indent_chars / 2;
            let level: u8 = if half > 255 {
                0
            } else {
                half as u8
            };
            proof {
                assert(spec_indent_len(ls[i as int]) == n - tn);
            }
            let content = trimmed.substring_char(2, tn);
            let bullet: char = if is_dash {
                '-'
            } else {
                '*'
            };
            let acc2 = push_block(
                acc,
                MdBlock::List { indent: level, content: parse_inline(content), bullet },
            );
            blocks_go(lines, i + 1, acc2)
        } else {
            let acc2 = push_block(acc, MdBlock::Paragraph(parse_inline(line)));
            blocks_go(lines, i + 1, acc2)
        }
    }
}

/// Parses a whole message into blocks.
pub fn parse_markdown(content: &str) -> (r: Vec<MdBlock>)
    ensures
        view_blocks(r@) == spec_parse_markdown(content@),
{
    let lines = split_lines(content);
    let acc: Vec<MdBlock> = Vec::new();
    proof {
        assert(view_blocks(acc@) =~= Seq::<MdBlockV>::empty());
    }
    blocks_go(&lines, 0, acc)
}

} // verus!
