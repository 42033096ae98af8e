//! A line-oriented markdown micro-parser. Lines whose trimmed content
//! starts with a triple-backtick fence toggle code mode; inside code mode
//! lines pass through verbatim. Outside it, a line is classified by prefix
//! into heading levels 1 to 3, bullet items, best-effort numbered-list
//! lines, blank spacing, or plain paragraph text — in that priority order,
//! first match wins.

use vstd::prelude::*;
use vstd::string::StrSliceExecFns;

use crate::schema::SchemaNode;
use crate::tables::spec_title_blocks;
use crate::value::Value;
use crate::visual::{BlockV, VisualBlock};

verus! {

/// ASCII whitespace, the set this parser trims.
pub open spec fn is_space(c: char) -> bool {
    c == ' ' || c == '\t' || c == '\r' || c == '\n'
}

/// `s` with leading whitespace removed.
pub open spec fn spec_trim_start(s: Seq<char>) -> Seq<char>
    decreases s.len(),
{
    if s.len() > 0 && is_space(s[0]) {
        spec_trim_start(s.drop_first())
    } else {
        s
    }
}

/// `s` with trailing whitespace removed.
pub open spec fn spec_trim_end(s: Seq<char>) -> Seq<char>
    decreases s.len(),
{
    if s.len() > 0 && is_space(s[s.len() - 1]) {
        spec_trim_end(s.drop_last())
    } else {
        s
    }
}

/// `s` with whitespace removed at both ends.
pub open spec fn spec_trim(s: Seq<char>) -> Seq<char> {
    spec_trim_end(spec_trim_start(s))
}

/// Whether `p` is a prefix of `s`.
pub open spec fn spec_starts_with(s: Seq<char>, p: Seq<char>) -> bool {
    p.len() <= s.len() && s.subrange(0, p.len() as int) == p
}

/// `s` with every leading repetition of `p` removed.
pub open spec fn spec_trim_start_matches(s: Seq<char>, p: Seq<char>) -> Seq<char>
    decreases s.len(),
{
    if p.len() > 0 && spec_starts_with(s, p) {
        spec_trim_start_matches(s.subrange(p.len() as int, s.len() as int), p)
    } else {
        s
    }
}

/// The position of the first `. ` in `s`, if any.
pub open spec fn spec_find_dot_space(s: Seq<char>) -> Option<int>
    decreases s.len(),
{
    if s.len() < 2 {
        None
    } else if s[0] == '.' && s[1] == ' ' {
        Some(0int)
    } else {
        match spec_find_dot_space(s.drop_first()) {
            Some(k) => Some(k + 1),
            None => None,
        }
    }
}

/// Whether every character is an ASCII decimal digit.
pub open spec fn spec_all_digits(s: Seq<char>) -> bool {
    forall|i: int| 0 <= i < s.len() ==> 48 <= (#[trigger] s[i]) as u32 <= 57
}

/// The index of the first newline in `s`, or its length when none.
pub open spec fn spec_find_nl(s: Seq<char>) -> int
    decreases s.len(),
{
    if s.len() == 0 {
        0
    } else if s[0] == '\n' {
        0
    } else {
        1 + spec_find_nl(s.drop_first())
    }
}

/// The first-newline position always lies inside the sequence.
pub proof fn lemma_find_nl_bounds(s: Seq<char>)
    ensures
        0 <= spec_find_nl(s) <= s.len(),
    decreases s.len(),
{
    if s.len() > 0 && s[0] != '\n' {
        lemma_find_nl_bounds(s.drop_first());
    }
}

/// One trailing carriage return removed, as `str::lines` does.
pub open spec fn spec_strip_cr(s: Seq<char>) -> Seq<char> {
    if s.len() > 0 && s[s.len() - 1] == '\r' {
        s.drop_last()
    } else {
        s
    }
}

/// The lines of `s`: segments split on newlines, one trailing carriage
/// return stripped from each, with no final empty line after a trailing
/// newline.
pub open spec fn spec_lines(s: Seq<char>) -> Seq<Seq<char>>
    decreases s.len(),
    via spec_lines_decreases
{
    if s.len() == 0 {
        Seq::empty()
    } else {
        let k = spec_find_nl(s);
        if k == s.len() {
            seq![spec_strip_cr(s)]
        } else {
            seq![spec_strip_cr(s.subrange(0, k))] + spec_lines(
                s.subrange(k + 1, s.len() as int),
            )
        }
    }
}

#[via_fn]
proof fn spec_lines_decreases(s: Seq<char>) {
    lemma_find_nl_bounds(s);
}

/// How one line outside a code block renders, in the parser's priority
/// order: blank spacing, headings 1-3, bullets, numbered lines, paragraph.
pub open spec fn spec_line_block(line: Seq<char>) -> BlockV {
    if spec_trim(line).len() == 0 {
        BlockV::Blank
    } else if spec_starts_with(line, "# "@) {
        BlockV::Heading { level: 1, text: spec_trim_start_matches(line, "# "@) }
    } else if spec_starts_with(line, "## "@) {
        BlockV::Heading { level: 2, text: spec_trim_start_matches(line, "## "@) }
    } else if spec_starts_with(line, "### "@) {
        BlockV::Heading { level: 3, text: spec_trim_start_matches(line, "### "@) }
    } else if spec_starts_with(line, "- "@) || spec_starts_with(line, "* "@) {
        BlockV::Bullet(spec_trim(line.subrange(2, line.len() as int)))
    } else {
        match spec_find_dot_space(line) {
            Some(k) => if spec_all_digits(line.subrange(0, k)) {
                BlockV::Numbered(line)
            } else {
                BlockV::Label(line)
            },
            None => BlockV::Label(line),
        }
    }
}

/// Whether a line toggles code mode: its trimmed content starts with a
/// triple-backtick fence.
pub open spec fn is_fence(line: Seq<char>) -> bool {
    spec_starts_with(spec_trim(line), "```"@)
}

/// The blocks produced by the given lines, starting in the given code
/// mode. Fence lines produce nothing and flip the mode.
pub open spec fn spec_md(lines: Seq<Seq<char>>, in_code: bool) -> Seq<BlockV>
    decreases lines.len(),
{
    if lines.len() == 0 {
        Seq::empty()
    } else {
        let line = lines[0];
        let rest = lines.drop_first();
        if is_fence(line) {
            spec_md(rest, !in_code)
        } else if in_code {
            seq![BlockV::CodeLine(line)] + spec_md(rest, in_code)
        } else {
            seq![spec_line_block(line)] + spec_md(rest, in_code)
        }
    }
}

/// The whole markdown renderer's output: the title when present, then the
/// parsed content; a missing or non-string `content` field renders only
/// the title.
pub open spec fn spec_markdown_output(node: SchemaNode) -> Seq<BlockV> {
    spec_title_blocks(node.title) + match node.data.spec_get("content"@) {
        Some(Value::Str(c)) => spec_md(spec_lines(c@), false),
        _ => Seq::empty(),
    }
}

/// Whether `p` starts at `lo` within `s@.subrange(lo, hi)`.
fn prefix_at(s: &str, lo: usize, hi: usize, p: &str) -> (r: bool)
    requires
        lo <= hi <= s@.len(),
    ensures
        r == spec_starts_with(s@.subrange(lo as int, hi as int), p@),
{
    let plen = p.unicode_len();
    if plen > hi - lo {
        return false;
    }
    let mut j: usize = 0;
    while j < plen
        invariant
            plen == p@.len(),
            lo <= hi <= s@.len(),
            plen <= hi - lo,
            0 <= j <= plen,
            forall|k: int| 0 <= k < j ==> s@[lo + k] == p@[k],
        decreases plen - j,
    {
        if s.get_char(lo + j) != p.get_char(j) {
            proof {
                assert(s@.subrange(lo as int, hi as int).subrange(0, plen as int)[j as int]
                    != p@[j as int]);
            }
            return false;
        }
        j += 1;
    }
    proof {
        assert(s@.subrange(lo as int, hi as int).subrange(0, plen as int) =~= p@);
    }
    true
}

fn is_ws(c: char) -> (r: bool)
    ensures
        r == is_space(c),
{
    c == ' ' || c == '\t' || c == '\r' || c == '\n'
}

fn ws_at(s: &str, i: usize) -> (r: bool)
    requires
        i < s@.len(),
    ensures
        r == is_space(s@[i as int]),
{
    is_ws(s.get_char(i))
}

/// The bounds of `spec_trim(s@.subrange(from, to))` within `s`.
fn trim_range(s: &str, from: usize, to: usize) -> (r: (usize, usize))
    requires
        from <= to <= s@.len(),
    ensures
        from <= r.0 <= r.1 <= to,
        spec_trim(s@.subrange(from as int, to as int)) == s@.subrange(r.0 as int, r.1 as int),
{
    let ghost t = s@.subrange(from as int, to as int);
    let mut lo: usize = from;
    while lo < to && ws_at(s, lo)
        invariant
            from <= lo <= to <= s@.len(),
            spec_trim_start(t) == spec_trim_start(s@.subrange(lo as int, to as int)),
        decreases to - lo,
    {
        proof {
            assert(s@.subrange(lo as int, to as int).drop_first() =~= s@.subrange(
                lo + 1,
                to as int,
            ));
        }
        lo += 1;
    }
    proof {
        assert(spec_trim_start(t) =~= s@.subrange(lo as int, to as int));
    }
    let ghost u = s@.subrange(lo as int, to as int);
    let mut hi: usize = to;
    while hi > lo && ws_at(s, hi - 1)
        invariant
            from <= lo <= hi <= to <= s@.len(),
            spec_trim_start(t) == u,
            spec_trim_end(u) == spec_trim_end(s@.subrange(lo as int, hi as int)),
        decreases hi,
    {
        proof {
            assert(s@.subrange(lo as int, hi as int).drop_last() =~= s@.subrange(
                lo as int,
                hi - 1,
            ));
        }
        hi -= 1;
    }
    proof {
        assert(spec_trim_end(s@.subrange(lo as int, hi as int)) =~= s@.subrange(
            lo as int,
            hi as int,
        ));
    }
    (lo, hi)
}

/// The index in `s` where the leading repetitions of `p` within
/// `s@.subrange(lo, hi)` end.
fn strip_reps(s: &str, lo: usize, hi: usize, p: &str) -> (pos: usize)
    requires
        lo <= hi <= s@.len(),
        p@.len() > 0,
    ensures
        lo <= pos <= hi,
        spec_trim_start_matches(s@.subrange(lo as int, hi as int), p@) == s@.subrange(
            pos as int,
            hi as int,
        ),
{
    let plen = p.unicode_len();
    let mut pos: usize = lo;
    while prefix_at(s, pos, hi, p)
        invariant
            lo <= pos <= hi <= s@.len(),
            plen == p@.len(),
            plen > 0,
            spec_trim_start_matches(s@.subrange(lo as int, hi as int), p@)
                == spec_trim_start_matches(s@.subrange(pos as int, hi as int), p@),
        decreases hi - pos,
    {
        proof {
            assert(s@.subrange(pos as int, hi as int).subrange(
                p@.len() as int,
                s@.subrange(pos as int, hi as int).len() as int,
            ) =~= s@.subrange(pos + plen, hi as int));
        }
        pos += plen;
    }
    proof {
        assert(spec_trim_start_matches(s@.subrange(pos as int, hi as int), p@) == s@.subrange(
            pos as int,
            hi as int,
        ));
    }
    pos
}

/// The position of the first `. ` in `s`, scanning the whole string.
fn find_dot_space(s: &str) -> (r: Option<usize>)
    ensures
        match r {
            Some(k) => spec_find_dot_space(s@) == Some(k as int) && k + 1 < s@.len(),
            None => spec_find_dot_space(s@) is None,
        },
{
    let n = s.unicode_len();
    let mut i: usize = 0;
    proof {
        assert(s@.subrange(0, n as int) =~= s@);
    }
    while n > 0 && i < n - 1
        invariant
            n == s@.len(),
            0 <= i <= n,
            spec_find_dot_space(s@) == match spec_find_dot_space(
                s@.subrange(i as int, n as int),
            ) {
                Some(k) => Some(i + k),
                None => None::<int>,
            },
        decreases n - i,
    {
        if s.get_char(i) == '.' && s.get_char(i + 1) == ' ' {
            return Some(i);
        }
        proof {
            assert(s@.subrange(i as int, n as int).drop_first() =~= s@.subrange(
                i + 1,
                n as int,
            ));
        }
        i += 1;
    }
    proof {
        assert(s@.subrange(i as int, n as int).len() < 2);
    }
    None
}

fn all_digits_upto(s: &str, k: usize) -> (r: bool)
    requires
        k <= s@.len(),
    ensures
        r == spec_all_digits(s@.subrange(0, k as int)),
{
    let mut i: usize = 0;
    while i < k
        invariant
            0 <= i <= k <= s@.len(),
            forall|j: int| 0 <= j < i ==> 48 <= (#[trigger] s@[j]) as u32 <= 57,
        decreases k - i,
    {
        let c = s.get_char(i) as u32;
        if !(48 <= c && c <= 57) {
            proof {
                assert(s@.subrange(0, k as int)[i as int] == s@[i as int]);
            }
            return false;
        }
        i += 1;
    }
    proof {
        assert forall|j: int| 0 <= j < k implies 48 <= (#[trigger] s@.subrange(0, k as int)[j])
            as u32 <= 57 by {
            assert(s@.subrange(0, k as int)[j] == s@[j]);
        }
    }
    true
}

/// Classifies one line outside a code block.
fn line_block(line: &str) -> (b: VisualBlock)
    ensures
        b@ == spec_line_block(line@),
{
    let n = line.unicode_len();
    proof {
        assert(line@.subrange(0, n as int) =~= line@);
    }
    let (tlo, thi) = trim_range(line, 0, n);
    if tlo == thi {
        return VisualBlock::Blank;
    }
    proof {
        reveal_strlit("# ");
        reveal_strlit("## ");
        reveal_strlit("### ");
    }
    if prefix_at(line, 0, n, "# ") {
        let pos = strip_reps(line, 0, n, "# ");
        return VisualBlock::Heading { level: 1, text: line.substring_char(pos, n).to_owned() };
    }
    if prefix_at(line, 0, n, "## ") {
        let pos = strip_reps(line, 0, n, "## ");
        return VisualBlock::Heading { level: 2, text: line.substring_char(pos, n).to_owned() };
    }
    if prefix_at(line, 0, n, "### ") {
        let pos = strip_reps(line, 0, n, "### ");
        return VisualBlock::Heading { level: 3, text: line.substring_char(pos, n).to_owned() };
    }
    if prefix_at(line, 0, n, "- ") || prefix_at(line, 0, n, "* ") {
        proof {
            reveal_strlit("- ");
            reveal_strlit("* ");
        }
        let (blo, bhi) = trim_range(line, 2, n);
        return VisualBlock::Bullet(line.substring_char(blo, bhi).to_owned());
    }
    match find_dot_space(line) {
        Some(k) => {
            if all_digits_upto(line, k) {
                VisualBlock::Numbered(line.to_owned())
            } else {
                VisualBlock::Label(line.to_owned())
            }
        },
        None => VisualBlock::Label(line.to_owned()),
    }
}

/// Splits `s` into its lines, as [`spec_lines`] describes.
fn split_lines(s: &str) -> (lines: Vec<String>)
    ensures
        lines.deep_view() == spec_lines(s@),
{
    let n = s.unicode_len();
    let mut lines: Vec<String> = Vec::new();
    let mut start: usize = 0;
    proof {
        assert(s@.subrange(0, n as int) =~= s@);
    }
    while start < n
        invariant
            n == s@.len(),
            0 <= start <= n,
            lines.deep_view() + spec_lines(s@.subrange(start as int, n as int)) == spec_lines(
                s@,
            ),
        decreases n - start,
    {
        let ghost rest = s@.subrange(start as int, n as int);
        // scan for the next newline
        let mut k: usize = start;
        while k < n && s.get_char(k) != '\n'
            invariant
                n == s@.len(),
                start <= k <= n,
                spec_find_nl(rest) == k - start + spec_find_nl(s@.subrange(k as int, n as int)),
            decreases n - k,
        {
            proof {
                assert(s@.subrange(k as int, n as int).drop_first() =~= s@.subrange(
                    k + 1,
                    n as int,
                ));
            }
            k += 1;
        }
        proof {
            if k < n {
                assert(spec_find_nl(s@.subrange(k as int, n as int)) == 0);
            }
            assert(spec_find_nl(rest) == k - start);
        }
        // strip one trailing carriage return
        let line_end: usize = if k > start && s.get_char(k - 1) == '\r' {
            k - 1
        } else {
            k
        };
        let line = s.substring_char(start, line_end).to_owned();
        let ghost before = lines.deep_view();
        let ghost line_chars = line@;
        lines.push(line);
        proof {
            assert(lines.deep_view() =~~= before.push(line_chars));
            let seg = rest.subrange(0, (k - start) as int);
            assert(seg =~= s@.subrange(start as int, k as int));
            assert(spec_strip_cr(seg) =~= s@.subrange(start as int, line_end as int));
            if k < n {
                assert(rest.subrange(k - start + 1, rest.len() as int) =~= s@.subrange(
                    k + 1,
                    n as int,
                ));
                assert(spec_lines(rest) == seq![spec_strip_cr(seg)] + spec_lines(
                    s@.subrange(k + 1, n as int),
                ));
            } else {
                assert(seg =~= rest);
                assert(spec_lines(rest) == seq![spec_strip_cr(rest)]);
                assert(spec_lines(s@.subrange(n as int, n as int)) =~~= Seq::<Seq<char>>::empty());
            }
            assert(lines.deep_view() + spec_lines(
                s@.subrange(if k < n { k + 1 } else { n as int } as int, n as int),
            ) =~~= spec_lines(s@));
        }
        start = if k < n {
            k + 1
        } else {
            n
        };
    }
    proof {
        assert(spec_lines(s@.subrange(start as int, n as int)) =~~= Seq::<Seq<char>>::empty());
        assert(lines.deep_view() =~~= spec_lines(s@));
    }
    lines
}

/// Parses markdown content into blocks, starting outside code mode.
pub fn render_markdown(content: &str) -> (out: Vec<VisualBlock>)
    ensures
        out.deep_view() == spec_md(spec_lines(content@), false),
{
    let lines = split_lines(content);
    let mut out: Vec<VisualBlock> = Vec::new();
    let mut in_code = false;
    let n = lines.len();
    let mut i: usize = 0;
    proof {
        assert(lines.deep_view().subrange(0, n as int) =~= lines.deep_view());
    }
    while i < n
        invariant
            n == lines@.len(),
            0 <= i <= n,
            out.deep_view() + spec_md(
                lines.deep_view().subrange(i as int, n as int),
                in_code,
            ) == spec_md(lines.deep_view(), false),
        decreases n - i,
    {
        let ghost rest = lines.deep_view().subrange(i as int, n as int);
        proof {
            assert(rest.drop_first() =~= lines.deep_view().subrange(i + 1, n as int));
            assert(rest[0] == lines.deep_view()[i as int]);
        }
        let line: &String = &lines[i];
        let ln = line.as_str().unicode_len();
        let (tlo, thi) = trim_range(line.as_str(), 0, ln);
        proof {
            assert(line@.subrange(0, ln as int) =~= line@);
        }
        if prefix_at(line.as_str(), tlo, thi, "```") {
            in_code = !in_code;
        } else if in_code {
            let ghost before = out.deep_view();
            out.push(VisualBlock::CodeLine(line.clone()));
            proof {
                assert(out.deep_view() =~~= before.push(BlockV::CodeLine(line@)));
            }
        } else {
            let b = line_block(line.as_str());
            let ghost before = out.deep_view();
            let ghost bv = b@;
            out.push(b);
            proof {
                assert(out.deep_view() =~~= before.push(bv));
            }
        }
        i += 1;
    }
    proof {
        assert(spec_md(lines.deep_view().subrange(n as int, n as int), in_code)
            =~~= Seq::<BlockV>::empty());
        assert(out.deep_view() =~~= spec_md(lines.deep_view(), false));
    }
    out
}

/// Renders a markdown node: its title, then its parsed `content` field;
/// with no usable content only the title appears. Never panics.
pub fn render(node: &SchemaNode) -> (out: Vec<VisualBlock>)
    ensures
        out.deep_view() == spec_markdown_output(*node),
{
    let mut out: Vec<VisualBlock> = Vec::new();
    match &node.title {
        Some(t) => {
            out.push(VisualBlock::Title(t.clone()));
        },
        None => {},
    }
    let ghost with_title = out.deep_view();
    proof {
        assert(with_title =~~= spec_title_blocks(node.title));
    }
    match node.data.get("content") {
        Some(v) => match v.as_str() {
            Some(c) => {
                let mut body = render_markdown(c.as_str());
                let ghost body_v = body.deep_view();
                out.append(&mut body);
                proof {
                    assert(out.deep_view() =~~= with_title + body_v);
                    assert(out.deep_view() =~~= spec_markdown_output(*node));
                }
            },
            None => {
                proof {
                    assert(out.deep_view() =~~= spec_markdown_output(*node));
                }
            },
        },
        None => {
            proof {
                assert(out.deep_view() =~~= spec_markdown_output(*node));
            }
        },
    }
    out
}

} // verus!
