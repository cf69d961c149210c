//! The wrap engine over the permanent text: how a line index grows as each
//! character is appended, for the two wrap policies.
use vstd::prelude::*;

verus! {

#[derive(Debug, PartialEq, Eq, Clone, Copy, Structural)]
pub enum WrapStyle {
    Wrap,
    WrapOnPunctuation,
}

/// One rendered line: an offset into the scroll buffer and a count of
/// characters.
#[derive(Debug, PartialEq, Eq, Clone, Copy, Structural)]
pub struct LineIndex {
    pub start: usize,
    pub length: usize,
}

/// The characters after which a line may be broken.
pub open spec fn wrap_char(c: char) -> bool {
    c == ' ' || c == ',' || c == '!' || c == ':' || c == ';' || c == '?' || c == '.' || c == '-'
}

/// Return true if the char should be wrapped after.
pub fn is_wrap_char(c: char) -> (r: bool)
    ensures
        r == wrap_char(c),
{
    match c {
        ' ' | ',' | '!' | ':' | ';' | '?' | '.' | '-' => true,
        _ => false,
    }
}

/// The position of the last break character of `s`, or -1 when it has none.
pub open spec fn last_break(s: Seq<char>) -> int
    decreases s.len(),
{
    if s.len() == 0 {
        -1
    } else if wrap_char(s.last()) {
        s.len() - 1
    } else {
        last_break(s.drop_last())
    }
}

/// How many trailing characters of a full line move to the next line: those
/// after its last break character, or none when it has no break character.
pub open spec fn carried(s: Seq<char>) -> nat {
    if last_break(s) >= 0 {
        (s.len() - last_break(s) - 1) as nat
    } else {
        0
    }
}

pub open spec fn line_text(buf: Seq<char>, l: LineIndex) -> Seq<char> {
    buf.subrange(l.start as int, l.start + l.length)
}

pub open spec fn line_end(l: LineIndex) -> int {
    l.start + l.length
}

/// The line index after `c` is appended to the text `buf`.
pub open spec fn wrap_step(
    lines: Seq<LineIndex>,
    buf: Seq<char>,
    c: char,
    width: nat,
    style: WrapStyle,
) -> Seq<LineIndex> {
    let k = lines.len() - 1;
    let last = lines.last();
    if c == '\n' {
        lines.push(LineIndex { start: (line_end(last) + 1) as usize, length: 0 })
    } else if last.length >= width {
        let off = if style == WrapStyle::WrapOnPunctuation && c != ' ' {
            carried(line_text(buf, last))
        } else {
            0
        };
        let kept = (last.length - off) as usize;
        lines.update(k, LineIndex { start: last.start, length: kept }).push(
            LineIndex { start: (last.start + kept) as usize, length: (off + 1) as usize },
        )
    } else {
        lines.update(k, LineIndex { start: last.start, length: (last.length + 1) as usize })
    }
}

/// The line index after the characters of `s` are appended, in order, to
/// the text `buf`.
pub open spec fn wrap_chars(
    lines: Seq<LineIndex>,
    buf: Seq<char>,
    s: Seq<char>,
    width: nat,
    style: WrapStyle,
) -> Seq<LineIndex>
    decreases s.len(),
{
    if s.len() == 0 {
        lines
    } else {
        wrap_step(
            wrap_chars(lines, buf, s.drop_last(), width, style),
            buf + s.drop_last(),
            s.last(),
            width,
            style,
        )
    }
}

pub open spec fn first_line() -> Seq<LineIndex> {
    seq![LineIndex { start: 0, length: 0 }]
}

/// The line index of the text `buf` wrapped from scratch.
pub open spec fn wrap_all(buf: Seq<char>, width: nat, style: WrapStyle) -> Seq<LineIndex> {
    wrap_chars(first_line(), seq![], buf, width, style)
}

/// A line index that describes the text `buf` at `width`: at least one
/// line, the first at 0, each at most `width` long, each next line starting
/// where the one before ends (after a wrap, which leaves the line before
/// non-empty) or one past it (after a newline), the last ending with the
/// text.
#[verifier::opaque]
pub open spec fn lines_wf(lines: Seq<LineIndex>, buf: Seq<char>, width: nat) -> bool {
    &&& lines.len() >= 1
    &&& lines[0].start == 0
    &&& forall|k: int| 0 <= k < lines.len() ==> #[trigger] lines[k].length <= width
    &&& forall|k: int| 0 <= k < lines.len() ==> #[trigger] lines[k].start >= k
    &&& forall|k: int|
        0 <= k < lines.len() - 1 ==> {
            ||| (lines[k + 1].start == line_end(#[trigger] lines[k]) && lines[k].length >= 1)
            ||| (lines[k + 1].start == line_end(lines[k]) + 1 && buf[line_end(lines[k])] == '\n')
        }
    &&& line_end(lines.last()) == buf.len()
}

/// The facts about the last line that appending needs.
pub proof fn lemma_lines_wf_last(lines: Seq<LineIndex>, buf: Seq<char>, width: nat)
    requires
        lines_wf(lines, buf, width),
    ensures
        lines.len() >= 1,
        line_end(lines.last()) == buf.len(),
        lines.last().length <= width,
        lines.len() + lines.last().length <= buf.len() + 1,
{
    reveal(lines_wf);
    assert(lines.last().start >= lines.len() - 1);
}

/// The index after the last character is taken back: the last line loses
/// it, or, when empty, goes, with the newline before it or with the last
/// character of the line before.
pub open spec fn unwrap_last(lines: Seq<LineIndex>) -> Seq<LineIndex> {
    let n = lines.len();
    let last = lines.last();
    if last.length > 0 {
        lines.update(n - 1, LineIndex { start: last.start, length: (last.length - 1) as usize })
    } else if last.start == line_end(lines[n - 2]) + 1 {
        lines.drop_last()
    } else {
        let prev = lines[n - 2];
        lines.drop_last().update(
            n - 2,
            LineIndex { start: prev.start, length: (prev.length - 1) as usize },
        )
    }
}

/// Taking back the last character keeps the index well formed.
pub proof fn lemma_unwrap_last_wf(lines: Seq<LineIndex>, buf: Seq<char>, width: nat)
    requires
        lines_wf(lines, buf, width),
        lines.last().length > 0 || lines.len() > 1,
    ensures
        buf.len() > 0,
        lines_wf(unwrap_last(lines), buf.drop_last(), width),
        unwrap_last(lines).len() == if lines.last().length > 0 {
            lines.len() as int
        } else {
            lines.len() - 1
        },
        lines.last().length == 0 && lines.last().start != line_end(lines[lines.len() - 2]) + 1
            ==> lines[lines.len() - 2].length >= 1,
{
    reveal(lines_wf);
    let n = lines.len();
    let last = lines.last();
    let b2 = buf.drop_last();
    let r = unwrap_last(lines);
    if last.length == 0 {
        lemma_line_bounds(lines, buf, width, n - 2);
    }
    assert forall|j: int|
        0 <= j < r.len() - 1 && r[j + 1].start == line_end(r[j]) + 1 implies #[trigger] b2[line_end(r[j])]
        == buf[line_end(r[j])] by {
        lemma_line_bounds(lines, buf, width, j + 1);
        if j + 2 < n {
            lemma_line_bounds(lines, buf, width, j + 2);
        }
    }
    assert(lines_wf(r, b2, width));
}


pub proof fn lemma_line_bounds(lines: Seq<LineIndex>, buf: Seq<char>, width: nat, k: int)
    requires
        lines_wf(lines, buf, width),
        0 <= k < lines.len(),
    ensures
        line_end(lines[k]) <= buf.len(),
    decreases lines.len() - k,
{
    reveal(lines_wf);
    if k < lines.len() - 1 {
        assert(line_end(lines[k]) <= lines[k + 1].start);
        lemma_line_bounds(lines, buf, width, k + 1);
    }
}

/// Appending one character keeps the index well formed.
pub proof fn lemma_wrap_step_wf(
    lines: Seq<LineIndex>,
    buf: Seq<char>,
    c: char,
    width: nat,
    style: WrapStyle,
)
    requires
        lines_wf(lines, buf, width),
        width >= 1,
        buf.len() + 1 <= usize::MAX,
    ensures
        lines_wf(wrap_step(lines, buf, c, width, style), buf.push(c), width),
        wrap_step(lines, buf, c, width, style).len() == lines.len() + if c == '\n'
            || lines.last().length >= width {
            1int
        } else {
            0int
        },
{
    reveal(lines_wf);
    let r = wrap_step(lines, buf, c, width, style);
    let b2 = buf.push(c);
    let k = lines.len() - 1;
    let last = lines.last();
    assert forall|j: int|
        0 <= j < lines.len() - 1 && lines[j + 1].start == line_end(lines[j]) + 1 implies #[trigger] b2[line_end(lines[j])]
        == buf[line_end(lines[j])] by {
        lemma_line_bounds(lines, buf, width, j + 1);
    }
    if c == '\n' {
        assert(b2[line_end(last)] == '\n');
    } else if last.length >= width {
        let t = line_text(buf, last);
        let off = if style == WrapStyle::WrapOnPunctuation && c != ' ' {
            carried(t)
        } else {
            0
        };
        lemma_last_break_range(t);
        assert(off < last.length);
    }
    assert(lines_wf(r, b2, width));
}

pub proof fn lemma_last_break_range(s: Seq<char>)
    ensures
        -1 <= last_break(s) < s.len(),
        last_break(s) >= 0 ==> wrap_char(s[last_break(s)]),
        forall|i: int| last_break(s) < i < s.len() ==> !wrap_char(#[trigger] s[i]),
    decreases s.len(),
{
    if s.len() > 0 && !wrap_char(s.last()) {
        lemma_last_break_range(s.drop_last());
        assert forall|i: int| last_break(s) < i < s.len() implies !wrap_char(#[trigger] s[i]) by {
            if i < s.len() - 1 {
                assert(s[i] == s.drop_last()[i]);
            }
        }
    }
}

/// Appending two texts one after the other wraps as appending them at once.
pub proof fn lemma_wrap_chars_append(
    lines: Seq<LineIndex>,
    buf: Seq<char>,
    s1: Seq<char>,
    s2: Seq<char>,
    width: nat,
    style: WrapStyle,
)
    ensures
        wrap_chars(wrap_chars(lines, buf, s1, width, style), buf + s1, s2, width, style)
            == wrap_chars(lines, buf, s1 + s2, width, style),
    decreases s2.len(),
{
    if s2.len() == 0 {
        assert(s1 + s2 == s1);
    } else {
        lemma_wrap_chars_append(lines, buf, s1, s2.drop_last(), width, style);
        assert((s1 + s2).drop_last() == s1 + s2.drop_last());
        assert((s1 + s2).last() == s2.last());
        assert(buf + s1 + s2.drop_last() == buf + (s1 + s2.drop_last()));
    }
}

/// Wrapping is a function of the text alone: text appended to the index of
/// a freshly wrapped text is wrapped as the whole text is wrapped from
/// scratch.
pub proof fn lemma_wrap_all_append(buf: Seq<char>, s: Seq<char>, width: nat, style: WrapStyle)
    ensures
        wrap_chars(wrap_all(buf, width, style), buf, s, width, style) == wrap_all(
            buf + s,
            width,
            style,
        ),
{
    lemma_wrap_chars_append(first_line(), seq![], buf, s, width, style);
    assert(seq![] + buf == buf);
}

/// Under hard wrap, a text of no newlines up to `width` long is one line.
proof fn lemma_hard_wrap_prefix(s: Seq<char>, width: nat, j: nat)
    requires
        width >= 1,
        j <= s.len(),
        s.len() <= usize::MAX,
        forall|i: int| 0 <= i < s.len() ==> s[i] != '\n',
    ensures
        j <= width ==> wrap_all(s.take(j as int), width, WrapStyle::Wrap) == seq![
            LineIndex { start: 0, length: j as usize },
        ],
        width < j <= 2 * width ==> wrap_all(s.take(j as int), width, WrapStyle::Wrap) == seq![
            LineIndex { start: 0, length: width as usize },
            LineIndex { start: width as usize, length: (j - width) as usize },
        ],
    decreases j,
{
    if j > 0 {
        lemma_hard_wrap_prefix(s, width, (j - 1) as nat);
        let p = s.take(j - 1);
        assert(s.take(j as int).drop_last() == p);
        assert(Seq::<char>::empty() + p == p);
        let l = wrap_all(p, width, WrapStyle::Wrap);
        assert(wrap_all(s.take(j as int), width, WrapStyle::Wrap) == wrap_step(
            l,
            p,
            s[j - 1],
            width,
            WrapStyle::Wrap,
        ));
        if j <= width {
            assert(wrap_step(l, p, s[j - 1], width, WrapStyle::Wrap) =~= seq![
                LineIndex { start: 0, length: j as usize },
            ]);
        } else if j == width + 1 {
            assert(wrap_step(l, p, s[j - 1], width, WrapStyle::Wrap) =~= seq![
                LineIndex { start: 0, length: width as usize },
                LineIndex { start: width as usize, length: 1 },
            ]);
        } else if j <= 2 * width {
            assert(wrap_step(l, p, s[j - 1], width, WrapStyle::Wrap) =~= seq![
                LineIndex { start: 0, length: width as usize },
                LineIndex { start: width as usize, length: (j - width) as usize },
            ]);
        }
    } else {
        assert(s.take(0) =~= Seq::<char>::empty());
    }
}

/// Hard wrap breaks exactly at the width: `width + k` characters with no
/// newline (`k` from 1 to `width`) make a first line of exactly `width`
/// characters and a second of exactly `k`.
pub proof fn lemma_hard_wrap_boundary(s: Seq<char>, width: nat, k: nat)
    requires
        width >= 1,
        1 <= k <= width,
        s.len() == width + k,
        s.len() <= usize::MAX,
        forall|i: int| 0 <= i < s.len() ==> s[i] != '\n',
    ensures
        wrap_all(s, width, WrapStyle::Wrap) == seq![
            LineIndex { start: 0, length: width as usize },
            LineIndex { start: width as usize, length: k as usize },
        ],
{
    lemma_hard_wrap_prefix(s, width, s.len());
    assert(s.take(s.len() as int) == s);
}

/// Wrapping on break characters does not split a word where the line has a
/// break character: when a character other than a space or a newline
/// overflows a full line, the line keeps everything up to and including its
/// last break character, and the characters after it, which hold no break
/// character, start the next line with the new one.
pub proof fn lemma_word_wrap_keeps_words(
    lines: Seq<LineIndex>,
    buf: Seq<char>,
    c: char,
    width: nat,
)
    requires
        lines_wf(lines, buf, width),
        width >= 1,
        c != '\n',
        c != ' ',
        lines.last().length >= width,
        last_break(line_text(buf, lines.last())) >= 0,
        buf.len() <= usize::MAX,
    ensures
        ({
            let r = wrap_step(lines, buf, c, width, WrapStyle::WrapOnPunctuation);
            let k = lines.len() - 1;
            &&& r.len() == lines.len() + 1
            &&& r[k].start == lines[k].start
            &&& r[k].length >= 1
            &&& wrap_char(buf[line_end(r[k]) - 1])
            &&& r[k + 1].start == line_end(r[k])
            &&& r[k + 1].length == buf.len() - line_end(r[k]) + 1
            &&& forall|i: int| line_end(r[k]) <= i < buf.len() ==> !wrap_char(#[trigger] buf[i])
        }),
{
    lemma_lines_wf_last(lines, buf, width);
    let last = lines.last();
    let t = line_text(buf, last);
    lemma_last_break_range(t);
    assert forall|i: int| last.start + last_break(t) + 1 <= i < buf.len() implies !wrap_char(
        #[trigger] buf[i],
    ) by {
        assert(buf[i] == t[i - last.start]);
    }
    assert(t[last_break(t)] == buf[last.start + last_break(t)]);
    let r = wrap_step(lines, buf, c, width, WrapStyle::WrapOnPunctuation);
    let k = lines.len() - 1;
    let kept = (last_break(t) + 1) as usize;
    assert(carried(t) == last.length - last_break(t) - 1);
    assert(r[k] == LineIndex { start: last.start, length: kept });
    assert(line_end(r[k]) == last.start + last_break(t) + 1);
    assert(r.len() == lines.len() + 1);
    assert(r[k].length >= 1);
    assert(wrap_char(buf[line_end(r[k]) - 1]));
    assert(r[k + 1].start == line_end(r[k]));
    assert(r[k + 1].length == buf.len() - line_end(r[k]) + 1);
}
} // verus!
