//! Rendering of the markdown subset used by the study content into styled
//! lines of text.
//!
//! Handled:
//! - ATX headings (`#`, `##`, `###`): heading style, markers stripped
//! - fenced code blocks (` ``` `): code style, fence lines dropped
//! - bullet lists (`- ` and `  - `): `-` replaced with `•`
//! - inline bold (`**text**`): bold, markers stripped
//! - inline code (`` `code` ``): inline-code style, backticks stripped
//! - everything else: passed through unstyled
use vstd::prelude::*;
use vstd::string::*;
use crate::text::{
    chars_of, find_chars_from, find_from, lemma_find_from, lemma_find_from_at, lemma_find_from_none,
    lemma_find_from_none_absent, lemma_find_from_shift, lines_of, occurs_at, split_lines, starts_with,
};

verus! {

/// How a span of text is drawn.
#[derive(Debug, Clone, Copy, PartialEq, Eq, Structural)]
pub enum SpanStyle {
    /// No styling of its own.
    Plain,
    /// A line inside a fenced code block.
    CodeBlock,
    /// Text between `**` markers.
    Bold,
    /// Text between backticks.
    InlineCode,
}

/// How a whole line is drawn.
#[derive(Debug, Clone, Copy, PartialEq, Eq, Structural)]
pub enum LineStyle {
    /// No styling of its own.
    Plain,
    /// A `##` or `###` heading.
    Heading,
    /// A `#` heading: heading style, underlined.
    TopHeading,
}

/// A piece of a line with one style.
#[derive(Debug)]
pub struct Span {
    pub content: String,
    pub style: SpanStyle,
}

/// The mathematical value of a [`Span`].
pub struct SpanView {
    pub content: Seq<char>,
    pub style: SpanStyle,
}

impl View for Span {
    type V = SpanView;

    open spec fn view(&self) -> SpanView {
        SpanView { content: self.content@, style: self.style }
    }
}

/// One rendered line: its spans and the style of the line as a whole.
#[derive(Debug)]
pub struct Line {
    pub spans: Vec<Span>,
    pub style: LineStyle,
}

/// The mathematical value of a [`Line`].
pub struct LineView {
    pub spans: Seq<SpanView>,
    pub style: LineStyle,
}

impl View for Line {
    type V = LineView;

    open spec fn view(&self) -> LineView {
        LineView { spans: self.spans@.map_values(|s: Span| s@), style: self.style }
    }
}

/// A rendered document: its lines in order.
#[derive(Debug)]
pub struct Text {
    pub lines: Vec<Line>,
}

impl View for Text {
    type V = Seq<LineView>;

    open spec fn view(&self) -> Seq<LineView> {
        self.lines@.map_values(|l: Line| l@)
    }
}

// ---------------------------------------------------------------------------
// Specification
// ---------------------------------------------------------------------------

pub open spec fn span(content: Seq<char>, style: SpanStyle) -> SpanView {
    SpanView { content, style }
}

pub open spec fn bold_marker() -> Seq<char> {
    seq!['*', '*']
}

pub open spec fn code_marker() -> Seq<char> {
    seq!['`']
}

pub open spec fn fence_marker() -> Seq<char> {
    seq!['`', '`', '`']
}

pub open spec fn h1_marker() -> Seq<char> {
    seq!['#', ' ']
}

pub open spec fn h2_marker() -> Seq<char> {
    seq!['#', '#', ' ']
}

pub open spec fn h3_marker() -> Seq<char> {
    seq!['#', '#', '#', ' ']
}

pub open spec fn bullet_marker() -> Seq<char> {
    seq!['-', ' ']
}

pub open spec fn nested_bullet_marker() -> Seq<char> {
    seq![' ', ' ', '-', ' ']
}

/// What a bullet marker becomes.
pub open spec fn bullet_glyph() -> Seq<char> {
    seq!['\u{2022}', ' ']
}

/// What a nested bullet marker becomes.
pub open spec fn nested_bullet_glyph() -> Seq<char> {
    seq![' ', ' ', '\u{2022}', ' ']
}

/// The spans of the inline markup of `s` from index `k` on: text before the
/// nearer of the next `**` and the next backtick is plain; a marker with a
/// closing partner styles what lies between them, markers stripped; an
/// unclosed marker and everything after it is plain text.
pub open spec fn inline_from(s: Seq<char>, k: int) -> Seq<SpanView>
    decreases s.len() - k,
{
    if k < 0 || k >= s.len() {
        seq![]
    } else {
        let b = find_from(s, bold_marker(), k);
        let c = find_from(s, code_marker(), k);
        if b is None && c is None {
            seq![span(s.subrange(k, s.len() as int), SpanStyle::Plain)]
        } else if c is Some && (b is None || c->0 < b->0) {
            let pos = c->0;
            let before = if pos > k {
                seq![span(s.subrange(k, pos), SpanStyle::Plain)]
            } else {
                seq![]
            };
            match find_from(s, code_marker(), pos + 1) {
                Some(end) => {
                    proof {
                        lemma_find_from(s, code_marker(), k);
                        lemma_find_from(s, code_marker(), pos + 1);
                    }
                    before + seq![span(s.subrange(pos + 1, end), SpanStyle::InlineCode)]
                        + inline_from(s, end + 1)
                },
                None => before + seq![
                    span(code_marker() + s.subrange(pos + 1, s.len() as int), SpanStyle::Plain),
                ],
            }
        } else {
            let pos = b->0;
            let before = if pos > k {
                seq![span(s.subrange(k, pos), SpanStyle::Plain)]
            } else {
                seq![]
            };
            match find_from(s, bold_marker(), pos + 2) {
                Some(end) => {
                    proof {
                        lemma_find_from(s, bold_marker(), k);
                        lemma_find_from(s, bold_marker(), pos + 2);
                    }
                    before + seq![span(s.subrange(pos + 2, end), SpanStyle::Bold)] + inline_from(
                        s,
                        end + 2,
                    )
                },
                None => before + seq![
                    span(bold_marker() + s.subrange(pos + 2, s.len() as int), SpanStyle::Plain),
                ],
            }
        }
    }
}

/// The spans of the inline markup of a whole line.
pub open spec fn inline_spans(s: Seq<char>) -> Seq<SpanView> {
    inline_from(s, 0)
}

/// The spans of a heading's text: one plain span, or none for empty text.
pub open spec fn heading_spans(t: Seq<char>) -> Seq<SpanView> {
    if t.len() == 0 {
        seq![]
    } else {
        seq![span(t, SpanStyle::Plain)]
    }
}

/// A line with its bullet marker, if any, replaced by a bullet glyph.
pub open spec fn with_bullet(l: Seq<char>) -> Seq<char> {
    if nested_bullet_marker().is_prefix_of(l) {
        nested_bullet_glyph() + l.skip(4)
    } else if bullet_marker().is_prefix_of(l) {
        bullet_glyph() + l.skip(2)
    } else {
        l
    }
}

/// How one line that is not a fence line renders, inside a code block or not.
pub open spec fn render_line(l: Seq<char>, in_code: bool) -> LineView {
    if in_code {
        LineView { spans: seq![span(l, SpanStyle::CodeBlock)], style: LineStyle::Plain }
    } else if h3_marker().is_prefix_of(l) {
        LineView { spans: heading_spans(l.skip(4)), style: LineStyle::Heading }
    } else if h2_marker().is_prefix_of(l) {
        LineView { spans: heading_spans(l.skip(3)), style: LineStyle::Heading }
    } else if h1_marker().is_prefix_of(l) {
        LineView { spans: heading_spans(l.skip(2)), style: LineStyle::TopHeading }
    } else {
        LineView { spans: inline_spans(with_bullet(l)), style: LineStyle::Plain }
    }
}

/// How a sequence of lines renders, starting inside a code block or not: a
/// fence line toggles the code block and yields nothing; every other line
/// yields one rendered line.
pub open spec fn render_lines(ls: Seq<Seq<char>>, in_code: bool) -> Seq<LineView>
    decreases ls.len(),
{
    if ls.len() == 0 {
        seq![]
    } else if fence_marker().is_prefix_of(ls[0]) {
        render_lines(ls.drop_first(), !in_code)
    } else {
        seq![render_line(ls[0], in_code)] + render_lines(ls.drop_first(), in_code)
    }
}

/// How a markdown document renders.
pub open spec fn rendered(markdown: Seq<char>) -> Seq<LineView> {
    render_lines(lines_of(markdown), false)
}

// ---------------------------------------------------------------------------
// Implementation
// ---------------------------------------------------------------------------

fn plain_span(s: &str) -> (r: Span)
    ensures
        r@ == span(s@, SpanStyle::Plain),
{
    Span { content: s.to_owned(), style: SpanStyle::Plain }
}

/// `prefix` followed by `rest`, as a new string.
fn joined(prefix: &str, rest: &str) -> (r: String)
    ensures
        r@ == prefix@ + rest@,
{
    let mut r = prefix.to_owned();
    r.append(rest);
    r
}

/// Parse the inline markup (`**bold**` and `` `code` ``) of one line into a
/// plain line of styled spans.
pub fn parse_inline(text: &str) -> (line: Line)
    ensures
        line@ == (LineView { spans: inline_spans(text@), style: LineStyle::Plain }),
{
    let s = chars_of(text);
    let n = s.len();
    let bold: Vec<char> = vec!['*', '*'];
    let code: Vec<char> = vec!['`'];
    assert(bold@ =~= bold_marker());
    assert(code@ =~= code_marker());
    let mut spans: Vec<Span> = Vec::new();
    let mut k: usize = 0;
    while k < n
        invariant
            n == s.len(),
            s@ == text@,
            k <= n,
            bold@ == bold_marker(),
            code@ == code_marker(),
            spans@.map_values(|x: Span| x@) + inline_from(s@, k as int) == inline_from(s@, 0),
        decreases n - k,
    {
        let ghost done = spans@.map_values(|x: Span| x@);
        let b = find_chars_from(&s, &bold, k);
        let c = find_chars_from(&s, &code, k);
        proof {
            lemma_find_from(s@, bold@, k as int);
            lemma_find_from(s@, code@, k as int);
        }
        if b.is_none() && c.is_none() {
            let sp = plain_span(text.substring_char(k, n));
            spans.push(sp);
            proof {
                assert(spans@.map_values(|x: Span| x@) =~= done.push(sp@));
                assert(inline_from(s@, k as int) == seq![sp@]);
                assert(inline_from(s@, n as int) =~= Seq::<SpanView>::empty());
                assert(done + inline_from(s@, k as int) =~= done.push(sp@) + inline_from(
                    s@,
                    n as int,
                ));
            }
            k = n;
        } else if c.is_some() && (b.is_none() || c.unwrap() < b.unwrap()) {
            let pos = c.unwrap();
            let ghost before: Seq<SpanView> = if pos > k {
                seq![span(s@.subrange(k as int, pos as int), SpanStyle::Plain)]
            } else {
                seq![]
            };
            if pos > k {
                let sp = plain_span(text.substring_char(k, pos));
                spans.push(sp);
            }
            assert(spans@.map_values(|x: Span| x@) =~= done + before);
            let e = find_chars_from(&s, &code, pos + 1);
            proof {
                lemma_find_from(s@, code@, pos + 1);
            }
            let ghost mid = spans@.map_values(|x: Span| x@);
            match e {
                Some(end) => {
                    let sp = Span {
                        content: text.substring_char(pos + 1, end).to_owned(),
                        style: SpanStyle::InlineCode,
                    };
                    spans.push(sp);
                    proof {
                        assert(spans@.map_values(|x: Span| x@) =~= mid.push(sp@));
                        assert(inline_from(s@, k as int) == before + seq![sp@] + inline_from(
                            s@,
                            end + 1,
                        ));
                        assert(done + inline_from(s@, k as int) =~= mid.push(sp@) + inline_from(
                            s@,
                            end + 1,
                        ));
                    }
                    k = end + 1;
                },
                None => {
                    let tick = "`";
                    proof {
                        reveal_strlit("`");
                    }
                    assert(tick@ =~= code_marker());
                    let sp = Span {
                        content: joined(tick, text.substring_char(pos + 1, n)),
                        style: SpanStyle::Plain,
                    };
                    spans.push(sp);
                    proof {
                        assert(spans@.map_values(|x: Span| x@) =~= mid.push(sp@));
                        assert(inline_from(s@, k as int) == before + seq![sp@]);
                        assert(inline_from(s@, n as int) =~= Seq::<SpanView>::empty());
                        assert(done + inline_from(s@, k as int) =~= mid.push(sp@) + inline_from(
                            s@,
                            n as int,
                        ));
                    }
                    k = n;
                },
            }
        } else {
            let pos = b.unwrap();
            let ghost before: Seq<SpanView> = if pos > k {
                seq![span(s@.subrange(k as int, pos as int), SpanStyle::Plain)]
            } else {
                seq![]
            };
            if pos > k {
                let sp = plain_span(text.substring_char(k, pos));
                spans.push(sp);
            }
            assert(spans@.map_values(|x: Span| x@) =~= done + before);
            let e = find_chars_from(&s, &bold, pos + 2);
            proof {
                lemma_find_from(s@, bold@, pos + 2);
            }
            let ghost mid = spans@.map_values(|x: Span| x@);
            match e {
                Some(end) => {
                    let sp = Span {
                        content: text.substring_char(pos + 2, end).to_owned(),
                        style: SpanStyle::Bold,
                    };
                    spans.push(sp);
                    proof {
                        assert(spans@.map_values(|x: Span| x@) =~= mid.push(sp@));
                        assert(inline_from(s@, k as int) == before + seq![sp@] + inline_from(
                            s@,
                            end + 2,
                        ));
                        assert(done + inline_from(s@, k as int) =~= mid.push(sp@) + inline_from(
                            s@,
                            end + 2,
                        ));
                    }
                    k = end + 2;
                },
                None => {
                    let stars = "**";
                    proof {
                        reveal_strlit("**");
                    }
                    assert(stars@ =~= bold_marker());
                    let sp = Span {
                        content: joined(stars, text.substring_char(pos + 2, n)),
                        style: SpanStyle::Plain,
                    };
                    spans.push(sp);
                    proof {
                        assert(spans@.map_values(|x: Span| x@) =~= mid.push(sp@));
                        assert(inline_from(s@, k as int) == before + seq![sp@]);
                        assert(inline_from(s@, n as int) =~= Seq::<SpanView>::empty());
                        assert(done + inline_from(s@, k as int) =~= mid.push(sp@) + inline_from(
                            s@,
                            n as int,
                        ));
                    }
                    k = n;
                },
            }
        }
    }
    proof {
        assert(inline_from(s@, k as int) =~= Seq::<SpanView>::empty());
        assert(spans@.map_values(|x: Span| x@) + inline_from(s@, k as int) =~= spans@.map_values(
            |x: Span| x@,
        ));
    }
    Line { spans, style: LineStyle::Plain }
}

/// A heading line: its text as one plain span (none when empty), in `style`.
fn heading_line(text: &str, style: LineStyle) -> (line: Line)
    ensures
        line@ == (LineView { spans: heading_spans(text@), style }),
{
    let mut spans: Vec<Span> = Vec::new();
    if !text.is_empty() {
        spans.push(plain_span(text));
    }
    let line = Line { spans, style };
    assert(line@.spans =~= heading_spans(text@));
    line
}

/// Render one line that is not a fence line, inside a code block or not.
fn render_one(raw: &str, in_code: bool) -> (line: Line)
    ensures
        line@ == render_line(raw@, in_code),
{
    if in_code {
        let line = Line {
            spans: vec![Span { content: raw.to_owned(), style: SpanStyle::CodeBlock }],
            style: LineStyle::Plain,
        };
        assert(line@.spans =~= seq![span(raw@, SpanStyle::CodeBlock)]);
        return line;
    }
    let chars = chars_of(raw);
    let n = chars.len();
    let h3: Vec<char> = vec!['#', '#', '#', ' '];
    let h2: Vec<char> = vec!['#', '#', ' '];
    let h1: Vec<char> = vec!['#', ' '];
    let nested: Vec<char> = vec![' ', ' ', '-', ' '];
    let bullet: Vec<char> = vec!['-', ' '];
    assert(h3@ =~= h3_marker());
    assert(h2@ =~= h2_marker());
    assert(h1@ =~= h1_marker());
    assert(nested@ =~= nested_bullet_marker());
    assert(bullet@ =~= bullet_marker());
    if starts_with(&chars, &h3) {
        return heading_line(raw.substring_char(4, n), LineStyle::Heading);
    }
    if starts_with(&chars, &h2) {
        return heading_line(raw.substring_char(3, n), LineStyle::Heading);
    }
    if starts_with(&chars, &h1) {
        return heading_line(raw.substring_char(2, n), LineStyle::TopHeading);
    }
    let text: String = if starts_with(&chars, &nested) {
        let glyph = "  \u{2022} ";
        proof {
            reveal_strlit("  \u{2022} ");
        }
        assert(glyph@ =~= nested_bullet_glyph());
        joined(glyph, raw.substring_char(4, n))
    } else if starts_with(&chars, &bullet) {
        let glyph = "\u{2022} ";
        proof {
            reveal_strlit("\u{2022} ");
        }
        assert(glyph@ =~= bullet_glyph());
        joined(glyph, raw.substring_char(2, n))
    } else {
        raw.to_owned()
    };
    assert(text@ =~= with_bullet(raw@));
    parse_inline(text.as_str())
}

/// Render a markdown string into styled lines.
pub fn render(markdown: &str) -> (text: Text)
    ensures
        text@ == rendered(markdown@),
{
    let lines = split_lines(markdown);
    let ghost ls = lines_of(markdown@);
    let fence: Vec<char> = vec!['`', '`', '`'];
    assert(fence@ =~= fence_marker());
    let mut out: Vec<Line> = Vec::new();
    let mut in_code = false;
    let mut i: usize = 0;
    proof {
        assert(ls.skip(0) =~= ls);
        assert(out@.map_values(|l: Line| l@) =~= Seq::<LineView>::empty());
        assert(out@.map_values(|l: Line| l@) + render_lines(ls.skip(0), false) =~= render_lines(
            ls,
            false,
        ));
    }
    while i < lines.len()
        invariant
            lines.len() == ls.len(),
            forall|k: int| 0 <= k < lines.len() ==> (#[trigger] lines[k])@ == ls[k],
            ls == lines_of(markdown@),
            fence@ == fence_marker(),
            i <= lines.len(),
            out@.map_values(|l: Line| l@) + render_lines(ls.skip(i as int), in_code) == rendered(
                markdown@,
            ),
        decreases lines.len() - i,
    {
        let ghost done = out@.map_values(|l: Line| l@);
        let ghost old_in_code = in_code;
        let raw = lines[i];
        let chars = chars_of(raw);
        proof {
            assert(ls.skip(i as int).drop_first() =~= ls.skip(i + 1));
            assert(ls.skip(i as int)[0] == raw@);
        }
        if starts_with(&chars, &fence) {
            in_code = !in_code;
        } else {
            let line = render_one(raw, in_code);
            out.push(line);
            proof {
                assert(out@.map_values(|l: Line| l@) =~= done.push(line@));
                assert(done + render_lines(ls.skip(i as int), old_in_code) =~= done.push(line@)
                    + render_lines(ls.skip(i + 1), in_code));
            }
        }
        i = i + 1;
    }
    proof {
        assert(ls.skip(i as int) =~= Seq::<Seq<char>>::empty());
        assert(out@.map_values(|l: Line| l@) + render_lines(ls.skip(i as int), in_code)
            =~= out@.map_values(|l: Line| l@));
    }
    Text { lines: out }
}

// ---------------------------------------------------------------------------
// Laws
// ---------------------------------------------------------------------------

/// The number of lines among `ls` that are not fence lines.
pub open spec fn non_fence_count(ls: Seq<Seq<char>>) -> nat
    decreases ls.len(),
{
    if ls.len() == 0 {
        0
    } else if fence_marker().is_prefix_of(ls[0]) {
        non_fence_count(ls.drop_first())
    } else {
        1 + non_fence_count(ls.drop_first())
    }
}

/// Fence lines vanish and every other line renders as exactly one line,
/// whatever the code-block state.
pub proof fn lemma_render_lines_count(ls: Seq<Seq<char>>, in_code: bool)
    ensures
        render_lines(ls, in_code).len() == non_fence_count(ls),
    decreases ls.len(),
{
    if ls.len() > 0 {
        lemma_render_lines_count(ls.drop_first(), !in_code);
        lemma_render_lines_count(ls.drop_first(), in_code);
    }
}

/// A rendered document has one line for each line of the markdown that is
/// not a code fence.
pub proof fn lemma_rendered_line_count(markdown: Seq<char>)
    ensures
        rendered(markdown).len() == non_fence_count(lines_of(markdown)),
{
    lemma_render_lines_count(lines_of(markdown), false);
}

/// Text without `*` or backticks passes through as one plain span (none
/// when empty).
pub proof fn lemma_plain_text_passes_through(s: Seq<char>)
    requires
        forall|i: int| 0 <= i < s.len() ==> #[trigger] s[i] != '*' && s[i] != '`',
    ensures
        inline_spans(s) == (if s.len() == 0 {
            Seq::<SpanView>::empty()
        } else {
            seq![span(s, SpanStyle::Plain)]
        }),
{
    if s.len() > 0 {
        assert forall|j: int| 0 <= j implies !#[trigger] occurs_at(s, j, bold_marker()) by {
            if occurs_at(s, j, bold_marker()) {
                assert(s.subrange(j, j + 2)[0] == s[j]);
            }
        }
        assert forall|j: int| 0 <= j implies !#[trigger] occurs_at(s, j, code_marker()) by {
            if occurs_at(s, j, code_marker()) {
                assert(s.subrange(j, j + 1)[0] == s[j]);
            }
        }
        lemma_find_from_none(s, bold_marker(), 0);
        lemma_find_from_none(s, code_marker(), 0);
        assert(s.subrange(0, s.len() as int) =~= s);
    }
}

/// Parsing from inside `t`, after a prefix `q`, gives what parsing `t`
/// alone gives.
proof fn lemma_inline_from_shift(q: Seq<char>, t: Seq<char>, j: int)
    requires
        0 <= j,
    ensures
        inline_from(q + t, q.len() + j) == inline_from(t, j),
    decreases t.len() - j,
{
    let s = q + t;
    let n = q.len() as int;
    let k = n + j;
    if j < t.len() {
        lemma_find_from_shift(q, t, bold_marker(), j);
        lemma_find_from_shift(q, t, code_marker(), j);
        lemma_find_from(t, bold_marker(), j);
        lemma_find_from(t, code_marker(), j);
        let b = find_from(t, bold_marker(), j);
        let c = find_from(t, code_marker(), j);
        if b is None && c is None {
            assert(s.subrange(k, s.len() as int) =~= t.subrange(j, t.len() as int));
        } else if c is Some && (b is None || c->0 < b->0) {
            let pos = c->0;
            assert(s.subrange(k, n + pos) =~= t.subrange(j, pos));
            lemma_find_from_shift(q, t, code_marker(), pos + 1);
            lemma_find_from(t, code_marker(), pos + 1);
            match find_from(t, code_marker(), pos + 1) {
                Some(end) => {
                    assert(s.subrange(n + pos + 1, n + end) =~= t.subrange(pos + 1, end));
                    lemma_inline_from_shift(q, t, end + 1);
                },
                None => {
                    assert(s.subrange(n + pos + 1, s.len() as int) =~= t.subrange(
                        pos + 1,
                        t.len() as int,
                    ));
                },
            }
        } else {
            let pos = b->0;
            assert(s.subrange(k, n + pos) =~= t.subrange(j, pos));
            lemma_find_from_shift(q, t, bold_marker(), pos + 2);
            lemma_find_from(t, bold_marker(), pos + 2);
            match find_from(t, bold_marker(), pos + 2) {
                Some(end) => {
                    assert(s.subrange(n + pos + 2, n + end) =~= t.subrange(pos + 2, end));
                    lemma_inline_from_shift(q, t, end + 2);
                },
                None => {
                    assert(s.subrange(n + pos + 2, s.len() as int) =~= t.subrange(
                        pos + 2,
                        t.len() as int,
                    ));
                },
            }
        }
    }
}

/// A bold phrase is its own span, and the rest of the line parses as if
/// it stood alone: for `x` free of `*` and backticks, the spans of
/// `**x**t` are `x` in bold followed by the spans of `t`.
pub proof fn lemma_bold_then_rest(x: Seq<char>, t: Seq<char>)
    requires
        forall|i: int| 0 <= i < x.len() ==> #[trigger] x[i] != '*' && x[i] != '`',
    ensures
        inline_spans(seq!['*', '*'] + x + seq!['*', '*'] + t) == seq![
            SpanView { content: x, style: SpanStyle::Bold },
        ] + inline_spans(t),
{
    let q = seq!['*', '*'] + x + seq!['*', '*'];
    let s = q + t;
    assert(seq!['*', '*'] + x + seq!['*', '*'] + t =~= s);
    let e: int = 2 + x.len() as int;
    assert(s.subrange(0, 2) =~= bold_marker());
    assert(occurs_at(s, 0, bold_marker()));
    lemma_find_from_at(s, bold_marker(), 0, 0);
    lemma_find_from(s, code_marker(), 0);
    assert(s.subrange(e, e + 2) =~= bold_marker());
    assert forall|j: int| 2 <= j < e implies !#[trigger] occurs_at(s, j, bold_marker()) by {
        assert(s[j] == x[j - 2]);
        if occurs_at(s, j, bold_marker()) {
            assert(s.subrange(j, j + 2)[0] == s[j]);
        }
    }
    lemma_find_from_at(s, bold_marker(), 2, e);
    assert(s.subrange(2, e) =~= x);
    lemma_inline_from_shift(q, t, 0);
    assert(inline_from(s, 0) == seq![span(x, SpanStyle::Bold)] + inline_from(s, e + 2));
}

/// An inline-code phrase is its own span, and the rest of the line parses
/// as if it stood alone: for `x` free of backticks, the spans of `` `x`t ``
/// are `x` as inline code followed by the spans of `t`.
pub proof fn lemma_code_then_rest(x: Seq<char>, t: Seq<char>)
    requires
        forall|i: int| 0 <= i < x.len() ==> #[trigger] x[i] != '`',
    ensures
        inline_spans(seq!['`'] + x + seq!['`'] + t) == seq![
            SpanView { content: x, style: SpanStyle::InlineCode },
        ] + inline_spans(t),
{
    let q = seq!['`'] + x + seq!['`'];
    let s = q + t;
    assert(seq!['`'] + x + seq!['`'] + t =~= s);
    let e: int = 1 + x.len() as int;
    assert(s.subrange(0, 1) =~= code_marker());
    lemma_find_from_at(s, code_marker(), 0, 0);
    lemma_find_from(s, bold_marker(), 0);
    if find_from(s, bold_marker(), 0) == Some(0int) {
        assert(s.subrange(0, 2)[0] == s[0]);
    }
    assert(s.subrange(e, e + 1) =~= code_marker());
    assert forall|j: int| 1 <= j < e implies !#[trigger] occurs_at(s, j, code_marker()) by {
        assert(s[j] == x[j - 1]);
        if occurs_at(s, j, code_marker()) {
            assert(s.subrange(j, j + 1)[0] == s[j]);
        }
    }
    lemma_find_from_at(s, code_marker(), 1, e);
    assert(s.subrange(1, e) =~= x);
    lemma_inline_from_shift(q, t, 0);
    assert(inline_from(s, 0) == seq![span(x, SpanStyle::InlineCode)] + inline_from(s, e + 1));
}

/// Plain text before markup is one plain span, and the markup after it
/// parses as if it stood alone: for non-empty `x` free of `*` and
/// backticks, and `t` starting with `**` or a backtick, the spans of `xt`
/// are `x` plain followed by the spans of `t`.
pub proof fn lemma_plain_then_markup(x: Seq<char>, t: Seq<char>)
    requires
        x.len() > 0,
        forall|i: int| 0 <= i < x.len() ==> #[trigger] x[i] != '*' && x[i] != '`',
        seq!['*', '*'].is_prefix_of(t) || seq!['`'].is_prefix_of(t),
    ensures
        inline_spans(x + t) == seq![SpanView { content: x, style: SpanStyle::Plain }]
            + inline_spans(t),
{
    let s = x + t;
    let n = x.len() as int;
    assert forall|j: int| 0 <= j < n implies !#[trigger] occurs_at(s, j, bold_marker()) by {
        if occurs_at(s, j, bold_marker()) {
            assert(s.subrange(j, j + 2)[0] == s[j]);
            assert(s[j] == x[j]);
        }
    }
    assert forall|j: int| 0 <= j < n implies !#[trigger] occurs_at(s, j, code_marker()) by {
        if occurs_at(s, j, code_marker()) {
            assert(s.subrange(j, j + 1)[0] == s[j]);
            assert(s[j] == x[j]);
        }
    }
    lemma_find_from_shift(x, t, bold_marker(), 0);
    lemma_find_from_shift(x, t, code_marker(), 0);
    lemma_find_from(s, bold_marker(), 0);
    lemma_find_from(s, code_marker(), 0);
    lemma_find_from(s, bold_marker(), n);
    lemma_find_from(s, code_marker(), n);
    // The first markers at or after 0 are the first ones at or after n.
    if seq!['*', '*'].is_prefix_of(t) {
        assert(s.subrange(n, n + 2) =~= bold_marker());
        lemma_find_from_at(s, bold_marker(), 0, n);
        lemma_find_from_at(s, bold_marker(), n, n);
    } else {
        assert(s.subrange(n, n + 1) =~= code_marker());
        lemma_find_from_at(s, code_marker(), 0, n);
        lemma_find_from_at(s, code_marker(), n, n);
    }
    lemma_same_first_marker(s, bold_marker(), n);
    lemma_same_first_marker(s, code_marker(), n);
    assert(s.subrange(0, n) =~= x);
    lemma_inline_from_shift(x, t, 0);
    assert(inline_from(s, 0) == seq![span(x, SpanStyle::Plain)] + inline_from(s, n));
}

/// When `p` does not occur before `n`, searching from 0 finds what
/// searching from `n` finds.
proof fn lemma_same_first_marker(s: Seq<char>, p: Seq<char>, n: int)
    requires
        0 <= n,
        forall|j: int| 0 <= j < n ==> !#[trigger] occurs_at(s, j, p),
    ensures
        find_from(s, p, 0) == find_from(s, p, n),
{
    lemma_find_from(s, p, n);
    if let Some(k) = find_from(s, p, n) {
        lemma_find_from_at(s, p, 0, k);
    } else {
        lemma_find_from_none_absent(s, p, n);
        lemma_find_from_none(s, p, 0);
    }
}

/// Inside a fenced code block every line renders as one code-block span
/// holding the line exactly as written, and the closing fence ends the
/// block: a document whose lines are an opening fence, code lines `cs`
/// (none of them a fence), a closing fence and then `rest` renders as one
/// code line per line of `cs`, followed by what `rest` renders to.
pub proof fn lemma_code_block_verbatim(
    open: Seq<char>,
    cs: Seq<Seq<char>>,
    close: Seq<char>,
    rest: Seq<Seq<char>>,
)
    requires
        seq!['`', '`', '`'].is_prefix_of(open),
        seq!['`', '`', '`'].is_prefix_of(close),
        forall|i: int| 0 <= i < cs.len() ==> !seq!['`', '`', '`'].is_prefix_of(#[trigger] cs[i]),
    ensures
        render_lines(seq![open] + cs + seq![close] + rest, false) == cs.map_values(
            |l: Seq<char>|
                LineView {
                    spans: seq![SpanView { content: l, style: SpanStyle::CodeBlock }],
                    style: LineStyle::Plain,
                },
        ) + render_lines(rest, false),
{
    assert(seq!['`', '`', '`'] =~= fence_marker());
    let ls = seq![open] + cs + seq![close] + rest;
    assert(ls.drop_first() =~= cs + (seq![close] + rest));
    assert((seq![close] + rest).drop_first() =~= rest);
    lemma_code_lines(cs, seq![close] + rest, rest);
}

proof fn lemma_code_lines(cs: Seq<Seq<char>>, tail: Seq<Seq<char>>, rest: Seq<Seq<char>>)
    requires
        tail.len() > 0,
        fence_marker().is_prefix_of(tail[0]),
        tail.drop_first() == rest,
        forall|i: int| 0 <= i < cs.len() ==> !fence_marker().is_prefix_of(#[trigger] cs[i]),
    ensures
        render_lines(cs + tail, true) == cs.map_values(
            |l: Seq<char>|
                LineView {
                    spans: seq![SpanView { content: l, style: SpanStyle::CodeBlock }],
                    style: LineStyle::Plain,
                },
        ) + render_lines(rest, false),
    decreases cs.len(),
{
    let f = |l: Seq<char>|
        LineView {
            spans: seq![SpanView { content: l, style: SpanStyle::CodeBlock }],
            style: LineStyle::Plain,
        };
    if cs.len() == 0 {
        assert(cs + tail =~= tail);
        assert(cs.map_values(f) =~= Seq::<LineView>::empty());
    } else {
        let c2 = cs.drop_first();
        assert forall|i: int| 0 <= i < c2.len() implies !fence_marker().is_prefix_of(
            #[trigger] c2[i],
        ) by {
            assert(c2[i] == cs[i + 1]);
        }
        lemma_code_lines(c2, tail, rest);
        assert((cs + tail)[0] == cs[0]);
        assert((cs + tail).drop_first() =~= c2 + tail);
        assert(cs.map_values(f) =~= seq![f(cs[0])] + c2.map_values(f));
    }
}

} // verus!
