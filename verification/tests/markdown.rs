use swelearn::markdown::{parse_inline, render, LineStyle, SpanStyle, Text};

fn spans(text: &str) -> Vec<String> {
    render(text)
        .lines
        .iter()
        .flat_map(|l| l.spans.iter())
        .map(|s| s.content.clone())
        .collect()
}

fn contents(out: &Text, line: usize) -> Vec<&str> {
    out.lines[line].spans.iter().map(|s| s.content.as_str()).collect()
}

#[test]
fn headings_strip_markers() {
    let out = render("## Problem Statement");
    assert_eq!(out.lines[0].spans[0].content, "Problem Statement");
    assert_eq!(out.lines[0].style, LineStyle::Heading);
}

#[test]
fn code_fences_stripped() {
    let out = render("```\nlet x = 1;\n```");
    // Only the code line should appear, not the fences
    assert_eq!(out.lines.len(), 1);
    assert_eq!(out.lines[0].spans[0].content, "let x = 1;");
}

#[test]
fn bullets_replaced() {
    assert_eq!(spans("- item"), vec!["• item"]);
    assert_eq!(spans("  - nested"), vec!["  • nested"]);
}

#[test]
fn inline_bold() {
    let out = render("Use **bold** here");
    assert_eq!(contents(&out, 0), vec!["Use ", "bold", " here"]);
    assert_eq!(out.lines[0].spans[1].style, SpanStyle::Bold);
}

#[test]
fn inline_code() {
    let out = render("Use `cargo build` here");
    assert_eq!(contents(&out, 0), vec!["Use ", "cargo build", " here"]);
    assert_eq!(out.lines[0].spans[1].style, SpanStyle::InlineCode);
}

#[test]
fn heading_levels() {
    let out = render("# Top\n### Third\n#### Fourth\n#NoSpace");
    assert_eq!(out.lines.len(), 4);
    assert_eq!(out.lines[0].style, LineStyle::TopHeading);
    assert_eq!(contents(&out, 0), vec!["Top"]);
    assert_eq!(out.lines[1].style, LineStyle::Heading);
    assert_eq!(contents(&out, 1), vec!["Third"]);
    assert_eq!(out.lines[2].style, LineStyle::Plain);
    assert_eq!(contents(&out, 2), vec!["#### Fourth"]);
    assert_eq!(out.lines[3].style, LineStyle::Plain);
    assert_eq!(contents(&out, 3), vec!["#NoSpace"]);
}

#[test]
fn empty_heading_has_no_spans() {
    let out = render("## ");
    assert_eq!(out.lines.len(), 1);
    assert!(out.lines[0].spans.is_empty());
    assert_eq!(out.lines[0].style, LineStyle::Heading);
}

#[test]
fn code_block_lines_are_verbatim() {
    let out = render("before\n```rust\n# not a heading\n- **x**\n```\nafter");
    assert_eq!(out.lines.len(), 4);
    assert_eq!(contents(&out, 1), vec!["# not a heading"]);
    assert_eq!(out.lines[1].spans[0].style, SpanStyle::CodeBlock);
    assert_eq!(out.lines[1].style, LineStyle::Plain);
    assert_eq!(contents(&out, 2), vec!["- **x**"]);
    assert_eq!(contents(&out, 3), vec!["after"]);
    assert_eq!(out.lines[3].spans[0].style, SpanStyle::Plain);
}

#[test]
fn unclosed_fence_runs_to_the_end() {
    let out = render("```\n## inside");
    assert_eq!(out.lines.len(), 1);
    assert_eq!(out.lines[0].spans[0].style, SpanStyle::CodeBlock);
}

#[test]
fn unclosed_markers_stay_literal() {
    let line = parse_inline("a **b and `c");
    let got: Vec<&str> = line.spans.iter().map(|s| s.content.as_str()).collect();
    assert_eq!(got, vec!["a ", "**b and `c"]);
    assert!(line.spans.iter().all(|s| s.style == SpanStyle::Plain));
    let line = parse_inline("x `y **z");
    let got: Vec<&str> = line.spans.iter().map(|s| s.content.as_str()).collect();
    assert_eq!(got, vec!["x ", "`y **z"]);
}

#[test]
fn nearer_marker_wins() {
    let line = parse_inline("`a**b` **c`d**");
    let got: Vec<(&str, SpanStyle)> = line.spans.iter().map(|s| (s.content.as_str(), s.style)).collect();
    assert_eq!(
        got,
        vec![("a**b", SpanStyle::InlineCode), (" ", SpanStyle::Plain), ("c`d", SpanStyle::Bold)]
    );
}

#[test]
fn empty_markup_pairs() {
    let line = parse_inline("****``");
    let got: Vec<(&str, SpanStyle)> = line.spans.iter().map(|s| (s.content.as_str(), s.style)).collect();
    assert_eq!(got, vec![("", SpanStyle::Bold), ("", SpanStyle::InlineCode)]);
}

#[test]
fn empty_and_blank_lines() {
    assert!(render("").lines.is_empty());
    let out = render("a\n\nb\n");
    assert_eq!(out.lines.len(), 3);
    assert!(out.lines[1].spans.is_empty());
}

#[test]
fn crlf_line_endings() {
    let out = render("## Title\r\n- item\r\nlast\r");
    assert_eq!(contents(&out, 0), vec!["Title"]);
    assert_eq!(contents(&out, 1), vec!["• item"]);
    assert_eq!(contents(&out, 2), vec!["last\r"]);
}

#[test]
fn bullet_with_markup() {
    assert_eq!(spans("- use `x` now"), vec!["• use ", "x", " now"]);
    assert_eq!(spans("-item"), vec!["-item"]);
}

#[test]
fn one_line_per_non_fence_line() {
    let md = "# A\n```\ncode\n```\n\n- b\n```\n```\nc";
    assert_eq!(render(md).lines.len(), 5);
}

#[test]
fn plain_text_passes_through() {
    let line = parse_inline("just words, no markup");
    assert_eq!(line.spans.len(), 1);
    assert_eq!(line.spans[0].content, "just words, no markup");
    assert_eq!(line.spans[0].style, SpanStyle::Plain);
    assert!(parse_inline("").spans.is_empty());
}
