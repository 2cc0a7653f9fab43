use swelearn::bundled::system_design;
use swelearn::content::{build_topics, parse_title, sorted_markdown_files, topics_for_module, ContentFile, Topic};

#[test]
fn body_strips_frontmatter() {
    let topic = Topic {
        title: "test",
        content: "---\ntitle: \"Test\"\n---\n## Hello\nworld",
    };
    assert_eq!(topic.body(), "## Hello\nworld");
}

#[test]
fn system_design_topics_loaded() {
    let topics = topics_for_module(1);
    assert_eq!(topics.len(), 10);
}

#[test]
fn all_system_design_titles_non_empty() {
    for topic in topics_for_module(1) {
        assert!(!topic.title.is_empty(), "topic has empty title");
    }
}

#[test]
fn body_without_frontmatter_is_whole_content() {
    let topic = Topic { title: "t", content: "## Hello\nworld" };
    assert_eq!(topic.body(), "## Hello\nworld");
}

#[test]
fn body_with_unclosed_frontmatter_is_whole_content() {
    let topic = Topic { title: "t", content: "---\ntitle: x\n## Hello" };
    assert_eq!(topic.body(), "---\ntitle: x\n## Hello");
}

#[test]
fn body_after_close_at_end_is_empty() {
    let topic = Topic { title: "t", content: "---\ntitle: x\n---\n" };
    assert_eq!(topic.body(), "");
}

#[test]
fn body_keeps_later_rules() {
    let topic = Topic { title: "t", content: "---\na: b\n---\none\n---\ntwo" };
    assert_eq!(topic.body(), "one\n---\ntwo");
}

#[test]
fn body_with_non_ascii_text() {
    let topic = Topic { title: "t", content: "---\ntitle: \"Café\"\n---\n• naïve → ok" };
    assert_eq!(topic.body(), "• naïve → ok");
}

#[test]
fn parse_title_quoted() {
    assert_eq!(
        parse_title("d/rate-limiter.md", "---\ntitle: \"Design a Rate Limiter\"\ntags: []\n---\n"),
        "Design a Rate Limiter"
    );
}

#[test]
fn parse_title_unquoted_and_padded() {
    assert_eq!(parse_title("d/caching.md", "---\ntitle:   Caching  \n---\n"), "Caching");
}

#[test]
fn parse_title_crlf_lines() {
    assert_eq!(parse_title("d/cap.md", "---\r\ntitle: \"CAP\"\r\n---\nbody"), "CAP");
    assert_eq!(parse_title("d/cap-theorem.md", "---\r\ntitle: \"CAP\"\r\n---\r\n"), "CAP");
}

#[test]
fn parse_title_first_title_line_wins() {
    assert_eq!(parse_title("d/x.md", "---\na\ntitle: one\ntitle: two\n---\n"), "one");
}

#[test]
fn parse_title_must_start_the_line() {
    assert_eq!(parse_title("d/notes.md", "---\n title: indented\n---\n"), "notes");
}

#[test]
fn parse_title_missing_falls_back_to_file_name() {
    assert_eq!(parse_title("d/alpha.md", "---\ntags: [a]\n---\nbody"), "alpha");
    assert_eq!(parse_title("x/y/z.md", ""), "z");
    assert_eq!(parse_title("plain", "no frontmatter"), "plain");
    assert_eq!(parse_title("a/.md", ""), ".md");
    assert_eq!(parse_title("a/b.txt", ""), "b.txt");
    assert_eq!(parse_title("a/b.md.md", ""), "b.md");
}

#[test]
fn parse_title_block_is_made_of_lines() {
    assert_eq!(parse_title("d/page.md", "---title:\n---\n"), "page");
    assert_eq!(parse_title("d/page.md", "---title: a\ntitle: b\n---\n"), "page");
    assert_eq!(parse_title("d/page.md", "---\ntitle: a\n---title: b\n"), "a");
    assert_eq!(parse_title("d/page.md", "---\ntitle: x\n---"), "x");
    assert_eq!(parse_title("d/page.md", "---\ntitle: x"), "x");
    assert_eq!(parse_title("d/page.md", "---\n---\ntitle: x\n"), "page");
    assert_eq!(parse_title("d/page.md", "---"), "page");
}

#[test]
fn parse_title_only_reads_the_frontmatter_block() {
    assert_eq!(parse_title("d/page.md", "---\ntags: [x]\n---\ntitle: in body"), "page");
    assert_eq!(parse_title("d/page.md", "title: no block\n"), "page");
}

#[test]
fn parse_title_strips_all_quotes_and_unicode_space() {
    assert_eq!(parse_title("d/q.md", "---\ntitle:\u{3000}\"\"Q\"\"\u{a0}\n---\n"), "Q");
    assert_eq!(parse_title("d/q.md", "---\ntitle: \" \"\n---\n"), " ");
    assert_eq!(parse_title("d/q.md", "---\ntitle:\n---\n"), "");
}

#[test]
fn build_topics_sorts_and_keeps_only_markdown() {
    let files = vec![
        ContentFile { path: "d/zeta.md", contents: "---\ntitle: Zeta\n---\n" },
        ContentFile { path: "d/notes.txt", contents: "title: Text" },
        ContentFile { path: "d/alpha.md", contents: "---\ntitle: \"Alpha\"\n---\nbody" },
        ContentFile { path: "d/.md", contents: "title: Hidden" },
        ContentFile { path: "d/beta.mdx", contents: "title: Beta" },
        ContentFile { path: "d/a-b.md", contents: "no title" },
    ];
    let topics = build_topics(files);
    let titles: Vec<&str> = topics.iter().map(|t| t.title).collect();
    assert_eq!(titles, vec!["a-b", "Alpha", "Zeta"]);
    assert_eq!(topics[1].body(), "body");
}

#[test]
fn paths_sort_component_by_component() {
    let files = vec![
        ContentFile { path: "a-c.md", contents: "" },
        ContentFile { path: "a/b.md", contents: "" },
        ContentFile { path: "a.md", contents: "" },
    ];
    let sorted = sorted_markdown_files(files);
    let paths: Vec<&str> = sorted.iter().map(|f| f.path).collect();
    assert_eq!(paths, vec!["a/b.md", "a-c.md", "a.md"]);
}

#[test]
fn path_order_matches_std_path_order() {
    let paths = vec![
        "a-c.md", "a/b.md", "a.md", "a/b/c.md", "a/b-c.md", "ab.md", "a/a.md", "b.md", "A.md",
        "a/é.md", "a/z.md", "a b.md", "a/b.md.md",
    ];
    let files: Vec<ContentFile> = paths.iter().map(|p| ContentFile { path: p, contents: "" }).collect();
    let sorted = sorted_markdown_files(files);
    let got: Vec<&str> = sorted.iter().map(|f| f.path).collect();
    let mut expected = paths.clone();
    expected.sort_by_key(|p| std::path::Path::new(*p));
    assert_eq!(got, expected);
}

#[test]
fn two_calls_agree() {
    let a = topics_for_module(2);
    let b = topics_for_module(2);
    assert_eq!(a.len(), b.len());
    for (x, y) in a.iter().zip(b.iter()) {
        assert_eq!(x.title, y.title);
        assert_eq!(x.content, y.content);
    }
}

#[test]
fn sorted_markdown_files_is_stable() {
    let files = vec![
        ContentFile { path: "d/b.md", contents: "first b" },
        ContentFile { path: "d/a.md", contents: "a" },
        ContentFile { path: "d/b.md", contents: "second b" },
    ];
    let sorted = sorted_markdown_files(files);
    let contents: Vec<&str> = sorted.iter().map(|f| f.contents).collect();
    assert_eq!(contents, vec!["a", "first b", "second b"]);
}

#[test]
fn build_topics_of_nothing() {
    assert!(build_topics(Vec::new()).is_empty());
}

#[test]
fn system_design_topics_in_path_order() {
    let topics = topics_for_module(1);
    assert_eq!(topics[0].title, "Design a Distributed Cache (e.g., Redis)");
    assert_eq!(topics[9].title, "Design YouTube / Video Streaming");
    assert_eq!(topics[6].title, "Design a URL Shortener");
    assert!(topics[3].body().starts_with("\n## Problem Statement"));
    assert_eq!(topics[3].content, system_design::RATE_LIMITER);
}

#[test]
fn module_topic_counts() {
    assert_eq!(topics_for_module(0).len(), 12);
    assert_eq!(topics_for_module(2).len(), 10);
    assert_eq!(topics_for_module(3).len(), 10);
    assert!(topics_for_module(4).is_empty());
    assert!(topics_for_module(5).is_empty());
    assert!(topics_for_module(6).is_empty());
    assert_eq!(topics_for_module(0)[0].title, "Caching");
}

#[test]
fn body_is_a_suffix_of_the_content() {
    for module in 0..4 {
        for topic in topics_for_module(module) {
            assert!(topic.content.ends_with(topic.body()));
            assert!(topic.body().len() < topic.content.len());
        }
    }
}
