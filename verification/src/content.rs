//! Study topics: their markdown source, frontmatter handling, and the
//! ordered topic list of each module.
use vstd::prelude::*;
use crate::bundled::{cloud, databases, networking, system_design};
use crate::modules::{module_count, module_name};
use crate::text::{
    chars_of, find_chars_from, find_from, lemma_find_from, lemma_line_end, line_end, lines_from,
    lines_of,
    matches_at, next_line_end, starts_with, strip_cr, trim_char, trim_char_bounds,
    trim_white_space, trim_white_space_bounds,
};

verus! {

// ---------------------------------------------------------------------------
// Topics
// ---------------------------------------------------------------------------

/// A single study topic with a display title and embedded markdown content.
pub struct Topic {
    pub title: &'static str,
    /// Raw markdown source, including frontmatter. Use `body()` to get the
    /// displayable text with frontmatter stripped.
    pub content: &'static str,
}

/// The mathematical value of a [`Topic`].
pub struct TopicView {
    pub title: Seq<char>,
    pub content: Seq<char>,
}

impl View for Topic {
    type V = TopicView;

    open spec fn view(&self) -> TopicView {
        TopicView { title: self.title@, content: self.content@ }
    }
}

/// The line that opens a frontmatter block.
pub open spec fn frontmatter_open() -> Seq<char> {
    seq!['-', '-', '-']
}

/// The line that closes a frontmatter block, with the newlines around it.
pub open spec fn frontmatter_close() -> Seq<char> {
    seq!['\n', '-', '-', '-', '\n']
}

/// The displayable text of a markdown source: when it opens with `---` and
/// a later `\n---\n` closes the frontmatter, what follows that close;
/// otherwise the whole source.
pub open spec fn body_of(s: Seq<char>) -> Seq<char> {
    if !frontmatter_open().is_prefix_of(s) {
        s
    } else {
        match find_from(s, frontmatter_close(), 3) {
            Some(k) => s.skip(k + 5),
            None => s,
        }
    }
}

impl Topic {
    /// Returns the content with the YAML frontmatter block removed.
    pub fn body(&self) -> (body: &'static str)
        ensures
            body@ == body_of(self.content@),
    {
        let s = self.content;
        let chars = chars_of(s);
        let open: Vec<char> = vec!['-', '-', '-'];
        let close: Vec<char> = vec!['\n', '-', '-', '-', '\n'];
        assert(open@ =~= frontmatter_open());
        assert(close@ =~= frontmatter_close());
        if !starts_with(&chars, &open) {
            return s;
        }
        match find_chars_from(&chars, &close, 3) {
            Some(k) => {
                proof {
                    lemma_find_from(chars@, close@, 3);
                    assert(k + 5 <= chars.len());
                }
                s.substring_char(k + 5, chars.len())
            },
            None => s,
        }
    }
}

/// The `title:` key of a frontmatter line.
pub open spec fn title_key() -> Seq<char> {
    seq!['t', 'i', 't', 'l', 'e', ':']
}

/// The first of `ls` that starts with `p`.
pub open spec fn first_with_prefix(ls: Seq<Seq<char>>, p: Seq<char>) -> Option<Seq<char>>
    decreases ls.len(),
{
    if ls.len() == 0 {
        None
    } else if p.is_prefix_of(ls[0]) {
        Some(ls[0])
    } else {
        first_with_prefix(ls.drop_first(), p)
    }
}

/// A `---` line (with one trailing carriage return allowed).
pub open spec fn is_rule_line(l: Seq<char>) -> bool {
    strip_cr(l) == frontmatter_open()
}

/// The lines of `ls` before its first `---` line (all of them when there is
/// none).
pub open spec fn block_lines(ls: Seq<Seq<char>>) -> Seq<Seq<char>>
    decreases ls.len(),
{
    if ls.len() == 0 || is_rule_line(ls[0]) {
        seq![]
    } else {
        seq![ls[0]] + block_lines(ls.drop_first())
    }
}

/// The lines of the frontmatter block of a markdown source: when its first
/// line is `---`, the lines after it up to the next `---` line (or to the
/// end of the source).
pub open spec fn frontmatter_lines(s: Seq<char>) -> Option<Seq<Seq<char>>> {
    let ls = lines_of(s);
    if ls.len() > 0 && is_rule_line(ls[0]) {
        Some(block_lines(ls.drop_first()))
    } else {
        None
    }
}

/// The value of the first `title:` line of the frontmatter block, trimmed
/// of white space and then of double quotes.
pub open spec fn declared_title_of(s: Seq<char>) -> Option<Seq<char>> {
    match frontmatter_lines(s) {
        Some(block) => match first_with_prefix(block, title_key()) {
            Some(l) => Some(trim_char(trim_white_space(l.skip(6)), '"')),
            None => None,
        },
        None => None,
    }
}

/// Where the last segment of a `/`-separated path starts, looking back
/// from index `i`.
pub open spec fn segment_start(p: Seq<char>, i: int) -> int
    decreases i,
{
    if i <= 0 {
        0
    } else if p[i - 1] == '/' {
        i
    } else {
        segment_start(p, i - 1)
    }
}

/// The title derived from a file's path: its last segment, without a final
/// `.md` extension.
pub open spec fn path_title(p: Seq<char>) -> Seq<char> {
    let name = p.skip(segment_start(p, p.len() as int));
    if name.len() > 3 && name.skip(name.len() - 3) == seq!['.', 'm', 'd'] {
        name.take(name.len() - 3)
    } else {
        name
    }
}

/// The title of the file at `path` with markdown source `s`: the value of
/// the `title:` line of its frontmatter block; when the block has no such
/// line, or there is no block, the title derived from the path.
pub open spec fn title_of(path: Seq<char>, s: Seq<char>) -> Seq<char> {
    match declared_title_of(s) {
        Some(t) => t,
        None => path_title(path),
    }
}

/// The line of `s` that starts at `i`: where it ends (before a `\n` or
/// `\r\n`), and where its newline is (`s.len()` when there is none).
fn line_at(s: &Vec<char>, i: usize) -> (r: (usize, usize))
    requires
        i < s.len(),
    ensures
        i <= r.0 <= r.1 <= s.len(),
        r.1 == line_end(s@, i as int),
        r.0 == r.1 || (r.0 + 1 == r.1 && s@[r.0 as int] == '\r'),
        lines_from(s@, i as int) == seq![s@.subrange(i as int, r.0 as int)] + (if r.1 < s.len() {
            lines_from(s@, r.1 + 1)
        } else {
            Seq::<Seq<char>>::empty()
        }),
{
    let n = s.len();
    let e = next_line_end(s, i);
    proof {
        lemma_line_end(s@, i as int);
    }
    let le = if e < n && e > i && s[e - 1] == '\r' {
        e - 1
    } else {
        e
    };
    proof {
        let line = s@.subrange(i as int, le as int);
        if e < n {
            assert(line =~= strip_cr(s@.subrange(i as int, e as int)));
            assert(lines_from(s@, i as int) =~= seq![line] + lines_from(s@, e + 1));
        } else {
            assert(lines_from(s@, i as int) =~= seq![line] + Seq::<Seq<char>>::empty());
        }
    }
    (le, e)
}

/// Whether `s[i..le]` is a `---` line.
fn is_rule_at(s: &Vec<char>, i: usize, le: usize) -> (r: bool)
    requires
        i <= le <= s.len(),
    ensures
        r == is_rule_line(s@.subrange(i as int, le as int)),
{
    let ghost l = s@.subrange(i as int, le as int);
    let r_end = if le > i && s[le - 1] == '\r' {
        le - 1
    } else {
        le
    };
    let r = r_end - i == 3 && s[i] == '-' && s[i + 1] == '-' && s[i + 2] == '-';
    proof {
        assert(strip_cr(l) =~= s@.subrange(i as int, r_end as int));
        if r {
            assert(strip_cr(l) =~= frontmatter_open());
        }
        if strip_cr(l) == frontmatter_open() {
            assert(strip_cr(l)[0] == s@[i as int]);
            assert(strip_cr(l)[1] == s@[i + 1]);
            assert(strip_cr(l)[2] == s@[i + 2]);
        }
    }
    r
}

/// The value of the first `title:` line of the frontmatter block.
fn declared_title(content: &'static str) -> (title: Option<&'static str>)
    ensures
        match title {
            Some(t) => declared_title_of(content@) == Some(t@),
            None => declared_title_of(content@) is None,
        },
{
    let s = chars_of(content);
    let n = s.len();
    if n == 0 {
        assert(lines_of(s@) =~= Seq::<Seq<char>>::empty());
        return None;
    }
    let (le0, e0) = line_at(&s, 0);
    if !is_rule_at(&s, 0, le0) {
        return None;
    }
    if e0 >= n {
        assert(lines_of(s@).drop_first() =~= Seq::<Seq<char>>::empty());
        return None;
    }
    let key: Vec<char> = vec!['t', 'i', 't', 'l', 'e', ':'];
    assert(key@ =~= title_key());
    let mut i: usize = e0 + 1;
    proof {
        assert(lines_of(s@).drop_first() =~= lines_from(s@, i as int));
    }
    while i < n
        invariant
            n == s.len(),
            s@ == content@,
            key@ == title_key(),
            i <= n,
            frontmatter_lines(s@) is Some,
            first_with_prefix(frontmatter_lines(s@)->0, title_key()) == first_with_prefix(
                block_lines(lines_from(s@, i as int)),
                title_key(),
            ),
        decreases n - i,
    {
        let (le, e) = line_at(&s, i);
        proof {
            lemma_line_end(s@, i as int);
        }
        let ghost line = s@.subrange(i as int, le as int);
        let ghost rest = if e < n {
            lines_from(s@, e + 1)
        } else {
            Seq::<Seq<char>>::empty()
        };
        proof {
            assert((seq![line] + rest).drop_first() =~= rest);
        }
        if is_rule_at(&s, i, le) {
            return None;
        }
        assert(block_lines(lines_from(s@, i as int)) == seq![line] + block_lines(rest));
        assert((seq![line] + block_lines(rest)).drop_first() =~= block_lines(rest));
        let found = matches_at(&s, i, &key);
        proof {
            if found {
                // The key holds neither a newline nor a carriage return, so
                // the line reaches past it.
                assert(s@.subrange(i as int, i + 6) == title_key());
                if e < i + 6 {
                    assert(s@[e as int] == s@.subrange(i as int, i + 6)[e - i]);
                }
                if le < e && le < i + 6 {
                    assert(s@[le as int] == s@.subrange(i as int, i + 6)[le - i]);
                }
                assert(line.subrange(0, 6) =~= s@.subrange(i as int, i + 6));
            } else if title_key().is_prefix_of(line) {
                assert(s@.subrange(i as int, i + 6) =~= line.subrange(0, 6));
            }
        }
        if found {
            let (a, b) = trim_white_space_bounds(&s, i + 6, le);
            let (c, d) = trim_char_bounds(&s, a, b, '"');
            proof {
                assert(s@.subrange(i + 6, le as int) =~= line.skip(6));
            }
            return Some(content.substring_char(c, d));
        }
        if e < n {
            i = e + 1;
        } else {
            i = n;
        }
    }
    proof {
        assert(lines_from(s@, i as int) =~= Seq::<Seq<char>>::empty());
    }
    None
}

/// The title derived from a file's path: its last segment, without a final
/// `.md` extension.
fn title_from_path(path: &'static str) -> (title: &'static str)
    ensures
        title@ == path_title(path@),
{
    let p = chars_of(path);
    let n = p.len();
    let mut j = n;
    while j > 0 && p[j - 1] != '/'
        invariant
            j <= n,
            n == p.len(),
            segment_start(p@, n as int) == segment_start(p@, j as int),
        decreases j,
    {
        j = j - 1;
    }
    let ghost name = p@.skip(j as int);
    let md = n - j > 3 && p[n - 3] == '.' && p[n - 2] == 'm' && p[n - 1] == 'd';
    proof {
        if n - j > 3 {
            let tail = name.skip(name.len() - 3);
            if md {
                assert(tail =~= seq!['.', 'm', 'd']);
            }
            if tail == seq!['.', 'm', 'd'] {
                assert(tail[0] == p@[n - 3]);
                assert(tail[1] == p@[n - 2]);
                assert(tail[2] == p@[n - 1]);
            }
        }
    }
    if md {
        let t = path.substring_char(j, n - 3);
        assert(t@ =~= name.take(name.len() - 3));
        t
    } else {
        let t = path.substring_char(j, n);
        assert(t@ =~= name);
        t
    }
}

/// Extracts the `title:` value from a frontmatter block.
/// Returns the filename-derived title if no `title:` line is found.
pub fn parse_title(path: &'static str, content: &'static str) -> (title: &'static str)
    ensures
        title@ == title_of(path@, content@),
{
    match declared_title(content) {
        Some(t) => t,
        None => title_from_path(path),
    }
}

// ---------------------------------------------------------------------------
// Building topic lists from files
// ---------------------------------------------------------------------------

/// A file of a content directory: its `/`-separated relative path and its
/// text.
#[derive(Clone, Copy)]
pub struct ContentFile {
    pub path: &'static str,
    pub contents: &'static str,
}

/// The mathematical value of a [`ContentFile`].
pub struct ContentFileView {
    pub path: Seq<char>,
    pub contents: Seq<char>,
}

impl View for ContentFile {
    type V = ContentFileView;

    open spec fn view(&self) -> ContentFileView {
        ContentFileView { path: self.path@, contents: self.contents@ }
    }
}

/// The path names a file whose extension is `md`: its last segment has a
/// non-empty stem followed by `.md`.
pub open spec fn is_markdown_path(p: Seq<char>) -> bool {
    &&& p.len() > 3
    &&& p.subrange(p.len() - 3, p.len() as int) == seq!['.', 'm', 'd']
    &&& p[p.len() - 4] != '/'
}

/// The markdown files among `fs`, in their order.
pub open spec fn markdown_files(fs: Seq<ContentFileView>) -> Seq<ContentFileView>
    decreases fs.len(),
{
    if fs.len() == 0 {
        seq![]
    } else if is_markdown_path(fs.last().path) {
        markdown_files(fs.drop_last()).push(fs.last())
    } else {
        markdown_files(fs.drop_last())
    }
}

/// Where a character of a path sorts: the separator `/` before every other
/// character, the others by character code.
pub open spec fn path_rank(c: char) -> int {
    if c == '/' {
        0
    } else {
        (c as u32) + 1
    }
}

/// Path `a` sorts no later than path `b`: lexicographic order by
/// `path_rank`. On normalized relative paths this is the order of
/// `std::path::Path`, which compares component by component, each
/// component by its bytes (so `a/b` sorts before `a-c`).
pub open spec fn path_le(a: Seq<char>, b: Seq<char>) -> bool
    decreases a.len(),
{
    if a.len() == 0 {
        true
    } else if b.len() == 0 {
        false
    } else if a[0] != b[0] {
        path_rank(a[0]) < path_rank(b[0])
    } else {
        path_le(a.drop_first(), b.drop_first())
    }
}

/// The files are in order of their paths.
pub open spec fn sorted_by_path(s: Seq<ContentFileView>) -> bool {
    forall|i: int, j: int| 0 <= i < j < s.len() ==> path_le(#[trigger] s[i].path, #[trigger] s[j].path)
}

/// `perm` places `r` as a rearrangement of `s` (`r[i]` is `s[perm[i]]`,
/// every index of `s` exactly once) that keeps files with equal paths in
/// their order in `s`.
pub open spec fn stable_rearrangement(perm: Seq<int>, s: Seq<ContentFileView>, r: Seq<ContentFileView>) -> bool {
    &&& perm.len() == r.len()
    &&& r.len() == s.len()
    &&& forall|i: int| 0 <= i < r.len() ==> 0 <= #[trigger] perm[i] < s.len() && r[i] == s[perm[i]]
    &&& forall|i: int, j: int| 0 <= i < j < r.len() ==> #[trigger] perm[i] != #[trigger] perm[j]
    &&& forall|k: int| 0 <= k < s.len() ==> #[trigger] perm.contains(k)
    &&& forall|i: int, j: int|
        0 <= i < j < r.len() && r[i].path == r[j].path ==> #[trigger] perm[i] < #[trigger] perm[j]
}

/// `r` is `s` stably sorted by path.
pub open spec fn stable_sort_of(s: Seq<ContentFileView>, r: Seq<ContentFileView>) -> bool {
    &&& sorted_by_path(r)
    &&& exists|perm: Seq<int>| stable_rearrangement(perm, s, r)
}

/// The topic that a file holds: its title (from its frontmatter, else from
/// its path), and its text.
pub open spec fn topic_of(f: ContentFileView) -> TopicView {
    TopicView { title: title_of(f.path, f.contents), content: f.contents }
}

/// `topics` are the topics of the markdown files of `fs`, in order of their
/// paths (files with equal paths in their order in `fs`).
pub open spec fn topics_listed(fs: Seq<ContentFileView>, topics: Seq<TopicView>) -> bool {
    exists|sorted: Seq<ContentFileView>|
        stable_sort_of(markdown_files(fs), sorted) && topics == sorted.map_values(
            |f: ContentFileView| topic_of(f),
        )
}

pub proof fn lemma_path_le_total(a: Seq<char>, b: Seq<char>)
    ensures
        path_le(a, b) || path_le(b, a),
    decreases a.len(),
{
    if a.len() > 0 && b.len() > 0 {
        if a[0] == b[0] {
            lemma_path_le_total(a.drop_first(), b.drop_first());
        } else {
            vstd::utf8::char_u32_cast(a[0], a[0] as u32);
            vstd::utf8::char_u32_cast(b[0], b[0] as u32);
        }
    }
}

pub proof fn lemma_path_le_antisymmetric(a: Seq<char>, b: Seq<char>)
    requires
        path_le(a, b),
        path_le(b, a),
    ensures
        a == b,
    decreases a.len(),
{
    if a.len() == 0 {
        assert(a =~= b);
    } else {
        lemma_path_le_antisymmetric(a.drop_first(), b.drop_first());
        assert forall|i: int| 0 <= i < a.len() implies a[i] == b[i] by {
            if i > 0 {
                assert(a[i] == a.drop_first()[i - 1]);
                assert(b[i] == b.drop_first()[i - 1]);
            }
        }
        assert(a =~= b);
    }
}

pub proof fn lemma_path_le_transitive(a: Seq<char>, b: Seq<char>, c: Seq<char>)
    requires
        path_le(a, b),
        path_le(b, c),
    ensures
        path_le(a, c),
    decreases a.len(),
{
    if a.len() > 0 && b.len() > 0 && c.len() > 0 && a[0] == b[0] && b[0] == c[0] {
        lemma_path_le_transitive(a.drop_first(), b.drop_first(), c.drop_first());
    }
}

pub proof fn lemma_path_le_reflexive(a: Seq<char>)
    ensures
        path_le(a, a),
    decreases a.len(),
{
    if a.len() > 0 {
        lemma_path_le_reflexive(a.drop_first());
    }
}

/// Where a character of a path sorts.
fn path_rank_exec(c: char) -> (r: u64)
    ensures
        r == path_rank(c),
{
    if c == '/' {
        0
    } else {
        (c as u32) as u64 + 1
    }
}

/// Whether path `a` sorts no later than path `b`.
fn path_le_exec(a: &Vec<char>, b: &Vec<char>) -> (r: bool)
    ensures
        r == path_le(a@, b@),
{
    let mut i: usize = 0;
    proof {
        assert(a@.skip(0) =~= a@);
        assert(b@.skip(0) =~= b@);
    }
    while i < a.len() && i < b.len() && a[i] == b[i]
        invariant
            i <= a.len(),
            i <= b.len(),
            path_le(a@, b@) == path_le(a@.skip(i as int), b@.skip(i as int)),
        decreases a.len() - i,
    {
        proof {
            assert(a@.skip(i as int).drop_first() =~= a@.skip(i + 1));
            assert(b@.skip(i as int).drop_first() =~= b@.skip(i + 1));
        }
        i = i + 1;
    }
    if i == a.len() {
        true
    } else if i == b.len() {
        false
    } else {
        path_rank_exec(a[i]) < path_rank_exec(b[i])
    }
}

/// Whether the path names a markdown file.
fn markdown_path(path: &str) -> (r: bool)
    ensures
        r == is_markdown_path(path@),
{
    let p = chars_of(path);
    let n = p.len();
    if n <= 3 {
        return false;
    }
    let r = p[n - 3] == '.' && p[n - 2] == 'm' && p[n - 1] == 'd' && p[n - 4] != '/';
    proof {
        if p[n - 3] == '.' && p[n - 2] == 'm' && p[n - 1] == 'd' {
            assert(p@.subrange(n - 3, n as int) =~= seq!['.', 'm', 'd']);
        }
        if p@.subrange(n - 3, n as int) == seq!['.', 'm', 'd'] {
            assert(p@.subrange(n - 3, n as int)[0] == '.');
            assert(p@.subrange(n - 3, n as int)[1] == 'm');
            assert(p@.subrange(n - 3, n as int)[2] == 'd');
        }
    }
    r
}

/// The markdown files of `files`, stably sorted by path.
pub fn sorted_markdown_files(files: Vec<ContentFile>) -> (r: Vec<ContentFile>)
    ensures
        stable_sort_of(markdown_files(files@.map_values(|f: ContentFile| f@)), r@.map_values(
            |f: ContentFile| f@,
        )),
{
    let ghost input = files@.map_values(|f: ContentFile| f@);
    let mut sorted: Vec<ContentFile> = Vec::new();
    let ghost mut perm: Seq<int> = seq![];
    let n = files.len();
    let mut k: usize = 0;
    while k < n
        invariant
            n == input.len(),
            n == files.len(),
            input == files@.map_values(|f: ContentFile| f@),
            k <= n,
            ({
                let s = markdown_files(input.take(k as int));
                let r = sorted@.map_values(|f: ContentFile| f@);
                &&& sorted_by_path(r)
                &&& stable_rearrangement(perm, s, r)
            }),
        decreases n - k,
    {
        let ghost s = markdown_files(input.take(k as int));
        let ghost r = sorted@.map_values(|f: ContentFile| f@);
        let x = files[k];
        proof {
            assert(x@ == input[k as int]);
            assert(input.take(k + 1).drop_last() =~= input.take(k as int));
            assert(input.take(k + 1).last() == input[k as int]);
        }
        if markdown_path(x.path) {
            let xc = chars_of(x.path);
            // Insert after every file whose path sorts no later than x's.
            let mut p: usize = 0;
            while p < sorted.len() && path_le_exec(&chars_of(sorted[p].path), &xc)
                invariant
                    p <= sorted.len(),
                    xc@ == x.path@,
                    forall|j: int| 0 <= j < p ==> path_le(#[trigger] sorted@[j].path@, x.path@),
                decreases sorted.len() - p,
            {
                p = p + 1;
            }
            let ghost m = s.len() as int;
            sorted.insert(p, x);
            proof {
                let s2 = s.push(x@);
                let r2 = sorted@.map_values(|f: ContentFile| f@);
                assert(markdown_files(input.take(k + 1)) == s2);
                assert(r2 =~= r.insert(p as int, x@));
                let perm2 = perm.insert(p as int, m);
                if p < r.len() {
                    assert(!path_le(r[p as int].path, x@.path));
                    lemma_path_le_total(r[p as int].path, x@.path);
                }
                assert forall|i: int, j: int| 0 <= i < j < r2.len() implies path_le(
                    #[trigger] r2[i].path,
                    #[trigger] r2[j].path,
                ) by {
                    if i < p && j == p {
                    } else if i < p && j > p {
                        assert(r2[j] == r[j - 1]);
                        assert(path_le(r[p as int].path, r[j - 1].path) || p == j - 1);
                        lemma_path_le_transitive(r[i].path, x@.path, r[p as int].path);
                        if p < j - 1 {
                            lemma_path_le_transitive(r[i].path, r[p as int].path, r[j - 1].path);
                        }
                    } else if i == p && j > p {
                        if p < j - 1 {
                            assert(path_le(r[p as int].path, r[j - 1].path));
                            lemma_path_le_transitive(x@.path, r[p as int].path, r[j - 1].path);
                        }
                    } else if i > p {
                        assert(r2[i] == r[i - 1]);
                        assert(r2[j] == r[j - 1]);
                    } else {
                        assert(r2[i] == r[i]);
                        assert(r2[j] == r[j]);
                    }
                }
                assert forall|i: int| 0 <= i < r2.len() implies 0 <= #[trigger] perm2[i] < s2.len()
                    && r2[i] == s2[perm2[i]] by {
                    if i < p {
                        assert(perm2[i] == perm[i]);
                    } else if i > p {
                        assert(perm2[i] == perm[i - 1]);
                    }
                }
                assert forall|i: int, j: int| 0 <= i < j < r2.len() implies #[trigger] perm2[i]
                    != #[trigger] perm2[j] by {
                    if i < p && j > p {
                        assert(perm2[j] == perm[j - 1]);
                    } else if i > p {
                        assert(perm2[i] == perm[i - 1]);
                        assert(perm2[j] == perm[j - 1]);
                    } else if j < p {
                    } else if i == p {
                        assert(perm2[j] == perm[j - 1]);
                    } else {
                        assert(perm2[i] == perm[i]);
                    }
                }
                assert forall|i: int, j: int|
                    0 <= i < j < r2.len() && r2[i].path == r2[j].path implies #[trigger] perm2[i]
                    < #[trigger] perm2[j] by {
                    if i == p {
                        // A later file with x's path would sort no later than x.
                        assert(r2[j] == r[j - 1]);
                        if p < j - 1 {
                            assert(path_le(r[p as int].path, r[j - 1].path));
                        }
                        assert(path_le(r[p as int].path, x@.path));
                        assert(false);
                    } else if j == p {
                        assert(perm2[i] == perm[i]);
                    } else if i < p && j > p {
                        assert(perm2[j] == perm[j - 1]);
                        assert(r2[j] == r[j - 1]);
                    } else if i > p {
                        assert(perm2[i] == perm[i - 1]);
                        assert(perm2[j] == perm[j - 1]);
                        assert(r2[i] == r[i - 1]);
                        assert(r2[j] == r[j - 1]);
                    }
                }
                assert forall|kk: int| 0 <= kk < s2.len() implies #[trigger] perm2.contains(kk) by {
                    if kk == m {
                        assert(perm2[p as int] == m);
                    } else {
                        assert(perm.contains(kk));
                        let i = choose|i: int| 0 <= i < perm.len() && perm[i] == kk;
                        if i < p {
                            assert(perm2[i] == kk);
                        } else {
                            assert(perm2[i + 1] == kk);
                        }
                    }
                }
                assert(stable_rearrangement(perm2, s2, r2));
                perm = perm2;
            }
        } else {
            proof {
                assert(markdown_files(input.take(k + 1)) == s);
            }
        }
        k = k + 1;
    }
    proof {
        assert(input.take(n as int) =~= input);
        let r = sorted@.map_values(|f: ContentFile| f@);
        assert(stable_rearrangement(perm, markdown_files(input), r));
    }
    sorted
}

/// The topic that a file holds.
fn topic_from(f: &ContentFile) -> (t: Topic)
    ensures
        t@ == topic_of(f@),
{
    Topic { title: parse_title(f.path, f.contents), content: f.contents }
}

/// Builds the topic list of a content directory from its files: the
/// markdown files, in order of their paths, each with the title that its
/// frontmatter declares (or, without one, the title its file name gives).
pub fn build_topics(files: Vec<ContentFile>) -> (topics: Vec<Topic>)
    ensures
        topics_listed(files@.map_values(|f: ContentFile| f@), topics@.map_values(|t: Topic| t@)),
{
    let sorted = sorted_markdown_files(files);
    let mut topics: Vec<Topic> = Vec::new();
    let mut i: usize = 0;
    while i < sorted.len()
        invariant
            i <= sorted.len(),
            topics.len() == i,
            forall|j: int| 0 <= j < i ==> (#[trigger] topics@[j])@ == topic_of(sorted@[j]@),
        decreases sorted.len() - i,
    {
        topics.push(topic_from(&sorted[i]));
        i = i + 1;
    }
    proof {
        let sv = sorted@.map_values(|f: ContentFile| f@);
        assert(topics@.map_values(|t: Topic| t@) =~= sv.map_values(|f: ContentFileView| topic_of(f)));
    }
    topics
}

// ---------------------------------------------------------------------------
// Topics of each module
// ---------------------------------------------------------------------------

/// The files of the content directory of each module; modules without
/// content have none.
pub open spec fn module_files(module_index: int) -> Seq<ContentFileView> {
    if module_index == 0 {
        cloud::files_spec()
    } else if module_index == 1 {
        system_design::files_spec()
    } else if module_index == 2 {
        databases::files_spec()
    } else if module_index == 3 {
        networking::files_spec()
    } else {
        seq![]
    }
}

/// Returns the topics available for a given module index.
///
/// Modules without content yet return an empty list — the UI handles this
/// gracefully by showing a "coming soon" message.
pub fn topics_for_module(module_index: usize) -> (topics: Vec<Topic>)
    ensures
        topics_listed(module_files(module_index as int), topics@.map_values(|t: Topic| t@)),
{
    let files = match module_index {
        0 => cloud::files(),
        1 => system_design::files(),
        2 => databases::files(),
        3 => networking::files(),
        _ => Vec::new(),
    };
    assert(files@.map_values(|f: ContentFile| f@) =~= module_files(module_index as int));
    build_topics(files)
}

// ---------------------------------------------------------------------------
// Laws
// ---------------------------------------------------------------------------

/// The body of a source is a suffix of it: stripping frontmatter only ever
/// drops a prefix.
pub proof fn lemma_body_is_suffix(s: Seq<char>)
    ensures
        body_of(s).len() <= s.len(),
        body_of(s) == s.skip(s.len() - body_of(s).len()),
{
    if frontmatter_open().is_prefix_of(s) {
        lemma_find_from(s, frontmatter_close(), 3);
    }
    assert(s.skip(0) =~= s);
    if let Some(k) = find_from(s, frontmatter_close(), 3) {
        if frontmatter_open().is_prefix_of(s) {
            assert(s.skip(k + 5) =~= s.skip(s.len() - (s.len() - (k + 5))));
        }
    }
}

/// A source without frontmatter is its own body.
pub proof fn lemma_body_without_frontmatter(s: Seq<char>)
    requires
        !frontmatter_open().is_prefix_of(s),
    ensures
        body_of(s) == s,
{
}

/// Modules past the four with content have no topics.
pub proof fn lemma_modules_without_content(module_index: int, topics: Seq<TopicView>)
    requires
        module_index < 0 || module_index >= 4,
        topics_listed(module_files(module_index), topics),
    ensures
        topics.len() == 0,
{
    let sorted = choose|sorted: Seq<ContentFileView>|
        stable_sort_of(markdown_files(module_files(module_index)), sorted) && topics
            == sorted.map_values(|f: ContentFileView| topic_of(f));
    assert(markdown_files(module_files(module_index)).len() == 0);
}

/// Two stable rearrangements of the same files, both sorted by path, agree
/// on their first `n` places.
proof fn lemma_sorted_rearrangements_agree(
    s: Seq<ContentFileView>,
    r1: Seq<ContentFileView>,
    p1: Seq<int>,
    r2: Seq<ContentFileView>,
    p2: Seq<int>,
    n: int,
)
    requires
        sorted_by_path(r1),
        sorted_by_path(r2),
        stable_rearrangement(p1, s, r1),
        stable_rearrangement(p2, s, r2),
        0 <= n <= r1.len(),
    ensures
        forall|j: int| 0 <= j < n ==> p1[j] == p2[j],
    decreases n,
{
    if n > 0 {
        lemma_sorted_rearrangements_agree(s, r1, p1, r2, p2, n - 1);
        let i = n - 1;
        let a = p1[i];
        let b = p2[i];
        if a != b {
            // b stands later than i in r1, and a later than i in r2.
            assert(p1.contains(b));
            let i1 = choose|x: int| 0 <= x < p1.len() && p1[x] == b;
            if i1 < i {
                assert(p2[i1] == p1[i1]);
                assert(p2[i1] != p2[i]);
            }
            assert(p2.contains(a));
            let i2 = choose|x: int| 0 <= x < p2.len() && p2[x] == a;
            if i2 < i {
                assert(p1[i2] == p2[i2]);
                assert(p1[i2] != p1[i]);
            }
            // So both files have the same path ...
            assert(path_le(r1[i].path, r1[i1].path));
            assert(path_le(r2[i].path, r2[i2].path));
            lemma_path_le_antisymmetric(s[a].path, s[b].path);
            // ... and each sort keeps them in their order in s: a < b < a.
            assert(p1[i] < p1[i1]);
            assert(p2[i] < p2[i2]);
        }
    }
}

/// A stable sort by path is unique: two sequences that are both `s` stably
/// sorted by path are equal.
pub proof fn lemma_stable_sort_unique(
    s: Seq<ContentFileView>,
    r1: Seq<ContentFileView>,
    r2: Seq<ContentFileView>,
)
    requires
        stable_sort_of(s, r1),
        stable_sort_of(s, r2),
    ensures
        r1 == r2,
{
    let p1 = choose|perm: Seq<int>| stable_rearrangement(perm, s, r1);
    let p2 = choose|perm: Seq<int>| stable_rearrangement(perm, s, r2);
    lemma_sorted_rearrangements_agree(s, r1, p1, r2, p2, r1.len() as int);
    assert forall|i: int| 0 <= i < r1.len() implies r1[i] == r2[i] by {
        assert(r1[i] == s[p1[i]]);
        assert(r2[i] == s[p2[i]]);
    }
    assert(r1 =~= r2);
}

/// The files determine their topic list: any two lists that both list the
/// topics of the same files are equal. So two calls of `topics_for_module`
/// with the same index return the same topics, in the same order.
pub proof fn lemma_topics_listed_unique(
    fs: Seq<ContentFileView>,
    t1: Seq<TopicView>,
    t2: Seq<TopicView>,
)
    requires
        topics_listed(fs, t1),
        topics_listed(fs, t2),
    ensures
        t1 == t2,
{
    let s1 = choose|sorted: Seq<ContentFileView>|
        stable_sort_of(markdown_files(fs), sorted) && t1 == sorted.map_values(
            |f: ContentFileView| topic_of(f),
        );
    let s2 = choose|sorted: Seq<ContentFileView>|
        stable_sort_of(markdown_files(fs), sorted) && t2 == sorted.map_values(
            |f: ContentFileView| topic_of(f),
        );
    lemma_stable_sort_unique(markdown_files(fs), s1, s2);
}

/// All the files lie under the directory `dir` (a prefix ending in `/`).
pub open spec fn all_under(fs: Seq<ContentFileView>, dir: Seq<char>) -> bool {
    forall|k: int| 0 <= k < fs.len() ==> dir.is_prefix_of(#[trigger] fs[k].path)
}

/// Each row of the module menu opens the notes of its own content
/// directory: the module named "Databases" lists the files under
/// `databases/`, and likewise for the other modules with notes; the two
/// modules without notes yet list none.
pub proof fn lemma_modules_show_their_notes(i: int)
    requires
        0 <= i < module_count(),
    ensures
        module_name(i) == "Cloud Architecture"@ ==> module_files(i).len() == 12 && all_under(
            module_files(i),
            "cloud/"@,
        ),
        module_name(i) == "System Design Questions"@ ==> module_files(i).len() == 10 && all_under(
            module_files(i),
            "system-design/"@,
        ),
        module_name(i) == "Databases"@ ==> module_files(i).len() == 10 && all_under(
            module_files(i),
            "databases/"@,
        ),
        module_name(i) == "Networking & Protocols"@ ==> module_files(i).len() == 10 && all_under(
            module_files(i),
            "networking/"@,
        ),
        module_name(i) == "Data Structures & Algorithms"@ ==> module_files(i).len() == 0,
        module_name(i) == "DevOps & CI/CD"@ ==> module_files(i).len() == 0,
{
    reveal_strlit("Cloud Architecture");
    reveal_strlit("System Design Questions");
    reveal_strlit("Databases");
    reveal_strlit("Networking & Protocols");
    reveal_strlit("Data Structures & Algorithms");
    reveal_strlit("DevOps & CI/CD");
    cloud::lemma_files_under_directory();
    system_design::lemma_files_under_directory();
    databases::lemma_files_under_directory();
    networking::lemma_files_under_directory();
    let names = seq![
        "Cloud Architecture"@,
        "System Design Questions"@,
        "Databases"@,
        "Networking & Protocols"@,
        "Data Structures & Algorithms"@,
        "DevOps & CI/CD"@,
    ];
    assert(names[0].len() == 18 && names[1].len() == 23 && names[2].len() == 9 && names[3].len()
        == 22 && names[4].len() == 28 && names[5].len() == 14);
    assert(module_name(i) == names[i]);
    if i == 0 {
        assert(module_files(i) == cloud::files_spec());
    } else if i == 1 {
        assert(module_files(i) == system_design::files_spec());
    } else if i == 2 {
        assert(module_files(i) == databases::files_spec());
    } else if i == 3 {
        assert(module_files(i) == networking::files_spec());
    }
}

} // verus!
