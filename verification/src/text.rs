//! Character-level helpers on strings: searching, line splitting and
//! trimming, each specified over the string's view (`Seq<char>`).
use vstd::prelude::*;

verus! {

// ---------------------------------------------------------------------------
// Specifications
// ---------------------------------------------------------------------------

/// `p` occurs in `s` starting at index `i`.
pub open spec fn occurs_at(s: Seq<char>, i: int, p: Seq<char>) -> bool {
    &&& 0 <= i
    &&& i + p.len() <= s.len()
    &&& s.subrange(i, i + p.len()) == p
}

/// The first index `k >= i` at which `p` occurs in `s`, as `str::find` on
/// the suffix starting at `i` reports it.
pub open spec fn find_from(s: Seq<char>, p: Seq<char>, i: int) -> Option<int>
    decreases s.len() - i,
{
    if i < 0 || i + p.len() > s.len() {
        None
    } else if occurs_at(s, i, p) {
        Some(i)
    } else if i >= s.len() {
        None
    } else {
        find_from(s, p, i + 1)
    }
}

/// The index of the first `'\n'` at or after `i`, or `s.len()` when there is none.
pub open spec fn line_end(s: Seq<char>, i: int) -> int
    decreases s.len() - i,
{
    if i < 0 || i >= s.len() {
        s.len() as int
    } else if s[i] == '\n' {
        i
    } else {
        line_end(s, i + 1)
    }
}

/// A line with one trailing carriage return removed.
pub open spec fn strip_cr(l: Seq<char>) -> Seq<char> {
    if l.len() > 0 && l.last() == '\r' {
        l.drop_last()
    } else {
        l
    }
}

/// The lines of `s` from index `i` on, as `str::lines` yields them: split at
/// `'\n'`, a `'\r'` just before a `'\n'` dropped, no empty line after a final
/// `'\n'`.
pub open spec fn lines_from(s: Seq<char>, i: int) -> Seq<Seq<char>>
    decreases s.len() - i,
{
    if i < 0 || i >= s.len() {
        seq![]
    } else {
        let e = line_end(s, i);
        if e < s.len() {
            proof {
                lemma_line_end(s, i);
            }
            seq![strip_cr(s.subrange(i, e))] + lines_from(s, e + 1)
        } else {
            seq![s.subrange(i, s.len() as int)]
        }
    }
}

/// The lines of `s`, as `str::lines` yields them.
pub open spec fn lines_of(s: Seq<char>) -> Seq<Seq<char>> {
    lines_from(s, 0)
}

/// `s` without the leading characters that satisfy `f`.
pub open spec fn trim_start_by(s: Seq<char>, f: spec_fn(char) -> bool) -> Seq<char>
    decreases s.len(),
{
    if s.len() > 0 && f(s[0]) {
        trim_start_by(s.drop_first(), f)
    } else {
        s
    }
}

/// `s` without the trailing characters that satisfy `f`.
pub open spec fn trim_end_by(s: Seq<char>, f: spec_fn(char) -> bool) -> Seq<char>
    decreases s.len(),
{
    if s.len() > 0 && f(s.last()) {
        trim_end_by(s.drop_last(), f)
    } else {
        s
    }
}

/// The characters with the Unicode `White_Space` property, which
/// `char::is_whitespace` reports.
pub open spec fn is_white_space(c: char) -> bool {
    let u = c as u32;
    ||| 0x9 <= u && u <= 0xd
    ||| u == 0x20
    ||| u == 0x85
    ||| u == 0xa0
    ||| u == 0x1680
    ||| 0x2000 <= u && u <= 0x200a
    ||| u == 0x2028
    ||| u == 0x2029
    ||| u == 0x202f
    ||| u == 0x205f
    ||| u == 0x3000
}

/// `s` without leading and trailing white space (`str::trim`).
pub open spec fn trim_white_space(s: Seq<char>) -> Seq<char> {
    trim_end_by(trim_start_by(s, |c: char| is_white_space(c)), |c: char| is_white_space(c))
}

/// The predicate "is the character `q`".
pub open spec fn equals_char(q: char) -> spec_fn(char) -> bool {
    |c: char| c == q
}

/// `s` without leading and trailing `q` characters (`str::trim_matches(q)`).
pub open spec fn trim_char(s: Seq<char>, q: char) -> Seq<char> {
    trim_end_by(trim_start_by(s, equals_char(q)), equals_char(q))
}

// ---------------------------------------------------------------------------
// Lemmas
// ---------------------------------------------------------------------------

/// What `find_from` reports: an occurrence at or after `i`, with none
/// between `i` and it.
pub proof fn lemma_find_from(s: Seq<char>, p: Seq<char>, i: int)
    ensures
        find_from(s, p, i) matches Some(k) ==> i <= k && occurs_at(s, k, p) && forall|j: int|
            i <= j < k ==> !occurs_at(s, j, p),
    decreases s.len() - i,
{
    if !(i < 0 || i + p.len() > s.len()) && !occurs_at(s, i, p) && i < s.len() {
        lemma_find_from(s, p, i + 1);
    }
}

/// An occurrence at `k` with none between `i` and it is what `find_from`
/// reports.
pub proof fn lemma_find_from_at(s: Seq<char>, p: Seq<char>, i: int, k: int)
    requires
        0 <= i <= k,
        occurs_at(s, k, p),
        forall|j: int| i <= j < k ==> !#[trigger] occurs_at(s, j, p),
    ensures
        find_from(s, p, i) == Some(k),
    decreases k - i,
{
    if i < k {
        assert(!occurs_at(s, i, p));
        lemma_find_from_at(s, p, i + 1, k);
    }
}

/// Searching `q + t` from inside `t` finds what searching `t` finds,
/// shifted by the length of `q`.
pub proof fn lemma_find_from_shift(q: Seq<char>, t: Seq<char>, p: Seq<char>, j: int)
    requires
        0 <= j,
    ensures
        find_from(q + t, p, q.len() + j) == (match find_from(t, p, j) {
            Some(k) => Some(k + q.len()),
            None => None,
        }),
    decreases t.len() - j,
{
    let s = q + t;
    let i = q.len() + j;
    if !(i + p.len() > s.len()) {
        assert(s.subrange(i, i + p.len()) =~= t.subrange(j, j + p.len()));
    }
    if !(i + p.len() > s.len()) && !occurs_at(s, i, p) && i < s.len() {
        lemma_find_from_shift(q, t, p, j + 1);
    }
}

/// When `find_from` reports nothing, `p` occurs nowhere at or after `i`.
pub proof fn lemma_find_from_none_absent(s: Seq<char>, p: Seq<char>, i: int)
    requires
        0 <= i,
        find_from(s, p, i) is None,
    ensures
        forall|j: int| i <= j ==> !#[trigger] occurs_at(s, j, p),
    decreases s.len() - i,
{
    if !(i + p.len() > s.len()) && i < s.len() {
        lemma_find_from_none_absent(s, p, i + 1);
    }
}

/// When `p` occurs nowhere at or after `i`, `find_from` reports nothing.
pub proof fn lemma_find_from_none(s: Seq<char>, p: Seq<char>, i: int)
    requires
        0 <= i,
        forall|j: int| i <= j ==> !#[trigger] occurs_at(s, j, p),
    ensures
        find_from(s, p, i) is None,
    decreases s.len() - i,
{
    if !(i + p.len() > s.len()) && i < s.len() {
        lemma_find_from_none(s, p, i + 1);
    }
}

/// Where `line_end` lands: at or after `i`, on a newline or at the end, with
/// no newline in between.
pub proof fn lemma_line_end(s: Seq<char>, i: int)
    requires
        0 <= i <= s.len(),
    ensures
        i <= line_end(s, i) <= s.len(),
        line_end(s, i) < s.len() ==> s[line_end(s, i)] == '\n',
        forall|j: int| i <= j < line_end(s, i) ==> s[j] != '\n',
    decreases s.len() - i,
{
    if i < s.len() && s[i] != '\n' {
        lemma_line_end(s, i + 1);
    }
}

/// `line_end` is the first newline at or after `i`.
pub proof fn lemma_line_end_at(s: Seq<char>, i: int, e: int)
    requires
        0 <= i <= e <= s.len(),
        e < s.len() ==> s[e] == '\n',
        forall|j: int| i <= j < e ==> s[j] != '\n',
    ensures
        line_end(s, i) == e,
    decreases e - i,
{
    if i < e {
        lemma_line_end_at(s, i + 1, e);
    }
}

/// Dropping a prefix whose characters all satisfy `f`, up to a character
/// that does not, is `trim_start_by`.
pub proof fn lemma_trim_start_by(s: Seq<char>, f: spec_fn(char) -> bool, a: int)
    requires
        0 <= a <= s.len(),
        forall|j: int| 0 <= j < a ==> f(#[trigger] s[j]),
        a == s.len() || !f(s[a]),
    ensures
        trim_start_by(s, f) == s.subrange(a, s.len() as int),
    decreases a,
{
    if a == 0 {
        assert(s.subrange(0, s.len() as int) =~= s);
    } else {
        assert(f(s[0]));
        let t = s.drop_first();
        assert forall|j: int| 0 <= j < a - 1 implies f(#[trigger] t[j]) by {
            assert(t[j] == s[j + 1]);
        }
        lemma_trim_start_by(t, f, a - 1);
        assert(t.subrange(a - 1, t.len() as int) =~= s.subrange(a, s.len() as int));
    }
}

/// Dropping a suffix whose characters all satisfy `f`, back to a character
/// that does not, is `trim_end_by`.
pub proof fn lemma_trim_end_by(s: Seq<char>, f: spec_fn(char) -> bool, b: int)
    requires
        0 <= b <= s.len(),
        forall|j: int| b <= j < s.len() ==> f(#[trigger] s[j]),
        b == 0 || !f(s[b - 1]),
    ensures
        trim_end_by(s, f) == s.subrange(0, b),
    decreases s.len() - b,
{
    if b == s.len() {
        if s.len() > 0 {
            assert(!f(s.last()));
        }
        assert(s.subrange(0, b) =~= s);
    } else {
        assert(f(s.last()));
        let t = s.drop_last();
        assert forall|j: int| b <= j < t.len() implies f(#[trigger] t[j]) by {
            assert(t[j] == s[j]);
        }
        if b > 0 {
            assert(t[b - 1] == s[b - 1]);
        }
        lemma_trim_end_by(t, f, b);
        assert(t.subrange(0, b) =~= s.subrange(0, b));
    }
}

// ---------------------------------------------------------------------------
// Executable functions
// ---------------------------------------------------------------------------

/// The characters of `s`, in order.
pub fn chars_of(s: &str) -> (res: Vec<char>)
    ensures
        res@ == s@,
{
    let mut res: Vec<char> = Vec::new();
    for c in it: s.chars()
        invariant
            res@ == it.seq().take(it.index() as int),
    {
        res.push(c);
    }
    res
}

/// Whether `p` occurs in `s` at index `i`.
pub fn matches_at(s: &Vec<char>, i: usize, p: &Vec<char>) -> (r: bool)
    ensures
        r == occurs_at(s@, i as int, p@),
{
    if i > s.len() || p.len() > s.len() - i {
        return false;
    }
    let mut j: usize = 0;
    while j < p.len()
        invariant
            j <= p.len(),
            i + p.len() <= s.len(),
            s@.subrange(i as int, i + j) =~= p@.subrange(0, j as int),
        decreases p.len() - j,
    {
        if s[i + j] != p[j] {
            assert(s@.subrange(i as int, i + p.len())[j as int] != p@[j as int]);
            return false;
        }
        j = j + 1;
        assert(s@.subrange(i as int, i + j) =~= p@.subrange(0, j as int));
    }
    assert(p@.subrange(0, j as int) =~= p@);
    true
}

/// Whether `p` is a prefix of `s`.
pub fn starts_with(s: &Vec<char>, p: &Vec<char>) -> (r: bool)
    ensures
        r == p@.is_prefix_of(s@),
{
    let r = matches_at(s, 0, p);
    proof {
        if p@.is_prefix_of(s@) {
            assert(s@.subrange(0, p@.len() as int) =~= p@);
        }
    }
    r
}

/// The first occurrence of `p` in `s` at or after `start`.
pub fn find_chars_from(s: &Vec<char>, p: &Vec<char>, start: usize) -> (r: Option<usize>)
    ensures
        match r {
            Some(k) => find_from(s@, p@, start as int) == Some(k as int),
            None => find_from(s@, p@, start as int) is None,
        },
{
    let mut i: usize = start;
    while i <= s.len() && p.len() <= s.len() - i
        invariant
            start <= i,
            find_from(s@, p@, start as int) == find_from(s@, p@, i as int),
        decreases s.len() + 1 - i,
    {
        if matches_at(s, i, p) {
            return Some(i);
        }
        if i >= s.len() {
            return None;
        }
        i = i + 1;
    }
    None
}

/// The first index at or after `start` that holds a `'\n'`, or `s.len()`.
pub fn next_line_end(s: &Vec<char>, start: usize) -> (e: usize)
    requires
        start <= s.len(),
    ensures
        e as int == line_end(s@, start as int),
{
    let mut e = start;
    while e < s.len() && s[e] != '\n'
        invariant
            start <= e <= s.len(),
            forall|j: int| start <= j < e ==> s@[j] != '\n',
        decreases s.len() - e,
    {
        e = e + 1;
    }
    proof {
        lemma_line_end_at(s@, start as int, e as int);
    }
    e
}

/// The lines of `s`, as `str::lines` yields them.
pub fn split_lines<'a>(s: &'a str) -> (res: Vec<&'a str>)
    ensures
        res.len() == lines_of(s@).len(),
        forall|k: int| 0 <= k < res.len() ==> (#[trigger] res[k])@ == lines_of(s@)[k],
{
    let chars = chars_of(s);
    let n = chars.len();
    let mut res: Vec<&'a str> = Vec::new();
    let ghost mut acc: Seq<Seq<char>> = seq![];
    let mut i: usize = 0;
    while i < n
        invariant
            n == chars.len(),
            chars@ == s@,
            i <= n,
            acc.len() == res.len(),
            forall|k: int| 0 <= k < res.len() ==> (#[trigger] res[k])@ == acc[k],
            lines_of(s@) == acc + lines_from(s@, i as int),
        decreases n - i,
    {
        let e = next_line_end(&chars, i);
        proof {
            lemma_line_end(s@, i as int);
        }
        if e < n {
            let mut le = e;
            if e > i && chars[e - 1] == '\r' {
                le = e - 1;
            }
            let line = s.substring_char(i, le);
            proof {
                assert(line@ == strip_cr(s@.subrange(i as int, e as int)));
                let tail = lines_from(s@, (e + 1) as int);
                assert(lines_from(s@, i as int) == seq![line@] + tail);
                assert(acc + lines_from(s@, i as int) =~= acc.push(line@) + tail);
                acc = acc.push(line@);
            }
            res.push(line);
            i = e + 1;
        } else {
            let line = s.substring_char(i, n);
            proof {
                assert(lines_from(s@, i as int) == seq![line@]);
                assert(lines_from(s@, n as int) == Seq::<Seq<char>>::empty());
                assert(acc + lines_from(s@, i as int) =~= acc.push(line@) + lines_from(s@, n as int));
                acc = acc.push(line@);
            }
            res.push(line);
            i = n;
        }
    }
    proof {
        assert(lines_from(s@, i as int) == Seq::<Seq<char>>::empty());
        assert(acc + lines_from(s@, i as int) =~= acc);
    }
    res
}

/// Whether `c` is white space (`char::is_whitespace`).
pub fn white_space(c: char) -> (r: bool)
    ensures
        r == is_white_space(c),
{
    let u = c as u32;
    (0x9 <= u && u <= 0xd) || u == 0x20 || u == 0x85 || u == 0xa0 || u == 0x1680 || (0x2000 <= u
        && u <= 0x200a) || u == 0x2028 || u == 0x2029 || u == 0x202f || u == 0x205f || u == 0x3000
}

/// The bounds, within `s`, of `s[lo..hi]` trimmed of white space.
pub fn trim_white_space_bounds(s: &Vec<char>, lo: usize, hi: usize) -> (r: (usize, usize))
    requires
        lo <= hi <= s.len(),
    ensures
        lo <= r.0 <= r.1 <= hi,
        s@.subrange(r.0 as int, r.1 as int) == trim_white_space(s@.subrange(lo as int, hi as int)),
{
    let ghost f = |c: char| is_white_space(c);
    let ghost t = s@.subrange(lo as int, hi as int);
    let mut a = lo;
    while a < hi && white_space(s[a])
        invariant
            lo <= a <= hi <= s.len(),
            t == s@.subrange(lo as int, hi as int),
            forall|j: int| lo <= j < a ==> is_white_space(#[trigger] s@[j]),
        decreases hi - a,
    {
        a = a + 1;
    }
    let mut b = hi;
    while b > a && white_space(s[b - 1])
        invariant
            a <= b <= hi <= s.len(),
            forall|j: int| b <= j < hi ==> is_white_space(#[trigger] s@[j]),
        decreases b,
    {
        b = b - 1;
    }
    proof {
        assert forall|j: int| 0 <= j < a - lo implies f(#[trigger] t[j]) by {
            assert(t[j] == s@[lo + j]);
        }
        lemma_trim_start_by(t, f, a - lo);
        let u = t.subrange(a - lo, t.len() as int);
        assert(u =~= s@.subrange(a as int, hi as int));
        assert forall|j: int| b - a <= j < u.len() implies f(#[trigger] u[j]) by {
            assert(u[j] == s@[a + j]);
        }
        lemma_trim_end_by(u, f, b - a);
        assert(u.subrange(0, b - a) =~= s@.subrange(a as int, b as int));
    }
    (a, b)
}

/// The bounds, within `s`, of `s[lo..hi]` trimmed of the character `q`.
pub fn trim_char_bounds(s: &Vec<char>, lo: usize, hi: usize, q: char) -> (r: (usize, usize))
    requires
        lo <= hi <= s.len(),
    ensures
        lo <= r.0 <= r.1 <= hi,
        s@.subrange(r.0 as int, r.1 as int) == trim_char(s@.subrange(lo as int, hi as int), q),
{
    let ghost f = equals_char(q);
    let ghost t = s@.subrange(lo as int, hi as int);
    let mut a = lo;
    while a < hi && s[a] == q
        invariant
            lo <= a <= hi <= s.len(),
            forall|j: int| lo <= j < a ==> #[trigger] s@[j] == q,
        decreases hi - a,
    {
        a = a + 1;
    }
    let mut b = hi;
    while b > a && s[b - 1] == q
        invariant
            a <= b <= hi <= s.len(),
            forall|j: int| b <= j < hi ==> #[trigger] s@[j] == q,
        decreases b,
    {
        b = b - 1;
    }
    proof {
        assert forall|j: int| 0 <= j < a - lo implies f(#[trigger] t[j]) by {
            assert(t[j] == s@[lo + j]);
        }
        lemma_trim_start_by(t, f, a - lo);
        let u = t.subrange(a - lo, t.len() as int);
        assert(u =~= s@.subrange(a as int, hi as int));
        assert forall|j: int| b - a <= j < u.len() implies f(#[trigger] u[j]) by {
            assert(u[j] == s@[a + j]);
        }
        lemma_trim_end_by(u, f, b - a);
        assert(u.subrange(0, b - a) =~= s@.subrange(a as int, b as int));
    }
    (a, b)
}

} // verus!
