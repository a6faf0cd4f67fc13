use vstd::prelude::*;

verus! {

/// Whether `char::is_whitespace` holds of a character (Unicode `White_Space`).
pub uninterp spec fn is_white_space(c: char) -> bool;

/// Relies on `char::is_whitespace`, which depends on the character alone.
#[verifier::external_body]
fn is_whitespace(c: char) -> (r: bool)
    ensures
        r == is_white_space(c),
{
    c.is_whitespace()
}

/// Relies on `String`'s `FromIterator<char>`: the string holds the chars in order.
#[verifier::external_body]
pub(crate) fn string_from_chars(v: &Vec<char>, from: usize, to: usize) -> (r: String)
    requires
        from <= to <= v@.len(),
    ensures
        r@ == v@.subrange(from as int, to as int),
{
    v[from..to].iter().collect()
}

/// Whether two strings hold the same characters.
pub fn same_text(a: &str, b: &str) -> (r: bool)
    ensures
        r == (a@ == b@),
{
    String::from_str(a) == String::from_str(b)
}

/// The characters of `s`, in order.
pub fn chars_of(s: &str) -> (r: Vec<char>)
    ensures
        r@ == s@,
{
    let mut r: Vec<char> = Vec::new();
    for c in it: s.chars()
        invariant
            it.seq() == s@,
            r@ == s@.subrange(0, it.index() as int),
    {
        r.push(c);
    }
    assert(r@ =~= s@);
    r
}

/// `s` without its leading whitespace.
pub open spec fn trim_start(s: Seq<char>) -> Seq<char>
    decreases s.len(),
{
    if s.len() > 0 && is_white_space(s[0]) {
        trim_start(s.drop_first())
    } else {
        s
    }
}

/// `s` without its trailing whitespace.
pub open spec fn trim_end(s: Seq<char>) -> Seq<char>
    decreases s.len(),
{
    if s.len() > 0 && is_white_space(s.last()) {
        trim_end(s.drop_last())
    } else {
        s
    }
}

/// `s` without leading and trailing whitespace.
pub open spec fn trim(s: Seq<char>) -> Seq<char> {
    trim_end(trim_start(s))
}

/// Index of the first line feed at or after `i`, or the length of `s` if there is none.
pub open spec fn line_end(s: Seq<char>, i: nat) -> nat
    decreases s.len() - i,
{
    if i >= s.len() {
        s.len()
    } else if s[i as int] == '\n' {
        i
    } else {
        line_end(s, i + 1)
    }
}

/// The first line of `s`, without its line ending (`\n` or `\r\n`).
pub open spec fn first_line(s: Seq<char>) -> Seq<char> {
    let e = line_end(s, 0) as int;
    if 0 < e < s.len() && s[e - 1] == '\r' {
        s.subrange(0, e - 1)
    } else {
        s.subrange(0, e)
    }
}

/// What follows the first line ending of `s` (empty if `s` is one line).
pub open spec fn after_first_line(s: Seq<char>) -> Seq<char> {
    let e = line_end(s, 0) as int;
    if e < s.len() {
        s.subrange(e + 1, s.len() as int)
    } else {
        Seq::empty()
    }
}

/// `s` with each `\r\n` line ending written as `\n`: the lines of `s` joined by `\n`.
pub open spec fn unify_line_endings(s: Seq<char>) -> Seq<char>
    decreases s.len(),
{
    if s.len() == 0 {
        s
    } else if s.len() >= 2 && s[0] == '\r' && s[1] == '\n' {
        seq!['\n'] + unify_line_endings(s.subrange(2, s.len() as int))
    } else {
        seq![s[0]] + unify_line_endings(s.subrange(1, s.len() as int))
    }
}

/// Title used when the source has no usable first line.
pub open spec fn fallback_title() -> Seq<char> {
    "載入失敗"@
}

/// Markdown used when the source has no usable first line.
pub open spec fn fallback_markdown() -> Seq<char> {
    "請回上一頁"@
}

/// The first line holds a two-character prefix before the title.
pub open spec fn has_title_line(s: Seq<char>) -> bool {
    first_line(s).len() >= 2
}

/// The title of an article source: its first line after the two-character prefix.
pub open spec fn article_title(s: Seq<char>) -> Seq<char> {
    if has_title_line(s) {
        first_line(s).subrange(2, first_line(s).len() as int)
    } else {
        fallback_title()
    }
}

/// The markdown body of an article source: the lines after the first, joined and trimmed.
pub open spec fn article_markdown(s: Seq<char>) -> Seq<char> {
    if has_title_line(s) {
        trim(unify_line_endings(after_first_line(s)))
    } else {
        fallback_markdown()
    }
}

/// Index of the first line feed of `v` at or after `from`.
fn find_line_end(v: &Vec<char>, from: usize) -> (e: usize)
    requires
        from <= v@.len(),
    ensures
        e == line_end(v@, from as nat),
        from <= e <= v@.len(),
{
    let n = v.len();
    let mut e: usize = from;
    while e < n && v[e] != '\n'
        invariant
            from <= e <= n,
            n == v@.len(),
            line_end(v@, from as nat) == line_end(v@, e as nat),
        decreases n - e,
    {
        e = e + 1;
    }
    e
}

/// The characters of `v` from `from` on, with `\r\n` written as `\n`.
fn unify_from(v: &Vec<char>, from: usize) -> (r: Vec<char>)
    requires
        from <= v@.len(),
    ensures
        r@ == unify_line_endings(v@.subrange(from as int, v@.len() as int)),
{
    let n = v.len();
    let ghost whole = v@.subrange(from as int, n as int);
    let mut r: Vec<char> = Vec::new();
    let mut i: usize = from;
    while i < n
        invariant
            from <= i <= n,
            n == v@.len(),
            whole == v@.subrange(from as int, n as int),
            unify_line_endings(whole) == r@ + unify_line_endings(v@.subrange(i as int, n as int)),
        decreases n - i,
    {
        let ghost rest = v@.subrange(i as int, n as int);
        if i + 1 < n && v[i] == '\r' && v[i + 1] == '\n' {
            assert(rest.subrange(2, rest.len() as int) =~= v@.subrange(i + 2, n as int));
            r.push('\n');
            i = i + 2;
        } else {
            assert(rest.subrange(1, rest.len() as int) =~= v@.subrange(i + 1, n as int));
            r.push(v[i]);
            i = i + 1;
        }
        assert(unify_line_endings(rest) == seq![r@.last()] + unify_line_endings(
            v@.subrange(i as int, n as int),
        ));
        assert(r@ + unify_line_endings(v@.subrange(i as int, n as int)) =~= r@.drop_last() + (
        seq![r@.last()] + unify_line_endings(v@.subrange(i as int, n as int))));
    }
    assert(v@.subrange(i as int, n as int) =~= Seq::<char>::empty());
    assert(r@ + Seq::<char>::empty() =~= r@);
    r
}

/// Bounds of `v` without its leading and trailing whitespace.
fn trim_bounds(v: &Vec<char>) -> (r: (usize, usize))
    ensures
        r.0 <= r.1 <= v@.len(),
        v@.subrange(r.0 as int, r.1 as int) == trim(v@),
{
    let n = v.len();
    let mut a: usize = 0;
    assert(v@.subrange(0, n as int) =~= v@);
    while a < n && is_whitespace(v[a])
        invariant
            a <= n,
            n == v@.len(),
            trim_start(v@) == trim_start(v@.subrange(a as int, n as int)),
        decreases n - a,
    {
        assert(v@.subrange(a as int, n as int).drop_first() =~= v@.subrange(a + 1, n as int));
        a = a + 1;
    }
    let mut b: usize = n;
    while b > a && is_whitespace(v[b - 1])
        invariant
            a <= b <= n,
            n == v@.len(),
            trim_start(v@) == v@.subrange(a as int, n as int),
            trim(v@) == trim_end(v@.subrange(a as int, b as int)),
        decreases b - a,
    {
        assert(v@.subrange(a as int, b as int).drop_last() =~= v@.subrange(a as int, b - 1));
        b = b - 1;
    }
    (a, b)
}

/// Splits an article source into its title and its markdown body.
///
/// The first line holds a two-character prefix and then the title; the lines
/// after it, joined by `\n` and trimmed, are the body. A source whose first
/// line is shorter than the prefix gets a fixed title and body instead.
pub fn split_article(raw: &str) -> (r: (String, String))
    ensures
        r.0@ == article_title(raw@),
        r.1@ == article_markdown(raw@),
{
    let v = chars_of(raw);
    let n = v.len();
    let e = find_line_end(&v, 0);
    let first_end: usize = if 0 < e && e < n && v[e - 1] == '\r' {
        e - 1
    } else {
        e
    };
    assert(first_line(v@) =~= v@.subrange(0, first_end as int));
    if first_end < 2 {
        return (String::from_str("載入失敗"), String::from_str("請回上一頁"));
    }
    let title = string_from_chars(&v, 2, first_end);
    assert(article_title(v@) =~= v@.subrange(2, first_end as int));
    let rest_start: usize = if e < n {
        e + 1
    } else {
        n
    };
    assert(after_first_line(v@) =~= v@.subrange(rest_start as int, n as int));
    let body = unify_from(&v, rest_start);
    let (a, b) = trim_bounds(&body);
    (title, string_from_chars(&body, a, b))
}

} // verus!
