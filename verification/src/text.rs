//! Text operations: path components, words and decimal numbers.

use vstd::prelude::*;

verus! {

/// White space by the Unicode property of that name.
pub open spec fn is_white(c: char) -> bool {
    let n = c as u32;
    ||| 9 <= n <= 13
    ||| n == 0x20
    ||| n == 0x85
    ||| n == 0xa0
    ||| n == 0x1680
    ||| 0x2000 <= n <= 0x200a
    ||| n == 0x2028
    ||| n == 0x2029
    ||| n == 0x202f
    ||| n == 0x205f
    ||| n == 0x3000
}

/// ASCII white space: tab, line feed, form feed, carriage return and blank.
pub open spec fn is_ascii_white(c: char) -> bool {
    let n = c as u32;
    n == 9 || n == 10 || n == 12 || n == 13 || n == 0x20
}

/// Tells whether a character is white space.
pub fn white(c: char) -> (r: bool)
    ensures
        r == is_white(c),
{
    let n: u32 = c as u32;
    (9 <= n && n <= 13) || n == 0x20 || n == 0x85 || n == 0xa0 || n == 0x1680 || (0x2000 <= n && n
        <= 0x200a) || n == 0x2028 || n == 0x2029 || n == 0x202f || n == 0x205f || n == 0x3000
}

/// Tells whether a character is ASCII white space.
pub fn ascii_white(c: char) -> (r: bool)
    ensures
        r == is_ascii_white(c),
{
    let n: u32 = c as u32;
    n == 9 || n == 10 || n == 12 || n == 13 || n == 0x20
}

/// The characters of a text.
pub fn chars_of(s: &str) -> (r: Vec<char>)
    ensures
        r@ == s@,
{
    let n: usize = s.unicode_len();
    let mut out: Vec<char> = Vec::new();
    let mut i: usize = 0;
    while i < n
        invariant
            n == s@.len(),
            i <= n,
            out@ == s@.take(i as int),
        decreases n - i,
    {
        out.push(s.get_char(i));
        i = i + 1;
        proof {
            assert(out@ =~= s@.take(i as int));
        }
    }
    proof {
        assert(s@.take(i as int) =~= s@);
    }
    out
}

/// The end of the first stretch from `from` on whose characters satisfy `p`.
pub open spec fn span_end(s: Seq<char>, p: spec_fn(char) -> bool, from: int) -> int
    decreases s.len() - from,
{
    if 0 <= from < s.len() && p(s[from]) {
        span_end(s, p, from + 1)
    } else {
        from
    }
}

/// A stretch ends within the text and its characters satisfy `p`.
pub proof fn span_end_bounds(s: Seq<char>, p: spec_fn(char) -> bool, from: int)
    requires
        0 <= from <= s.len(),
    ensures
        from <= span_end(s, p, from) <= s.len(),
        forall|k: int| from <= k < span_end(s, p, from) ==> p(#[trigger] s[k]),
        span_end(s, p, from) < s.len() ==> !p(s[span_end(s, p, from)]),
    decreases s.len() - from,
{
    if from < s.len() && p(s[from]) {
        span_end_bounds(s, p, from + 1);
    }
}

/// The first word from `from` on: after leading characters that satisfy `sep`,
/// up to the next that does; no word is left if only such characters are.
pub open spec fn word_bounds(s: Seq<char>, sep: spec_fn(char) -> bool, from: int) -> Option<(int, int)> {
    let start = span_end(s, sep, from);
    if start >= s.len() {
        None
    } else {
        Some((start, span_end(s, |c: char| !sep(c), start)))
    }
}

/// White space, all of it or only ASCII.
pub open spec fn is_blank(ascii: bool, c: char) -> bool {
    (ascii && is_ascii_white(c)) || (!ascii && is_white(c))
}

/// White space as a predicate.
pub open spec fn blank_pred(ascii: bool) -> spec_fn(char) -> bool {
    |c: char| is_blank(ascii, c)
}

fn blank(c: char, ascii: bool) -> (r: bool)
    ensures
        r == is_blank(ascii, c),
{
    if ascii {
        ascii_white(c)
    } else {
        white(c)
    }
}

/// The first word from `from` on.
pub fn next_word(s: &Vec<char>, ascii: bool, from: usize) -> (r: Option<(usize, usize)>)
    requires
        from <= s@.len(),
    ensures
        match r {
            Some((a, b)) => word_bounds(s@, blank_pred(ascii), from as int) == Some(
                (a as int, b as int),
            ) && from <= a < b <= s@.len(),
            None => word_bounds(s@, blank_pred(ascii), from as int) is None,
        },
{
    let ghost sep = blank_pred(ascii);
    let ghost other = |c: char| !sep(c);
    let mut a: usize = from;
    while a < s.len() && blank(s[a], ascii)
        invariant
            from <= a <= s@.len(),
            sep == blank_pred(ascii),
            span_end(s@, sep, from as int) == span_end(s@, sep, a as int),
        decreases s@.len() - a,
    {
        a = a + 1;
    }
    if a >= s.len() {
        return None;
    }
    let mut b: usize = a;
    while b < s.len() && !blank(s[b], ascii)
        invariant
            from <= a <= b <= s@.len(),
            a < s@.len(),
            !sep(s@[a as int]),
            sep == blank_pred(ascii),
            other == (|c: char| !sep(c)),
            span_end(s@, other, a as int) == span_end(s@, other, b as int),
        decreases s@.len() - b,
    {
        b = b + 1;
    }
    proof {
        span_end_bounds(s@, other, a as int);
        assert(other(s@[a as int]));
        assert(span_end(s@, other, a as int) >= a + 1) by {
            span_end_bounds(s@, other, a + 1);
        }
    }
    Some((a, b))
}

/// Where the last path component starts.
pub open spec fn component_start(s: Seq<char>) -> int
    decreases s.len(),
{
    if s.len() == 0 || s.last() == '/' {
        s.len() as int
    } else {
        component_start(s.drop_last())
    }
}

/// The last component of a path.
pub open spec fn last_component(s: Seq<char>) -> Seq<char> {
    s.subrange(component_start(s), s.len() as int)
}

proof fn component_start_bounds(s: Seq<char>)
    ensures
        0 <= component_start(s) <= s.len(),
    decreases s.len(),
{
    if s.len() > 0 && s.last() != '/' {
        component_start_bounds(s.drop_last());
    }
}

/// The last component of a path.
pub fn basename(path: &str) -> (r: String)
    ensures
        r@ == last_component(path@),
{
    let s = chars_of(path);
    let mut start: usize = s.len();
    while start > 0 && s[start - 1] != '/'
        invariant
            start <= s@.len(),
            s@ == path@,
            component_start(s@) == component_start(s@.take(start as int)) || start == s@.len(),
            start == s@.len() ==> s@.take(start as int) =~= s@,
        decreases start,
    {
        proof {
            assert(s@.take(start as int).drop_last() =~= s@.take(start - 1));
            assert(s@.take(start as int).last() == s@[start - 1]);
            assert(s@.take(s@.len() as int) =~= s@);
        }
        start = start - 1;
    }
    proof {
        assert(s@.take(s@.len() as int) =~= s@);
        let t = s@.take(start as int);
        assert(component_start(t) == start);
    }
    path.substring_char(start, s.len()).to_owned()
}

/// `s` holds `t` at position `i`.
pub open spec fn holds_at(s: Seq<char>, t: Seq<char>, i: int) -> bool {
    0 <= i && i + t.len() <= s.len() && s.subrange(i, i + t.len()) == t
}

/// `s` holds `t` somewhere.
pub open spec fn holds(s: Seq<char>, t: Seq<char>) -> bool {
    exists|i: int| holds_at(s, t, i)
}

fn matches_at(s: &Vec<char>, t: &Vec<char>, i: usize) -> (r: bool)
    requires
        i + t@.len() <= s@.len(),
    ensures
        r == holds_at(s@, t@, i as int),
{
    let n: usize = s.len();
    let mut k: usize = 0;
    while k < t.len()
        invariant
            n == s@.len(),
            i + t@.len() <= n,
            k <= t@.len(),
            forall|j: int| 0 <= j < k ==> s@[i + j] == t@[j],
        decreases t@.len() - k,
    {
        if s[i + k] != t[k] {
            proof {
                let u = s@.subrange(i as int, i + t@.len());
                assert(u[k as int] == s@[i + k]);
            }
            return false;
        }
        k = k + 1;
    }
    assert(s@.subrange(i as int, i + t@.len()) =~= t@);
    true
}

/// Tells whether `text` holds `part`.
pub fn contains_text(text: &str, part: &str) -> (r: bool)
    ensures
        r == holds(text@, part@),
{
    let s = chars_of(text);
    let t = chars_of(part);
    if t.len() > s.len() {
        return false;
    }
    let last: usize = s.len() - t.len();
    let mut i: usize = 0;
    while i <= last
        invariant
            s@ == text@,
            t@ == part@,
            t@.len() <= s@.len(),
            last == s@.len() - t@.len(),
            i <= last + 1,
            forall|j: int| 0 <= j < i ==> !holds_at(s@, t@, j),
        decreases last + 1 - i,
    {
        if matches_at(&s, &t, i) {
            return true;
        }
        if i == last {
            return false;
        }
        i = i + 1;
    }
    false
}

/// Tells whether `text` starts with `part`.
pub fn starts_with(text: &str, part: &str) -> (r: bool)
    ensures
        r == holds_at(text@, part@, 0),
{
    let s = chars_of(text);
    let t = chars_of(part);
    if t.len() > s.len() {
        return false;
    }
    matches_at(&s, &t, 0)
}

/// Tells whether two texts are equal.
pub fn same_text(a: &str, b: &str) -> (r: bool)
    ensures
        r == (a@ == b@),
{
    a.to_owned() == b.to_owned()
}

/// A word is not empty, has no separator in it, and lies between separators or the ends.
pub proof fn words_lie_between_separators(s: Seq<char>, sep: spec_fn(char) -> bool, from: int)
    requires
        0 <= from <= s.len(),
    ensures
        word_bounds(s, sep, from) matches Some((a, b)) ==> {
            &&& from <= a < b <= s.len()
            &&& forall|k: int| from <= k < a ==> sep(#[trigger] s[k])
            &&& forall|k: int| a <= k < b ==> !sep(#[trigger] s[k])
            &&& b < s.len() ==> sep(s[b])
        },
        word_bounds(s, sep, from) is None ==> forall|k: int|
            from <= k < s.len() ==> sep(#[trigger] s[k]),
{
    span_end_bounds(s, sep, from);
    let a = span_end(s, sep, from);
    if a < s.len() {
        let other = |c: char| !sep(c);
        span_end_bounds(s, other, a);
        assert(other(s[a]));
        if span_end(s, other, a) == a {
            assert(false);
        }
        assert forall|k: int| a <= k < span_end(s, other, a) implies !sep(#[trigger] s[k]) by {
            assert(other(s[k]));
        }
    }
}

/// The last component of a path has no slash and is what follows the last one.
pub proof fn last_components_follow_the_last_slash(s: Seq<char>)
    ensures
        0 <= component_start(s) <= s.len(),
        !last_component(s).contains('/'),
        component_start(s) > 0 ==> s[component_start(s) - 1] == '/',
        s.take(component_start(s)) + last_component(s) =~= s,
    decreases s.len(),
{
    if s.len() > 0 && s.last() != '/' {
        last_components_follow_the_last_slash(s.drop_last());
        let t = last_component(s.drop_last());
        assert(last_component(s) =~= t.push(s.last()));
        if last_component(s).contains('/') {
            let i = choose|i: int| 0 <= i < last_component(s).len() && last_component(s)[i] == '/';
            if i < t.len() {
                assert(t[i] == '/');
            }
        }
    }
}

/// White space of the narrow kind is five characters, all of them of the wide kind too.
pub proof fn narrow_white_space_is_wide(c: char)
    ensures
        is_ascii_white(c) ==> is_white(c),
        is_ascii_white(c) == (c == ' ' || c == '\t' || c == '\n' || c == '\r' || c as u32 == 12),
        c as u32 == 11 ==> is_white(c) && !is_ascii_white(c),
        is_blank(true, c) == is_ascii_white(c) && is_blank(false, c) == is_white(c),
{
}

} // verus!
