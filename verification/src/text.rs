//! Character-level string helpers with exact contracts over `Seq<char>`.

use vstd::prelude::*;

verus! {

/// `c` lowered if it is an ASCII capital letter, unchanged otherwise.
pub open spec fn ascii_lower_char(c: char) -> char {
    if 'A' <= c && c <= 'Z' {
        ((c as u32) + 32) as char
    } else {
        c
    }
}

/// Every ASCII capital letter of `s` lowered, every other character kept.
pub open spec fn ascii_lower(s: Seq<char>) -> Seq<char> {
    s.map_values(|c: char| ascii_lower_char(c))
}

/// Lowers one character the way `char::to_ascii_lowercase` does.
pub fn lower_char(c: char) -> (r: char)
    ensures
        r == ascii_lower_char(c),
{
    if 'A' <= c && c <= 'Z' {
        let b: u8 = (c as u32 + 32) as u8;
        b as char
    } else {
        c
    }
}

} // verus!

verus! {

/// Whether two strings hold the same characters.
pub fn text_eq(a: &str, b: &str) -> (r: bool)
    ensures
        r == (a@ == b@),
{
    let n = a.unicode_len();
    if n != b.unicode_len() {
        return false;
    }
    let mut i: usize = 0;
    while i < n
        invariant
            n == a@.len(),
            n == b@.len(),
            i <= n,
            forall|k: int| 0 <= k < i ==> a@[k] == b@[k],
        decreases n - i,
    {
        if a.get_char(i) != b.get_char(i) {
            return false;
        }
        i = i + 1;
    }
    assert(a@ =~= b@);
    true
}

/// `i` is the position of the first `c` in `s`.
pub open spec fn is_first_index(s: Seq<char>, c: char, i: int) -> bool {
    &&& 0 <= i < s.len()
    &&& s[i] == c
    &&& forall|k: int| 0 <= k < i ==> s[k] != c
}

/// Position of the first `c` in `s`, if `s` holds one.
pub fn find_char(s: &str, c: char) -> (r: Option<usize>)
    ensures
        match r {
            Some(i) => is_first_index(s@, c, i as int),
            None => !s@.contains(c),
        },
{
    let n = s.unicode_len();
    let mut i: usize = 0;
    while i < n
        invariant
            n == s@.len(),
            i <= n,
            forall|k: int| 0 <= k < i ==> s@[k] != c,
        decreases n - i,
    {
        if s.get_char(i) == c {
            return Some(i);
        }
        i = i + 1;
    }
    assert forall|k: int| 0 <= k < s@.len() implies s@[k] != c by {}
    None
}

/// The part of `s` before its first `c` and the part after it, or `None` when `s` has no `c`.
pub open spec fn split_at_first(s: Seq<char>, c: char) -> Option<(Seq<char>, Seq<char>)> {
    if s.contains(c) {
        let i = choose|i: int| is_first_index(s, c, i);
        Some((s.subrange(0, i), s.subrange(i + 1, s.len() as int)))
    } else {
        None
    }
}

/// There is only one first position of a character.
pub proof fn lemma_first_index_unique(s: Seq<char>, c: char, i: int, j: int)
    requires
        is_first_index(s, c, i),
        is_first_index(s, c, j),
    ensures
        i == j,
{
}

/// Splits `s` at its first `c`, as `str::split_once` does with a character pattern.
pub fn split_once_char<'a>(s: &'a str, c: char) -> (r: Option<(&'a str, &'a str)>)
    ensures
        match r {
            Some((a, b)) => split_at_first(s@, c) == Some((a@, b@)),
            None => split_at_first(s@, c) is None,
        },
{
    match find_char(s, c) {
        Some(i) => {
            let n = s.unicode_len();
            let a = s.substring_char(0, i);
            let b = s.substring_char(i + 1, n);
            proof {
                assert(s@[i as int] == c);
                assert(s@.contains(c));
                let j = choose|j: int| is_first_index(s@, c, j);
                lemma_first_index_unique(s@, c, i as int, j);
            }
            Some((a, b))
        },
        None => None,
    }
}

/// `prefix` opens `s`.
pub open spec fn has_prefix(s: Seq<char>, prefix: Seq<char>) -> bool {
    prefix.len() <= s.len() && s.subrange(0, prefix.len() as int) == prefix
}

/// Whether `s` begins with `prefix`.
pub fn starts_with(s: &str, prefix: &str) -> (r: bool)
    ensures
        r == has_prefix(s@, prefix@),
{
    let n = s.unicode_len();
    let m = prefix.unicode_len();
    if m > n {
        return false;
    }
    let head = s.substring_char(0, m);
    text_eq(head, prefix)
}

/// `s` without `prefix`, when `s` begins with it.
pub fn strip_prefix<'a>(s: &'a str, prefix: &str) -> (r: Option<&'a str>)
    ensures
        match r {
            Some(rest) => has_prefix(s@, prefix@) && rest@ == s@.subrange(
                prefix@.len() as int,
                s@.len() as int,
            ),
            None => !has_prefix(s@, prefix@),
        },
{
    if starts_with(s, prefix) {
        let n = s.unicode_len();
        let m = prefix.unicode_len();
        Some(s.substring_char(m, n))
    } else {
        None
    }
}

/// Appends one character to a string.
#[verifier::external_body]
pub fn push_char(s: &mut String, c: char)
    ensures
        final(s)@ == old(s)@.push(c),
{
    s.push(c);
}

/// A new string holding the characters of `s`.
pub fn to_string(s: &str) -> (r: String)
    ensures
        r@ == s@,
{
    String::from_str(s)
}

/// `a` followed by `b`, as a new string.
pub fn concat(a: &str, b: &str) -> (r: String)
    ensures
        r@ == a@ + b@,
{
    let mut r = String::from_str(a);
    r.append(b);
    r
}

/// A copy of `s` with ASCII capitals lowered, as `str::to_ascii_lowercase` gives.
pub fn to_ascii_lowercase(s: &str) -> (r: String)
    ensures
        r@ == ascii_lower(s@),
{
    let n = s.unicode_len();
    let mut r = String::new();
    let mut i: usize = 0;
    while i < n
        invariant
            n == s@.len(),
            i <= n,
            r@ == ascii_lower(s@.subrange(0, i as int)),
        decreases n - i,
    {
        let c = s.get_char(i);
        push_char(&mut r, lower_char(c));
        assert(s@.subrange(0, i + 1) == s@.subrange(0, i as int).push(c));
        i = i + 1;
    }
    assert(s@.subrange(0, n as int) == s@);
    r
}

/// `c` has the Unicode `White_Space` property (the characters `char::is_whitespace` accepts).
pub open spec fn is_white_space(c: char) -> bool {
    ||| ('\u{9}' <= c && c <= '\u{d}')
    ||| c == ' '
    ||| c == '\u{85}'
    ||| c == '\u{a0}'
    ||| c == '\u{1680}'
    ||| ('\u{2000}' <= c && c <= '\u{200a}')
    ||| c == '\u{2028}'
    ||| c == '\u{2029}'
    ||| c == '\u{202f}'
    ||| c == '\u{205f}'
    ||| c == '\u{3000}'
}

/// Whether `c` is white space.
pub fn white_space(c: char) -> (r: bool)
    ensures
        r == is_white_space(c),
{
    ('\u{9}' <= c && c <= '\u{d}') || c == ' ' || c == '\u{85}' || c == '\u{a0}' || c
        == '\u{1680}' || ('\u{2000}' <= c && c <= '\u{200a}') || c == '\u{2028}' || c
        == '\u{2029}' || c == '\u{202f}' || c == '\u{205f}' || c == '\u{3000}'
}

/// `s[i..j]` is `s` with leading and trailing white space removed.
pub open spec fn is_trim_range(s: Seq<char>, i: int, j: int) -> bool {
    &&& 0 <= i <= j <= s.len()
    &&& forall|k: int| 0 <= k < i ==> is_white_space(#[trigger] s[k])
    &&& forall|k: int| j <= k < s.len() ==> is_white_space(#[trigger] s[k])
    &&& i < j ==> !is_white_space(s[i]) && !is_white_space(s[j - 1])
}

/// `t` is `s` with leading and trailing white space removed.
pub open spec fn is_trim_of(t: Seq<char>, s: Seq<char>) -> bool {
    exists|i: int, j: int| is_trim_range(s, i, j) && t == s.subrange(i, j)
}

/// Only one string is `s` trimmed.
pub proof fn lemma_trim_unique(s: Seq<char>, t1: Seq<char>, t2: Seq<char>)
    requires
        is_trim_of(t1, s),
        is_trim_of(t2, s),
    ensures
        t1 == t2,
{
    let (i1, j1) = choose|i: int, j: int| is_trim_range(s, i, j) && t1 == s.subrange(i, j);
    let (i2, j2) = choose|i: int, j: int| is_trim_range(s, i, j) && t2 == s.subrange(i, j);
    if i1 < j1 && i2 < j2 {
        if i1 < i2 {
            assert(is_white_space(s[i1]));
        }
        if i2 < i1 {
            assert(is_white_space(s[i2]));
        }
        if j1 < j2 {
            assert(is_white_space(s[j2 - 1]));
        }
        if j2 < j1 {
            assert(is_white_space(s[j1 - 1]));
        }
        assert(t1 =~= t2);
    } else if i1 < j1 {
        assert(is_white_space(s[i1]));
    } else if i2 < j2 {
        assert(is_white_space(s[i2]));
    } else {
        assert(t1 =~= t2);
    }
}

/// `s` with leading and trailing white space removed, as `str::trim` gives.
pub fn trim(s: &str) -> (r: &str)
    ensures
        is_trim_of(r@, s@),
{
    let n = s.unicode_len();
    let mut i: usize = 0;
    while i < n && white_space(s.get_char(i))
        invariant
            n == s@.len(),
            i <= n,
            forall|k: int| 0 <= k < i ==> is_white_space(#[trigger] s@[k]),
        decreases n - i,
    {
        i = i + 1;
    }
    let mut j: usize = n;
    while j > i && white_space(s.get_char(j - 1))
        invariant
            n == s@.len(),
            i <= j <= n,
            forall|k: int| j <= k < n ==> is_white_space(#[trigger] s@[k]),
            i < n ==> !is_white_space(s@[i as int]),
        decreases j - i,
    {
        j = j - 1;
    }
    let r = s.substring_char(i, j);
    assert(is_trim_range(s@, i as int, j as int));
    r
}

} // verus!
