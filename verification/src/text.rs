//! Character-level helpers: conversion between strings and character
//! vectors, whitespace trimming, prefixes and suffixes, and splitting at a
//! separator.
//!
//! Specifications are stated over `Seq<char>`, the view of `str` and `String`.

use vstd::prelude::*;

verus! {

/// Unicode `White_Space`: the characters that trimming removes.
pub open spec fn is_whitespace(c: char) -> bool {
    ||| '\u{0009}' <= c <= '\u{000D}'
    ||| c == '\u{0020}'
    ||| c == '\u{0085}'
    ||| c == '\u{00A0}'
    ||| c == '\u{1680}'
    ||| '\u{2000}' <= c <= '\u{200A}'
    ||| c == '\u{2028}'
    ||| c == '\u{2029}'
    ||| c == '\u{202F}'
    ||| c == '\u{205F}'
    ||| c == '\u{3000}'
}

/// `s` without its leading whitespace.
pub open spec fn trim_start(s: Seq<char>) -> Seq<char>
    decreases s.len(),
{
    if s.len() > 0 && is_whitespace(s[0]) {
        trim_start(s.drop_first())
    } else {
        s
    }
}

/// `s` without its trailing whitespace.
pub open spec fn trim_end(s: Seq<char>) -> Seq<char>
    decreases s.len(),
{
    if s.len() > 0 && is_whitespace(s.last()) {
        trim_end(s.drop_last())
    } else {
        s
    }
}

/// `s` without leading and trailing whitespace.
pub open spec fn trimmed(s: Seq<char>) -> Seq<char> {
    trim_end(trim_start(s))
}

/// The number of characters of `s` before the first `sep`, or the length of
/// `s` when it holds no `sep`.
pub open spec fn segment_len(s: Seq<char>, sep: char) -> nat
    decreases s.len(),
{
    if s.len() == 0 || s[0] == sep {
        0
    } else {
        1 + segment_len(s.drop_first(), sep)
    }
}

/// `s` with every trailing repetition of `suffix` removed.
pub open spec fn strip_trailing(s: Seq<char>, suffix: Seq<char>) -> Seq<char>
    decreases s.len(),
{
    if suffix.len() > 0 && suffix.is_suffix_of(s) {
        strip_trailing(s.take(s.len() - suffix.len()), suffix)
    } else {
        s
    }
}

/// Whether `c` stands nowhere in `s`.
pub open spec fn free_of(s: Seq<char>, c: char) -> bool {
    forall|i: int| 0 <= i < s.len() ==> s[i] != c
}

/// What stands before the first separator holds no separator.
pub proof fn lemma_segment_is_free(s: Seq<char>, sep: char)
    ensures
        segment_len(s, sep) <= s.len(),
        free_of(s.take(segment_len(s, sep) as int), sep),
    decreases s.len(),
{
    if s.len() > 0 && s[0] != sep {
        let rest = s.drop_first();
        lemma_segment_is_free(rest, sep);
        let n = segment_len(rest, sep) as int;
        let head = s.take(n + 1);
        assert forall|i: int| 0 <= i < head.len() implies head[i] != sep by {
            if i > 0 {
                assert(rest.take(n)[i - 1] == s[i]);
            }
        }
    }
}

/// Trimming brings no character in.
pub proof fn lemma_trim_stays_free(s: Seq<char>, c: char)
    requires
        free_of(s, c),
    ensures
        free_of(trim_start(s), c),
        free_of(trim_end(s), c),
        free_of(trimmed(s), c),
{
    lemma_trim_start_stays_free(s, c);
    lemma_trim_end_stays_free(s, c);
    lemma_trim_end_stays_free(trim_start(s), c);
}

/// Trimming the start brings no character in.
proof fn lemma_trim_start_stays_free(s: Seq<char>, c: char)
    requires
        free_of(s, c),
    ensures
        free_of(trim_start(s), c),
    decreases s.len(),
{
    if s.len() > 0 && is_whitespace(s[0]) {
        let tail = s.drop_first();
        assert forall|i: int| 0 <= i < tail.len() implies tail[i] != c by {
            assert(tail[i] == s[i + 1]);
        }
        lemma_trim_start_stays_free(tail, c);
    }
}

/// Trimming the end brings no character in.
proof fn lemma_trim_end_stays_free(s: Seq<char>, c: char)
    requires
        free_of(s, c),
    ensures
        free_of(trim_end(s), c),
    decreases s.len(),
{
    if s.len() > 0 && is_whitespace(s.last()) {
        let init = s.drop_last();
        assert forall|i: int| 0 <= i < init.len() implies init[i] != c by {
            assert(init[i] == s[i]);
        }
        lemma_trim_end_stays_free(init, c);
    }
}

/// Dropping a suffix brings no character in.
pub proof fn lemma_strip_stays_free(s: Seq<char>, suffix: Seq<char>, c: char)
    requires
        free_of(s, c),
    ensures
        free_of(strip_trailing(s, suffix), c),
    decreases s.len(),
{
    if suffix.len() > 0 && suffix.is_suffix_of(s) {
        let kept = s.take(s.len() - suffix.len());
        assert forall|i: int| 0 <= i < kept.len() implies kept[i] != c by {
            assert(kept[i] == s[i]);
        }
        lemma_strip_stays_free(kept, suffix, c);
    }
}

/// Appends one character to `s` with [`String::push`], which puts the
/// character at the end of the string and leaves the rest as it was.
#[verifier::external_body]
pub(crate) fn push_char(s: &mut String, c: char)
    ensures
        final(s)@ == old(s)@.push(c),
{
    s.push(c);
}

/// The characters of `s`, in order.
pub fn chars_of(s: &str) -> (v: Vec<char>)
    ensures
        v@ == s@,
{
    let mut v: Vec<char> = Vec::new();
    for c in it: s.chars()
        invariant
            it.seq() == s@,
            v@ == it.seq().take(it.index()),
    {
        v.push(c);
    }
    v
}

/// The string made of the characters `v[lo..hi]`.
pub fn string_of(v: &Vec<char>, lo: usize, hi: usize) -> (s: String)
    requires
        lo <= hi <= v.len(),
    ensures
        s@ == v@.subrange(lo as int, hi as int),
{
    let mut s = String::new();
    let mut i: usize = lo;
    while i < hi
        invariant
            lo <= i <= hi <= v.len(),
            s@ == v@.subrange(lo as int, i as int),
        decreases hi - i,
    {
        push_char(&mut s, v[i]);
        i += 1;
    }
    s
}

/// Whether `c` is whitespace.
pub fn is_whitespace_char(c: char) -> (b: bool)
    ensures
        b == is_whitespace(c),
{
    ('\u{0009}' <= c && c <= '\u{000D}') || c == '\u{0020}' || c == '\u{0085}' || c == '\u{00A0}'
        || c == '\u{1680}' || ('\u{2000}' <= c && c <= '\u{200A}') || c == '\u{2028}' || c
        == '\u{2029}' || c == '\u{202F}' || c == '\u{205F}' || c == '\u{3000}'
}

/// Whether `s` begins with `prefix`.
pub fn starts_with(s: &Vec<char>, prefix: &Vec<char>) -> (b: bool)
    ensures
        b == prefix@.is_prefix_of(s@),
{
    if prefix.len() > s.len() {
        return false;
    }
    let mut i: usize = 0;
    while i < prefix.len()
        invariant
            i <= prefix.len() <= s.len(),
            forall|j: int| 0 <= j < i ==> s@[j] == prefix@[j],
        decreases prefix.len() - i,
    {
        if s[i] != prefix[i] {
            return false;
        }
        i += 1;
    }
    assert(s@.subrange(0, prefix@.len() as int) =~= prefix@);
    true
}

/// Whether the first `len` characters of `s` end with `suffix`.
pub fn ends_with(s: &Vec<char>, len: usize, suffix: &Vec<char>) -> (b: bool)
    requires
        len <= s.len(),
    ensures
        b == suffix@.is_suffix_of(s@.take(len as int)),
{
    if suffix.len() > len {
        return false;
    }
    let start: usize = len - suffix.len();
    let ghost t = s@.take(len as int);
    let mut i: usize = 0;
    while i < suffix.len()
        invariant
            i <= suffix.len() <= len <= s.len(),
            start == len - suffix.len(),
            t == s@.take(len as int),
            forall|j: int| 0 <= j < i ==> s@[start + j] == suffix@[j],
        decreases suffix.len() - i,
    {
        if s[start + i] != suffix[i] {
            assert(t.subrange(t.len() - suffix@.len(), t.len() as int)[i as int] == s@[start + i]);
            return false;
        }
        i += 1;
    }
    assert(t.subrange(t.len() - suffix@.len(), t.len() as int) =~= suffix@);
    true
}

/// The bounds of `s[lo..hi]` without its leading and trailing whitespace.
pub fn trim_bounds(s: &Vec<char>, lo: usize, hi: usize) -> (r: (usize, usize))
    requires
        lo <= hi <= s.len(),
    ensures
        lo <= r.0 <= r.1 <= hi,
        s@.subrange(r.0 as int, r.1 as int) == trimmed(s@.subrange(lo as int, hi as int)),
{
    let ghost whole = s@.subrange(lo as int, hi as int);
    let mut a: usize = lo;
    while a < hi && is_whitespace_char(s[a])
        invariant
            lo <= a <= hi <= s.len(),
            trim_start(whole) == trim_start(s@.subrange(a as int, hi as int)),
        decreases hi - a,
    {
        assert(s@.subrange(a as int, hi as int).drop_first() =~= s@.subrange(a + 1, hi as int));
        a += 1;
    }
    let mut b: usize = hi;
    while b > a && is_whitespace_char(s[b - 1])
        invariant
            a <= b <= hi <= s.len(),
            trim_end(s@.subrange(a as int, hi as int)) == trim_end(
                s@.subrange(a as int, b as int),
            ),
        decreases b - a,
    {
        assert(s@.subrange(a as int, b as int).drop_last() =~= s@.subrange(a as int, b - 1));
        b -= 1;
    }
    (a, b)
}

/// Whether `s` is empty or holds whitespace only.
pub fn is_blank(s: &str) -> (b: bool)
    ensures
        b == (trimmed(s@).len() == 0),
{
    let chars = chars_of(s);
    let (lo, hi) = trim_bounds(&chars, 0, chars.len());
    assert(chars@.subrange(0, chars@.len() as int) =~= chars@);
    lo == hi
}

/// The index of the first `sep` in `s[lo..hi]`, or `hi` when there is none.
pub fn find_separator(s: &Vec<char>, lo: usize, hi: usize, sep: char) -> (i: usize)
    requires
        lo <= hi <= s.len(),
    ensures
        lo <= i <= hi,
        i - lo == segment_len(s@.subrange(lo as int, hi as int), sep),
{
    let mut i: usize = lo;
    while i < hi && s[i] != sep
        invariant
            lo <= i <= hi <= s.len(),
            segment_len(s@.subrange(lo as int, hi as int), sep) == (i - lo) + segment_len(
                s@.subrange(i as int, hi as int),
                sep,
            ),
        decreases hi - i,
    {
        assert(s@.subrange(i as int, hi as int).drop_first() =~= s@.subrange(i + 1, hi as int));
        i += 1;
    }
    i
}

/// The length of `s[..len]` once every trailing repetition of `suffix` is
/// taken away.
pub fn strip_trailing_len(s: &Vec<char>, len: usize, suffix: &Vec<char>) -> (n: usize)
    requires
        len <= s.len(),
        suffix.len() > 0,
    ensures
        n <= len,
        s@.take(n as int) == strip_trailing(s@.take(len as int), suffix@),
{
    let mut n: usize = len;
    while ends_with(s, n, suffix)
        invariant
            n <= len <= s.len(),
            suffix.len() > 0,
            strip_trailing(s@.take(len as int), suffix@) == strip_trailing(
                s@.take(n as int),
                suffix@,
            ),
        decreases n,
    {
        assert(s@.take(n as int).take(n - suffix.len()) =~= s@.take(n - suffix.len()));
        n -= suffix.len();
    }
    n
}

} // verus!
