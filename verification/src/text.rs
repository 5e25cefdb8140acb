//! Text as the system tools print it.
//!
//! A text is handled as a sequence of characters. Every operation is stated
//! as a spec function on `Seq<char>` and implemented on `&[char]`.

use vstd::prelude::*;
use vstd::slice::{slice_subrange, slice_to_vec};

verus! {

/// The characters of `s`, in order.
pub fn chars_of(s: &str) -> (out: Vec<char>)
    ensures
        out@ == s@,
{
    let mut out: Vec<char> = Vec::new();
    for c in it: s.chars()
        invariant
            out@ == it.seq().take(it.index()),
            it.seq() == s@,
    {
        out.push(c);
    }
    out
}

/// `String::from_iter` over the characters of a slice: the string made of
/// exactly these characters, in order.
#[verifier::external_body]
pub(crate) fn string_of(chars: &[char]) -> (out: String)
    ensures
        out@ == chars@,
{
    String::from_iter(chars.iter())
}

/// Tells whether two texts are the same.
pub fn equal(a: &[char], b: &[char]) -> (same: bool)
    ensures
        same == (a@ == b@),
{
    if a.len() != b.len() {
        return false;
    }
    let same = starts_with(a, b);
    proof {
        if same {
            assert(a@.subrange(0, b@.len() as int) == a@);
        }
    }
    same
}

/// Adds the characters of `s` at the end of `out`.
pub fn append_chars(out: &mut Vec<char>, s: &[char])
    ensures
        final(out)@ == old(out)@ + s@,
{
    let mut i: usize = 0;
    while i < s.len()
        invariant
            i <= s.len(),
            out@ == old(out)@ + s@.take(i as int),
        decreases s.len() - i,
    {
        out.push(s[i]);
        i += 1;
    }
    assert(s@.take(i as int) == s@);
}

/// Whether `c` is white space: the Unicode property `White_Space`.
pub open spec fn is_whitespace(c: char) -> bool {
    ||| '\u{9}' <= c <= '\u{d}'
    ||| c == ' '
    ||| c == '\u{85}'
    ||| c == '\u{a0}'
    ||| c == '\u{1680}'
    ||| '\u{2000}' <= c <= '\u{200a}'
    ||| c == '\u{2028}'
    ||| c == '\u{2029}'
    ||| c == '\u{202f}'
    ||| c == '\u{205f}'
    ||| c == '\u{3000}'
}

/// Tells whether `c` is white space.
pub fn char_is_whitespace(c: char) -> (b: bool)
    ensures
        b == is_whitespace(c),
{
    ('\u{9}' <= c && c <= '\u{d}') || c == ' ' || c == '\u{85}' || c == '\u{a0}' || c
        == '\u{1680}' || ('\u{2000}' <= c && c <= '\u{200a}') || c == '\u{2028}' || c
        == '\u{2029}' || c == '\u{202f}' || c == '\u{205f}' || c == '\u{3000}'
}

/// `s` without its leading white space.
pub open spec fn trim_start_of(s: Seq<char>) -> Seq<char>
    decreases s.len(),
{
    if s.len() > 0 && is_whitespace(s[0]) {
        trim_start_of(s.drop_first())
    } else {
        s
    }
}

/// `s` without its trailing white space.
pub open spec fn trim_end_of(s: Seq<char>) -> Seq<char>
    decreases s.len(),
{
    if s.len() > 0 && is_whitespace(s.last()) {
        trim_end_of(s.drop_last())
    } else {
        s
    }
}

/// `s` without leading and trailing white space.
pub open spec fn trim_of(s: Seq<char>) -> Seq<char> {
    trim_end_of(trim_start_of(s))
}

/// `s` without the run of `c` at its end.
pub open spec fn trim_end_matches_of(s: Seq<char>, c: char) -> Seq<char>
    decreases s.len(),
{
    if s.len() > 0 && s.last() == c {
        trim_end_matches_of(s.drop_last(), c)
    } else {
        s
    }
}

/// The text of a source that may be missing, trimmed; empty where it is
/// missing.
pub open spec fn trimmed_or_empty(content: Option<Seq<char>>) -> Seq<char> {
    match content {
        Some(text) => trim_of(text),
        None => Seq::empty(),
    }
}

/// A text that does not start with white space is not trimmed at its start.
pub proof fn lemma_trim_start_of_clean(s: Seq<char>)
    requires
        s.len() > 0 ==> !is_whitespace(s[0]),
    ensures
        trim_start_of(s) == s,
{
}

/// A text that does not end with white space is not trimmed at its end.
pub proof fn lemma_trim_end_of_clean(s: Seq<char>)
    requires
        s.len() > 0 ==> !is_whitespace(s.last()),
    ensures
        trim_end_of(s) == s,
{
}

/// Trimming at the start leaves the end of the text as it is, and no white
/// space at its start.
pub proof fn lemma_trim_start_of(s: Seq<char>)
    ensures
        trim_start_of(s).len() <= s.len(),
        trim_start_of(s) == s.skip(s.len() - trim_start_of(s).len()),
        trim_start_of(s).len() > 0 ==> !is_whitespace(trim_start_of(s)[0]),
        forall|i: int| 0 <= i < s.len() - trim_start_of(s).len() ==> is_whitespace(s[i]),
    decreases s.len(),
{
    if s.len() > 0 && is_whitespace(s[0]) {
        let rest = s.drop_first();
        lemma_trim_start_of(rest);
        let n = rest.len() - trim_start_of(rest).len();
        assert(rest.skip(n) == s.skip(n + 1));
        assert forall|i: int| 0 <= i < s.len() - trim_start_of(s).len() implies is_whitespace(
            s[i],
        ) by {
            if i > 0 {
                assert(s[i] == rest[i - 1]);
            }
        }
    } else {
        assert(s.skip(0) == s);
    }
}

/// Trimming at the end leaves the start of the text as it is, and no white
/// space at its end.
pub proof fn lemma_trim_end_of(s: Seq<char>)
    ensures
        trim_end_of(s).len() <= s.len(),
        trim_end_of(s) == s.take(trim_end_of(s).len() as int),
        trim_end_of(s).len() > 0 ==> !is_whitespace(trim_end_of(s).last()),
        forall|i: int| trim_end_of(s).len() <= i < s.len() ==> is_whitespace(s[i]),
    decreases s.len(),
{
    if s.len() > 0 && is_whitespace(s.last()) {
        let rest = s.drop_last();
        lemma_trim_end_of(rest);
        let n = trim_end_of(rest).len() as int;
        assert(rest.take(n) == s.take(n));
        assert forall|i: int| trim_end_of(s).len() <= i < s.len() implies is_whitespace(s[i]) by {
            if i < s.len() - 1 {
                assert(s[i] == rest[i]);
            }
        }
    } else {
        assert(s.take(s.len() as int) == s);
    }
}

/// A trimmed text neither starts nor ends with white space, and trimming it
/// again changes nothing.
pub proof fn lemma_trim_of_is_trimmed(s: Seq<char>)
    ensures
        trim_of(s).len() > 0 ==> !is_whitespace(trim_of(s)[0]) && !is_whitespace(
            trim_of(s).last(),
        ),
        trim_of(trim_of(s)) == trim_of(s),
{
    let start = trim_start_of(s);
    let both = trim_of(s);
    lemma_trim_start_of(s);
    lemma_trim_end_of(start);
    if both.len() > 0 {
        assert(both[0] == start[0]);
        lemma_trim_start_of_clean(both);
        lemma_trim_end_of_clean(both);
    } else {
        lemma_trim_start_of_clean(both);
        lemma_trim_end_of_clean(both);
    }
}

/// `s` without its leading white space.
pub fn trim_start(s: &[char]) -> (out: &[char])
    ensures
        out@ == trim_start_of(s@),
{
    let mut a: usize = 0;
    assert(s@.skip(0) == s@);
    while a < s.len() && char_is_whitespace(s[a])
        invariant
            a <= s.len(),
            trim_start_of(s@) == trim_start_of(s@.skip(a as int)),
        decreases s.len() - a,
    {
        assert(s@.skip(a as int).drop_first() == s@.skip(a + 1));
        a += 1;
    }
    slice_subrange(s, a, s.len())
}

/// `s` without its trailing white space.
pub fn trim_end(s: &[char]) -> (out: &[char])
    ensures
        out@ == trim_end_of(s@),
{
    let mut b: usize = s.len();
    assert(s@.take(b as int) == s@);
    while b > 0 && char_is_whitespace(s[b - 1])
        invariant
            b <= s.len(),
            trim_end_of(s@) == trim_end_of(s@.take(b as int)),
        decreases b,
    {
        assert(s@.take(b as int).drop_last() == s@.take(b - 1));
        b -= 1;
    }
    slice_subrange(s, 0, b)
}

/// `s` without leading and trailing white space.
pub fn trim(s: &[char]) -> (out: &[char])
    ensures
        out@ == trim_of(s@),
{
    trim_end(trim_start(s))
}

/// `s` without the run of `c` at its end.
pub fn trim_end_matches(s: &[char], c: char) -> (out: &[char])
    ensures
        out@ == trim_end_matches_of(s@, c),
{
    let mut b: usize = s.len();
    assert(s@.take(b as int) == s@);
    while b > 0 && s[b - 1] == c
        invariant
            b <= s.len(),
            trim_end_matches_of(s@, c) == trim_end_matches_of(s@.take(b as int), c),
        decreases b,
    {
        assert(s@.take(b as int).drop_last() == s@.take(b - 1));
        b -= 1;
    }
    slice_subrange(s, 0, b)
}

/// The position of the first `c` in `s`, or `s.len()` where `s` holds none.
pub open spec fn index_of(s: Seq<char>, c: char) -> int
    decreases s.len(),
{
    if s.len() == 0 || s[0] == c {
        0
    } else {
        1 + index_of(s.drop_first(), c)
    }
}

/// The position of the last `c` in `s`, or `-1` where `s` holds none.
pub open spec fn last_index_of(s: Seq<char>, c: char) -> int
    decreases s.len(),
{
    if s.len() == 0 {
        -1
    } else if s.last() == c {
        s.len() - 1
    } else {
        last_index_of(s.drop_last(), c)
    }
}

/// The position of the first white space in `s`, or `s.len()` where `s` holds none.
pub open spec fn index_of_whitespace(s: Seq<char>) -> int
    decreases s.len(),
{
    if s.len() == 0 || is_whitespace(s[0]) {
        0
    } else {
        1 + index_of_whitespace(s.drop_first())
    }
}

/// `index_of` is a position in `s` or its length; `c` stands there, and
/// nowhere before.
pub proof fn lemma_index_of_bounds(s: Seq<char>, c: char)
    ensures
        0 <= index_of(s, c) <= s.len(),
        index_of(s, c) < s.len() ==> s[index_of(s, c)] == c,
        forall|j: int| 0 <= j < index_of(s, c) ==> s[j] != c,
    decreases s.len(),
{
    if s.len() == 0 || s[0] == c {
    } else {
        let t = s.drop_first();
        lemma_index_of_bounds(t, c);
        assert forall|j: int| 0 <= j < index_of(s, c) implies s[j] != c by {
            if j > 0 {
                assert(s[j] == t[j - 1]);
            }
        }
    }
}

/// The first position at which `c` stands, after a run without it, is `index_of`.
pub proof fn lemma_index_of_is(s: Seq<char>, c: char, i: int)
    requires
        0 <= i <= s.len(),
        forall|j: int| 0 <= j < i ==> s[j] != c,
        i < s.len() ==> s[i] == c,
    ensures
        index_of(s, c) == i,
    decreases s.len(),
{
    if s.len() == 0 || s[0] == c {
    } else {
        let t = s.drop_first();
        assert forall|j: int| 0 <= j < i - 1 implies t[j] != c by {
            assert(t[j] == s[j + 1]);
        }
        lemma_index_of_is(t, c, i - 1);
    }
}

/// `index_of_whitespace` is a position in `s` or its length; white space
/// stands there, and nowhere before.
pub proof fn lemma_index_of_whitespace_bounds(s: Seq<char>)
    ensures
        0 <= index_of_whitespace(s) <= s.len(),
        index_of_whitespace(s) < s.len() ==> is_whitespace(s[index_of_whitespace(s)]),
        forall|j: int| 0 <= j < index_of_whitespace(s) ==> !is_whitespace(s[j]),
    decreases s.len(),
{
    if s.len() == 0 || is_whitespace(s[0]) {
    } else {
        let t = s.drop_first();
        lemma_index_of_whitespace_bounds(t);
        assert forall|j: int| 0 <= j < index_of_whitespace(s) implies !is_whitespace(s[j]) by {
            if j > 0 {
                assert(s[j] == t[j - 1]);
            }
        }
    }
}

/// The first position at which white space stands, after a run without it,
/// is `index_of_whitespace`.
pub proof fn lemma_index_of_whitespace_is(s: Seq<char>, i: int)
    requires
        0 <= i <= s.len(),
        forall|j: int| 0 <= j < i ==> !is_whitespace(s[j]),
        i < s.len() ==> is_whitespace(s[i]),
    ensures
        index_of_whitespace(s) == i,
    decreases s.len(),
{
    if s.len() == 0 || is_whitespace(s[0]) {
    } else {
        let t = s.drop_first();
        assert forall|j: int| 0 <= j < i - 1 implies !is_whitespace(t[j]) by {
            assert(t[j] == s[j + 1]);
        }
        lemma_index_of_whitespace_is(t, i - 1);
    }
}

/// `last_index_of` is a position in `s` or `-1`; `c` stands there, and
/// nowhere after.
pub proof fn lemma_last_index_of_bounds(s: Seq<char>, c: char)
    ensures
        -1 <= last_index_of(s, c) < s.len(),
        last_index_of(s, c) >= 0 ==> s[last_index_of(s, c)] == c,
        forall|j: int| last_index_of(s, c) < j < s.len() ==> s[j] != c,
    decreases s.len(),
{
    if s.len() == 0 || s.last() == c {
    } else {
        let t = s.drop_last();
        lemma_last_index_of_bounds(t, c);
        assert forall|j: int| last_index_of(s, c) < j < s.len() implies s[j] != c by {
            if j < s.len() - 1 {
                assert(s[j] == t[j]);
            }
        }
    }
}

/// The last position at which `c` stands, before a run without it, is
/// `last_index_of`.
pub proof fn lemma_last_index_of_is(s: Seq<char>, c: char, i: int)
    requires
        -1 <= i < s.len(),
        forall|j: int| i < j < s.len() ==> s[j] != c,
        i >= 0 ==> s[i] == c,
    ensures
        last_index_of(s, c) == i,
    decreases s.len(),
{
    if s.len() == 0 || s.last() == c {
    } else {
        lemma_last_index_of_is(s.drop_last(), c, i);
    }
}

/// The position of the first `c` in `s`, or its length.
pub fn find_char(s: &[char], c: char) -> (i: usize)
    ensures
        i == index_of(s@, c),
{
    let mut i: usize = 0;
    while i < s.len() && s[i] != c
        invariant
            i <= s.len(),
            forall|j: int| 0 <= j < i ==> s@[j] != c,
        decreases s.len() - i,
    {
        i += 1;
    }
    proof {
        lemma_index_of_is(s@, c, i as int);
    }
    i
}

/// The position of the first white space in `s`, or its length.
pub fn find_whitespace(s: &[char]) -> (i: usize)
    ensures
        i == index_of_whitespace(s@),
{
    let mut i: usize = 0;
    while i < s.len() && !char_is_whitespace(s[i])
        invariant
            i <= s.len(),
            forall|j: int| 0 <= j < i ==> !is_whitespace(s@[j]),
        decreases s.len() - i,
    {
        i += 1;
    }
    proof {
        lemma_index_of_whitespace_is(s@, i as int);
    }
    i
}

/// One past the position of the last `c`: where the text after it begins.
pub fn after_last_start(s: &[char], c: char) -> (i: usize)
    ensures
        i == last_index_of(s@, c) + 1,
{
    let mut i: usize = s.len();
    while i > 0 && s[i - 1] != c
        invariant
            i <= s.len(),
            forall|j: int| i <= j < s.len() ==> s@[j] != c,
        decreases i,
    {
        i -= 1;
    }
    proof {
        lemma_last_index_of_is(s@, c, i as int - 1);
    }
    i
}

/// Whether `needle` stands in `s` at position `i`.
pub open spec fn occurs_at(s: Seq<char>, needle: Seq<char>, i: int) -> bool {
    0 <= i && i + needle.len() <= s.len() && s.subrange(i, i + needle.len()) == needle
}

/// Whether `needle` occurs in `s` as a contiguous run.
pub open spec fn contains_seq(s: Seq<char>, needle: Seq<char>) -> bool {
    exists|i: int| occurs_at(s, needle, i)
}

/// `s` without the prefix `p`, where it starts with `p`.
pub open spec fn strip_prefix_of(s: Seq<char>, p: Seq<char>) -> Option<Seq<char>> {
    if p.is_prefix_of(s) {
        Some(s.skip(p.len() as int))
    } else {
        None
    }
}

/// `s` without the suffix `p`, where it ends with `p`.
pub open spec fn strip_suffix_of(s: Seq<char>, p: Seq<char>) -> Option<Seq<char>> {
    if p.is_suffix_of(s) {
        Some(s.take(s.len() - p.len()))
    } else {
        None
    }
}

/// Tells whether `s` starts with `p`.
pub fn starts_with(s: &[char], p: &[char]) -> (b: bool)
    ensures
        b == p@.is_prefix_of(s@),
{
    if p.len() > s.len() {
        return false;
    }
    let mut i: usize = 0;
    while i < p.len()
        invariant
            i <= p.len() <= s.len(),
            forall|j: int| 0 <= j < i ==> s@[j] == p@[j],
        decreases p.len() - i,
    {
        if s[i] != p[i] {
            proof {
                if p@.is_prefix_of(s@) {
                    assert(s@.subrange(0, p@.len() as int)[i as int] == p@[i as int]);
                }
            }
            return false;
        }
        i += 1;
    }
    assert(s@.subrange(0, p@.len() as int) =~= p@);
    true
}

/// Tells whether `s` ends with `p`.
pub fn ends_with(s: &[char], p: &[char]) -> (b: bool)
    ensures
        b == p@.is_suffix_of(s@),
{
    if p.len() > s.len() {
        return false;
    }
    let d: usize = s.len() - p.len();
    let mut i: usize = 0;
    while i < p.len()
        invariant
            i <= p.len() <= s.len(),
            d == s.len() - p.len(),
            forall|j: int| 0 <= j < i ==> s@[d + j] == p@[j],
        decreases p.len() - i,
    {
        if s[d + i] != p[i] {
            proof {
                if p@.is_suffix_of(s@) {
                    assert(s@.subrange(d as int, s@.len() as int)[i as int] == p@[i as int]);
                }
            }
            return false;
        }
        i += 1;
    }
    assert(s@.subrange(d as int, s@.len() as int) =~= p@);
    true
}

/// Whether `p` stands in `s` at position `at`.
fn matches_at(s: &[char], p: &[char], at: usize) -> (b: bool)
    requires
        at + p.len() <= s.len(),
    ensures
        b == occurs_at(s@, p@, at as int),
{
    let mut i: usize = 0;
    while i < p.len()
        invariant
            i <= p.len(),
            at + p.len() <= s.len(),
            forall|j: int| 0 <= j < i ==> s@[at + j] == p@[j],
        decreases p.len() - i,
    {
        if s[at + i] != p[i] {
            proof {
                if occurs_at(s@, p@, at as int) {
                    assert(s@.subrange(at as int, at + p@.len())[i as int] == p@[i as int]);
                }
            }
            return false;
        }
        i += 1;
    }
    assert(s@.subrange(at as int, at + p@.len()) =~= p@);
    true
}

/// Tells whether `p` occurs in `s`.
pub fn contains(s: &[char], p: &[char]) -> (b: bool)
    ensures
        b == contains_seq(s@, p@),
{
    if p.len() > s.len() {
        return false;
    }
    let last: usize = s.len() - p.len();
    let mut at: usize = 0;
    while at < last
        invariant
            at <= last,
            last == s.len() - p.len(),
            forall|k: int| 0 <= k < at ==> !occurs_at(s@, p@, k),
        decreases last - at,
    {
        if matches_at(s, p, at) {
            return true;
        }
        at += 1;
    }
    matches_at(s, p, last)
}

/// `s` without the prefix `p`, where it starts with `p`.
pub fn strip_prefix<'a>(s: &'a [char], p: &[char]) -> (out: Option<&'a [char]>)
    ensures
        match out {
            Some(rest) => strip_prefix_of(s@, p@) == Some(rest@),
            None => strip_prefix_of(s@, p@) is None,
        },
{
    if starts_with(s, p) {
        Some(slice_subrange(s, p.len(), s.len()))
    } else {
        None
    }
}

/// `s` without the suffix `p`, where it ends with `p`.
pub fn strip_suffix<'a>(s: &'a [char], p: &[char]) -> (out: Option<&'a [char]>)
    ensures
        match out {
            Some(rest) => strip_suffix_of(s@, p@) == Some(rest@),
            None => strip_suffix_of(s@, p@) is None,
        },
{
    if ends_with(s, p) {
        Some(slice_subrange(s, 0, s.len() - p.len()))
    } else {
        None
    }
}

/// The part of `s` before the first `c`; all of `s` where it holds none.
pub open spec fn before_first(s: Seq<char>, c: char) -> Seq<char> {
    s.take(index_of(s, c))
}

/// The part of `s` after the first `c`, where `s` holds one.
pub open spec fn after_first(s: Seq<char>, c: char) -> Option<Seq<char>> {
    if index_of(s, c) < s.len() {
        Some(s.skip(index_of(s, c) + 1))
    } else {
        None
    }
}

/// The part of `s` after the last `c`; all of `s` where it holds none.
pub open spec fn after_last(s: Seq<char>, c: char) -> Seq<char> {
    s.skip(last_index_of(s, c) + 1)
}

/// The second of the fields that `c` separates in `s`, where there is one:
/// what stands between the first `c` and the next, or the end.
pub open spec fn second_field(s: Seq<char>, c: char) -> Option<Seq<char>> {
    match after_first(s, c) {
        Some(rest) => Some(before_first(rest, c)),
        None => None,
    }
}

/// What stands in `s` between the first `c` and the next, or the end.
pub fn second_field_of<'a>(s: &'a [char], c: char) -> (out: Option<&'a [char]>)
    ensures
        match out {
            Some(field) => second_field(s@, c) == Some(field@),
            None => second_field(s@, c) is None,
        },
{
    let first = find_char(s, c);
    proof {
        lemma_index_of_bounds(s@, c);
    }
    if first >= s.len() {
        return None;
    }
    let rest = slice_subrange(s, first + 1, s.len());
    let next = find_char(rest, c);
    proof {
        lemma_index_of_bounds(rest@, c);
    }
    Some(slice_subrange(rest, 0, next))
}

/// A line without the carriage return at its end, where it has one.
pub open spec fn strip_cr(line: Seq<char>) -> Seq<char> {
    if line.len() > 0 && line.last() == '\r' {
        line.drop_last()
    } else {
        line
    }
}

/// The lines of `text`. A line ends with a line feed, or with a carriage
/// return and a line feed; neither belongs to the line. What follows the last
/// line feed is a line too, unless it is empty.
pub open spec fn lines_of(text: Seq<char>) -> Seq<Seq<char>>
    decreases text.len(),
{
    let n = index_of(text, '\n');
    if text.len() == 0 {
        Seq::empty()
    } else if 0 <= n < text.len() {
        seq![strip_cr(text.take(n))] + lines_of(text.skip(n + 1))
    } else {
        seq![text]
    }
}

/// The words of `s`: its maximal runs without white space, in order.
pub open spec fn words_of(s: Seq<char>) -> Seq<Seq<char>>
    decreases s.len(),
{
    let n = index_of_whitespace(s);
    if s.len() == 0 {
        Seq::empty()
    } else if is_whitespace(s[0]) {
        words_of(s.drop_first())
    } else if 0 < n <= s.len() {
        seq![s.take(n)] + words_of(s.skip(n))
    } else {
        Seq::empty()
    }
}

/// `parts` with `sep` between each two neighbours.
pub open spec fn join_of(parts: Seq<Seq<char>>, sep: Seq<char>) -> Seq<char>
    decreases parts.len(),
{
    if parts.len() == 0 {
        Seq::empty()
    } else if parts.len() == 1 {
        parts[0]
    } else {
        join_of(parts.drop_last(), sep) + sep + parts.last()
    }
}

/// Pushing a row onto rows of characters pushes its characters onto their view.
pub proof fn lemma_rows_push(before: Vec<Vec<char>>, after: Vec<Vec<char>>, row: Vec<char>)
    requires
        after@ == before@.push(row),
    ensures
        after.deep_view() == before.deep_view().push(row@),
        row.deep_view() == row@,
{
    assert(row.deep_view() =~= row@);
    assert(after.deep_view() =~= before.deep_view().push(row@));
}

/// The view of a row is the row of the view.
pub proof fn lemma_rows_index(rows: Vec<Vec<char>>, i: int)
    requires
        0 <= i < rows.len(),
    ensures
        rows.deep_view()[i] == rows[i]@,
{
    assert(rows[i].deep_view() =~= rows[i]@);
}

/// Splits a text into its lines.
pub fn split_lines(text: &[char]) -> (out: Vec<Vec<char>>)
    ensures
        out.deep_view() == lines_of(text@),
{
    let mut out: Vec<Vec<char>> = Vec::new();
    let mut pos: usize = 0;
    assert(text@.skip(0) == text@);
    assert(out.deep_view() == Seq::<Seq<char>>::empty());
    while pos < text.len()
        invariant
            pos <= text.len(),
            lines_of(text@) == out.deep_view() + lines_of(text@.skip(pos as int)),
        decreases text.len() - pos,
    {
        let rest = slice_subrange(text, pos, text.len());
        let n = find_char(rest, '\n');
        let ghost before = out.deep_view();
        let ghost rows = out;
        proof {
            lemma_index_of_bounds(rest@, '\n');
            assert(rest@ == text@.skip(pos as int));
        }
        if n < rest.len() {
            let raw = slice_subrange(rest, 0, n);
            let line = if n > 0 && raw[n - 1] == '\r' {
                slice_subrange(raw, 0, n - 1)
            } else {
                raw
            };
            assert(line@ == strip_cr(rest@.take(n as int)));
            let row = slice_to_vec(line);
            out.push(row);
            proof {
                lemma_rows_push(rows, out, row);
            }
            assert(rest@.skip(n + 1) == text@.skip(pos + n + 1));
            assert(before + (seq![line@] + lines_of(rest@.skip(n + 1))) == before.push(line@)
                + lines_of(rest@.skip(n + 1)));
            pos = pos + n + 1;
        } else {
            let row = slice_to_vec(rest);
            out.push(row);
            proof {
                lemma_rows_push(rows, out, row);
            }
            pos = text.len();
            assert(text@.skip(pos as int).len() == 0);
            assert(before + seq![rest@] == before.push(rest@) + Seq::<Seq<char>>::empty());
        }
    }
    assert(text@.skip(pos as int).len() == 0);
    assert(out.deep_view() + Seq::<Seq<char>>::empty() == out.deep_view());
    out
}

/// Splits a text into its words.
pub fn split_words(s: &[char]) -> (out: Vec<Vec<char>>)
    ensures
        out.deep_view() == words_of(s@),
{
    let mut out: Vec<Vec<char>> = Vec::new();
    let mut pos: usize = 0;
    assert(s@.skip(0) == s@);
    assert(out.deep_view() == Seq::<Seq<char>>::empty());
    while pos < s.len()
        invariant
            pos <= s.len(),
            words_of(s@) == out.deep_view() + words_of(s@.skip(pos as int)),
        decreases s.len() - pos,
    {
        let rest = slice_subrange(s, pos, s.len());
        assert(rest@ == s@.skip(pos as int));
        if char_is_whitespace(s[pos]) {
            assert(rest@.drop_first() == s@.skip(pos + 1));
            pos += 1;
        } else {
            let n = find_whitespace(rest);
            let ghost before = out.deep_view();
            let ghost rows = out;
            proof {
                lemma_index_of_whitespace_bounds(rest@);
            }
            let word = slice_subrange(rest, 0, n);
            let row = slice_to_vec(word);
            out.push(row);
            proof {
                lemma_rows_push(rows, out, row);
            }
            assert(rest@.skip(n as int) == s@.skip(pos + n));
            assert(before + (seq![word@] + words_of(rest@.skip(n as int))) == before.push(word@)
                + words_of(rest@.skip(n as int)));
            pos = pos + n;
        }
    }
    assert(s@.skip(pos as int).len() == 0);
    assert(out.deep_view() + Seq::<Seq<char>>::empty() == out.deep_view());
    out
}

/// Joins the parts from position `from` on.
pub fn join_from(parts: &Vec<Vec<char>>, from: usize, sep: &[char]) -> (out: Vec<char>)
    requires
        from <= parts.len(),
    ensures
        out@ == join_of(parts.deep_view().skip(from as int), sep@),
{
    let mut out: Vec<char> = Vec::new();
    let ghost all = parts.deep_view().skip(from as int);
    let mut i: usize = from;
    assert(all.take(0) == Seq::<Seq<char>>::empty());
    while i < parts.len()
        invariant
            from <= i <= parts.len(),
            all == parts.deep_view().skip(from as int),
            out@ == join_of(all.take(i - from), sep@),
        decreases parts.len() - i,
    {
        let ghost done = all.take(i - from);
        let ghost next = all.take(i - from + 1);
        assert(next.drop_last() == done);
        proof {
            lemma_rows_index(*parts, i as int);
        }
        assert(next.last() == parts[i as int]@);
        if i > from {
            append_chars(&mut out, sep);
        } else {
            assert(out@ + parts[i as int]@ == parts[i as int]@);
        }
        append_chars(&mut out, parts[i].as_slice());
        i += 1;
    }
    assert(all.take(i - from) == all);
    out
}

} // verus!
