//! Character-level helpers shared by the other modules.
//!
//! Texts are modelled as `Seq<char>`, the view of `str` and `String`. The
//! executable functions work on a `Vec<char>` of the text, which gives
//! constant-time access to each character.

use vstd::prelude::*;

verus! {

/// `p` occurs in `s` starting at index `i`.
pub open spec fn occurs_at(s: Seq<char>, i: int, p: Seq<char>) -> bool {
    &&& 0 <= i
    &&& i + p.len() <= s.len()
    &&& s.subrange(i, i + p.len()) == p
}

/// `p` occurs somewhere in `s`.
pub open spec fn occurs_in(s: Seq<char>, p: Seq<char>) -> bool {
    exists|i: int| occurs_at(s, i, p)
}

/// `s` begins with `p`.
pub open spec fn begins_with(s: Seq<char>, p: Seq<char>) -> bool {
    occurs_at(s, 0, p)
}

/// The index of the first line feed in `s`, or `s.len()` where it has none.
pub open spec fn line_end(s: Seq<char>) -> int
    decreases s.len(),
{
    if s.len() == 0 || s[0] == '\n' {
        0
    } else {
        1 + line_end(s.skip(1))
    }
}

/// White space as `char::is_whitespace` and `str::trim` understand it: the
/// code points with the Unicode property `White_Space`.
pub open spec fn is_blank(c: char) -> bool {
    ||| '\u{9}' <= c <= '\u{d}'
    ||| c == ' '
    ||| c == '\u{85}'
    ||| c == '\u{a0}'
    ||| c == '\u{1680}'
    ||| '\u{2000}' <= c <= '\u{200a}'
    ||| c == '\u{2028}'
    ||| c == '\u{2029}'
    ||| c == '\u{202f}'
    ||| c == '\u{205f}'
    ||| c == '\u{3000}'
}

/// The number of white-space characters that `s` begins with.
pub open spec fn blank_prefix_len(s: Seq<char>) -> int
    decreases s.len(),
{
    if s.len() == 0 || !is_blank(s[0]) {
        0
    } else {
        1 + blank_prefix_len(s.skip(1))
    }
}

/// `s` without the white space it begins with.
pub open spec fn trim_start(s: Seq<char>) -> Seq<char> {
    s.skip(blank_prefix_len(s))
}

/// `line_end(s)` is an index of `s` or its length; it is the first position
/// that holds a line feed.
pub proof fn lemma_line_end(s: Seq<char>)
    ensures
        0 <= line_end(s) <= s.len(),
        line_end(s) < s.len() ==> s[line_end(s)] == '\n',
        forall|i: int| 0 <= i < line_end(s) ==> s[i] != '\n',
    decreases s.len(),
{
    if s.len() == 0 || s[0] == '\n' {
    } else {
        let t = s.skip(1);
        lemma_line_end(t);
        assert forall|i: int| 0 <= i < line_end(s) implies s[i] != '\n' by {
            if i > 0 {
                assert(s[i] == t[i - 1]);
            }
        }
    }
}

/// A position that holds a line feed, with none before it, is `line_end(s)`;
/// so is the length of a text without line feed.
pub proof fn lemma_line_end_is(s: Seq<char>, n: int)
    requires
        0 <= n <= s.len(),
        n < s.len() ==> s[n] == '\n',
        forall|i: int| 0 <= i < n ==> s[i] != '\n',
    ensures
        line_end(s) == n,
{
    lemma_line_end(s);
}

/// `blank_prefix_len(s)` is an index of `s` or its length; only white space
/// stands before it, and none at it.
pub proof fn lemma_blank_prefix_len(s: Seq<char>)
    ensures
        0 <= blank_prefix_len(s) <= s.len(),
        blank_prefix_len(s) < s.len() ==> !is_blank(s[blank_prefix_len(s)]),
        forall|i: int| 0 <= i < blank_prefix_len(s) ==> is_blank(s[i]),
    decreases s.len(),
{
    if s.len() == 0 || !is_blank(s[0]) {
    } else {
        let t = s.skip(1);
        lemma_blank_prefix_len(t);
        assert forall|i: int| 0 <= i < blank_prefix_len(s) implies is_blank(s[i]) by {
            if i > 0 {
                assert(s[i] == t[i - 1]);
            }
        }
    }
}

/// The characters of `s`, in order.
pub fn chars_of(s: &str) -> (v: Vec<char>)
    ensures
        v@ == s@,
{
    let mut v: Vec<char> = Vec::new();
    for c in it: s.chars()
        invariant
            v@ == it.seq().take(it.index() as int),
            it.seq() == s@,
    {
        v.push(c);
    }
    v
}

/// `String::push`: appends one character to the end of the string.
#[verifier::external_body]
fn push_char(s: &mut String, c: char)
    ensures
        final(s)@ == old(s)@.push(c),
{
    s.push(c)
}

/// The characters of `chars` from index `from` up to, not including, `to`,
/// as a string.
pub(crate) fn string_of(chars: &Vec<char>, from: usize, to: usize) -> (s: String)
    requires
        from <= to <= chars@.len(),
    ensures
        s@ == chars@.subrange(from as int, to as int),
{
    let mut s = String::new();
    let mut i: usize = from;
    while i < to
        invariant
            from <= i <= to <= chars@.len(),
            s@ == chars@.subrange(from as int, i as int),
        decreases to - i,
    {
        push_char(&mut s, chars[i]);
        i += 1;
    }
    s
}

/// Whether `c` is white space.
pub fn is_blank_char(c: char) -> (b: bool)
    ensures
        b == is_blank(c),
{
    (c >= '\u{9}' && c <= '\u{d}') || c == ' ' || c == '\u{85}' || c == '\u{a0}' || c
        == '\u{1680}' || (c >= '\u{2000}' && c <= '\u{200a}') || c == '\u{2028}' || c
        == '\u{2029}' || c == '\u{202f}' || c == '\u{205f}' || c == '\u{3000}'
}

/// Whether `needle` occurs in `hay` at index `at`.
pub fn matches_at(hay: &Vec<char>, at: usize, needle: &Vec<char>) -> (b: bool)
    ensures
        b == occurs_at(hay@, at as int, needle@),
{
    if at > hay.len() || needle.len() > hay.len() - at {
        return false;
    }
    let mut j: usize = 0;
    while j < needle.len()
        invariant
            at + needle@.len() <= hay@.len() <= usize::MAX,
            0 <= j <= needle@.len(),
            forall|k: int| 0 <= k < j ==> hay@[at + k] == needle@[k],
        decreases needle@.len() - j,
    {
        if hay[at + j] != needle[j] {
            assert(hay@.subrange(at as int, at + needle@.len())[j as int] != needle@[j as int]);
            return false;
        }
        j += 1;
    }
    assert(hay@.subrange(at as int, at + needle@.len()) =~= needle@);
    true
}

/// The first index at which `needle` occurs in `hay`, if it occurs at all.
pub fn find(hay: &Vec<char>, needle: &Vec<char>) -> (r: Option<usize>)
    ensures
        r is Some <==> occurs_in(hay@, needle@),
        r matches Some(i) ==> occurs_at(hay@, i as int, needle@) && forall|j: int|
            0 <= j < i ==> !occurs_at(hay@, j, needle@),
{
    let mut i: usize = 0;
    while i < hay.len()
        invariant
            0 <= i <= hay@.len(),
            forall|j: int| 0 <= j < i ==> !occurs_at(hay@, j, needle@),
        decreases hay@.len() - i,
    {
        if matches_at(hay, i, needle) {
            return Some(i);
        }
        i += 1;
    }
    if matches_at(hay, i, needle) {
        Some(i)
    } else {
        None
    }
}

/// The index of the first line feed of `chars` at or after `from`, or the
/// length of `chars` where none follows.
pub(crate) fn line_end_from(chars: &Vec<char>, from: usize) -> (end: usize)
    requires
        from <= chars@.len(),
    ensures
        end == from + line_end(chars@.skip(from as int)),
        from <= end <= chars@.len(),
{
    let mut i: usize = from;
    while i < chars.len() && chars[i] != '\n'
        invariant
            from <= i <= chars@.len(),
            forall|k: int| from <= k < i ==> chars@[k] != '\n',
        decreases chars@.len() - i,
    {
        i += 1;
    }
    proof {
        lemma_line_end_is(chars@.skip(from as int), i - from);
    }
    i
}

/// The number of white-space characters that `chars` begins with.
pub fn skip_blank(chars: &Vec<char>) -> (n: usize)
    ensures
        n == blank_prefix_len(chars@),
        n <= chars@.len(),
{
    let mut i: usize = 0;
    while i < chars.len() && is_blank_char(chars[i])
        invariant
            0 <= i <= chars@.len(),
            forall|k: int| 0 <= k < i ==> is_blank(chars@[k]),
        decreases chars@.len() - i,
    {
        i += 1;
    }
    proof {
        lemma_blank_prefix_len(chars@);
    }
    i
}

} // verus!
