//! Character-level helpers on strings: conversion between strings and
//! character vectors, substring search, whitespace normalisation, and
//! decimal numbers.

use vstd::prelude::*;

verus! {

/// `String::push` appends one character to the end of the string.
pub assume_specification[ String::push ](s: &mut String, ch: char)
    ensures
        final(s)@ == old(s)@.push(ch),
;

/// The characters of `s`, in order.
pub fn chars_of(s: &str) -> (v: Vec<char>)
    ensures
        v@ == s@,
{
    let mut v: Vec<char> = Vec::new();
    for c in it: s.chars()
        invariant
            it.seq() == s@,
            v@ == s@.take(it.index()),
    {
        v.push(c);
    }
    v
}

/// The string made of the characters of `v`, in order.
pub fn string_of(v: &Vec<char>) -> (s: String)
    ensures
        s@ == v@,
{
    let mut s = String::new();
    let mut i: usize = 0;
    while i < v.len()
        invariant
            i <= v.len(),
            s@ == v@.take(i as int),
        decreases v.len() - i,
    {
        s.push(v[i]);
        i += 1;
    }
    s
}

/// `needle` stands in `hay` at offset `i`.
pub open spec fn occurs_at(hay: Seq<char>, needle: Seq<char>, i: int) -> bool {
    &&& 0 <= i
    &&& i + needle.len() <= hay.len()
    &&& hay.subrange(i, i + needle.len()) == needle
}

/// `needle` stands somewhere in `hay`.
pub open spec fn occurs_in(hay: Seq<char>, needle: Seq<char>) -> bool {
    exists|i: int| occurs_at(hay, needle, i)
}

/// A text occurs in whatever is built around it.
pub proof fn lemma_occurs_in_any_surroundings(
    before: Seq<char>,
    needle: Seq<char>,
    after: Seq<char>,
)
    ensures
        occurs_in(before + needle + after, needle),
{
    let hay = before + needle + after;
    let at = before.len() as int;
    assert(hay.subrange(at, at + needle.len()) =~= needle);
    assert(occurs_at(hay, needle, at));
}

fn matches_at(hay: &Vec<char>, needle: &Vec<char>, at: usize) -> (b: bool)
    requires
        at + needle.len() <= hay.len(),
    ensures
        b == occurs_at(hay@, needle@, at as int),
{
    let mut k: usize = 0;
    while k < needle.len()
        invariant
            k <= needle.len(),
            at + needle.len() <= hay.len(),
            forall|j: int| 0 <= j < k ==> hay@[at + j] == needle@[j],
        decreases needle.len() - k,
    {
        if hay[at + k] != needle[k] {
            assert(hay@.subrange(at as int, at + needle.len())[k as int] != needle@[k as int]);
            return false;
        }
        k += 1;
    }
    assert(hay@.subrange(at as int, at + needle.len()) =~= needle@);
    true
}

/// Whether `needle` occurs in `hay` as a contiguous run of characters.
pub fn contains(hay: &str, needle: &str) -> (b: bool)
    ensures
        b == occurs_in(hay@, needle@),
{
    let h = chars_of(hay);
    let n = chars_of(needle);
    if n.len() > h.len() {
        return false;
    }
    let last: usize = h.len() - n.len();
    let mut i: usize = 0;
    loop
        invariant
            i <= last,
            last == h.len() - n.len(),
            n.len() <= h.len(),
            h@ == hay@,
            n@ == needle@,
            forall|j: int| 0 <= j < i ==> !occurs_at(h@, n@, j),
        decreases last - i,
    {
        if matches_at(&h, &n, i) {
            return true;
        }
        if i == last {
            return false;
        }
        i += 1;
    }
}

/// A newline or a tab becomes a space; any other character stays.
pub open spec fn blank(c: char) -> char {
    if c == '\n' || c == '\t' {
        ' '
    } else {
        c
    }
}

/// `s` with each newline and each tab replaced by one space.
pub open spec fn collapsed(s: Seq<char>) -> Seq<char> {
    Seq::new(s.len(), |i: int| blank(s[i]))
}

/// Collapsing keeps the length and leaves neither a newline nor a tab.
pub proof fn lemma_collapsed_is_clean(s: Seq<char>)
    ensures
        collapsed(s).len() == s.len(),
        forall|i: int|
            0 <= i < s.len() ==> (#[trigger] collapsed(s)[i]) != '\n' && collapsed(s)[i] != '\t',
{
}

/// Replaces each newline and each tab of `s` by one space.
pub fn collapse_whitespace(s: &str) -> (r: String)
    ensures
        r@ == collapsed(s@),
{
    let v = chars_of(s);
    let mut out = String::new();
    let mut i: usize = 0;
    while i < v.len()
        invariant
            i <= v.len(),
            v@ == s@,
            out@ == collapsed(s@).take(i as int),
        decreases v.len() - i,
    {
        let c = v[i];
        if c == '\n' || c == '\t' {
            out.push(' ');
        } else {
            out.push(c);
        }
        assert(out@ =~= collapsed(s@).take(i + 1));
        i += 1;
    }
    assert(out@ =~= collapsed(s@));
    out
}

/// `s` read from the left, with every pair of adjacent spaces dropped: a
/// run of `n` spaces keeps one space where `n` is odd and none where it
/// is even.
pub open spec fn without_double_spaces(s: Seq<char>) -> Seq<char>
    decreases s.len(),
{
    if s.len() == 0 {
        s
    } else if s.len() >= 2 && s[0] == ' ' && s[1] == ' ' {
        without_double_spaces(s.skip(2))
    } else {
        seq![s[0]] + without_double_spaces(s.skip(1))
    }
}

/// Once the pairs are dropped, no two spaces stand side by side.
pub proof fn lemma_no_adjacent_spaces(s: Seq<char>)
    ensures
        forall|i: int|
            0 <= i && i + 1 < without_double_spaces(s).len() ==> !((
            #[trigger] without_double_spaces(s)[i]) == ' ' && without_double_spaces(s)[i + 1]
                == ' '),
    decreases s.len(),
{
    if s.len() == 0 {
        assert(without_double_spaces(s).len() == 0);
    } else if s.len() >= 2 && s[0] == ' ' && s[1] == ' ' {
        lemma_no_adjacent_spaces(s.skip(2));
        assert(without_double_spaces(s) == without_double_spaces(s.skip(2)));
    } else {
        let tail = s.skip(1);
        let rest = without_double_spaces(tail);
        let r = without_double_spaces(s);
        lemma_no_adjacent_spaces(tail);
        assert(r =~= seq![s[0]] + rest);
        if s[0] == ' ' && rest.len() > 0 {
            assert(tail.len() > 0);
            assert(tail[0] == s[1]);
            assert(rest =~= seq![tail[0]] + without_double_spaces(tail.skip(1)));
            assert(rest[0] != ' ');
        }
        assert forall|i: int| 0 <= i && i + 1 < r.len() implies !((#[trigger] r[i]) == ' ' && r[i
            + 1] == ' ') by {
            if i > 0 {
                assert(r[i] == rest[i - 1]);
                assert(r[i + 1] == rest[i - 1 + 1]);
            } else {
                assert(r[1] == rest[0]);
            }
        }
    }
}

/// Removes every pair of adjacent spaces, scanning from the left.
pub fn strip_double_spaces(s: &str) -> (r: String)
    ensures
        r@ == without_double_spaces(s@),
{
    let v = chars_of(s);
    let mut out = String::new();
    let mut i: usize = 0;
    assert(s@.skip(0) =~= s@);
    assert(out@ + without_double_spaces(s@) =~= without_double_spaces(s@));
    while i < v.len()
        invariant
            i <= v.len(),
            v@ == s@,
            out@ + without_double_spaces(s@.skip(i as int)) == without_double_spaces(s@),
        decreases v.len() - i,
    {
        let ghost rest = s@.skip(i as int);
        let ghost before = out@;
        if v[i] == ' ' && i + 1 < v.len() && v[i + 1] == ' ' {
            assert(rest.skip(2) =~= s@.skip(i + 2));
            i += 2;
        } else {
            assert(rest.skip(1) =~= s@.skip(i + 1));
            out.push(v[i]);
            assert(out@ + without_double_spaces(rest.skip(1)) =~= before + (seq![rest[0]]
                + without_double_spaces(rest.skip(1))));
            i += 1;
        }
    }
    assert(s@.skip(i as int) =~= Seq::<char>::empty());
    assert(out@ + Seq::<char>::empty() =~= out@);
    out
}

} // verus!
