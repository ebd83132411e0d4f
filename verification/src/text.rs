//! Character-level helpers for the line grammars of this crate.
//!
//! The grammars are stated over `Seq<char>` with three cuts: the text before
//! the first occurrence of a character, the text after it, and the text after
//! the last occurrence. The executable side works on the characters of a line
//! collected once into a vector.

use vstd::prelude::*;
use vstd::std_specs::iter::IteratorSpec;

verus! {

/// The part of `s` before the first `c`; all of `s` when `c` does not occur.
pub open spec fn until(s: Seq<char>, c: char) -> Seq<char> {
    match s.index_of_first(c) {
        Some(i) => s.take(i),
        None => s,
    }
}

/// The part of `s` after the first `c`; empty when `c` does not occur.
pub open spec fn after(s: Seq<char>, c: char) -> Seq<char> {
    match s.index_of_first(c) {
        Some(i) => s.skip(i + 1),
        None => Seq::empty(),
    }
}

/// The part of `s` after the last `c`; empty when `c` does not occur.
pub open spec fn after_last(s: Seq<char>, c: char) -> Seq<char> {
    match s.index_of_last(c) {
        Some(i) => s.skip(i + 1),
        None => Seq::empty(),
    }
}

/// An index is the first occurrence of `c` exactly when `c` stands there and
/// nowhere before it.
pub proof fn lemma_first_occurrence<A>(s: Seq<A>, c: A, i: int)
    requires
        0 <= i < s.len(),
        s[i] == c,
        forall|j: int| 0 <= j < i ==> s[j] != c,
    ensures
        s.index_of_first(c) == Some(i),
{
    s.index_of_first_ensures(c);
    assert(s.contains(c));
}

/// An index is the last occurrence of `c` exactly when `c` stands there and
/// nowhere after it.
pub proof fn lemma_last_occurrence<A>(s: Seq<A>, c: A, i: int)
    requires
        0 <= i < s.len(),
        s[i] == c,
        forall|j: int| i < j < s.len() ==> s[j] != c,
    ensures
        s.index_of_last(c) == Some(i),
{
    s.index_of_last_ensures(c);
    assert(s.contains(c));
}

/// A sequence without `c` has no first and no last occurrence of it.
pub proof fn lemma_no_occurrence<A>(s: Seq<A>, c: A)
    requires
        forall|j: int| 0 <= j < s.len() ==> s[j] != c,
    ensures
        s.index_of_first(c) is None,
        s.index_of_last(c) is None,
{
    s.index_of_first_ensures(c);
    s.index_of_last_ensures(c);
}

/// The characters of `s`, in order.
pub(crate) fn chars_of(s: &str) -> (chars: Vec<char>)
    ensures
        chars@ == s@,
{
    let mut chars: Vec<char> = Vec::new();
    for c in it: s.chars()
        invariant
            chars@ == it.seq().take(it.index() as int),
            it.seq() == s@,
    {
        chars.push(c);
    }
    chars
}

/// Index of the first `c` at or after `from`; the length of `chars` when
/// there is none.
pub(crate) fn find_from(chars: &Vec<char>, from: usize, c: char) -> (at: usize)
    requires
        from <= chars.len(),
    ensures
        from <= at <= chars.len(),
        at < chars.len() ==> chars@.skip(from as int).index_of_first(c) == Some(at - from),
        at == chars.len() ==> chars@.skip(from as int).index_of_first(c) is None,
{
    let mut at: usize = from;
    while at < chars.len() && chars[at] != c
        invariant
            from <= at <= chars.len(),
            forall|j: int| from <= j < at ==> chars@[j] != c,
        decreases chars.len() - at,
    {
        at = at + 1;
    }
    proof {
        let tail = chars@.skip(from as int);
        if at < chars.len() {
            lemma_first_occurrence(tail, c, at - from);
        } else {
            lemma_no_occurrence(tail, c);
        }
    }
    at
}

/// Index of the last `c` in `chars`, if it occurs.
pub(crate) fn find_last(chars: &Vec<char>, c: char) -> (at: Option<usize>)
    ensures
        match at {
            Some(i) => i < chars.len() && chars@.index_of_last(c) == Some(i as int),
            None => chars@.index_of_last(c) is None,
        },
{
    let mut end: usize = chars.len();
    while end > 0 && chars[end - 1] != c
        invariant
            end <= chars.len(),
            forall|j: int| end <= j < chars.len() ==> chars@[j] != c,
        decreases end,
    {
        end = end - 1;
    }
    if end > 0 {
        proof {
            lemma_last_occurrence(chars@, c, end - 1);
        }
        Some(end - 1)
    } else {
        proof {
            lemma_no_occurrence(chars@, c);
        }
        None
    }
}

/// Whether two texts are the same, character by character.
pub(crate) fn same_text(a: &str, b: &str) -> (same: bool)
    ensures
        same == (a@ == b@),
{
    let left = chars_of(a);
    let right = chars_of(b);
    if left.len() != right.len() {
        return false;
    }
    let mut i: usize = 0;
    while i < left.len()
        invariant
            i <= left.len(),
            left.len() == right.len(),
            left@ == a@,
            right@ == b@,
            forall|j: int| 0 <= j < i ==> left@[j] == right@[j],
        decreases left.len() - i,
    {
        if left[i] != right[i] {
            return false;
        }
        i = i + 1;
    }
    assert(left@ =~= right@);
    true
}

/// The characters of `line` from index `from` up to, not including, `to`.
pub(crate) fn slice_of(line: &str, from: usize, to: usize) -> (part: String)
    requires
        from <= to <= line@.len(),
    ensures
        part@ == line@.subrange(from as int, to as int),
{
    line.substring_char(from, to).to_owned()
}

} // verus!
