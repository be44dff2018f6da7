//! Searching and splitting sequences of characters.

use crate::text::{is_blank, is_space};
use vstd::prelude::*;

verus! {

/// The index of the first `c` in `s`, or the length of `s` where `c` does not
/// occur.
pub open spec fn position(s: Seq<char>, c: char) -> nat
    decreases s.len(),
{
    if s.len() == 0 || s.first() == c {
        0
    } else {
        1 + position(s.drop_first(), c)
    }
}

/// `position` is the least index that holds `c`.
pub proof fn lemma_position_is_first(s: Seq<char>, c: char)
    ensures
        position(s, c) <= s.len(),
        forall|i: int| 0 <= i < position(s, c) ==> s[i] != c,
        position(s, c) < s.len() ==> s[position(s, c) as int] == c,
    decreases s.len(),
{
    if s.len() == 0 || s.first() == c {
    } else {
        let t = s.drop_first();
        lemma_position_is_first(t, c);
        assert forall|i: int| 0 <= i < position(s, c) implies s[i] != c by {
            if i > 0 {
                assert(s[i] == t[i - 1]);
            }
        }
        if position(s, c) < s.len() {
            assert(s[position(s, c) as int] == t[position(t, c) as int]);
        }
    }
}

/// An index that holds the first `c` is `position`.
pub proof fn lemma_position_found(s: Seq<char>, c: char, k: int)
    requires
        0 <= k <= s.len(),
        forall|i: int| 0 <= i < k ==> s[i] != c,
        k < s.len() ==> s[k] == c,
    ensures
        position(s, c) == k,
{
    lemma_position_is_first(s, c);
    let p = position(s, c) as int;
    if p < k {
        assert(s[p] != c);
    } else if k < p {
        assert(s[k] != c);
    }
}

/// Index in `v[from..to]` of the first `c`, counted from `from`; `to - from`
/// where there is none.
pub fn find_char(v: &Vec<char>, from: usize, to: usize, c: char) -> (k: usize)
    requires
        from <= to <= v.len(),
    ensures
        from <= k <= to,
        k - from == position(v@.subrange(from as int, to as int), c),
{
    let mut k: usize = from;
    while k < to && v[k] != c
        invariant
            from <= k <= to <= v.len(),
            forall|i: int| from <= i < k ==> v@[i] != c,
        decreases to - k,
    {
        k += 1;
    }
    proof {
        let t = v@.subrange(from as int, to as int);
        assert forall|i: int| 0 <= i < k - from implies t[i] != c by {
            assert(t[i] == v@[i + from]);
        }
        lemma_position_found(t, c, k - from);
    }
    k
}

/// A line without the carriage return that may end it.
pub open spec fn strip_cr(line: Seq<char>) -> Seq<char> {
    if line.len() > 0 && line.last() == '\r' {
        line.drop_last()
    } else {
        line
    }
}

/// The lines of `s`. A line ends with a line feed, or with a carriage return
/// and a line feed; neither belongs to the line. What follows the last line
/// feed is a line too, unless it is empty.
pub open spec fn lines_of(s: Seq<char>) -> Seq<Seq<char>>
    decreases s.len(),
{
    if s.len() == 0 {
        Seq::empty()
    } else {
        let k = position(s, '\n');
        if k >= s.len() {
            seq![s]
        } else {
            seq![strip_cr(s.take(k as int))] + lines_of(s.skip(k as int + 1))
        }
    }
}

/// A copy of `v[from..to]`.
pub fn copy_range(v: &Vec<char>, from: usize, to: usize) -> (r: Vec<char>)
    requires
        from <= to <= v.len(),
    ensures
        r@ == v@.subrange(from as int, to as int),
{
    let mut r: Vec<char> = Vec::new();
    let mut i: usize = from;
    while i < to
        invariant
            from <= i <= to <= v.len(),
            r@ == v@.subrange(from as int, i as int),
        decreases to - i,
    {
        r.push(v[i]);
        i += 1;
    }
    r
}

/// The lines of `v`, as `lines_of` defines them.
pub fn split_lines(v: &Vec<char>) -> (out: Vec<Vec<char>>)
    ensures
        out.deep_view() == lines_of(v@),
{
    let mut out: Vec<Vec<char>> = Vec::new();
    let mut start: usize = 0;
    assert(v@.skip(0) == v@);
    while start < v.len()
        invariant
            start <= v.len(),
            lines_of(v@) == out.deep_view() + lines_of(v@.skip(start as int)),
        decreases v.len() - start,
    {
        let ghost rest = v@.skip(start as int);
        let ghost before = out.deep_view();
        let end = find_char(v, start, v.len(), '\n');
        assert(v@.subrange(start as int, v.len() as int) == rest);
        let stop = if end < v.len() && end > start && v[end - 1] == '\r' {
            end - 1
        } else {
            end
        };
        let line = copy_range(v, start, stop);
        out.push(line);
        proof {
            let k = (end - start) as int;
            assert(rest.take(k) == v@.subrange(start as int, end as int));
            if end < v.len() {
                assert(line@ == strip_cr(rest.take(k))) by {
                    if end > start && v@[end - 1] == '\r' {
                        assert(rest.take(k).last() == v@[end - 1]);
                        assert(rest.take(k).drop_last() == v@.subrange(start as int, stop as int));
                    }
                }
                assert(rest.skip(k + 1) == v@.skip(end + 1));
            } else {
                assert(line@ == rest);
                assert(lines_of(v@.skip(v.len() as int)) == Seq::<Seq<char>>::empty());
            }
            assert(line.deep_view() =~= line@);
            assert(out.deep_view() =~= before.push(line@));
        }
        start = if end < v.len() {
            end + 1
        } else {
            end
        };
    }
    assert(lines_of(v@.skip(v.len() as int)) == Seq::<Seq<char>>::empty());
    out
}

/// Whether `needle` stands in `hay` at index `i`.
pub open spec fn occurs_at(hay: Seq<char>, needle: Seq<char>, i: int) -> bool {
    &&& 0 <= i
    &&& i + needle.len() <= hay.len()
    &&& hay.subrange(i, i + needle.len()) == needle
}

/// The greatest index not above `i` at which `needle` stands in `hay`, or -1.
pub open spec fn last_occurrence_upto(hay: Seq<char>, needle: Seq<char>, i: int) -> int
    decreases
            (if i < 0 {
                0
            } else {
                i + 1
            }),
{
    if i < 0 {
        -1
    } else if occurs_at(hay, needle, i) {
        i
    } else {
        last_occurrence_upto(hay, needle, i - 1)
    }
}

/// The greatest index at which `needle` stands in `hay`, or -1 where it
/// stands nowhere.
pub open spec fn last_occurrence(hay: Seq<char>, needle: Seq<char>) -> int {
    last_occurrence_upto(hay, needle, hay.len() - needle.len())
}

/// Whether `v[at..]` begins with `needle`.
pub fn matches_at(v: &Vec<char>, needle: &Vec<char>, at: usize) -> (b: bool)
    ensures
        b == occurs_at(v@, needle@, at as int),
{
    if needle.len() > v.len() || at > v.len() - needle.len() {
        return false;
    }
    let mut j: usize = 0;
    while j < needle.len()
        invariant
            j <= needle.len(),
            at + needle.len() <= v.len(),
            forall|i: int| 0 <= i < j ==> v@[at + i] == needle@[i],
        decreases needle.len() - j,
    {
        if v[at + j] != needle[j] {
            proof {
                let w = v@.subrange(at as int, at + needle.len());
                assert(w[j as int] == v@[at + j]);
            }
            return false;
        }
        j += 1;
    }
    assert(v@.subrange(at as int, at + needle.len()) =~= needle@);
    true
}

/// The greatest index at which `needle` stands in `v`.
pub fn find_last(v: &Vec<char>, needle: &Vec<char>) -> (r: Option<usize>)
    ensures
        match r {
            Some(i) => i as int == last_occurrence(v@, needle@),
            None => last_occurrence(v@, needle@) == -1,
        },
{
    if needle.len() > v.len() {
        return None;
    }
    let mut i: usize = v.len() - needle.len();
    loop
        invariant
            i <= v.len() - needle.len(),
            needle.len() <= v.len(),
            last_occurrence(v@, needle@) == last_occurrence_upto(v@, needle@, i as int),
        decreases i,
    {
        if matches_at(v, needle, i) {
            return Some(i);
        }
        if i == 0 {
            assert(last_occurrence_upto(v@, needle@, -1) == -1);
            return None;
        }
        i -= 1;
    }
}

/// Whether `needle` stands somewhere in `hay`.
pub open spec fn contains_text(hay: Seq<char>, needle: Seq<char>) -> bool {
    exists|i: int| occurs_at(hay, needle, i)
}

/// `last_occurrence_upto` finds an occurrence whenever one stands at or below
/// its bound.
pub proof fn lemma_last_occurrence_upto(hay: Seq<char>, needle: Seq<char>, i: int, j: int)
    requires
        occurs_at(hay, needle, j),
        j <= i,
    ensures
        j <= last_occurrence_upto(hay, needle, i) <= i,
        occurs_at(hay, needle, last_occurrence_upto(hay, needle, i)),
    decreases i - j,
{
    if !occurs_at(hay, needle, i) {
        lemma_last_occurrence_upto(hay, needle, i - 1, j);
    }
}

/// Where `last_occurrence_upto` says -1, `needle` stands nowhere at or below
/// the bound; what it returns otherwise is an occurrence.
pub proof fn lemma_last_occurrence_result(hay: Seq<char>, needle: Seq<char>, i: int)
    ensures
        -1 <= last_occurrence_upto(hay, needle, i),
        last_occurrence_upto(hay, needle, i) >= 0 ==> occurs_at(
            hay,
            needle,
            last_occurrence_upto(hay, needle, i),
        ) && last_occurrence_upto(hay, needle, i) <= i,
    decreases
            (if i < 0 {
                0
            } else {
                i + 1
            }),
{
    if i >= 0 && !occurs_at(hay, needle, i) {
        lemma_last_occurrence_result(hay, needle, i - 1);
    }
}

/// Whether `needle` stands somewhere in `v`.
pub fn contains(v: &Vec<char>, needle: &Vec<char>) -> (b: bool)
    ensures
        b == contains_text(v@, needle@),
{
    let r = find_last(v, needle);
    proof {
        let top = v@.len() - needle@.len();
        lemma_last_occurrence_result(v@, needle@, top);
        if r is None {
            assert forall|j: int| !occurs_at(v@, needle@, j) by {
                if occurs_at(v@, needle@, j) {
                    lemma_last_occurrence_upto(v@, needle@, top, j);
                }
            }
        }
    }
    r.is_some()
}

/// Every line of a blank text is blank.
pub proof fn lemma_lines_of_blank(s: Seq<char>, i: int)
    requires
        is_blank(s),
        0 <= i < lines_of(s).len(),
    ensures
        is_blank(lines_of(s)[i]),
    decreases s.len(),
{
    if s.len() > 0 {
        lemma_position_is_first(s, '\n');
        let k = position(s, '\n') as int;
        if k < s.len() {
            let head = strip_cr(s.take(k));
            assert forall|j: int| 0 <= j < head.len() implies is_space(#[trigger] head[j]) by {
                assert(head[j] == s[j]);
            }
            if i > 0 {
                let rest = s.skip(k + 1);
                assert forall|j: int| 0 <= j < rest.len() implies is_space(#[trigger] rest[j]) by {
                    assert(rest[j] == s[j + k + 1]);
                }
                lemma_lines_of_blank(rest, i - 1);
                assert(lines_of(s)[i] == lines_of(rest)[i - 1]);
            }
        }
    }
}

} // verus!
