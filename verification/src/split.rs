//! Cutting text into pieces: lines, separated fields, words, and replacing one
//! piece by another.

use vstd::prelude::*;
use vstd::slice::slice_subrange;

use crate::text::{
    append_to, find_chars, from_chars, is_space, lemma_find, space, spec_find, stands_at, to_chars,
};

verus! {

/// How many characters of `s` stand before the first `c` (all of them where
/// there is none).
pub open spec fn upto(s: Seq<char>, c: char) -> nat
    decreases s.len(),
{
    if s.len() == 0 || s[0] == c {
        0
    } else {
        1 + upto(s.drop_first(), c)
    }
}

pub proof fn lemma_upto(s: Seq<char>, c: char)
    ensures
        upto(s, c) <= s.len(),
        upto(s, c) < s.len() ==> s[upto(s, c) as int] == c,
        forall|i: int| 0 <= i < upto(s, c) ==> s[i] != c,
    decreases s.len(),
{
    if s.len() == 0 || s[0] == c {
    } else {
        lemma_upto(s.drop_first(), c);
        assert forall|i: int| 0 <= i < upto(s, c) implies s[i] != c by {
            if i > 0 {
                assert(s.drop_first()[i - 1] == s[i]);
            }
        }
    }
}

/// The part of `s` behind position `i`.
pub open spec fn tail(s: Seq<char>, i: int) -> Seq<char> {
    s.subrange(i, s.len() as int)
}

/// The fields of `s` between the occurrences of `c`.
pub open spec fn spec_split(s: Seq<char>, c: char) -> Seq<Seq<char>>
    decreases s.len(),
{
    let i = upto(s, c);
    if i < s.len() {
        seq![s.subrange(0, i as int)] + spec_split(tail(s, i as int + 1), c)
    } else {
        seq![s]
    }
}

/// `line` without the carriage return that ends it.
pub open spec fn without_cr(line: Seq<char>) -> Seq<char> {
    if line.len() > 0 && line.last() == '\r' {
        line.drop_last()
    } else {
        line
    }
}

/// The lines of `s`: each ends at a line feed, which is not part of it, nor is
/// the carriage return in front of that; nothing follows the last line feed
/// where it ends the text.
pub open spec fn spec_lines(s: Seq<char>) -> Seq<Seq<char>>
    decreases s.len(),
{
    let i = upto(s, '\n');
    if s.len() == 0 {
        Seq::empty()
    } else if i < s.len() {
        seq![without_cr(s.subrange(0, i as int))] + spec_lines(tail(s, i as int + 1))
    } else {
        seq![s]
    }
}

/// The first position from `start` on that holds `c`, or the end.
fn scan(v: &[char], c: char, start: usize) -> (r: usize)
    requires
        start <= v@.len(),
    ensures
        start <= r <= v@.len(),
        r == start + upto(tail(v@, start as int), c),
{
    let mut i: usize = start;
    while i < v.len() && v[i] != c
        invariant
            start <= i <= v@.len(),
            start + upto(tail(v@, start as int), c) == i + upto(tail(v@, i as int), c),
        decreases v@.len() - i,
    {
        assert(tail(v@, i as int).drop_first() =~= tail(v@, i + 1));
        i += 1;
    }
    i
}

pub fn split(s: &str, c: char) -> (r: Vec<String>)
    ensures
        r.deep_view() == spec_split(s@, c),
{
    let v: Vec<char> = to_chars(s);
    let mut out: Vec<String> = Vec::new();
    let mut start: usize = 0;
    assert(tail(s@, 0) =~= s@);
    assert(out.deep_view() =~= Seq::<Seq<char>>::empty());
    assert(out.deep_view() + spec_split(s@, c) =~= spec_split(s@, c));
    loop
        invariant
            v@ == s@,
            start <= v@.len(),
            out.deep_view() + spec_split(tail(s@, start as int), c) == spec_split(s@, c),
        decreases v@.len() - start,
    {
        let end: usize = scan(v.as_slice(), c, start);
        let ghost rest = tail(s@, start as int);
        let ghost done = out.deep_view();
        proof {
            assert(rest.subrange(0, end - start) =~= s@.subrange(start as int, end as int));
        }
        append_to(&mut out, from_chars(slice_subrange(v.as_slice(), start, end)));
        if end == v.len() {
            assert(rest.subrange(0, end - start) =~= rest);
            assert(out.deep_view() =~= done + seq![rest]);
            return out;
        }
        proof {
            assert(tail(rest, end - start + 1) =~= tail(s@, end + 1));
            assert(out.deep_view() + spec_split(tail(s@, end + 1), c) =~= done + spec_split(rest, c));
        }
        start = end + 1;
    }
}

pub fn lines(s: &str) -> (r: Vec<String>)
    ensures
        r.deep_view() == spec_lines(s@),
{
    let v: Vec<char> = to_chars(s);
    let mut out: Vec<String> = Vec::new();
    let mut start: usize = 0;
    assert(tail(s@, 0) =~= s@);
    assert(out.deep_view() =~= Seq::<Seq<char>>::empty());
    assert(out.deep_view() + spec_lines(s@) =~= spec_lines(s@));
    while start < v.len()
        invariant
            v@ == s@,
            start <= v@.len(),
            out.deep_view() + spec_lines(tail(s@, start as int)) == spec_lines(s@),
        decreases v@.len() - start,
    {
        let end: usize = scan(v.as_slice(), '\n', start);
        let ghost rest = tail(s@, start as int);
        let ghost done = out.deep_view();
        proof {
            assert(rest.subrange(0, end - start) =~= s@.subrange(start as int, end as int));
        }
        if end == v.len() {
            append_to(&mut out, from_chars(slice_subrange(v.as_slice(), start, end)));
            assert(rest.subrange(0, end - start) =~= rest);
            assert(out.deep_view() =~= done + seq![rest]);
            return out;
        }
        let cut: usize = if end > start && v[end - 1] == '\r' {
            end - 1
        } else {
            end
        };
        proof {
            assert(without_cr(rest.subrange(0, end - start)) =~= s@.subrange(
                start as int,
                cut as int,
            ));
        }
        append_to(&mut out, from_chars(slice_subrange(v.as_slice(), start, cut)));
        proof {
            assert(tail(rest, end - start + 1) =~= tail(s@, end + 1));
            assert(out.deep_view() + spec_lines(tail(s@, end + 1)) =~= done + spec_lines(rest));
        }
        start = end + 1;
    }
    assert(tail(s@, start as int) =~= Seq::<char>::empty());
    assert(out.deep_view() + Seq::<Seq<char>>::empty() =~= out.deep_view());
    out
}

/// How many characters of `s` stand before the first whitespace.
pub open spec fn word_len(s: Seq<char>) -> nat
    decreases s.len(),
{
    if s.len() == 0 || is_space(s[0]) {
        0
    } else {
        1 + word_len(s.drop_first())
    }
}

/// The words of `s`: its longest runs without whitespace.
pub open spec fn spec_words(s: Seq<char>) -> Seq<Seq<char>>
    decreases s.len(),
{
    if s.len() == 0 {
        Seq::empty()
    } else if is_space(s[0]) {
        spec_words(s.drop_first())
    } else {
        let n = word_len(s) as int;
        if n <= s.len() {
            seq![s.subrange(0, n)] + spec_words(tail(s, n))
        } else {
            Seq::empty()
        }
    }
}

pub fn words(s: &str) -> (r: Vec<String>)
    ensures
        r.deep_view() == spec_words(s@),
{
    let v: Vec<char> = to_chars(s);
    let mut out: Vec<String> = Vec::new();
    let mut start: usize = 0;
    assert(tail(s@, 0) =~= s@);
    assert(out.deep_view() =~= Seq::<Seq<char>>::empty());
    assert(out.deep_view() + spec_words(s@) =~= spec_words(s@));
    while start < v.len()
        invariant
            v@ == s@,
            start <= v@.len(),
            out.deep_view() + spec_words(tail(s@, start as int)) == spec_words(s@),
        decreases v@.len() - start,
    {
        let ghost rest = tail(s@, start as int);
        if space(v[start]) {
            assert(rest.drop_first() =~= tail(s@, start + 1));
            start += 1;
        } else {
            let mut end: usize = start;
            while end < v.len() && !space(v[end])
                invariant
                    v@ == s@,
                    start <= end <= v@.len(),
                    word_len(rest) == (end - start) + word_len(tail(s@, end as int)),
                decreases v@.len() - end,
            {
                assert(tail(s@, end as int).drop_first() =~= tail(s@, end + 1));
                end += 1;
            }
            let ghost done = out.deep_view();
            append_to(&mut out, from_chars(slice_subrange(v.as_slice(), start, end)));
            proof {
                assert(rest.subrange(0, end - start) =~= s@.subrange(start as int, end as int));
                assert(tail(rest, end - start) =~= tail(s@, end as int));
                assert(out.deep_view() + spec_words(tail(s@, end as int)) =~= done + spec_words(rest));
            }
            start = end;
        }
    }
    assert(tail(s@, start as int) =~= Seq::<char>::empty());
    assert(out.deep_view() + Seq::<Seq<char>>::empty() =~= out.deep_view());
    out
}

/// `s` with each occurrence of `p`, found from the left, replaced by `t`.
pub open spec fn spec_replace(s: Seq<char>, p: Seq<char>, t: Seq<char>) -> Seq<char>
    decreases s.len(),
{
    match spec_find(s, p, 0) {
        Some(i) if p.len() > 0 && 0 <= i && i + p.len() <= s.len() => s.subrange(0, i) + t
            + spec_replace(tail(s, i + p.len()), p, t),
        _ => s,
    }
}

proof fn lemma_find_from(s: Seq<char>, p: Seq<char>, start: int)
    requires
        0 <= start <= s.len(),
    ensures
        match spec_find(s, p, start) {
            Some(i) => start <= i && spec_find(tail(s, start), p, 0) == Some(i - start),
            None => spec_find(tail(s, start), p, 0) is None,
        },
{
    lemma_find(s, p, start);
    lemma_find(tail(s, start), p, 0);
    assert forall|i: int| 0 <= i implies (stands_at(tail(s, start), p, i) <==> stands_at(
        s,
        p,
        start + i,
    )) by {
        if i + p.len() <= tail(s, start).len() {
            assert(tail(s, start).subrange(i, i + p.len()) =~= s.subrange(
                start + i,
                start + i + p.len(),
            ));
        }
    }
    match spec_find(s, p, start) {
        Some(i) => {
            assert(stands_at(tail(s, start), p, i - start));
            let k = spec_find(tail(s, start), p, 0);
            assert(k is Some);
            assert(stands_at(s, p, start + k->0));
            if k->0 < i - start {
                assert(!stands_at(s, p, start + k->0));
            }
        },
        None => {
            let k = spec_find(tail(s, start), p, 0);
            if k is Some {
                assert(stands_at(s, p, start + k->0));
            }
        },
    }
}

pub fn replace(s: &str, p: &str, t: &str) -> (r: String)
    requires
        p@.len() > 0,
    ensures
        r@ == spec_replace(s@, p@, t@),
{
    let v: Vec<char> = to_chars(s);
    let q: Vec<char> = to_chars(p);
    let mut out: String = String::new();
    let mut start: usize = 0;
    assert(tail(s@, 0) =~= s@);
    assert(out@ + spec_replace(s@, p@, t@) =~= spec_replace(s@, p@, t@));
    loop
        invariant
            v@ == s@,
            q@ == p@,
            p@.len() > 0,
            start <= v@.len(),
            out@ + spec_replace(tail(s@, start as int), p@, t@) == spec_replace(s@, p@, t@),
        decreases v@.len() - start,
    {
        let ghost rest = tail(s@, start as int);
        let ghost done = out@;
        proof {
            lemma_find_from(s@, p@, start as int);
            lemma_find(s@, p@, start as int);
        }
        match find_chars(v.as_slice(), q.as_slice(), start) {
            Some(i) => {
                let piece: String = from_chars(slice_subrange(v.as_slice(), start, i));
                out.append(piece.as_str());
                out.append(t);
                proof {
                    assert(rest.subrange(0, i - start) =~= s@.subrange(start as int, i as int));
                    assert(tail(rest, i - start + p@.len()) =~= tail(s@, i + p@.len()));
                    assert(out@ + spec_replace(tail(s@, i + p@.len()), p@, t@) =~= done
                        + spec_replace(rest, p@, t@));
                }
                let width: usize = v.len();
                assert(i + q@.len() <= width);
                start = i + q.len();
            },
            None => {
                let piece: String = from_chars(slice_subrange(v.as_slice(), start, v.len()));
                out.append(piece.as_str());
                return out;
            },
        }
    }
}

/// The strings of `parts` with `sep` between them.
pub open spec fn spec_join(parts: Seq<Seq<char>>, sep: Seq<char>) -> Seq<char>
    decreases parts.len(),
{
    if parts.len() == 0 {
        Seq::empty()
    } else if parts.len() == 1 {
        parts[0]
    } else {
        spec_join(parts.drop_last(), sep) + sep + parts.last()
    }
}

pub fn join(parts: &Vec<String>, sep: &str) -> (r: String)
    ensures
        r@ == spec_join(parts.deep_view(), sep@),
{
    if parts.len() == 0 {
        return String::new();
    }
    let mut out: String = parts[0].clone();
    let mut i: usize = 1;
    assert(parts.deep_view().subrange(0, 1) =~= seq![parts@[0]@]);
    while i < parts.len()
        invariant
            1 <= i <= parts@.len(),
            out@ == spec_join(parts.deep_view().subrange(0, i as int), sep@),
        decreases parts@.len() - i,
    {
        proof {
            assert(parts.deep_view().subrange(0, i + 1).drop_last() =~= parts.deep_view().subrange(
                0,
                i as int,
            ));
        }
        out.append(sep);
        out.append(parts[i].as_str());
        i += 1;
    }
    assert(parts.deep_view().subrange(0, i as int) =~= parts.deep_view());
    out
}

} // verus!
