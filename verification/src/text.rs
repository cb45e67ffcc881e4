//! Text as sequences of characters: the string functions that the rest of the
//! library reads command output and builds messages with, each proved against a
//! statement over `Seq<char>`.

use vstd::prelude::*;
use vstd::slice::slice_subrange;

verus! {

/// `String::push` of std: appends one character to the end of the string.
pub assume_specification[ String::push ](s: &mut String, c: char)
    ensures
        final(s)@ == old(s)@.push(c),
;

// ---------------------------------------------------------------------------
// Conversion and concatenation
// ---------------------------------------------------------------------------

/// The characters of `s`, in order.
pub fn to_chars(s: &str) -> (r: Vec<char>)
    ensures
        r@ == s@,
{
    let mut out: Vec<char> = Vec::new();
    for c in it: s.chars()
        invariant
            out@ == s@.subrange(0, it.index() as int),
            it.seq() == s@,
    {
        out.push(c);
        proof {
            assert(s@.subrange(0, it.index() as int).push(c) =~= s@.subrange(0, it.index() + 1));
        }
    }
    assert(s@.subrange(0, s@.len() as int) =~= s@);
    out
}

/// The string made of the characters of `v`, in order.
pub fn from_chars(v: &[char]) -> (r: String)
    ensures
        r@ == v@,
{
    let mut out: String = String::new();
    let mut i: usize = 0;
    while i < v.len()
        invariant
            i <= v@.len(),
            out@ == v@.subrange(0, i as int),
        decreases v@.len() - i,
    {
        out.push(v[i]);
        proof {
            assert(v@.subrange(0, i as int).push(v@[i as int]) =~= v@.subrange(0, i + 1));
        }
        i += 1;
    }
    assert(v@.subrange(0, v@.len() as int) =~= v@);
    out
}

/// `s` with `t` behind it.
pub fn cat(s: String, t: &str) -> (r: String)
    ensures
        r@ == s@ + t@,
{
    let mut out: String = s;
    out.append(t);
    out
}

/// A copy of `s`.
pub fn copy(s: &String) -> (r: String)
    ensures
        r == *s,
{
    s.clone()
}

/// A copy of an optional string.
pub fn copy_opt(s: &Option<String>) -> (r: Option<String>)
    ensures
        r.deep_view() == s.deep_view(),
{
    match s {
        Some(x) => Some(x.clone()),
        None => None,
    }
}

/// A copy of a list of strings.
pub fn copy_all(v: &Vec<String>) -> (r: Vec<String>)
    ensures
        r.deep_view() == v.deep_view(),
{
    let mut out: Vec<String> = Vec::new();
    let mut i: usize = 0;
    while i < v.len()
        invariant
            i <= v@.len(),
            out@.len() == i,
            forall|j: int| 0 <= j < i ==> #[trigger] out@[j].deep_view() == v@[j].deep_view(),
        decreases v@.len() - i,
    {
        out.push(v[i].clone());
        i += 1;
    }
    assert(out.deep_view() =~= v.deep_view());
    out
}

/// Whether two strings hold the same characters.
pub fn same(a: &str, b: &str) -> (r: bool)
    ensures
        r == (a@ == b@),
{
    let x: Vec<char> = to_chars(a);
    let y: Vec<char> = to_chars(b);
    if x.len() != y.len() {
        return false;
    }
    let mut i: usize = 0;
    while i < x.len()
        invariant
            i <= x@.len(),
            x@.len() == y@.len(),
            forall|j: int| 0 <= j < i ==> x@[j] == y@[j],
        decreases x@.len() - i,
    {
        if x[i] != y[i] {
            return false;
        }
        i += 1;
    }
    assert(x@ =~= y@);
    true
}

/// Whether `v` holds a string equal to `s`.
pub fn holds(v: &Vec<String>, s: &str) -> (r: bool)
    ensures
        r == v.deep_view().contains(s@),
{
    let mut i: usize = 0;
    while i < v.len()
        invariant
            i <= v@.len(),
            forall|j: int| 0 <= j < i ==> v.deep_view()[j] != s@,
        decreases v@.len() - i,
    {
        if same(v[i].as_str(), s) {
            assert(v.deep_view()[i as int] == s@);
            return true;
        }
        i += 1;
    }
    false
}

// ---------------------------------------------------------------------------
// Lists of strings
// ---------------------------------------------------------------------------

pub fn list1(a: &str) -> (r: Vec<String>)
    ensures
        r.deep_view() == seq![a@],
{
    let r: Vec<String> = vec![a.to_string()];
    assert(r.deep_view() =~= seq![a@]);
    r
}

pub fn list2(a: &str, b: &str) -> (r: Vec<String>)
    ensures
        r.deep_view() == seq![a@, b@],
{
    let r: Vec<String> = vec![a.to_string(), b.to_string()];
    assert(r.deep_view() =~= seq![a@, b@]);
    r
}

pub fn list3(a: &str, b: &str, c: &str) -> (r: Vec<String>)
    ensures
        r.deep_view() == seq![a@, b@, c@],
{
    let r: Vec<String> = vec![a.to_string(), b.to_string(), c.to_string()];
    assert(r.deep_view() =~= seq![a@, b@, c@]);
    r
}

pub fn list4(a: &str, b: &str, c: &str, d: &str) -> (r: Vec<String>)
    ensures
        r.deep_view() == seq![a@, b@, c@, d@],
{
    let r: Vec<String> = vec![a.to_string(), b.to_string(), c.to_string(), d.to_string()];
    assert(r.deep_view() =~= seq![a@, b@, c@, d@]);
    r
}

/// The two lists one after the other.
pub fn chain(a: Vec<String>, b: Vec<String>) -> (r: Vec<String>)
    ensures
        r.deep_view() == a.deep_view() + b.deep_view(),
{
    let ghost front = a.deep_view();
    let ghost back = b.deep_view();
    let mut out: Vec<String> = a;
    let mut rest: Vec<String> = b;
    out.append(&mut rest);
    assert(out.deep_view() =~= front + back);
    out
}

/// Adds one string to the end of a list.
pub fn append_to(v: &mut Vec<String>, s: String)
    ensures
        final(v).deep_view() == old(v).deep_view().push(s@),
{
    v.push(s);
    assert(v.deep_view() =~= old(v).deep_view().push(s@));
}

// ---------------------------------------------------------------------------
// Whitespace
// ---------------------------------------------------------------------------

/// The Unicode `White_Space` property.
pub open spec fn is_space(c: char) -> bool {
    let n = c as u32;
    ||| 0x09 <= n <= 0x0d
    ||| n == 0x20
    ||| n == 0x85
    ||| n == 0xa0
    ||| n == 0x1680
    ||| 0x2000 <= n <= 0x200a
    ||| n == 0x2028
    ||| n == 0x2029
    ||| n == 0x202f
    ||| n == 0x205f
    ||| n == 0x3000
}

pub fn space(c: char) -> (r: bool)
    ensures
        r == is_space(c),
{
    let n: u32 = c as u32;
    (0x09 <= n && n <= 0x0d) || n == 0x20 || n == 0x85 || n == 0xa0 || n == 0x1680 || (0x2000 <= n
        && n <= 0x200a) || n == 0x2028 || n == 0x2029 || n == 0x202f || n == 0x205f || n == 0x3000
}

/// `s` without the whitespace in front.
pub open spec fn spec_trim_start(s: Seq<char>) -> Seq<char>
    decreases s.len(),
{
    if s.len() > 0 && is_space(s[0]) {
        spec_trim_start(s.drop_first())
    } else {
        s
    }
}

/// `s` without the whitespace behind.
pub open spec fn spec_trim_end(s: Seq<char>) -> Seq<char>
    decreases s.len(),
{
    if s.len() > 0 && is_space(s.last()) {
        spec_trim_end(s.drop_last())
    } else {
        s
    }
}

/// `s` without the whitespace at either end.
pub open spec fn spec_trim(s: Seq<char>) -> Seq<char> {
    spec_trim_end(spec_trim_start(s))
}

pub fn trim_start_chars(v: &[char]) -> (r: &[char])
    ensures
        r@ == spec_trim_start(v@),
{
    let mut i: usize = 0;
    assert(v@.subrange(0, v@.len() as int) =~= v@);
    while i < v.len() && space(v[i])
        invariant
            i <= v@.len(),
            spec_trim_start(v@) == spec_trim_start(v@.subrange(i as int, v@.len() as int)),
        decreases v@.len() - i,
    {
        proof {
            assert(v@.subrange(i as int, v@.len() as int).drop_first() =~= v@.subrange(
                i + 1,
                v@.len() as int,
            ));
        }
        i += 1;
    }
    slice_subrange(v, i, v.len())
}

pub fn trim_end_chars(v: &[char]) -> (r: &[char])
    ensures
        r@ == spec_trim_end(v@),
{
    let mut n: usize = v.len();
    assert(v@.subrange(0, v@.len() as int) =~= v@);
    while n > 0 && space(v[n - 1])
        invariant
            n <= v@.len(),
            spec_trim_end(v@) == spec_trim_end(v@.subrange(0, n as int)),
        decreases n,
    {
        proof {
            assert(v@.subrange(0, n as int).drop_last() =~= v@.subrange(0, n - 1));
        }
        n -= 1;
    }
    slice_subrange(v, 0, n)
}

pub fn trim(s: &str) -> (r: String)
    ensures
        r@ == spec_trim(s@),
{
    let v: Vec<char> = to_chars(s);
    from_chars(trim_end_chars(trim_start_chars(v.as_slice())))
}

pub fn trim_start(s: &str) -> (r: String)
    ensures
        r@ == spec_trim_start(s@),
{
    let v: Vec<char> = to_chars(s);
    from_chars(trim_start_chars(v.as_slice()))
}

// ---------------------------------------------------------------------------
// Searching
// ---------------------------------------------------------------------------

/// `p` stands in `s` at position `i`.
pub open spec fn stands_at(s: Seq<char>, p: Seq<char>, i: int) -> bool {
    0 <= i && i + p.len() <= s.len() && s.subrange(i, i + p.len()) == p
}

/// The first position from `from` on at which `p` stands in `s`.
pub open spec fn spec_find(s: Seq<char>, p: Seq<char>, from: int) -> Option<int>
    decreases s.len() + 1 - from,
{
    if from < 0 || from + p.len() > s.len() {
        None
    } else if stands_at(s, p, from) {
        Some(from)
    } else {
        spec_find(s, p, from + 1)
    }
}

/// `p` stands somewhere in `s`.
pub open spec fn spec_contains(s: Seq<char>, p: Seq<char>) -> bool {
    exists|i: int| stands_at(s, p, i)
}

pub proof fn lemma_find(s: Seq<char>, p: Seq<char>, from: int)
    requires
        0 <= from,
    ensures
        match spec_find(s, p, from) {
            Some(i) => from <= i && stands_at(s, p, i) && forall|j: int|
                from <= j < i ==> !stands_at(s, p, j),
            None => forall|j: int| from <= j ==> !stands_at(s, p, j),
        },
    decreases s.len() + 1 - from,
{
    if from + p.len() > s.len() {
    } else if stands_at(s, p, from) {
    } else {
        lemma_find(s, p, from + 1);
    }
}

/// Whether `p` stands in `s` at position `i`.
pub fn at(s: &[char], p: &[char], i: usize) -> (r: bool)
    ensures
        r == stands_at(s@, p@, i as int),
{
    if p.len() > s.len() || i > s.len() - p.len() {
        return false;
    }
    let mut j: usize = 0;
    while j < p.len()
        invariant
            j <= p@.len(),
            i + p@.len() <= s@.len(),
            forall|k: int| 0 <= k < j ==> s@[i + k] == p@[k],
        decreases p@.len() - j,
    {
        if s[i + j] != p[j] {
            assert(s@.subrange(i as int, i + p@.len())[j as int] != p@[j as int]);
            return false;
        }
        j += 1;
    }
    assert(s@.subrange(i as int, i + p@.len()) =~= p@);
    true
}

pub fn find_chars(s: &[char], p: &[char], from: usize) -> (r: Option<usize>)
    ensures
        match r {
            Some(i) => spec_find(s@, p@, from as int) == Some(i as int),
            None => spec_find(s@, p@, from as int) is None,
        },
{
    let mut i: usize = from;
    while p.len() <= s.len() && i <= s.len() - p.len()
        invariant
            from <= i,
            from <= s@.len() - p@.len() ==> i <= s@.len() - p@.len() + 1,
            spec_find(s@, p@, from as int) == spec_find(s@, p@, i as int),
        decreases s@.len() - i,
    {
        if at(s, p, i) {
            return Some(i);
        }
        if i == s.len() - p.len() {
            assert(spec_find(s@, p@, i + 1) is None);
            return None;
        }
        i += 1;
    }
    None
}

pub fn contains(s: &str, p: &str) -> (r: bool)
    ensures
        r == spec_contains(s@, p@),
{
    let v: Vec<char> = to_chars(s);
    let q: Vec<char> = to_chars(p);
    let r: Option<usize> = find_chars(v.as_slice(), q.as_slice(), 0);
    proof {
        lemma_find(s@, p@, 0);
    }
    match r {
        Some(i) => {
            assert(stands_at(s@, p@, i as int));
            true
        },
        None => false,
    }
}

/// Whether `s` begins with `p`.
pub open spec fn spec_starts(s: Seq<char>, p: Seq<char>) -> bool {
    stands_at(s, p, 0)
}

/// Whether `s` ends with `p`.
pub open spec fn spec_ends(s: Seq<char>, p: Seq<char>) -> bool {
    stands_at(s, p, s.len() - p.len())
}

/// What follows the prefix `p` in `s`, where `s` begins with it.
pub open spec fn spec_strip_prefix(s: Seq<char>, p: Seq<char>) -> Option<Seq<char>> {
    if spec_starts(s, p) {
        Some(s.subrange(p.len() as int, s.len() as int))
    } else {
        None
    }
}

/// What precedes the suffix `p` in `s`, where `s` ends with it.
pub open spec fn spec_strip_suffix(s: Seq<char>, p: Seq<char>) -> Option<Seq<char>> {
    if spec_ends(s, p) {
        Some(s.subrange(0, s.len() - p.len()))
    } else {
        None
    }
}

pub fn starts(s: &str, p: &str) -> (r: bool)
    ensures
        r == spec_starts(s@, p@),
{
    let v: Vec<char> = to_chars(s);
    let q: Vec<char> = to_chars(p);
    at(v.as_slice(), q.as_slice(), 0)
}

pub fn strip_prefix(s: &str, p: &str) -> (r: Option<String>)
    ensures
        r.deep_view() == spec_strip_prefix(s@, p@),
{
    let v: Vec<char> = to_chars(s);
    let q: Vec<char> = to_chars(p);
    if at(v.as_slice(), q.as_slice(), 0) {
        Some(from_chars(slice_subrange(v.as_slice(), q.len(), v.len())))
    } else {
        None
    }
}

pub fn strip_suffix(s: &str, p: &str) -> (r: Option<String>)
    ensures
        r.deep_view() == spec_strip_suffix(s@, p@),
{
    let v: Vec<char> = to_chars(s);
    let q: Vec<char> = to_chars(p);
    if q.len() <= v.len() && at(v.as_slice(), q.as_slice(), v.len() - q.len()) {
        Some(from_chars(slice_subrange(v.as_slice(), 0, v.len() - q.len())))
    } else {
        None
    }
}

} // verus!
