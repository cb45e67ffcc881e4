//! Unix paths as text.

use vstd::prelude::*;
use vstd::slice::slice_subrange;

use crate::split::{spec_split, split};
use crate::text::{cat, from_chars, to_chars};

verus! {

/// `base` extended by `part`, as a Unix path: an absolute `part` stands alone, and
/// one slash separates the two otherwise.
pub open spec fn spec_path_join(base: Seq<char>, part: Seq<char>) -> Seq<char> {
    if part.len() > 0 && part[0] == '/' {
        part
    } else if base.len() == 0 || base.last() == '/' {
        base + part
    } else {
        base + "/"@ + part
    }
}

pub fn path_join(base: &str, part: &str) -> (r: String)
    ensures
        r@ == spec_path_join(base@, part@),
{
    let n: usize = base.unicode_len();
    if part.unicode_len() > 0 && part.get_char(0) == '/' {
        part.to_string()
    } else if n == 0 || base.get_char(n - 1) == '/' {
        cat(base.to_string(), part)
    } else {
        cat(cat(base.to_string(), "/"), part)
    }
}

/// How much of the path is left when trailing slashes and trailing `/.` parts
/// are cut off.
pub open spec fn kept_len(p: Seq<char>) -> nat
    decreases p.len(),
{
    if p.len() > 0 && p.last() == '/' {
        kept_len(p.drop_last())
    } else if p.len() > 1 && p.last() == '.' && p[p.len() - 2] == '/' {
        kept_len(p.drop_last())
    } else {
        p.len()
    }
}

/// The position behind the last slash of the path.
pub open spec fn last_part(p: Seq<char>) -> nat
    decreases p.len(),
{
    if p.len() == 0 || p.last() == '/' {
        p.len()
    } else {
        last_part(p.drop_last())
    }
}

/// The directory that holds the path: none for the root and for the empty path,
/// and the empty path for a single name.
pub open spec fn spec_parent(path: Seq<char>) -> Option<Seq<char>> {
    let p = path.subrange(0, kept_len(path) as int);
    if p.len() == 0 {
        None
    } else {
        let at = last_part(p) as int;
        let dir = p.subrange(0, at);
        if at == 0 {
            Some(Seq::empty())
        } else if kept_len(dir) == 0 {
            Some("/"@)
        } else {
            Some(dir.subrange(0, kept_len(dir) as int))
        }
    }
}

fn kept(v: &[char]) -> (r: usize)
    ensures
        r == kept_len(v@),
        r <= v@.len(),
{
    let mut n: usize = v.len();
    assert(v@.subrange(0, v@.len() as int) =~= v@);
    while (n > 0 && v[n - 1] == '/') || (n > 1 && v[n - 1] == '.' && v[n - 2] == '/')
        invariant
            n <= v@.len(),
            kept_len(v@) == kept_len(v@.subrange(0, n as int)),
        decreases n,
    {
        proof {
            assert(v@.subrange(0, n as int).drop_last() =~= v@.subrange(0, n - 1));
        }
        n -= 1;
    }
    n
}

fn last(v: &[char]) -> (r: usize)
    ensures
        r == last_part(v@),
        r <= v@.len(),
{
    let mut n: usize = v.len();
    assert(v@.subrange(0, v@.len() as int) =~= v@);
    while n > 0 && v[n - 1] != '/'
        invariant
            n <= v@.len(),
            last_part(v@) == last_part(v@.subrange(0, n as int)),
        decreases n,
    {
        proof {
            assert(v@.subrange(0, n as int).drop_last() =~= v@.subrange(0, n - 1));
        }
        n -= 1;
    }
    n
}

pub fn parent(path: &str) -> (r: Option<String>)
    ensures
        r.deep_view() == spec_parent(path@),
{
    let v: Vec<char> = to_chars(path);
    let p: &[char] = slice_subrange(v.as_slice(), 0, kept(v.as_slice()));
    if p.len() == 0 {
        return None;
    }
    let at: usize = last(p);
    if at == 0 {
        let none: String = String::new();
        assert(none@ =~= Seq::<char>::empty());
        return Some(none);
    }
    let dir: &[char] = slice_subrange(p, 0, at);
    let n: usize = kept(dir);
    if n == 0 {
        Some("/".to_string())
    } else {
        Some(from_chars(slice_subrange(dir, 0, n)))
    }
}

/// The names that a path is made of, without empty and `.` parts, except for a
/// leading `.`.
pub open spec fn spec_parts(path: Seq<char>) -> Seq<Seq<char>> {
    kept_parts(spec_split(path, '/'), true)
}

pub open spec fn kept_parts(parts: Seq<Seq<char>>, first: bool) -> Seq<Seq<char>>
    decreases parts.len(),
{
    if parts.len() == 0 {
        Seq::empty()
    } else {
        let rest = kept_parts(parts.drop_first(), false);
        if parts[0].len() == 0 || (!first && parts[0] == seq!['.']) {
            rest
        } else {
            seq![parts[0]] + rest
        }
    }
}

/// Whether `path` is `root` or lies below it, compared name by name. Every path lies
/// below the empty one.
pub open spec fn spec_under(path: Seq<char>, root: Seq<char>) -> bool {
    let p = spec_parts(path);
    let r = spec_parts(root);
    ||| root.len() == 0
    ||| {
        &&& (path.len() > 0 && path[0] == '/') == (root[0] == '/')
        &&& r.len() <= p.len()
        &&& p.subrange(0, r.len() as int) == r
    }
}

fn parts(path: &str) -> (r: Vec<String>)
    ensures
        r.deep_view() == spec_parts(path@),
{
    let all: Vec<String> = split(path, '/');
    let mut out: Vec<String> = Vec::new();
    let ghost whole = all.deep_view();
    let mut i: usize = 0;
    assert(out.deep_view() =~= Seq::<Seq<char>>::empty());
    assert(whole.subrange(0, whole.len() as int) =~= whole);
    assert(out.deep_view() + kept_parts(whole, true) =~= kept_parts(whole, true));
    while i < all.len()
        invariant
            i <= all@.len(),
            whole == all.deep_view(),
            out.deep_view() + kept_parts(
                whole.subrange(i as int, whole.len() as int),
                i == 0,
            ) == kept_parts(whole, true),
        decreases all@.len() - i,
    {
        let ghost rest = whole.subrange(i as int, whole.len() as int);
        let ghost before = out.deep_view();
        proof {
            assert(rest.drop_first() =~= whole.subrange(i + 1, whole.len() as int));
            assert(rest[0] == all@[i as int]@);
        }
        let name: &str = all[i].as_str();
        let n: usize = name.unicode_len();
        let dot: bool = n == 1 && name.get_char(0) == '.';
        assert(dot == (rest[0] =~= seq!['.']));
        if n == 0 || (i > 0 && dot) {
        } else {
            crate::text::append_to(&mut out, name.to_string());
            assert(out.deep_view() + kept_parts(rest.drop_first(), false) =~= before + kept_parts(
                rest,
                i == 0,
            ));
        }
        i += 1;
    }
    assert(whole.subrange(i as int, whole.len() as int) =~= Seq::<Seq<char>>::empty());
    assert(out.deep_view() + Seq::<Seq<char>>::empty() =~= out.deep_view());
    out
}

pub fn under(path: &str, root: &str) -> (r: bool)
    ensures
        r == spec_under(path@, root@),
{
    if root.is_empty() {
        return true;
    }
    let p: Vec<String> = parts(path);
    let q: Vec<String> = parts(root);
    let absolute: bool = path.unicode_len() > 0 && path.get_char(0) == '/';
    let root_absolute: bool = root.get_char(0) == '/';
    if absolute != root_absolute || q.len() > p.len() {
        return false;
    }
    let mut i: usize = 0;
    while i < q.len()
        invariant
            i <= q@.len() <= p@.len(),
            forall|j: int| 0 <= j < i ==> p.deep_view()[j] == q.deep_view()[j],
        decreases q@.len() - i,
    {
        if !crate::text::same(p[i].as_str(), q[i].as_str()) {
            assert(p.deep_view().subrange(0, q@.len() as int)[i as int]
                != q.deep_view()[i as int]);
            return false;
        }
        i += 1;
    }
    assert(p.deep_view().subrange(0, q@.len() as int) =~= q.deep_view());
    true
}

} // verus!
