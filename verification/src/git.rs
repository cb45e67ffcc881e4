//! Rules on git remotes and bookmark names: which origins name the same
//! repository, which remote is the one on GitHub, and which bookmarks are local
//! bookkeeping that no remote may see.

use vstd::prelude::*;
use vstd::slice::slice_subrange;

use crate::number::{decimal, lemma_decimal, spec_decimal, spec_parse};
use crate::split::{lines, spec_lines, spec_split, spec_words, split, upto, words};
use crate::text::{
    cat, find_chars, from_chars, is_space, lemma_find, same, space, spec_find, spec_starts,
    spec_strip_prefix, spec_strip_suffix, stands_at, starts, strip_suffix, to_chars,
};

verus! {

// ---------------------------------------------------------------------------
// Pull-request bookmarks
// ---------------------------------------------------------------------------

/// The local bookmark for a pull request.
pub open spec fn spec_pr_bookmark(n: u64) -> Seq<char> {
    "pr/"@ + spec_decimal(n as nat)
}

/// The bookmarks reserved for pull requests.
pub open spec fn spec_is_pr_bookmark(name: Seq<char>) -> bool {
    spec_starts(name, "pr/"@)
}

/// Why a reserved bookmark is not pushed.
pub open spec fn reserved_message(name: Seq<char>) -> Seq<char> {
    "bookmark `"@ + name
        + "` is in the reserved `pr/` namespace: those bookmarks are local to cube and are never pushed"@
}

pub fn pr_bookmark_name(n: u64) -> (r: String)
    ensures
        r@ == spec_pr_bookmark(n),
{
    cat("pr/".to_string(), decimal(n).as_str())
}

pub fn is_pr_bookmark(name: &str) -> (r: bool)
    ensures
        r == spec_is_pr_bookmark(name@),
{
    starts(name, "pr/")
}

/// Accepts any bookmark but a reserved one, and says why not otherwise.
pub fn assert_not_pr_bookmark(name: &str) -> (r: Result<(), String>)
    ensures
        r is Err <==> spec_is_pr_bookmark(name@),
        match r {
            Err(why) => why@ == reserved_message(name@),
            Ok(_) => true,
        },
{
    if is_pr_bookmark(name) {
        Err(
            cat(
                cat("bookmark `".to_string(), name),
                "` is in the reserved `pr/` namespace: those bookmarks are local to cube and are never pushed",
            ),
        )
    } else {
        Ok(())
    }
}

/// The bookmark of a pull request is reserved, and its number can be read back
/// from it.
pub proof fn law_pr_bookmark_names_its_number(n: u64)
    ensures
        spec_is_pr_bookmark(spec_pr_bookmark(n)),
        spec_strip_prefix(spec_pr_bookmark(n), "pr/"@) == Some(spec_decimal(n as nat)),
        spec_parse(spec_decimal(n as nat), u64::MAX as nat) == Some(n as nat),
{
    let name = spec_pr_bookmark(n);
    let digits = spec_decimal(n as nat);
    lemma_decimal(n as nat);
    assert(name.subrange(0, "pr/"@.len() as int) =~= "pr/"@);
    assert(name.subrange("pr/"@.len() as int, name.len() as int) =~= digits);
}

// ---------------------------------------------------------------------------
// Origins
// ---------------------------------------------------------------------------

/// A repository's host and its path on that host.
pub ghost struct Location {
    pub host: Seq<char>,
    pub path: Seq<char>,
}

/// `s` without the scheme in front, such as `ssh://`.
pub open spec fn without_scheme(s: Seq<char>) -> Seq<char> {
    match spec_find(s, "://"@, 0) {
        Some(i) => s.subrange(i + "://"@.len(), s.len() as int),
        None => s,
    }
}

/// `s` without the user in front, such as `git@`.
pub open spec fn without_user(s: Seq<char>) -> Seq<char> {
    let i = upto(s, '@') as int;
    if i < s.len() && i < upto(s, '/') {
        s.subrange(i + 1, s.len() as int)
    } else {
        s
    }
}

/// How many characters stand before the first slash or colon.
pub open spec fn host_len(s: Seq<char>) -> nat
    decreases s.len(),
{
    if s.len() == 0 || s[0] == '/' || s[0] == ':' {
        0
    } else {
        1 + host_len(s.drop_first())
    }
}

/// `s` without the slashes behind.
pub open spec fn without_slashes(s: Seq<char>) -> Seq<char>
    decreases s.len(),
{
    if s.len() > 0 && s.last() == '/' {
        without_slashes(s.drop_last())
    } else {
        s
    }
}

/// `s` without a `.git` behind.
pub open spec fn without_git(s: Seq<char>) -> Seq<char> {
    match spec_strip_suffix(s, ".git"@) {
        Some(rest) => rest,
        None => s,
    }
}

/// Where an origin points: scheme and user do not matter, nor slashes and `.git`
/// at the end.
pub open spec fn locate(origin: Seq<char>) -> Location {
    let s = without_user(without_scheme(origin));
    let n = host_len(s) as int;
    if n < s.len() {
        Location {
            host: s.subrange(0, n),
            path: without_git(without_slashes(s.subrange(n + 1, s.len() as int))),
        }
    } else {
        Location { host: s, path: Seq::empty() }
    }
}

/// A text of the form `owner/name`.
pub open spec fn spec_is_slug(s: Seq<char>) -> bool {
    &&& spec_split(s, '/').len() == 2
    &&& spec_split(s, '/')[0].len() > 0
    &&& spec_split(s, '/')[1].len() > 0
    &&& forall|i: int| 0 <= i < s.len() ==> s[i] != ':' && s[i] != '@' && !is_space(#[trigger] s[i])
}

/// The two origins point at the same repository.
pub open spec fn same_origin(a: Seq<char>, b: Seq<char>) -> bool {
    locate(a).host == locate(b).host && locate(a).path == locate(b).path
}

fn host_end(v: &[char]) -> (r: usize)
    ensures
        r == host_len(v@),
        r <= v@.len(),
{
    let mut i: usize = 0;
    assert(v@.subrange(0, v@.len() as int) =~= v@);
    while i < v.len() && v[i] != '/' && v[i] != ':'
        invariant
            i <= v@.len(),
            host_len(v@) == i + host_len(v@.subrange(i as int, v@.len() as int)),
        decreases v@.len() - i,
    {
        assert(v@.subrange(i as int, v@.len() as int).drop_first() =~= v@.subrange(
            i + 1,
            v@.len() as int,
        ));
        i += 1;
    }
    i
}

fn position(v: &[char], c: char) -> (r: usize)
    ensures
        r == upto(v@, c),
        r <= v@.len(),
{
    let mut i: usize = 0;
    assert(v@.subrange(0, v@.len() as int) =~= v@);
    while i < v.len() && v[i] != c
        invariant
            i <= v@.len(),
            upto(v@, c) == i + upto(v@.subrange(i as int, v@.len() as int), c),
        decreases v@.len() - i,
    {
        assert(v@.subrange(i as int, v@.len() as int).drop_first() =~= v@.subrange(
            i + 1,
            v@.len() as int,
        ));
        i += 1;
    }
    i
}

fn drop_slashes(v: &[char]) -> (r: &[char])
    ensures
        r@ == without_slashes(v@),
{
    let mut n: usize = v.len();
    assert(v@.subrange(0, v@.len() as int) =~= v@);
    while n > 0 && v[n - 1] == '/'
        invariant
            n <= v@.len(),
            without_slashes(v@) == without_slashes(v@.subrange(0, n as int)),
        decreases n,
    {
        assert(v@.subrange(0, n as int).drop_last() =~= v@.subrange(0, n - 1));
        n -= 1;
    }
    slice_subrange(v, 0, n)
}

fn drop_git(s: String) -> (r: String)
    ensures
        r@ == without_git(s@),
{
    match strip_suffix(s.as_str(), ".git") {
        Some(rest) => rest,
        None => s,
    }
}

/// The host and the path that an origin points at.
fn location(origin: &str) -> (r: (String, String))
    ensures
        r.0@ == locate(origin@).host,
        r.1@ == locate(origin@).path,
{
    let v: Vec<char> = to_chars(origin);
    let mark: Vec<char> = to_chars("://");
    proof {
        lemma_find(origin@, "://"@, 0);
    }
    let bare: &[char] = match find_chars(v.as_slice(), mark.as_slice(), 0) {
        Some(i) => {
            let n: usize = v.len();
            assert(stands_at(origin@, "://"@, i as int));
            slice_subrange(v.as_slice(), i + mark.len(), n)
        },
        None => v.as_slice(),
    };
    let i: usize = position(bare, '@');
    let s: &[char] = if i < bare.len() && i < position(bare, '/') {
        slice_subrange(bare, i + 1, bare.len())
    } else {
        bare
    };
    let n: usize = host_end(s);
    if n < s.len() {
        let path: &[char] = drop_slashes(slice_subrange(s, n + 1, s.len()));
        (from_chars(slice_subrange(s, 0, n)), drop_git(from_chars(path)))
    } else {
        let none: String = String::new();
        assert(none@ =~= Seq::<char>::empty());
        (from_chars(s), none)
    }
}

pub fn is_owner_name_slug(s: &str) -> (r: bool)
    ensures
        r == spec_is_slug(s@),
{
    let parts: Vec<String> = split(s, '/');
    if parts.len() != 2 {
        return false;
    }
    assert(parts.deep_view()[0] == parts@[0]@);
    assert(parts.deep_view()[1] == parts@[1]@);
    if parts[0].as_str().is_empty() || parts[1].as_str().is_empty() {
        return false;
    }
    let v: Vec<char> = to_chars(s);
    let mut i: usize = 0;
    while i < v.len()
        invariant
            i <= v@.len(),
            v@ == s@,
            forall|j: int| 0 <= j < i ==> s@[j] != ':' && s@[j] != '@' && !is_space(#[trigger] s@[j]),
        decreases v@.len() - i,
    {
        if v[i] == ':' || v[i] == '@' || space(v[i]) {
            assert(is_space(s@[i as int]) || s@[i as int] == ':' || s@[i as int] == '@');
            return false;
        }
        i += 1;
    }
    true
}

pub fn origin_urls_equivalent(a: &str, b: &str) -> (r: bool)
    ensures
        r == same_origin(a@, b@),
{
    let x: (String, String) = location(a);
    let y: (String, String) = location(b);
    same(x.0.as_str(), y.0.as_str()) && same(x.1.as_str(), y.1.as_str())
}

/// Whether the path of the origin is the `owner/name` slug.
pub fn origin_path_matches_slug(origin: &str, slug: &str) -> (r: bool)
    ensures
        r == (locate(origin@).path == without_git(slug@)),
{
    let x: (String, String) = location(origin);
    let bare: String = drop_git(slug.to_string());
    same(x.1.as_str(), bare.as_str())
}

/// The owner and the name in a text of the form `owner/name`.
pub fn parse_org_name_shape(name: &str) -> (r: Option<(String, String)>)
    ensures
        r.deep_view() == (if spec_is_slug(name@) {
            Some((spec_split(name@, '/')[0], spec_split(name@, '/')[1]))
        } else {
            None
        }),
{
    if !is_owner_name_slug(name) {
        return None;
    }
    let parts: Vec<String> = split(name, '/');
    assert(parts.deep_view()[0] == parts@[0]@);
    assert(parts.deep_view()[1] == parts@[1]@);
    let mut parts: Vec<String> = parts;
    let repo: String = parts.remove(1);
    let org: String = parts.remove(0);
    Some((org, repo))
}

/// The remote on one line of `jj git remote list`, where it is one on GitHub: its
/// name and its `owner/name` slug.
pub open spec fn github_on_line(line: Seq<char>) -> Option<(Seq<char>, Seq<char>)> {
    let w = spec_words(line);
    if w.len() >= 2 && locate(w[1]).host == "github.com"@ && spec_is_slug(locate(w[1]).path) {
        Some((w[0], locate(w[1]).path))
    } else {
        None
    }
}

/// The first remote on GitHub.
pub open spec fn github_in(all: Seq<Seq<char>>) -> Option<(Seq<char>, Seq<char>)>
    decreases all.len(),
{
    if all.len() == 0 {
        None
    } else if github_on_line(all[0]) is Some {
        github_on_line(all[0])
    } else {
        github_in(all.drop_first())
    }
}

/// The name and slug of the GitHub remote in the output of `jj git remote list`.
pub open spec fn spec_github_remote(output: Seq<char>) -> Option<(Seq<char>, Seq<char>)> {
    github_in(spec_lines(output))
}

fn github_remote_on(line: &str) -> (r: Option<(String, String)>)
    ensures
        r.deep_view() == github_on_line(line@),
{
    let mut w: Vec<String> = words(line);
    if w.len() < 2 {
        return None;
    }
    assert(w.deep_view()[0] == w@[0]@);
    assert(w.deep_view()[1] == w@[1]@);
    let place: (String, String) = location(w[1].as_str());
    if same(place.0.as_str(), "github.com") && is_owner_name_slug(place.1.as_str()) {
        let name: String = w.remove(0);
        Some((name, place.1))
    } else {
        None
    }
}

pub fn parse_github_remote(output: &str) -> (r: Option<(String, String)>)
    ensures
        r.deep_view() == spec_github_remote(output@),
{
    let all: Vec<String> = lines(output);
    let ghost whole = all.deep_view();
    let mut i: usize = 0;
    assert(whole.subrange(0, whole.len() as int) =~= whole);
    while i < all.len()
        invariant
            i <= all@.len(),
            whole == all.deep_view(),
            github_in(whole.subrange(i as int, whole.len() as int)) == github_in(whole),
        decreases all@.len() - i,
    {
        let ghost rest = whole.subrange(i as int, whole.len() as int);
        proof {
            assert(rest[0] == all@[i as int]@);
            assert(rest.drop_first() =~= whole.subrange(i + 1, whole.len() as int));
        }
        let found: Option<(String, String)> = github_remote_on(all[i].as_str());
        if found.is_some() {
            return found;
        }
        i += 1;
    }
    None
}

} // verus!
