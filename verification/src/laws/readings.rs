//! What is read out of the texts that programs print.

use vstd::prelude::*;

use crate::config::fill;
use crate::error::CubeErrorView;
use crate::gc::{is_exec_bookmark, is_local_pr_bookmark, is_over};
use crate::git::{github_on_line, locate, spec_is_slug, without_slashes};
use crate::health::{
    conflicts_in, health_of, opens_changes, opens_conflicts, WorkspaceHealthOutcomeView,
};
use crate::jj::{is_no_bookmark, is_unresolved, lowercase, recovery_of, says_no_repo};
use crate::number::{digit, lemma_decimal, spec_decimal};
use crate::pr::spec_pr_number;
use crate::pr_push::pr_url;
use crate::repo::symref_on_line;
use crate::reset::head_status_of;
use crate::split::{
    lemma_upto, spec_lines, spec_replace, spec_split, spec_words, tail, upto, word_len,
};
use crate::text::{
    is_space, lemma_find, spec_contains, spec_find, spec_starts, spec_trim, spec_trim_end,
    spec_trim_start, stands_at,
};

verus! {

// ---------------------------------------------------------------------------
// Pieces of text
// ---------------------------------------------------------------------------

/// A text holds what stands between two parts of it.
proof fn lemma_between(before: Seq<char>, p: Seq<char>, after: Seq<char>)
    ensures
        spec_contains(before + p + after, p),
{
    let s = before + p + after;
    let i = before.len() as int;
    assert(s.subrange(i, i + p.len()) =~= p);
    assert(stands_at(s, p, i));
}

/// Nothing but white space.
pub open spec fn is_blank(s: Seq<char>) -> bool {
    forall|i: int| 0 <= i < s.len() ==> is_space(#[trigger] s[i])
}

/// Where the front is trimmed, only white space goes, and all of it.
proof fn lemma_trim_start(s: Seq<char>) -> (front: Seq<char>)
    ensures
        is_blank(front),
        s == front + spec_trim_start(s),
        spec_trim_start(s).len() > 0 ==> !is_space(spec_trim_start(s)[0]),
    decreases s.len(),
{
    if s.len() > 0 && is_space(s[0]) {
        let rest = lemma_trim_start(s.drop_first());
        let front = seq![s[0]] + rest;
        assert(s =~= seq![s[0]] + s.drop_first());
        assert(s =~= front + spec_trim_start(s));
        front
    } else {
        assert(s =~= Seq::<char>::empty() + s);
        Seq::empty()
    }
}

/// Where the end is trimmed, only white space goes, and all of it.
proof fn lemma_trim_end(s: Seq<char>) -> (end: Seq<char>)
    ensures
        is_blank(end),
        s == spec_trim_end(s) + end,
        spec_trim_end(s).len() > 0 ==> !is_space(spec_trim_end(s).last()),
        spec_trim_end(s).len() > 0 ==> spec_trim_end(s)[0] == s[0],
    decreases s.len(),
{
    if s.len() > 0 && is_space(s.last()) {
        let rest = lemma_trim_end(s.drop_last());
        let end = rest.push(s.last());
        assert(s =~= s.drop_last().push(s.last()));
        assert(s =~= spec_trim_end(s) + end);
        end
    } else {
        assert(s =~= s + Seq::<char>::empty());
        Seq::empty()
    }
}

/// A trimmed text is the text without the white space at its ends: nothing else goes, and
/// none is left there.
pub proof fn law_trimming_cuts_white_space(s: Seq<char>)
    ensures
        exists|front: Seq<char>, end: Seq<char>|
            is_blank(front) && is_blank(end) && s == #[trigger] (front + spec_trim(s) + end),
        spec_trim(s).len() > 0 ==> !is_space(spec_trim(s)[0]) && !is_space(spec_trim(s).last()),
{
    let front = lemma_trim_start(s);
    let end = lemma_trim_end(spec_trim_start(s));
    assert(s =~= front + spec_trim(s) + end);
}

/// The pieces with the separator between them.
pub open spec fn joined_by(pieces: Seq<Seq<char>>, c: char) -> Seq<char>
    decreases pieces.len(),
{
    if pieces.len() == 0 {
        Seq::empty()
    } else if pieces.len() == 1 {
        pieces[0]
    } else {
        pieces[0] + seq![c] + joined_by(pieces.drop_first(), c)
    }
}

/// The pieces of a text hold no separator, there is at least one, and with separators
/// between them they are the text.
pub proof fn law_split_pieces_are_joined_back(s: Seq<char>, c: char)
    ensures
        spec_split(s, c).len() > 0,
        joined_by(spec_split(s, c), c) == s,
        forall|i: int, j: int|
            0 <= i < spec_split(s, c).len() && 0 <= j < spec_split(s, c)[i].len()
                ==> #[trigger] spec_split(s, c)[i][j] != c,
    decreases s.len(),
{
    let i = upto(s, c) as int;
    let pieces = spec_split(s, c);
    lemma_upto(s, c);
    if i < s.len() {
        let first = s.subrange(0, i);
        let rest = spec_split(tail(s, i + 1), c);
        law_split_pieces_are_joined_back(tail(s, i + 1), c);
        assert(pieces =~= seq![first] + rest);
        assert(pieces.drop_first() =~= rest);
        assert(s =~= first + seq![c] + tail(s, i + 1));
        assert forall|k: int, j: int|
            0 <= k < pieces.len() && 0 <= j < pieces[k].len() implies #[trigger] pieces[k][j]
            != c by {
            if k > 0 {
                assert(pieces[k] == rest[k - 1]);
                assert(rest[k - 1][j] != c);
            }
        }
    } else {
        assert(pieces =~= seq![s]);
    }
}

/// What stands behind the last separator is the last piece.
proof fn lemma_last_piece(a: Seq<char>, b: Seq<char>, c: char)
    requires
        forall|i: int| 0 <= i < b.len() ==> b[i] != c,
    ensures
        spec_split(a + seq![c] + b, c).last() == b,
    decreases a.len(),
{
    let s = a + seq![c] + b;
    let i = upto(s, c) as int;
    lemma_upto(s, c);
    assert(s[a.len() as int] == c);
    assert(i <= a.len());
    let rest = tail(s, i + 1);
    if i == a.len() {
        assert(rest =~= b);
        lemma_upto(b, c);
        assert(spec_split(b, c) =~= seq![b]);
    } else {
        let left = tail(a, i + 1);
        assert(rest =~= left + seq![c] + b);
        lemma_last_piece(left, b, c);
    }
    law_split_pieces_are_joined_back(rest, c);
    assert(spec_split(s, c) == seq![s.subrange(0, i)] + spec_split(rest, c));
    assert(spec_split(s, c).last() == spec_split(rest, c).last());
}

// ---------------------------------------------------------------------------
// What `jj` complains of
// ---------------------------------------------------------------------------

/// A stale working copy is recognised wherever the words stand, and comes before a
/// diverged operation.
pub proof fn law_stale_copy_is_recognised(before: Seq<char>, after: Seq<char>)
    ensures
        recovery_of(before + "working copy is stale"@ + after) == Some(
            "workspace.stale_recovered"@,
        ),
        ({
            let said = before + "seems to be a sibling"@ + after;
            recovery_of(said) == Some(
                if spec_contains(said, "working copy is stale"@) {
                    "workspace.stale_recovered"@
                } else {
                    "workspace.op_diverged_recovered"@
                },
            )
        }),
        says_no_repo(before + "there is no jj repo"@ + after),
{
    lemma_between(before, "working copy is stale"@, after);
    lemma_between(before, "seems to be a sibling"@, after);
    lemma_between(before, "there is no jj repo"@, after);
}

/// A failure of `jj` tells of a missing remote bookmark, or of a name that cannot be
/// resolved, where its words say so; nothing else does.
pub proof fn law_missing_names_are_recognised(
    program: Seq<char>,
    args: Seq<Seq<char>>,
    status: Option<i32>,
    stderr: Seq<char>,
)
    ensures
        ({
            let failed = CubeErrorView::CommandFailed { program, args, status, stderr };
            let said = lowercase(stderr);
            let no_bookmark = spec_contains(said, "no such remote bookmark"@);
            &&& is_no_bookmark(failed) <==> program == "jj"@ && no_bookmark
            &&& is_unresolved(failed) <==> program == "jj"@ && (no_bookmark || spec_contains(
                said,
                "doesn't exist"@,
            ))
        }),
{
}

// ---------------------------------------------------------------------------
// What `jj status` says
// ---------------------------------------------------------------------------

/// The lines below the heading, one bookmark each, without the white space.
pub open spec fn trimmed(names: Seq<Seq<char>>) -> Seq<Seq<char>> {
    Seq::new(names.len(), |i: int| spec_trim(names[i]))
}

/// A line that names a bookmark: indented, with something on it, and no advice.
pub open spec fn names_a_bookmark(line: Seq<char>) -> bool {
    &&& line.len() > 0
    &&& line[0] == ' '
    &&& spec_trim(line).len() > 0
    &&& !spec_starts(spec_trim(line), "Use `jj bookmark"@)
    &&& !spec_contains(line, "These bookmarks have conflicts:"@)
}

/// A line that names no bookmark and is no heading.
pub open spec fn ends_the_names(line: Seq<char>) -> bool {
    &&& !spec_contains(line, "These bookmarks have conflicts:"@)
    &&& line.len() == 0 || line[0] != ' ' || spec_trim(line).len() == 0 || spec_starts(
        spec_trim(line),
        "Use `jj bookmark"@,
    )
}

proof fn lemma_indented(line: Seq<char>)
    ensures
        spec_starts(line, " "@) <==> line.len() > 0 && line[0] == ' ',
{
    reveal_strlit(" ");
    if line.len() > 0 {
        assert(line.subrange(0, 1)[0] == line[0]);
        if line[0] == ' ' {
            assert(line.subrange(0, 1) =~= " "@);
        }
    }
}

proof fn lemma_names(names: Seq<Seq<char>>, after: Seq<Seq<char>>)
    requires
        forall|i: int| 0 <= i < names.len() ==> names_a_bookmark(#[trigger] names[i]),
        after.len() > 0 ==> ends_the_names(after[0]),
    ensures
        conflicts_in(names + after, true) == trimmed(names),
    decreases names.len(),
{
    let all = names + after;
    if names.len() > 0 {
        let rest = names.drop_first();
        lemma_names(rest, after);
        lemma_indented(names[0]);
        assert(all.drop_first() =~= rest + after);
        assert(names_a_bookmark(names[0]));
        assert(trimmed(names) =~= seq![spec_trim(names[0])] + trimmed(rest));
    } else {
        assert(all =~= after);
        assert(trimmed(names) =~= Seq::empty());
        if after.len() > 0 {
            lemma_indented(after[0]);
        }
    }
}

proof fn lemma_above(before: Seq<Seq<char>>, below: Seq<Seq<char>>)
    requires
        forall|i: int|
            0 <= i < before.len() ==> !spec_contains(
                #[trigger] before[i],
                "These bookmarks have conflicts:"@,
            ),
    ensures
        conflicts_in(before + below, false) == conflicts_in(below, false),
    decreases before.len(),
{
    let all = before + below;
    if before.len() > 0 {
        lemma_above(before.drop_first(), below);
        assert(all.drop_first() =~= before.drop_first() + below);
        assert(!opens_conflicts(before[0]));
    } else {
        assert(all =~= below);
    }
}

/// Where no line tells of changes, the bookmarks in conflict are those on the indented
/// lines below the heading, up to the first other line, in their order.
pub proof fn law_conflicted_bookmarks_are_read(
    status: Seq<char>,
    before: Seq<Seq<char>>,
    heading: Seq<char>,
    names: Seq<Seq<char>>,
    after: Seq<Seq<char>>,
)
    requires
        spec_lines(status) == before + seq![heading] + names + after,
        forall|i: int|
            0 <= i < spec_lines(status).len() ==> !spec_starts(
                spec_trim_start(#[trigger] spec_lines(status)[i]),
                "Working copy changes:"@,
            ),
        forall|i: int|
            0 <= i < before.len() ==> !spec_contains(
                #[trigger] before[i],
                "These bookmarks have conflicts:"@,
            ),
        spec_contains(heading, "These bookmarks have conflicts:"@),
        names.len() > 0,
        forall|i: int| 0 <= i < names.len() ==> names_a_bookmark(#[trigger] names[i]),
        after.len() > 0 ==> ends_the_names(after[0]),
    ensures
        health_of(status) == WorkspaceHealthOutcomeView::ConflictedBookmarks(trimmed(names)),
{
    let below = seq![heading] + (names + after);
    lemma_names(names, after);
    lemma_above(before, below);
    assert(before + seq![heading] + names + after =~= before + below);
    assert(below.drop_first() =~= names + after);
    assert(below[0] == heading);
}

/// A workspace is dirty just where a line tells of changes, whatever else is said.
pub proof fn law_changes_make_a_workspace_dirty(status: Seq<char>)
    ensures
        health_of(status) == WorkspaceHealthOutcomeView::DirtyWorkingCopy <==> exists|i: int|
            0 <= i < spec_lines(status).len() && spec_starts(
                spec_trim_start(#[trigger] spec_lines(status)[i]),
                "Working copy changes:"@,
            ),
{
    let lines = spec_lines(status);
    if exists|i: int|
        0 <= i < lines.len() && spec_starts(
            spec_trim_start(#[trigger] lines[i]),
            "Working copy changes:"@,
        ) {
        let i = choose|i: int|
            0 <= i < lines.len() && spec_starts(
                spec_trim_start(#[trigger] lines[i]),
                "Working copy changes:"@,
            );
        assert(opens_changes(lines[i]));
    }
}

/// Where no line tells of changes or of conflicts, a workspace is clean.
pub proof fn law_silence_means_clean(status: Seq<char>)
    requires
        forall|i: int|
            0 <= i < spec_lines(status).len() ==> !spec_starts(
                spec_trim_start(#[trigger] spec_lines(status)[i]),
                "Working copy changes:"@,
            ) && !spec_contains(
                spec_lines(status)[i],
                "These bookmarks have conflicts:"@,
            ),
    ensures
        health_of(status) == WorkspaceHealthOutcomeView::Clean,
{
    let lines = spec_lines(status);
    lemma_above(lines, Seq::empty());
    assert(lines + Seq::<Seq<char>>::empty() =~= lines);
}

// ---------------------------------------------------------------------------
// Where a workspace stands
// ---------------------------------------------------------------------------

/// A commit is clean on the branch just where it is empty and the branch is among the
/// bookmarks of its parents.
pub proof fn law_head_is_read(
    output: Seq<char>,
    main_branch: Seq<char>,
    id: Seq<char>,
    empty: Seq<char>,
    parents: Seq<char>,
)
    requires
        spec_split(spec_trim(output), '\t') == seq![id, empty, parents],
        empty == "true"@ || empty == "false"@,
    ensures
        ({
            let head = head_status_of(output, main_branch);
            &&& head.head_change_id == id
            &&& head.head_is_empty == (empty == "true"@)
            &&& head.head_parent_bookmarks == parents
            &&& head.is_clean_on_main <==> empty == "true"@ && exists|i: int, j: int|
                0 <= i < spec_split(parents, ';').len() && 0 <= j < spec_split(
                    spec_split(parents, ';')[i],
                    ',',
                ).len() && spec_trim(#[trigger] spec_split(spec_split(parents, ';')[i], ',')[j])
                    == main_branch
        }),
{
    reveal_strlit("true");
    reveal_strlit("false");
}

// ---------------------------------------------------------------------------
// Pull requests and bookmarks
// ---------------------------------------------------------------------------

proof fn lemma_no_slash(n: nat)
    ensures
        spec_decimal(n).len() > 0,
        forall|i: int| 0 <= i < spec_decimal(n).len() ==> spec_decimal(n)[i] != '/',
    decreases n,
{
    if n >= 10 {
        lemma_no_slash(n / 10);
    }
    assert(digit(n % 10) != '/');
}

/// The number of a pull request is read back from where it is on GitHub.
pub proof fn law_pull_request_number_is_read_back(slug: Seq<char>, n: u64)
    ensures
        pr_url(slug, n) == "https://github.com/"@ + slug + "/pull/"@ + spec_decimal(n as nat),
        spec_pr_number(pr_url(slug, n)) == Some(n as nat),
{
    let url = pr_url(slug, n);
    let digits = spec_decimal(n as nat);
    let front = "https://github.com/"@ + slug + "/pull"@;
    reveal_strlit("/pull/");
    reveal_strlit("/pull");
    lemma_no_slash(n as nat);
    lemma_decimal(n as nat);
    assert(url.last() == digits.last());
    assert(without_slashes(url) == url);
    assert("/pull/"@ =~= "/pull"@ + seq!['/']);
    assert(url =~= front + seq!['/'] + digits);
    lemma_last_piece(front, digits, '/');
}

/// A bookmark of an execution begins with `boss/exec_`, one of a pull request with `pr/`;
/// neither is the remote's.
pub proof fn law_local_bookmarks(name: Seq<char>)
    ensures
        is_exec_bookmark(name) <==> spec_starts(name, "boss/exec_"@) && !name.contains('@'),
        is_local_pr_bookmark(name) <==> spec_starts(name, "pr/"@) && !name.contains('@'),
{
    reveal_strlit("@");
    if name.contains('@') {
        let i = choose|i: int| 0 <= i < name.len() && name[i] == '@';
        assert(name.subrange(i, i + 1) =~= "@"@);
        assert(stands_at(name, "@"@, i));
    }
    if spec_contains(name, "@"@) {
        let i = choose|i: int| stands_at(name, "@"@, i);
        assert(name.subrange(i, i + 1)[0] == name[i]);
        assert(name[i] == '@');
    }
}

/// A pull request is over when GitHub says that it is merged or closed.
pub proof fn law_merged_and_closed_are_over(state: Seq<char>)
    ensures
        is_over(state) <==> spec_trim(state) == "MERGED"@ || spec_trim(state) == "CLOSED"@,
{
}

// ---------------------------------------------------------------------------
// Remotes and templates
// ---------------------------------------------------------------------------

/// The words of a text hold no white space, and none is empty.
pub proof fn law_words_hold_no_white_space(s: Seq<char>)
    ensures
        forall|i: int| 0 <= i < spec_words(s).len() ==> (#[trigger] spec_words(s)[i]).len() > 0,
        forall|i: int, j: int|
            0 <= i < spec_words(s).len() && 0 <= j < spec_words(s)[i].len() ==> !is_space(
                #[trigger] spec_words(s)[i][j],
            ),
    decreases s.len(),
{
    if s.len() > 0 {
        if is_space(s[0]) {
            law_words_hold_no_white_space(s.drop_first());
            assert(spec_words(s) == spec_words(s.drop_first()));
        } else {
            let n = word_len(s) as int;
            lemma_word_len(s);
            let first = s.subrange(0, n);
            let rest = spec_words(tail(s, n));
            law_words_hold_no_white_space(tail(s, n));
            let all = spec_words(s);
            assert(all == seq![first] + rest);
            assert forall|i: int| 0 <= i < all.len() implies (#[trigger] all[i]).len() > 0 by {
                if i > 0 {
                    assert(all[i] == rest[i - 1]);
                }
            }
            assert forall|i: int, j: int|
                0 <= i < all.len() && 0 <= j < all[i].len() implies !is_space(
                #[trigger] all[i][j],
            ) by {
                if i > 0 {
                    assert(all[i] == rest[i - 1]);
                    assert(!is_space(rest[i - 1][j]));
                } else {
                    assert(first[j] == s[j]);
                }
            }
        }
    }
}

proof fn lemma_word_len(s: Seq<char>)
    ensures
        word_len(s) <= s.len(),
        s.len() > 0 && !is_space(s[0]) ==> word_len(s) > 0,
        forall|i: int| 0 <= i < word_len(s) ==> !is_space(#[trigger] s[i]),
    decreases s.len(),
{
    if s.len() > 0 && !is_space(s[0]) {
        lemma_word_len(s.drop_first());
        assert forall|i: int| 0 <= i < word_len(s) implies !is_space(#[trigger] s[i]) by {
            if i > 0 {
                assert(s.drop_first()[i - 1] == s[i]);
            }
        }
    }
}

/// A remote is on GitHub just where its second word is an origin there, with an owner and
/// a name; then its first word is what it is called.
pub proof fn law_github_remote_is_recognised(line: Seq<char>, name: Seq<char>, url: Seq<char>)
    requires
        spec_words(line) == seq![name, url] || spec_words(line) == seq![name, url, "(push)"@],
    ensures
        github_on_line(line) is Some <==> locate(url).host == "github.com"@ && spec_is_slug(
            locate(url).path,
        ),
        github_on_line(line) is Some ==> github_on_line(line) == Some((name, locate(url).path)),
{
}

/// The branch that a remote stands on is the one behind `ref: refs/heads/`.
pub proof fn law_symbolic_head_is_read(line: Seq<char>, gap: Seq<char>, branch: Seq<char>)
    requires
        spec_trim(line) == "ref:"@ + gap,
        spec_trim_start(gap) == "refs/heads/"@ + branch + "\tHEAD"@,
        spec_words(branch + "\tHEAD"@) == seq![branch, "HEAD"@],
    ensures
        symref_on_line(line) == Some(branch),
{
    let trimmed = "ref:"@ + gap;
    let rest = branch + "\tHEAD"@;
    let named = "refs/heads/"@ + branch + "\tHEAD"@;
    assert(trimmed.subrange(0, "ref:"@.len() as int) =~= "ref:"@);
    assert(trimmed.subrange("ref:"@.len() as int, trimmed.len() as int) =~= gap);
    assert(named.subrange(0, "refs/heads/"@.len() as int) =~= "refs/heads/"@);
    assert(named.subrange("refs/heads/"@.len() as int, named.len() as int) =~= rest);
}

proof fn lemma_brace(s: Seq<char>, p: Seq<char>, i: int)
    requires
        p.len() > 0,
        p[0] == '{',
        stands_at(s, p, i),
    ensures
        s[i] == '{',
{
    assert(s.subrange(i, i + p.len())[0] == s[i]);
}

proof fn lemma_no_brace(s: Seq<char>, p: Seq<char>, t: Seq<char>)
    requires
        p.len() > 0,
        p[0] == '{',
        forall|i: int| 0 <= i < s.len() ==> s[i] != '{',
    ensures
        spec_replace(s, p, t) == s,
{
    lemma_find(s, p, 0);
    if let Some(i) = spec_find(s, p, 0) {
        lemma_brace(s, p, i);
    }
}

proof fn lemma_first_brace(s: Seq<char>, p: Seq<char>, at: int)
    requires
        p.len() > 0,
        p[0] == '{',
        stands_at(s, p, at),
        forall|i: int| 0 <= i < at ==> s[i] != '{',
    ensures
        spec_find(s, p, 0) == Some(at),
{
    lemma_find(s, p, 0);
    match spec_find(s, p, 0) {
        Some(i) => {
            lemma_brace(s, p, i);
        },
        None => {},
    }
}

proof fn lemma_one_brace(before: Seq<char>, p: Seq<char>, after: Seq<char>)
    requires
        p.len() > 0,
        p[0] == '{',
        forall|i: int| 0 <= i < before.len() ==> before[i] != '{',
    ensures
        spec_find(before + p + after, p, 0) == Some(before.len() as int),
{
    let s = before + p + after;
    let at = before.len() as int;
    assert(s.subrange(at, at + p.len()) =~= p);
    assert forall|i: int| 0 <= i < at implies s[i] != '{' by {
        assert(s[i] == before[i]);
    }
    lemma_first_brace(s, p, at);
}

/// The name is put in its place in a template, and nothing else changes.
pub proof fn law_templates_are_filled(before: Seq<char>, after: Seq<char>, name: Seq<char>)
    requires
        forall|i: int| 0 <= i < before.len() ==> before[i] != '{',
        forall|i: int| 0 <= i < after.len() ==> after[i] != '{',
    ensures
        fill(before + "{name}"@ + after, name) == before + name + after,
        fill(after, name) == after,
{
    let p = "{name}"@;
    let s = before + p + after;
    reveal_strlit("{name}");
    assert(p[0] == '{' && p.len() == 6);
    lemma_one_brace(before, p, after);
    lemma_no_brace(after, p, name);
    assert(s.subrange(0, before.len() as int) =~= before);
    assert(tail(s, before.len() as int + 6) =~= after);
}

} // verus!
