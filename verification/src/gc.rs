//! Cleaning up: bookmarks that have served their purpose, workspaces that have
//! been unhealthy for long, and logs of workspaces that are gone.

use vstd::prelude::*;

use crate::flow::{ask_output, follows, Action, ActionView, AnswerView, Flow, Stop, Tape};
use crate::git::{is_pr_bookmark, parse_github_remote, spec_github_remote, spec_is_pr_bookmark};
use crate::jj::{flow_run_jj, jj, run_jj, spec_jj};
use crate::pr::{gh, spec_gh};
use crate::split::{spec_words, words};
use crate::text::{
    append_to, chain, contains, copy_all, holds, list2, list3, same, spec_contains, spec_starts,
    spec_strip_prefix, spec_trim, starts, strip_prefix, trim,
};

verus! {

// ---------------------------------------------------------------------------
// Bookmarks
// ---------------------------------------------------------------------------

/// A bookmark of an execution that lives here and not on a remote.
pub open spec fn is_exec_bookmark(name: Seq<char>) -> bool {
    spec_starts(name, "boss/exec_"@) && !spec_contains(name, "@"@)
}

/// A bookmark of a pull request that lives here and not on a remote.
pub open spec fn is_local_pr_bookmark(name: Seq<char>) -> bool {
    spec_is_pr_bookmark(name) && !spec_contains(name, "@"@)
}

/// Which bookmarks are picked from a listing.
#[derive(Debug, Clone, Copy, PartialEq, Eq, Structural)]
pub enum Pick {
    Exec,
    Pr,
}

pub open spec fn picks(pick: Pick, name: Seq<char>) -> bool {
    match pick {
        Pick::Exec => is_exec_bookmark(name),
        Pick::Pr => is_local_pr_bookmark(name),
    }
}

/// The names that are picked, each once, in the order in which they first occur.
pub open spec fn picked(names: Seq<Seq<char>>, pick: Pick) -> Seq<Seq<char>>
    decreases names.len(),
{
    if names.len() == 0 {
        Seq::empty()
    } else {
        let before = picked(names.drop_last(), pick);
        if picks(pick, names.last()) && !before.contains(names.last()) {
            before.push(names.last())
        } else {
            before
        }
    }
}

/// The bookmarks named in a listing that are picked, each once.
pub fn pick_bookmarks(listing: &str, pick: Pick) -> (r: Vec<String>)
    ensures
        r.deep_view() == picked(spec_words(listing@), pick),
{
    let names: Vec<String> = words(listing);
    let ghost all = names.deep_view();
    let mut out: Vec<String> = Vec::new();
    let mut i: usize = 0;
    assert(out.deep_view() =~= picked(all.subrange(0, 0), pick));
    while i < names.len()
        invariant
            i <= names@.len(),
            all == names.deep_view(),
            out.deep_view() == picked(all.subrange(0, i as int), pick),
        decreases names@.len() - i,
    {
        let name: &str = names[i].as_str();
        proof {
            assert(all.subrange(0, i + 1).last() == name@);
            assert(all.subrange(0, i + 1).drop_last() =~= all.subrange(0, i as int));
        }
        let wanted: bool = match pick {
            Pick::Exec => starts(name, "boss/exec_") && !contains(name, "@"),
            Pick::Pr => is_pr_bookmark(name) && !contains(name, "@"),
        };
        if wanted && !holds(&out, name) {
            append_to(&mut out, name.to_string());
        }
        i += 1;
    }
    assert(all.subrange(0, i as int) =~= all);
    out
}

/// A pull request that will not change any more.
pub open spec fn is_over(state: Seq<char>) -> bool {
    spec_trim(state) == "MERGED"@ || spec_trim(state) == "CLOSED"@
}

pub open spec fn state_query(number: Seq<char>, slug: Seq<char>) -> Seq<Seq<char>> {
    seq!["pr"@, "view"@, number] + seq!["-R"@, slug, "--json"@] + seq!["state"@, "--jq"@, ".state"@]
}

/// Those of `names` whose pull request GitHub says is merged or closed, behind
/// `found`. A pull request that cannot be looked up is left alone.
pub open spec fn flow_closed_among(
    t: Seq<AnswerView>,
    path: Seq<char>,
    slug: Seq<char>,
    names: Seq<Seq<char>>,
    found: Seq<Seq<char>>,
) -> Flow<Seq<Seq<char>>>
    decreases names.len(),
{
    if names.len() == 0 {
        Flow::Done(found, t)
    } else {
        match spec_strip_prefix(names[0], "pr/"@) {
            None => flow_closed_among(t, path, slug, names.drop_first(), found),
            Some(number) => match ask_output(
                t,
                ActionView::Run(spec_gh(path, state_query(number, slug))),
            ) {
                Flow::Done(state, t) => flow_closed_among(
                    t,
                    path,
                    slug,
                    names.drop_first(),
                    if is_over(state) {
                        found.push(names[0])
                    } else {
                        found
                    },
                ),
                Flow::Failed(_, t) => flow_closed_among(t, path, slug, names.drop_first(), found),
                Flow::Asks(a) => Flow::Asks(a),
            },
        }
    }
}

fn closed_among(tape: &mut Tape, path: &str, slug: &str, names: &Vec<String>) -> (r: Result<
    Vec<String>,
    Stop,
>)
    ensures
        follows(
            r,
            final(tape)@,
            flow_closed_among(old(tape)@, path@, slug@, names.deep_view(), Seq::empty()),
        ),
{
    let ghost whole = names.deep_view();
    let mut found: Vec<String> = Vec::new();
    let mut i: usize = 0;
    let ghost flow = flow_closed_among(tape@, path@, slug@, whole, Seq::empty());
    assert(whole.subrange(0, whole.len() as int) =~= whole);
    assert(found.deep_view() =~= Seq::<Seq<char>>::empty());
    while i < names.len()
        invariant
            i <= names@.len(),
            whole == names.deep_view(),
            flow == flow_closed_among(
                old(tape)@,
                path@,
                slug@,
                names.deep_view(),
                Seq::empty(),
            ),
            flow == flow_closed_among(
                tape@,
                path@,
                slug@,
                whole.subrange(i as int, whole.len() as int),
                found.deep_view(),
            ),
        decreases names@.len() - i,
    {
        let name: &str = names[i].as_str();
        let ghost rest = whole.subrange(i as int, whole.len() as int);
        proof {
            assert(rest[0] == name@);
            assert(rest.drop_first() =~= whole.subrange(i + 1, whole.len() as int));
        }
        match strip_prefix(name, "pr/") {
            None => {},
            Some(number) => {
                let query: Vec<String> = chain(
                    chain(list3("pr", "view", number.as_str()), list3("-R", slug, "--json")),
                    list3("state", "--jq", ".state"),
                );
                match tape.ask_output(Action::Run(gh(path, query))) {
                    Ok(state) => {
                        let state: String = trim(state.as_str());
                        if same(state.as_str(), "MERGED") || same(state.as_str(), "CLOSED") {
                            append_to(&mut found, name.to_string());
                        }
                    },
                    Err(Stop::Fail(_)) => {},
                    Err(stop) => {
                        return Err(stop);
                    },
                }
            },
        }
        i += 1;
    }
    Ok(found)
}

/// The log query for bookmarks in a revision set.
pub open spec fn bookmark_query(revs: Seq<char>) -> Seq<Seq<char>> {
    seq!["log"@, "-r"@, revs] + seq!["--no-graph"@, "-T"@, "bookmarks ++ \"\\n\""@]
}

fn bookmark_list(revs: &str) -> (r: Vec<String>)
    ensures
        r.deep_view() == bookmark_query(revs@),
{
    chain(list3("log", "-r", revs), list3("--no-graph", "-T", "bookmarks ++ \"\\n\""))
}

/// The bookmarks of pull requests that are merged or closed. Nothing that goes
/// wrong here is an error: there are then none.
pub open spec fn flow_closed_bookmarks(t: Seq<AnswerView>, path: Seq<char>) -> Flow<
    Seq<Seq<char>>,
> {
    match ask_output(t, ActionView::Run(spec_jj(path, seq!["git"@, "remote"@, "list"@]))) {
        Flow::Asks(a) => Flow::Asks(a),
        Flow::Failed(_, t) => Flow::Done(Seq::empty(), t),
        Flow::Done(remotes, t) => match spec_github_remote(remotes) {
            None => Flow::Done(Seq::empty(), t),
            Some(github) => match flow_run_jj(
                t,
                spec_jj(path, bookmark_query("bookmarks(glob:\"pr/*\")"@)),
            ) {
                Flow::Asks(a) => Flow::Asks(a),
                Flow::Failed(_, t) => Flow::Done(Seq::empty(), t),
                Flow::Done(output, t) => flow_closed_among(
                    t,
                    path,
                    github.1,
                    picked(spec_words(output), Pick::Pr),
                    Seq::empty(),
                ),
            },
        },
    }
}

fn no_names() -> (r: Vec<String>)
    ensures
        r.deep_view() == Seq::<Seq<char>>::empty(),
{
    let none: Vec<String> = Vec::new();
    assert(none.deep_view() =~= Seq::<Seq<char>>::empty());
    none
}

pub fn gc_collect_closed_pr_bookmarks(tape: &mut Tape, path: &str) -> (r: Result<
    Vec<String>,
    Stop,
>)
    ensures
        follows(r, final(tape)@, flow_closed_bookmarks(old(tape)@, path@)),
{
    let remotes: String = match tape.ask_output(
        Action::Run(jj(path, list3("git", "remote", "list"))),
    ) {
        Ok(remotes) => remotes,
        Err(Stop::Fail(_)) => {
            return Ok(no_names());
        },
        Err(stop) => {
            return Err(stop);
        },
    };
    let slug: String = match parse_github_remote(remotes.as_str()) {
        Some(github) => github.1,
        None => {
            return Ok(no_names());
        },
    };
    let output: String = match run_jj(tape, &jj(path, bookmark_list("bookmarks(glob:\"pr/*\")"))) {
        Ok(output) => output,
        Err(Stop::Fail(_)) => {
            return Ok(no_names());
        },
        Err(stop) => {
            return Err(stop);
        },
    };
    let names: Vec<String> = pick_bookmarks(output.as_str(), Pick::Pr);
    closed_among(tape, path, slug.as_str(), &names)
}

pub open spec fn flow_fetch_if(t: Seq<AnswerView>, path: Seq<char>, fetch: bool) -> Flow<()> {
    if fetch {
        flow_run_jj(t, spec_jj(path, seq!["git"@, "fetch"@])).and(
            |o: Seq<char>, t: Seq<AnswerView>| Flow::Done((), t),
        )
    } else {
        Flow::Done((), t)
    }
}

/// Forgets the bookmarks, unless there are none or it is only asked which.
pub open spec fn flow_forget(
    t: Seq<AnswerView>,
    path: Seq<char>,
    names: Seq<Seq<char>>,
    dry_run: bool,
) -> Flow<Seq<Seq<char>>> {
    if names.len() == 0 || dry_run {
        Flow::Done(names, t)
    } else {
        flow_run_jj(t, spec_jj(path, seq!["bookmark"@, "forget"@] + names)).and(
            |o: Seq<char>, t: Seq<AnswerView>| Flow::Done(names, t),
        )
    }
}

/// Forgets the bookmarks of executions that the main branch has taken in, and of
/// pull requests that are merged or closed, and names them.
pub open spec fn flow_gc_bookmarks(
    t: Seq<AnswerView>,
    path: Seq<char>,
    fetch: bool,
    dry_run: bool,
) -> Flow<Seq<Seq<char>>> {
    flow_fetch_if(t, path, fetch).and(
        |u: (), t: Seq<AnswerView>|
            flow_run_jj(
                t,
                spec_jj(path, bookmark_query("bookmarks(glob:\"boss/exec_*\") & ::main"@)),
            ).and(
                |output: Seq<char>, t: Seq<AnswerView>|
                    flow_closed_bookmarks(t, path).and(
                        |closed: Seq<Seq<char>>, t: Seq<AnswerView>|
                            flow_forget(
                                t,
                                path,
                                picked(spec_words(output), Pick::Exec) + closed,
                                dry_run,
                            ),
                    ),
            ),
    )
}

pub fn gc_workspace_bookmarks(tape: &mut Tape, path: &str, do_fetch: bool, dry_run: bool) -> (r:
    Result<Vec<String>, Stop>)
    ensures
        follows(r, final(tape)@, flow_gc_bookmarks(old(tape)@, path@, do_fetch, dry_run)),
{
    if do_fetch {
        run_jj(tape, &jj(path, list2("git", "fetch")))?;
    }
    let output: String = run_jj(
        tape,
        &jj(path, bookmark_list("bookmarks(glob:\"boss/exec_*\") & ::main")),
    )?;
    let exec: Vec<String> = pick_bookmarks(output.as_str(), Pick::Exec);
    let closed: Vec<String> = gc_collect_closed_pr_bookmarks(tape, path)?;
    let names: Vec<String> = chain(exec, closed);
    if names.len() == 0 || dry_run {
        return Ok(names);
    }
    run_jj(tape, &jj(path, chain(list2("bookmark", "forget"), copy_all(&names))))?;
    Ok(names)
}

} // verus!
