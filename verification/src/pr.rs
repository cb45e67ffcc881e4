//! Steps that the commands on pull requests share.

use vstd::prelude::*;

use crate::command_runner::{command, spec_command, CommandInvocation, CommandInvocationView};
use crate::error::{CubeError, CubeErrorView};
use crate::flow::{ask_output, follows, Action, ActionView, AnswerView, Flow, Stop, Tape};
use crate::git::{
    parse_github_remote, pr_bookmark_name, spec_github_remote, spec_pr_bookmark, without_slashes,
};
use crate::jj::{jj, spec_jj};
use crate::number::{parse_unsigned, spec_parse};
use crate::reset::{filled_lines, nonempty_lines};
use crate::split::{spec_lines, spec_split, split};
use crate::text::{cat, chain, copy, list2, list3, list4, same, spec_trim, trim};

verus! {

/// The failure for an argument or an outside answer that will not do.
pub open spec fn spec_invalid(why: Seq<char>) -> CubeErrorView {
    CubeErrorView::InvalidArgument(why)
}

pub(crate) fn invalid<T>(why: String) -> (r: Result<T, Stop>)
    ensures
        r matches Err(Stop::Fail(e)) && e.deep_view() == spec_invalid(why@),
{
    Err(Stop::Fail(CubeError::InvalidArgument(why)))
}

/// Runs a command; a failure is reported with `before` in front and `after` behind
/// its message.
pub open spec fn flow_run(
    t: Seq<AnswerView>,
    inv: CommandInvocationView,
    before: Seq<char>,
    after: Seq<char>,
) -> Flow<Seq<char>> {
    ask_output(t, ActionView::Run(inv)).blame(
        |e: CubeErrorView| spec_invalid(before + e.message() + after),
    )
}

pub(crate) fn run(tape: &mut Tape, inv: CommandInvocation, before: String, after: &str) -> (r: Result<
    String,
    Stop,
>)
    ensures
        follows(r, final(tape)@, flow_run(old(tape)@, inv.deep_view(), before@, after@)),
{
    match tape.ask_output(Action::Run(inv)) {
        Err(Stop::Fail(e)) => invalid(cat(cat(before, e.message().as_str()), after)),
        other => other,
    }
}

pub open spec fn spec_gh(cwd: Seq<char>, args: Seq<Seq<char>>) -> CommandInvocationView {
    spec_command(cwd, "gh"@, args)
}

pub(crate) fn gh(cwd: &str, args: Vec<String>) -> (r: CommandInvocation)
    ensures
        r.deep_view() == spec_gh(cwd@, args.deep_view()),
{
    command(cwd, "gh", args)
}

// ---------------------------------------------------------------------------
// Common steps
// ---------------------------------------------------------------------------

/// The current directory, and the name and slug of its GitHub remote.
pub open spec fn flow_here(t: Seq<AnswerView>) -> Flow<(Seq<char>, Seq<char>, Seq<char>)> {
    ask_output(t, ActionView::CurrentDir).and(
        |cwd: Seq<char>, t: Seq<AnswerView>|
            flow_run(
                t,
                spec_jj(cwd, seq!["git"@, "remote"@, "list"@]),
                "failed to list jj remotes (is this a jj workspace?): "@,
                ""@,
            ).and(
                |output: Seq<char>, t: Seq<AnswerView>|
                    match spec_github_remote(output) {
                        Some((remote, slug)) => Flow::Done((cwd, remote, slug), t),
                        None => Flow::Failed(
                            spec_invalid(
                                "could not detect a github.com remote from `jj git remote list` output:\n"@
                                    + output,
                            ),
                            t,
                        ),
                    },
            ),
    )
}

pub(crate) fn here(tape: &mut Tape) -> (r: Result<(String, String, String), Stop>)
    ensures
        follows(r, final(tape)@, flow_here(old(tape)@)),
{
    let cwd: String = tape.ask_output(Action::CurrentDir)?;
    let output: String = run(
        tape,
        jj(cwd.as_str(), list3("git", "remote", "list")),
        "failed to list jj remotes (is this a jj workspace?): ".to_string(),
        "",
    )?;
    match parse_github_remote(output.as_str()) {
        Some((remote, slug)) => Ok((cwd, remote, slug)),
        None => invalid(
            cat(
                "could not detect a github.com remote from `jj git remote list` output:\n".to_string(),
                output.as_str(),
            ),
        ),
    }
}

/// The commit that a revision is at.
pub open spec fn commit_args(rev: Seq<char>) -> Seq<Seq<char>> {
    seq!["log"@, "-r"@, rev] + seq!["--no-graph"@, "-T"@, "commit_id"@]
}

pub(crate) fn commit_list(rev: &str) -> (r: Vec<String>)
    ensures
        r.deep_view() == commit_args(rev@),
{
    chain(list3("log", "-r", rev), list3("--no-graph", "-T", "commit_id"))
}

/// The head of a branch as GitHub has it.
pub open spec fn head_args(slug: Seq<char>, branch: Seq<char>) -> Seq<Seq<char>> {
    seq!["api"@, "repos/"@ + slug + "/branches/"@ + branch, "--jq"@, ".commit.sha"@]
}

pub(crate) fn head_list(slug: &str, branch: &str) -> (r: Vec<String>)
    ensures
        r.deep_view() == head_args(slug@, branch@),
{
    let place: String = cat(cat(cat("repos/".to_string(), slug), "/branches/"), branch);
    list4("api", place.as_str(), "--jq", ".commit.sha")
}

/// The failure for a branch that GitHub has at another commit.
pub open spec fn not_reached_message(
    slug: Seq<char>,
    branch: Seq<char>,
    local: Seq<char>,
    remote: Seq<char>,
) -> Seq<char> {
    "push verification failed: local `"@ + branch + "` is at "@ + local + " but GitHub ("@ + slug
        + ") has it at "@ + remote
        + ". The push did not reach GitHub — it likely landed on a local mirror remote. Re-push to the github.com remote, then re-verify against `gh api repos/"@
        + slug + "/branches/"@ + branch + " --jq .commit.sha`."@
}

fn not_reached(slug: &str, branch: &str, local: &str, remote: &str) -> (r: String)
    ensures
        r@ == not_reached_message(slug@, branch@, local@, remote@),
{
    let a: String = cat(
        cat(cat("push verification failed: local `".to_string(), branch), "` is at "),
        local,
    );
    let b: String = cat(cat(cat(cat(a, " but GitHub ("), slug), ") has it at "), remote);
    let c: String = cat(
        b,
        ". The push did not reach GitHub — it likely landed on a local mirror remote. Re-push to the github.com remote, then re-verify against `gh api repos/",
    );
    cat(cat(cat(cat(c, slug), "/branches/"), branch), " --jq .commit.sha`.")
}

/// Succeeds only where the commit that the branch is at here is the one that GitHub
/// has it at.
pub open spec fn flow_verify_push(
    t: Seq<AnswerView>,
    cwd: Seq<char>,
    slug: Seq<char>,
    branch: Seq<char>,
) -> Flow<()> {
    flow_run(
        t,
        spec_jj(cwd, commit_args(branch)),
        "could not resolve local commit for `"@ + branch + "` to verify the push: "@,
        ""@,
    ).and(
        |local: Seq<char>, t: Seq<AnswerView>|
            flow_run(
                t,
                spec_gh(cwd, head_args(slug, branch)),
                "push verification failed: could not read branch `"@ + branch
                    + "` from GitHub ("@ + slug
                    + "). The push may have gone to a local mirror remote instead of GitHub — in cube workspaces the real upstream is the github.com remote, not necessarily `origin`. Underlying error: "@,
                ""@,
            ).and(
                |remote: Seq<char>, t: Seq<AnswerView>|
                    if spec_trim(local) == spec_trim(remote) {
                        Flow::Done((), t)
                    } else {
                        Flow::Failed(
                            spec_invalid(
                                not_reached_message(
                                    slug,
                                    branch,
                                    spec_trim(local),
                                    spec_trim(remote),
                                ),
                            ),
                            t,
                        )
                    },
            ),
    )
}

pub fn verify_push_reached_github(tape: &mut Tape, cwd: &str, slug: &str, branch: &str) -> (r:
    Result<(), Stop>)
    ensures
        follows(r, final(tape)@, flow_verify_push(old(tape)@, cwd@, slug@, branch@)),
{
    let local: String = run(
        tape,
        jj(cwd, commit_list(branch)),
        cat(
            cat("could not resolve local commit for `".to_string(), branch),
            "` to verify the push: ",
        ),
        "",
    )?;
    let why: String = cat(
        cat(
            cat(
                cat(
                    "push verification failed: could not read branch `".to_string(),
                    branch,
                ),
                "` from GitHub (",
            ),
            slug,
        ),
        "). The push may have gone to a local mirror remote instead of GitHub — in cube workspaces the real upstream is the github.com remote, not necessarily `origin`. Underlying error: ",
    );
    let remote: String = run(tape, gh(cwd, head_list(slug, branch)), why, "")?;
    let local: String = trim(local.as_str());
    let remote: String = trim(remote.as_str());
    if same(local.as_str(), remote.as_str()) {
        Ok(())
    } else {
        invalid(not_reached(slug, branch, local.as_str(), remote.as_str()))
    }
}

/// The number at the end of a pull request's URL.
pub open spec fn spec_pr_number(url: Seq<char>) -> Option<nat> {
    spec_parse(spec_split(without_slashes(url), '/').last(), u64::MAX as nat)
}

fn without_end_slashes(s: &str) -> (r: String)
    ensures
        r@ == without_slashes(s@),
{
    let v: Vec<char> = crate::text::to_chars(s);
    let mut n: usize = v.len();
    assert(v@.subrange(0, v@.len() as int) =~= v@);
    while n > 0 && v[n - 1] == '/'
        invariant
            n <= v@.len(),
            v@ == s@,
            without_slashes(v@) == without_slashes(v@.subrange(0, n as int)),
        decreases n,
    {
        assert(v@.subrange(0, n as int).drop_last() =~= v@.subrange(0, n - 1));
        n -= 1;
    }
    crate::text::from_chars(vstd::slice::slice_subrange(v.as_slice(), 0, n))
}

pub fn pr_number_from_url(url: &str) -> (r: Option<u64>)
    ensures
        match r {
            Some(n) => spec_pr_number(url@) == Some(n as nat),
            None => spec_pr_number(url@) is None,
        },
{
    let bare: String = without_end_slashes(url);
    let parts: Vec<String> = split(bare.as_str(), '/');
    let n: usize = parts.len();
    assert(parts.deep_view() == spec_split(bare@, '/'));
    assert(spec_split(bare@, '/').len() > 0);
    assert(parts.deep_view().last() == parts@[n - 1]@);
    parse_unsigned(parts[n - 1].as_str(), u64::MAX)
}

/// The number at the end of a URL, where it has one.
pub open spec fn pr_number(url: Seq<char>) -> Option<u64> {
    match spec_pr_number(url) {
        Some(n) => Some(n as u64),
        None => None,
    }
}

/// The first bookmark on the working-copy commit.
pub open spec fn flow_detect_bookmark(t: Seq<AnswerView>, cwd: Seq<char>) -> Flow<Seq<char>> {
    flow_run(
        t,
        spec_jj(
            cwd,
            seq!["log"@, "-r"@, "@"@] + seq![
                "--no-graph"@,
                "-T"@,
                "bookmarks.map(|b| b.name()).join(\"\\n\")"@,
            ],
        ),
        "failed to detect current jj bookmark: "@,
        ""@,
    ).and(
        |output: Seq<char>, t: Seq<AnswerView>|
            {
                let names = filled_lines(spec_lines(output));
                if names.len() > 0 {
                    Flow::Done(names[0], t)
                } else {
                    Flow::Failed(
                        spec_invalid(
                            "no bookmark on current jj commit — run `jj bookmark create <name> -r @` first"@,
                        ),
                        t,
                    )
                }
            },
    )
}

pub fn detect_jj_bookmark(tape: &mut Tape, cwd: &str) -> (r: Result<String, Stop>)
    ensures
        follows(r, final(tape)@, flow_detect_bookmark(old(tape)@, cwd@)),
{
    let output: String = run(
        tape,
        jj(
            cwd,
            chain(
                list3("log", "-r", "@"),
                list3("--no-graph", "-T", "bookmarks.map(|b| b.name()).join(\"\\n\")"),
            ),
        ),
        "failed to detect current jj bookmark: ".to_string(),
        "",
    )?;
    let names: Vec<String> = nonempty_lines(output.as_str());
    if names.len() > 0 {
        assert(names.deep_view()[0] == names@[0]@);
        Ok(copy(&names[0]))
    } else {
        invalid(
            "no bookmark on current jj commit — run `jj bookmark create <name> -r @` first".to_string(),
        )
    }
}

/// Points the bookmark of the pull request at the branch; nothing is done where
/// the number is not known.
pub open spec fn flow_set_pr_bookmark(
    t: Seq<AnswerView>,
    cwd: Seq<char>,
    number: Option<u64>,
    branch: Seq<char>,
) -> Flow<Option<Seq<char>>> {
    match number {
        None => Flow::Done(None, t),
        Some(n) => flow_run(
            t,
            spec_jj(
                cwd,
                seq!["bookmark"@, "set"@, spec_pr_bookmark(n)] + seq!["-r"@, branch],
            ),
            "failed to set local bookmark `"@ + spec_pr_bookmark(n) + "`: "@,
            ""@,
        ).and(|o: Seq<char>, t: Seq<AnswerView>| Flow::Done(Some(spec_pr_bookmark(n)), t)),
    }
}

pub fn set_pr_bookmark(tape: &mut Tape, cwd: &str, number: Option<u64>, branch: &str) -> (r: Result<
    Option<String>,
    Stop,
>)
    ensures
        follows(r, final(tape)@, flow_set_pr_bookmark(old(tape)@, cwd@, number, branch@)),
{
    let n: u64 = match number {
        None => {
            return Ok(None);
        },
        Some(n) => n,
    };
    let name: String = pr_bookmark_name(n);
    run(
        tape,
        jj(cwd, chain(list3("bookmark", "set", name.as_str()), list2("-r", branch))),
        cat(cat("failed to set local bookmark `".to_string(), name.as_str()), "`: "),
        "",
    )?;
    Ok(Some(name))
}

} // verus!
