//! Positioning a workspace on the head of a pull request.

use vstd::prelude::*;

use crate::error::{CubeError, CubeErrorView};
use crate::flow::{follows, AnswerView, Flow, Stop, Tape};
use crate::git::{parse_github_remote, pr_bookmark_name, spec_github_remote, spec_pr_bookmark};
use crate::jj::{flow_run_jj, jj, run_jj, spec_jj};
use crate::json::{parse_json, Json, JsonView};
use crate::number::{decimal, spec_decimal};
use crate::outside::json_parsed;
use crate::pr::{flow_run, gh, invalid, run, spec_gh, spec_invalid};
use crate::pr_push::{named_state, spec_named_state};
use crate::records::{ExpiredLease, ExpiredLeaseView};
use crate::report::{PrResumeInfo, PrResumeInfoView};
use crate::reset::{flow_guard, guard};
use crate::text::{cat, chain, list2, list3, list4, same};

verus! {

/// The name and slug of the GitHub remote of a workspace.
pub open spec fn flow_github_of(t: Seq<AnswerView>, path: Seq<char>) -> Flow<
    (Seq<char>, Seq<char>),
> {
    flow_run_jj(t, spec_jj(path, seq!["git"@, "remote"@, "list"@])).and(
        |output: Seq<char>, t: Seq<AnswerView>|
            match spec_github_remote(output) {
                Some(found) => Flow::Done(found, t),
                None => Flow::Failed(
                    spec_invalid(
                        "could not detect a github.com remote from `jj git remote list` in "@
                            + path + ":\n"@ + output,
                    ),
                    t,
                ),
            },
    )
}

pub fn resolve_github_remote_for_workspace(tape: &mut Tape, path: &str) -> (r: Result<
    (String, String),
    Stop,
>)
    ensures
        follows(r, final(tape)@, flow_github_of(old(tape)@, path@)),
{
    let output: String = run_jj(tape, &jj(path, list3("git", "remote", "list")))?;
    match parse_github_remote(output.as_str()) {
        Some(found) => Ok(found),
        None => invalid(
            cat(
                cat(
                    cat(
                        "could not detect a github.com remote from `jj git remote list` in ".to_string(),
                        path,
                    ),
                    ":\n",
                ),
                output.as_str(),
            ),
        ),
    }
}

/// `PR <n> (<slug>)`, as failures name it.
pub open spec fn pr_label(n: u64, slug: Seq<char>) -> Seq<char> {
    "PR "@ + spec_decimal(n as nat) + " ("@ + slug + ")"@
}

fn label(n: u64, slug: &str) -> (r: String)
    ensures
        r@ == pr_label(n, slug@),
{
    cat(cat(cat(cat("PR ".to_string(), decimal(n).as_str()), " ("), slug), ")")
}

/// The head branch that GitHub names for a pull request that can be resumed: one
/// that is neither merged nor closed.
pub open spec fn head_branch_in(n: u64, slug: Seq<char>, said: JsonView) -> Result<
    Seq<char>,
    CubeErrorView,
> {
    let state = spec_named_state(said);
    if state == "MERGED"@ || state == "CLOSED"@ {
        Err(
            spec_invalid(
                pr_label(n, slug) + " is "@ + state
                    + " — cannot resume on a non-open PR. Use `cube workspace lease` without `--resume-pr` for a fresh task, or check the PR number."@,
            ),
        )
    } else {
        match said.text_at("headRefName"@) {
            None => Err(
                spec_invalid(pr_label(n, slug) + " returned no headRefName from GitHub"@),
            ),
            Some(branch) => Ok(branch),
        }
    }
}

/// Reads the head branch from what GitHub said of a pull request.
pub fn head_branch(n: u64, slug: &str, said: &Json) -> (r: Result<String, CubeError>)
    ensures
        match r {
            Ok(b) => head_branch_in(n, slug@, said.tree()) == Ok::<Seq<char>, CubeErrorView>(b@),
            Err(e) => head_branch_in(n, slug@, said.tree()) == Err::<Seq<char>, CubeErrorView>(
                e.deep_view(),
            ),
        },
{
    let state: String = named_state(said);
    if same(state.as_str(), "MERGED") || same(state.as_str(), "CLOSED") {
        return Err(
            CubeError::InvalidArgument(
                cat(
                    cat(cat(label(n, slug), " is "), state.as_str()),
                    " — cannot resume on a non-open PR. Use `cube workspace lease` without `--resume-pr` for a fresh task, or check the PR number.",
                ),
            ),
        );
    }
    match said.text_at("headRefName") {
        None => Err(
            CubeError::InvalidArgument(
                cat(label(n, slug), " returned no headRefName from GitHub"),
            ),
        ),
        Some(branch) => Ok(branch),
    }
}

/// The head branch of a pull request, asked of GitHub.
pub open spec fn flow_head_branch(
    t: Seq<AnswerView>,
    path: Seq<char>,
    slug: Seq<char>,
    n: u64,
) -> Flow<Seq<char>> {
    flow_run(
        t,
        spec_gh(
            path,
            seq!["pr"@, "view"@, spec_decimal(n as nat)] + seq![
                "-R"@,
                slug,
                "--json"@,
                "headRefName,headRefOid,state"@,
            ],
        ),
        "failed to resolve PR "@ + spec_decimal(n as nat) + " in "@ + slug + ": "@,
        ""@,
    ).and(
        |json: Seq<char>, t: Seq<AnswerView>|
            match json_parsed(json) {
                Err(cause) => Flow::Failed(CubeErrorView::Json(cause), t),
                Ok(said) => match head_branch_in(n, slug, said) {
                    Ok(branch) => Flow::Done(branch, t),
                    Err(e) => Flow::Failed(e, t),
                },
            },
    )
}

fn ask_head_branch(tape: &mut Tape, path: &str, slug: &str, n: u64) -> (r: Result<String, Stop>)
    ensures
        follows(r, final(tape)@, flow_head_branch(old(tape)@, path@, slug@, n)),
{
    let number: String = decimal(n);
    let json: String = run(
        tape,
        gh(
            path,
            chain(
                list3("pr", "view", number.as_str()),
                list4("-R", slug, "--json", "headRefName,headRefOid,state"),
            ),
        ),
        cat(
            cat(
                cat(cat("failed to resolve PR ".to_string(), number.as_str()), " in "),
                slug,
            ),
            ": ",
        ),
        "",
    )?;
    let said: Json = match parse_json(json.as_str()) {
        Err(cause) => {
            return Err(Stop::Fail(CubeError::Json(cause)));
        },
        Ok(said) => said,
    };
    match head_branch(n, slug, &said) {
        Ok(branch) => Ok(branch),
        Err(e) => Err(Stop::Fail(e)),
    }
}

/// Points the bookmark of the pull request and the head branch at what was fetched,
/// and starts a new commit on top.
pub open spec fn flow_stand_on(
    t: Seq<AnswerView>,
    path: Seq<char>,
    remote: Seq<char>,
    n: u64,
    branch: Seq<char>,
) -> Flow<PrResumeInfoView> {
    let fetched = branch + "@"@ + remote;
    flow_run_jj(
        t,
        spec_jj(path, seq!["bookmark"@, "set"@, spec_pr_bookmark(n)] + seq!["-r"@, fetched]),
    ).and(
        |o: Seq<char>, t: Seq<AnswerView>|
            flow_run_jj(
                t,
                spec_jj(
                    path,
                    seq!["bookmark"@, "set"@, branch] + seq!["-r"@, fetched, "--allow-backwards"@],
                ),
            ).and(
                |o: Seq<char>, t: Seq<AnswerView>|
                    flow_run_jj(t, spec_jj(path, seq!["new"@, spec_pr_bookmark(n)])).and(
                        |o: Seq<char>, t: Seq<AnswerView>|
                            Flow::Done(PrResumeInfoView { pr_number: n, head_branch: branch }, t),
                    ),
            ),
    )
}

/// Fetches from GitHub, refuses where the guard does, and puts the workspace on a
/// fresh commit on top of the head of the pull request.
pub open spec fn flow_resume(
    t: Seq<AnswerView>,
    path: Seq<char>,
    n: u64,
    prior: Option<ExpiredLeaseView>,
    main_branch: Seq<char>,
) -> Flow<PrResumeInfoView> {
    flow_github_of(t, path).and(
        |github: (Seq<char>, Seq<char>), t: Seq<AnswerView>|
            flow_run_jj(t, spec_jj(path, seq!["git"@, "fetch"@, "--remote"@, github.0])).and(
                |o: Seq<char>, t: Seq<AnswerView>|
                    flow_guard(t, path, main_branch, prior).and(
                        |u: (), t: Seq<AnswerView>|
                            flow_head_branch(t, path, github.1, n).and(
                                |branch: Seq<char>, t: Seq<AnswerView>|
                                    flow_stand_on(t, path, github.0, n, branch),
                            ),
                    ),
            ),
    )
}

pub fn resume_workspace_on_pr(
    tape: &mut Tape,
    path: &str,
    n: u64,
    prior: &Option<ExpiredLease>,
    main_branch: &str,
) -> (r: Result<PrResumeInfo, Stop>)
    ensures
        follows(
            r,
            final(tape)@,
            flow_resume(old(tape)@, path@, n, prior.deep_view(), main_branch@),
        ),
{
    let github: (String, String) = resolve_github_remote_for_workspace(tape, path)?;
    run_jj(tape, &jj(path, list4("git", "fetch", "--remote", github.0.as_str())))?;
    guard(tape, path, main_branch, prior)?;
    let branch: String = ask_head_branch(tape, path, github.1.as_str(), n)?;
    let bookmark: String = pr_bookmark_name(n);
    let fetched: String = cat(cat(branch.clone(), "@"), github.0.as_str());
    run_jj(
        tape,
        &jj(
            path,
            chain(
                list3("bookmark", "set", bookmark.as_str()),
                list2("-r", fetched.as_str()),
            ),
        ),
    )?;
    run_jj(
        tape,
        &jj(
            path,
            chain(
                list3("bookmark", "set", branch.as_str()),
                list3("-r", fetched.as_str(), "--allow-backwards"),
            ),
        ),
    )?;
    run_jj(tape, &jj(path, list2("new", bookmark.as_str())))?;
    Ok(PrResumeInfo { pr_number: n, head_branch: branch })
}

} // verus!
