//! Advancing a pull request that exists to the current commit.

use vstd::prelude::*;

use crate::cli::{PrPushArgs, PrPushArgsView};
use crate::command_runner::{command, spec_command};
use crate::flow::{ask_output, follows, Action, ActionView, AnswerView, Flow, Stop, Tape};
use crate::git::{
    assert_not_pr_bookmark, is_pr_bookmark, pr_bookmark_name, reserved_message,
    spec_is_pr_bookmark, spec_pr_bookmark,
};
use crate::jj::{jj, spec_jj};
use crate::json::{parse_json, parse_json_list, trees, Json, JsonView};
use crate::number::{decimal, parse_unsigned, spec_decimal, spec_parse};
use crate::outside::{json_parsed, json_parsed_list};
use crate::pr::{
    commit_args, commit_list, flow_here, flow_run, flow_verify_push, gh, head_args, head_list,
    here, invalid, run, spec_gh, spec_invalid, verify_push_reached_github,
};
use crate::report::{spec_result, Payload, PayloadView, RunResult, RunResultView};
use crate::reset::{filled_lines, nonempty_lines};
use crate::split::spec_lines;
use crate::text::{
    cat, chain, copy, list2, list3, list4, same, spec_strip_prefix, spec_trim, strip_prefix, trim,
};

verus! {

// ---------------------------------------------------------------------------
// Which pull request, and which branch
// ---------------------------------------------------------------------------

/// The template that prints the bookmarks of a commit, one to a line.
pub open spec fn bookmarks_of(rev: Seq<char>) -> Seq<Seq<char>> {
    seq!["log"@, "-r"@, rev] + seq![
        "--no-graph"@,
        "-T"@,
        "bookmarks.map(|b| b.name()).join(\"\\n\")"@,
    ]
}

fn bookmarks_list(rev: &str) -> (r: Vec<String>)
    ensures
        r.deep_view() == bookmarks_of(rev@),
{
    chain(
        list3("log", "-r", rev),
        list3("--no-graph", "-T", "bookmarks.map(|b| b.name()).join(\"\\n\")"),
    )
}

/// The first name that is not reserved for a pull request.
pub open spec fn first_branch(names: Seq<Seq<char>>) -> Option<Seq<char>>
    decreases names.len(),
{
    if names.len() == 0 {
        None
    } else if !spec_is_pr_bookmark(names[0]) {
        Some(names[0])
    } else {
        first_branch(names.drop_first())
    }
}

/// The last name that is not reserved for a pull request.
pub open spec fn last_branch(names: Seq<Seq<char>>) -> Option<Seq<char>>
    decreases names.len(),
{
    if names.len() == 0 {
        None
    } else if !spec_is_pr_bookmark(names.last()) {
        Some(names.last())
    } else {
        last_branch(names.drop_last())
    }
}

/// The number in the name of a pull request's bookmark.
pub open spec fn numbered(name: Seq<char>) -> Option<u64> {
    match spec_strip_prefix(name, "pr/"@) {
        Some(digits) => match spec_parse(digits, u64::MAX as nat) {
            Some(n) => Some(n as u64),
            None => None,
        },
        None => None,
    }
}

/// The number in the last bookmark of a pull request that has one.
pub open spec fn last_number(names: Seq<Seq<char>>) -> Option<u64>
    decreases names.len(),
{
    if names.len() == 0 {
        None
    } else if numbered(names.last()) is Some {
        numbered(names.last())
    } else {
        last_number(names.drop_last())
    }
}

pub fn find_first_branch(names: &Vec<String>) -> (r: Option<String>)
    ensures
        r.deep_view() == first_branch(names.deep_view()),
{
    let ghost whole = names.deep_view();
    let mut i: usize = 0;
    assert(whole.subrange(0, whole.len() as int) =~= whole);
    while i < names.len()
        invariant
            i <= names@.len(),
            whole == names.deep_view(),
            first_branch(whole.subrange(i as int, whole.len() as int)) == first_branch(whole),
        decreases names@.len() - i,
    {
        let ghost rest = whole.subrange(i as int, whole.len() as int);
        proof {
            assert(rest[0] == names@[i as int]@);
            assert(rest.drop_first() =~= whole.subrange(i + 1, whole.len() as int));
        }
        if !is_pr_bookmark(names[i].as_str()) {
            return Some(copy(&names[i]));
        }
        i += 1;
    }
    None
}

fn number_in(name: &str) -> (r: Option<u64>)
    ensures
        r == numbered(name@),
{
    match strip_prefix(name, "pr/") {
        Some(digits) => parse_unsigned(digits.as_str(), u64::MAX),
        None => None,
    }
}

/// The pull request and the branch that a list of bookmarks names, where it does;
/// the last of each counts.
pub fn infer_target(names: &Vec<String>) -> (r: (Option<u64>, Option<String>))
    ensures
        r.0 == last_number(names.deep_view()),
        r.1.deep_view() == last_branch(names.deep_view()),
{
    let ghost whole = names.deep_view();
    let mut number: Option<u64> = None;
    let mut branch: Option<String> = None;
    let mut i: usize = 0;
    while i < names.len()
        invariant
            i <= names@.len(),
            whole == names.deep_view(),
            number == last_number(whole.subrange(0, i as int)),
            branch.deep_view() == last_branch(whole.subrange(0, i as int)),
        decreases names@.len() - i,
    {
        let name: &str = names[i].as_str();
        proof {
            let more = whole.subrange(0, i + 1);
            assert(more.last() == name@);
            assert(more.drop_last() =~= whole.subrange(0, i as int));
        }
        if is_pr_bookmark(name) {
            match number_in(name) {
                Some(n) => {
                    number = Some(n);
                },
                None => {},
            }
        } else {
            branch = Some(name.to_string());
        }
        i += 1;
    }
    assert(whole.subrange(0, i as int) =~= whole);
    (number, branch)
}

/// The branch beside the bookmark of pull request `n`.
pub open spec fn flow_branch_of_pr(t: Seq<AnswerView>, cwd: Seq<char>, n: u64) -> Flow<Seq<char>> {
    let bookmark = spec_pr_bookmark(n);
    flow_run(
        t,
        spec_jj(cwd, bookmarks_of(bookmark)),
        "could not find `"@ + bookmark + "` bookmark locally: "@,
        "; run `cube workspace lease --resume_pr "@ + spec_decimal(n as nat)
            + "` first or pass --branch"@,
    ).and(
        |output: Seq<char>, t: Seq<AnswerView>|
            match first_branch(filled_lines(spec_lines(output))) {
                Some(branch) => Flow::Done(branch, t),
                None => Flow::Failed(
                    spec_invalid(
                        "no head branch found co-located with `"@ + bookmark
                            + "`; pass --branch explicitly"@,
                    ),
                    t,
                ),
            },
    )
}

fn branch_of_pr(tape: &mut Tape, cwd: &str, n: u64) -> (r: Result<String, Stop>)
    ensures
        follows(r, final(tape)@, flow_branch_of_pr(old(tape)@, cwd@, n)),
{
    let bookmark: String = pr_bookmark_name(n);
    let hint: String = cat(
        cat(
            "; run `cube workspace lease --resume_pr ".to_string(),
            decimal(n).as_str(),
        ),
        "` first or pass --branch",
    );
    let output: String = run(
        tape,
        jj(cwd, bookmarks_list(bookmark.as_str())),
        cat(cat("could not find `".to_string(), bookmark.as_str()), "` bookmark locally: "),
        hint.as_str(),
    )?;
    match find_first_branch(&nonempty_lines(output.as_str())) {
        Some(branch) => Ok(branch),
        None => invalid(
            cat(
                cat(
                    "no head branch found co-located with `".to_string(),
                    bookmark.as_str(),
                ),
                "`; pass --branch explicitly",
            ),
        ),
    }
}

/// The number of the first pull request in a listing.
pub open spec fn spec_first_number(prs: Seq<JsonView>) -> Option<u64> {
    if prs.len() > 0 {
        prs[0].count_at("number"@)
    } else {
        None
    }
}

pub fn first_number(prs: &Vec<Json>) -> (r: Option<u64>)
    ensures
        r == spec_first_number(trees(prs@)),
{
    if prs.len() > 0 {
        prs[0].count_at("number")
    } else {
        None
    }
}

/// The number of the open pull request of a branch.
pub open spec fn flow_pr_of_branch(
    t: Seq<AnswerView>,
    cwd: Seq<char>,
    slug: Seq<char>,
    branch: Seq<char>,
) -> Flow<u64> {
    flow_run(
        t,
        spec_gh(
            cwd,
            seq!["pr"@, "list"@, "-R"@, slug] + seq!["--head"@, branch, "--state"@, "open"@]
                + seq!["--json"@, "number"@],
        ),
        "failed to look up open PR for branch `"@ + branch + "`: "@,
        ""@,
    ).and(
        |list: Seq<char>, t: Seq<AnswerView>|
            match json_parsed_list(list) {
                Err(cause) => Flow::Failed(
                    spec_invalid(
                        "unexpected response from `gh pr list` for branch `"@ + branch + "`: "@
                            + cause,
                    ),
                    t,
                ),
                Ok(prs) => match spec_first_number(prs) {
                    Some(n) => Flow::Done(n, t),
                    None => Flow::Failed(
                        spec_invalid(
                            "no open PR found for branch `"@ + branch
                                + "`; create a PR with `cube pr ensure` first"@,
                        ),
                        t,
                    ),
                },
            },
    )
}

fn pr_of_branch(tape: &mut Tape, cwd: &str, slug: &str, branch: &str) -> (r: Result<u64, Stop>)
    ensures
        follows(r, final(tape)@, flow_pr_of_branch(old(tape)@, cwd@, slug@, branch@)),
{
    let list: String = run(
        tape,
        gh(
            cwd,
            chain(
                chain(
                    list4("pr", "list", "-R", slug),
                    list4("--head", branch, "--state", "open"),
                ),
                list2("--json", "number"),
            ),
        ),
        cat(cat("failed to look up open PR for branch `".to_string(), branch), "`: "),
        "",
    )?;
    match parse_json_list(list.as_str()) {
        Err(cause) => invalid(
            cat(
                cat(
                    cat(
                        "unexpected response from `gh pr list` for branch `".to_string(),
                        branch,
                    ),
                    "`: ",
                ),
                cause.as_str(),
            ),
        ),
        Ok(prs) => match first_number(&prs) {
            Some(n) => Ok(n),
            None => invalid(
                cat(
                    cat("no open PR found for branch `".to_string(), branch),
                    "`; create a PR with `cube pr ensure` first",
                ),
            ),
        },
    }
}

/// The pull request and the branch named by the nearest ancestor that carries the
/// bookmark of a pull request.
pub open spec fn flow_infer(t: Seq<AnswerView>, cwd: Seq<char>) -> Flow<(u64, Seq<char>)> {
    flow_run(
        t,
        spec_jj(cwd, bookmarks_of("latest(ancestors(@) & bookmarks(glob:\"pr/*\"))"@)),
        "failed to infer PR from ancestry: "@,
        ""@,
    ).and(
        |output: Seq<char>, t: Seq<AnswerView>|
            {
                let names = filled_lines(spec_lines(output));
                if spec_trim(output).len() == 0 {
                    Flow::Failed(
                        spec_invalid(
                            "could not infer PR from `@`'s ancestry — no `pr/<n>` bookmark found. Pass `--pr <n>` or `--branch <name>` explicitly, or run `cube workspace lease --resume_pr <n>` to position the workspace first."@,
                        ),
                        t,
                    )
                } else {
                    match (last_number(names), last_branch(names)) {
                        (Some(n), Some(b)) => Flow::Done((n, b), t),
                        (Some(n), None) => Flow::Failed(
                            spec_invalid(
                                "found `pr/"@ + spec_decimal(n as nat)
                                    + "` in ancestry but no co-located head branch; pass --branch explicitly"@,
                            ),
                            t,
                        ),
                        _ => Flow::Failed(
                            spec_invalid(
                                "failed to infer PR and branch from ancestry; pass --pr and --branch explicitly"@,
                            ),
                            t,
                        ),
                    }
                }
            },
    )
}

fn infer(tape: &mut Tape, cwd: &str) -> (r: Result<(u64, String), Stop>)
    ensures
        follows(r, final(tape)@, flow_infer(old(tape)@, cwd@)),
{
    let output: String = run(
        tape,
        jj(cwd, bookmarks_list("latest(ancestors(@) & bookmarks(glob:\"pr/*\"))")),
        "failed to infer PR from ancestry: ".to_string(),
        "",
    )?;
    let bare: String = trim(output.as_str());
    if bare.as_str().is_empty() {
        return invalid(
            "could not infer PR from `@`'s ancestry — no `pr/<n>` bookmark found. Pass `--pr <n>` or `--branch <name>` explicitly, or run `cube workspace lease --resume_pr <n>` to position the workspace first.".to_string(),
        );
    }
    match infer_target(&nonempty_lines(output.as_str())) {
        (Some(n), Some(b)) => Ok((n, b)),
        (Some(n), None) => invalid(
            cat(
                cat("found `pr/".to_string(), decimal(n).as_str()),
                "` in ancestry but no co-located head branch; pass --branch explicitly",
            ),
        ),
        _ => invalid(
            "failed to infer PR and branch from ancestry; pass --pr and --branch explicitly".to_string(),
        ),
    }
}

/// The pull request and the head branch: as given, and where one or both are not,
/// found from the other or from the ancestry.
pub open spec fn flow_target(
    t: Seq<AnswerView>,
    args: PrPushArgsView,
    cwd: Seq<char>,
    slug: Seq<char>,
) -> Flow<(u64, Seq<char>)> {
    match (args.pr, args.branch) {
        (Some(n), Some(b)) => Flow::Done((n, b), t),
        (Some(n), None) => flow_branch_of_pr(t, cwd, n).and(
            |b: Seq<char>, t: Seq<AnswerView>| Flow::Done((n, b), t),
        ),
        (None, Some(b)) => flow_pr_of_branch(t, cwd, slug, b).and(
            |n: u64, t: Seq<AnswerView>| Flow::Done((n, b), t),
        ),
        (None, None) => flow_infer(t, cwd),
    }
}

pub fn resolve_pr_push_target(tape: &mut Tape, args: &PrPushArgs, cwd: &str, slug: &str) -> (r:
    Result<(u64, String), Stop>)
    ensures
        follows(r, final(tape)@, flow_target(old(tape)@, args.deep_view(), cwd@, slug@)),
{
    match (args.pr, &args.branch) {
        (Some(n), Some(b)) => Ok((n, copy(b))),
        (Some(n), None) => {
            let b: String = branch_of_pr(tape, cwd, n)?;
            Ok((n, b))
        },
        (None, Some(b)) => {
            let n: u64 = pr_of_branch(tape, cwd, slug, b.as_str())?;
            Ok((n, copy(b)))
        },
        (None, None) => infer(tape, cwd),
    }
}

// ---------------------------------------------------------------------------
// Steps
// ---------------------------------------------------------------------------

/// The state of a pull request in what GitHub answered; `UNKNOWN` where it names
/// none.
pub open spec fn spec_named_state(said: JsonView) -> Seq<char> {
    match said.text_at("state"@) {
        Some(s) => s,
        None => "UNKNOWN"@,
    }
}

pub fn named_state(said: &Json) -> (r: String)
    ensures
        r@ == spec_named_state(said.tree()),
{
    match said.text_at("state") {
        Some(s) => s,
        None => "UNKNOWN".to_string(),
    }
}

/// Arguments of `gh` to see the state of a pull request.
pub open spec fn state_args(n: u64, slug: Seq<char>) -> Seq<Seq<char>> {
    seq!["pr"@, "view"@, spec_decimal(n as nat)] + seq!["-R"@, slug, "--json"@, "state"@]
}

/// Succeeds only where GitHub says that the pull request is open.
pub open spec fn flow_check_open(
    t: Seq<AnswerView>,
    cwd: Seq<char>,
    slug: Seq<char>,
    n: u64,
) -> Flow<()> {
    flow_run(
        t,
        spec_gh(cwd, state_args(n, slug)),
        "failed to check state of PR #"@ + spec_decimal(n as nat) + ": "@,
        ""@,
    ).and(
        |json: Seq<char>, t: Seq<AnswerView>|
            match json_parsed(json) {
                Err(cause) => Flow::Failed(
                    spec_invalid(
                        "unexpected response from `gh pr view "@ + spec_decimal(n as nat) + "`: "@
                            + cause,
                    ),
                    t,
                ),
                Ok(said) => if spec_named_state(said) == "OPEN"@ {
                    Flow::Done((), t)
                } else {
                    Flow::Failed(
                        spec_invalid(
                            "PR #"@ + spec_decimal(n as nat) + " is "@ + spec_named_state(said)
                                + " — refusing to push onto a non-open PR. Only OPEN pull requests can be advanced with `cube pr push`."@,
                        ),
                        t,
                    )
                },
            },
    )
}

pub fn check_pr_open(tape: &mut Tape, cwd: &str, slug: &str, n: u64) -> (r: Result<(), Stop>)
    ensures
        follows(r, final(tape)@, flow_check_open(old(tape)@, cwd@, slug@, n)),
{
    let number: String = decimal(n);
    let json: String = run(
        tape,
        gh(
            cwd,
            chain(
                list3("pr", "view", number.as_str()),
                list4("-R", slug, "--json", "state"),
            ),
        ),
        cat(cat("failed to check state of PR #".to_string(), number.as_str()), ": "),
        "",
    )?;
    let state: String = match parse_json(json.as_str()) {
        Err(cause) => {
            return invalid(
                cat(
                    cat(
                        cat(
                            "unexpected response from `gh pr view ".to_string(),
                            number.as_str(),
                        ),
                        "`: ",
                    ),
                    cause.as_str(),
                ),
            );
        },
        Ok(said) => named_state(&said),
    };
    if same(state.as_str(), "OPEN") {
        Ok(())
    } else {
        invalid(
            cat(
                cat(
                    cat(cat("PR #".to_string(), number.as_str()), " is "),
                    state.as_str(),
                ),
                " — refusing to push onto a non-open PR. Only OPEN pull requests can be advanced with `cube pr push`.",
            ),
        )
    }
}

/// The commit that GitHub has the branch at.
pub open spec fn flow_github_sha(
    t: Seq<AnswerView>,
    cwd: Seq<char>,
    slug: Seq<char>,
    branch: Seq<char>,
) -> Flow<Seq<char>> {
    flow_run(
        t,
        spec_gh(cwd, head_args(slug, branch)),
        "failed to fetch GitHub head sha for `"@ + branch + "`: "@,
        ""@,
    )
}

pub fn fetch_github_sha(tape: &mut Tape, cwd: &str, slug: &str, branch: &str) -> (r: Result<
    String,
    Stop,
>)
    ensures
        follows(r, final(tape)@, flow_github_sha(old(tape)@, cwd@, slug@, branch@)),
{
    run(
        tape,
        gh(cwd, head_list(slug, branch)),
        cat(cat("failed to fetch GitHub head sha for `".to_string(), branch), "`: "),
        "",
    )
}

/// Moves a bookmark to the working-copy commit.
pub open spec fn flow_advance_one(t: Seq<AnswerView>, cwd: Seq<char>, name: Seq<char>) -> Flow<
    Seq<char>,
> {
    flow_run(
        t,
        spec_jj(cwd, seq!["bookmark"@, "set"@, name] + seq!["-r"@, "@"@]),
        "failed to advance `"@ + name + "` bookmark to @: "@,
        ""@,
    )
}

fn advance_one(tape: &mut Tape, cwd: &str, name: &str) -> (r: Result<String, Stop>)
    ensures
        follows(r, final(tape)@, flow_advance_one(old(tape)@, cwd@, name@)),
{
    run(
        tape,
        jj(cwd, chain(list3("bookmark", "set", name), list2("-r", "@"))),
        cat(cat("failed to advance `".to_string(), name), "` bookmark to @: "),
        "",
    )
}

/// Moves the head branch and the bookmark of the pull request to the working-copy
/// commit.
pub open spec fn flow_advance(
    t: Seq<AnswerView>,
    cwd: Seq<char>,
    branch: Seq<char>,
    bookmark: Seq<char>,
) -> Flow<()> {
    flow_advance_one(t, cwd, branch).and(
        |o: Seq<char>, t: Seq<AnswerView>|
            flow_advance_one(t, cwd, bookmark).and(
                |o: Seq<char>, t: Seq<AnswerView>| Flow::Done((), t),
            ),
    )
}

pub fn advance_pr_bookmarks(tape: &mut Tape, cwd: &str, branch: &str, bookmark: &str) -> (r: Result<
    (),
    Stop,
>)
    ensures
        follows(r, final(tape)@, flow_advance(old(tape)@, cwd@, branch@, bookmark@)),
{
    advance_one(tape, cwd, branch)?;
    advance_one(tape, cwd, bookmark)?;
    Ok(())
}

// ---------------------------------------------------------------------------
// The command
// ---------------------------------------------------------------------------

/// The URL of a pull request.
pub open spec fn pr_url(slug: Seq<char>, n: u64) -> Seq<char> {
    "https://github.com/"@ + slug + "/pull/"@ + spec_decimal(n as nat)
}

pub open spec fn push_result(slug: Seq<char>, n: u64, pushed: bool) -> RunResultView {
    spec_result(
        pr_url(slug, n),
        PayloadView::PrPushed { pushed, url: pr_url(slug, n), number: n },
    )
}

fn report(slug: &str, n: u64, pushed: bool) -> (r: RunResult)
    ensures
        r.deep_view() == push_result(slug@, n, pushed),
{
    let url: String = cat(
        cat(cat("https://github.com/".to_string(), slug), "/pull/"),
        decimal(n).as_str(),
    );
    RunResult::new(copy(&url), Payload::PrPushed { pushed, url, number: n })
}

/// With an empty working-copy commit there is nothing to land: that is in order
/// only where the bookmark of the pull request is where GitHub has the branch.
pub open spec fn flow_nothing_to_land(
    t: Seq<AnswerView>,
    cwd: Seq<char>,
    slug: Seq<char>,
    n: u64,
    branch: Seq<char>,
) -> Flow<RunResultView> {
    let refused = spec_invalid(
        "@ is empty — nothing to land; create a commit before running `cube pr push`"@,
    );
    flow_github_sha(t, cwd, slug, branch).and(
        |github: Seq<char>, t: Seq<AnswerView>|
            match ask_output(
                t,
                ActionView::Run(spec_jj(cwd, commit_args(spec_pr_bookmark(n)))),
            ) {
                Flow::Done(sha, t) => if spec_trim(sha) == spec_trim(github) {
                    Flow::Done(push_result(slug, n, false), t)
                } else {
                    Flow::Failed(refused, t)
                },
                Flow::Failed(_, t) => Flow::Failed(refused, t),
                Flow::Asks(a) => Flow::Asks(a),
            },
    )
}

fn nothing_to_land(tape: &mut Tape, cwd: &str, slug: &str, n: u64, branch: &str) -> (r: Result<
    RunResult,
    Stop,
>)
    ensures
        follows(
            r,
            final(tape)@,
            flow_nothing_to_land(old(tape)@, cwd@, slug@, n, branch@),
        ),
{
    let github: String = fetch_github_sha(tape, cwd, slug, branch)?;
    let bookmark: String = pr_bookmark_name(n);
    match tape.ask_output(Action::Run(jj(cwd, commit_list(bookmark.as_str())))) {
        Ok(sha) => {
            let a: String = trim(sha.as_str());
            let b: String = trim(github.as_str());
            if same(a.as_str(), b.as_str()) {
                return Ok(report(slug, n, false));
            }
        },
        Err(Stop::Fail(_)) => {},
        Err(stop) => {
            return Err(stop);
        },
    }
    invalid(
        "@ is empty — nothing to land; create a commit before running `cube pr push`".to_string(),
    )
}

/// The failure for a branch that moved on GitHub since the last fetch.
pub open spec fn moved_message(
    branch: Seq<char>,
    github: Seq<char>,
    fetched: Seq<char>,
) -> Seq<char> {
    "force-with-lease refused: `"@ + branch + "` on GitHub ("@ + github
        + ") has advanced beyond the last-fetched state ("@ + fetched
        + "). Another workspace pushed concurrently. Run `jj git fetch` and decide whether to rebase before force-pushing."@
}

/// Arguments of `git` to force a push.
pub open spec fn force_args(remote: Seq<char>, branch: Seq<char>) -> Seq<Seq<char>> {
    seq!["push"@, "--force-with-lease"@, remote, branch]
}

/// Forces the branch onto GitHub, provided that GitHub has it where the last fetch
/// saw it.
pub open spec fn flow_force_push(
    t: Seq<AnswerView>,
    cwd: Seq<char>,
    remote: Seq<char>,
    slug: Seq<char>,
    n: u64,
    branch: Seq<char>,
) -> Flow<()> {
    let seen = branch + "@"@ + remote;
    flow_run(
        t,
        spec_jj(cwd, commit_args(seen)),
        "failed to read last-fetched state of `"@ + seen + "`: "@,
        "; run `jj git fetch` before `cube pr push --force-with-lease`"@,
    ).and(
        |fetched: Seq<char>, t: Seq<AnswerView>|
            flow_github_sha(t, cwd, slug, branch).and(
                |github: Seq<char>, t: Seq<AnswerView>|
                    if spec_trim(fetched) != spec_trim(github) {
                        Flow::Failed(
                            spec_invalid(
                                moved_message(branch, spec_trim(github), spec_trim(fetched)),
                            ),
                            t,
                        )
                    } else {
                        flow_advance(t, cwd, branch, spec_pr_bookmark(n)).and(
                            |u: (), t: Seq<AnswerView>|
                                flow_run(
                                    t,
                                    spec_command(cwd, "git"@, force_args(remote, branch)),
                                    "force-with-lease push of `"@ + branch + "` failed: "@,
                                    ""@,
                                ).and(|o: Seq<char>, t: Seq<AnswerView>| Flow::Done((), t)),
                        )
                    },
            ),
    )
}

fn force_push(tape: &mut Tape, cwd: &str, remote: &str, slug: &str, n: u64, branch: &str) -> (r:
    Result<(), Stop>)
    ensures
        follows(
            r,
            final(tape)@,
            flow_force_push(old(tape)@, cwd@, remote@, slug@, n, branch@),
        ),
{
    let seen: String = cat(cat(branch.to_string(), "@"), remote);
    let fetched: String = run(
        tape,
        jj(cwd, commit_list(seen.as_str())),
        cat(cat("failed to read last-fetched state of `".to_string(), seen.as_str()), "`: "),
        "; run `jj git fetch` before `cube pr push --force-with-lease`",
    )?;
    let github: String = fetch_github_sha(tape, cwd, slug, branch)?;
    let fetched: String = trim(fetched.as_str());
    let github: String = trim(github.as_str());
    if !same(fetched.as_str(), github.as_str()) {
        let a: String = cat(
            cat(cat("force-with-lease refused: `".to_string(), branch), "` on GitHub ("),
            github.as_str(),
        );
        let b: String = cat(
            cat(a, ") has advanced beyond the last-fetched state ("),
            fetched.as_str(),
        );
        return invalid(
            cat(
                b,
                "). Another workspace pushed concurrently. Run `jj git fetch` and decide whether to rebase before force-pushing.",
            ),
        );
    }
    let bookmark: String = pr_bookmark_name(n);
    advance_pr_bookmarks(tape, cwd, branch, bookmark.as_str())?;
    run(
        tape,
        command(cwd, "git", list4("push", "--force-with-lease", remote, branch)),
        cat(cat("force-with-lease push of `".to_string(), branch), "` failed: "),
        "",
    )?;
    Ok(())
}

/// The failure for a commit that the pull request cannot be moved forward to.
pub open spec fn not_descendant_message(n: u64) -> Seq<char> {
    "@ is not a descendant of `"@ + spec_pr_bookmark(n)
        + "` — refusing to push (this would not be a fast-forward). Use `--force-with-lease` for rewrite scenarios, or run `cube workspace lease --resume_pr "@
        + spec_decimal(n as nat) + "` to rebuild on the current head."@
}

/// Arguments of `jj` to push a branch that the remote has.
pub open spec fn push_args(branch: Seq<char>, remote: Seq<char>) -> Seq<Seq<char>> {
    seq!["git"@, "push"@, "-b"@, branch] + seq!["--remote"@, remote]
}

/// Moves the branch forward on GitHub, provided that the working-copy commit
/// descends from the bookmark of the pull request.
pub open spec fn flow_forward_push(
    t: Seq<AnswerView>,
    cwd: Seq<char>,
    remote: Seq<char>,
    n: u64,
    branch: Seq<char>,
) -> Flow<()> {
    flow_run(
        t,
        spec_jj(cwd, commit_args(spec_pr_bookmark(n) + " & ancestors(@)"@)),
        "failed to check ancestry of `"@ + spec_pr_bookmark(n) + "`: "@,
        ""@,
    ).and(
        |ancestor: Seq<char>, t: Seq<AnswerView>|
            if spec_trim(ancestor).len() == 0 {
                Flow::Failed(spec_invalid(not_descendant_message(n)), t)
            } else {
                flow_advance(t, cwd, branch, spec_pr_bookmark(n)).and(
                    |u: (), t: Seq<AnswerView>|
                        flow_run(
                            t,
                            spec_jj(cwd, push_args(branch, remote)),
                            "failed to push `"@ + branch + "`: "@,
                            ""@,
                        ).and(|o: Seq<char>, t: Seq<AnswerView>| Flow::Done((), t)),
                )
            },
    )
}

fn forward_push(tape: &mut Tape, cwd: &str, remote: &str, n: u64, branch: &str) -> (r: Result<
    (),
    Stop,
>)
    ensures
        follows(
            r,
            final(tape)@,
            flow_forward_push(old(tape)@, cwd@, remote@, n, branch@),
        ),
{
    let bookmark: String = pr_bookmark_name(n);
    let shared: String = cat(copy(&bookmark), " & ancestors(@)");
    let ancestor: String = run(
        tape,
        jj(cwd, commit_list(shared.as_str())),
        cat(cat("failed to check ancestry of `".to_string(), bookmark.as_str()), "`: "),
        "",
    )?;
    let bare: String = trim(ancestor.as_str());
    if bare.as_str().is_empty() {
        let head: String = cat(
            cat("@ is not a descendant of `".to_string(), bookmark.as_str()),
            "` — refusing to push (this would not be a fast-forward). Use `--force-with-lease` for rewrite scenarios, or run `cube workspace lease --resume_pr ",
        );
        return invalid(
            cat(cat(head, decimal(n).as_str()), "` to rebuild on the current head."),
        );
    }
    advance_pr_bookmarks(tape, cwd, branch, bookmark.as_str())?;
    run(
        tape,
        jj(cwd, chain(list4("git", "push", "-b", branch), list2("--remote", remote))),
        cat(cat("failed to push `".to_string(), branch), "`: "),
        "",
    )?;
    Ok(())
}

/// Lands the working-copy commit on a branch that may be pushed.
pub open spec fn flow_land(
    t: Seq<AnswerView>,
    cwd: Seq<char>,
    remote: Seq<char>,
    slug: Seq<char>,
    n: u64,
    branch: Seq<char>,
    force: bool,
) -> Flow<RunResultView> {
    flow_check_open(t, cwd, slug, n).and(
        |u: (), t: Seq<AnswerView>|
            flow_run(
                t,
                spec_jj(cwd, seq!["log"@, "-r"@, "@"@] + seq!["--no-graph"@, "-T"@, "empty"@]),
                "failed to inspect working copy: "@,
                ""@,
            ).and(
                |empty: Seq<char>, t: Seq<AnswerView>|
                    if spec_trim(empty) == "true"@ {
                        flow_nothing_to_land(t, cwd, slug, n, branch)
                    } else {
                        (if force {
                            flow_force_push(t, cwd, remote, slug, n, branch)
                        } else {
                            flow_forward_push(t, cwd, remote, n, branch)
                        }).and(
                            |u: (), t: Seq<AnswerView>|
                                flow_verify_push(t, cwd, slug, branch).and(
                                    |u: (), t: Seq<AnswerView>|
                                        Flow::Done(push_result(slug, n, true), t),
                                ),
                        )
                    },
            ),
    )
}

fn land(
    tape: &mut Tape,
    cwd: &str,
    remote: &str,
    slug: &str,
    n: u64,
    branch: &str,
    force: bool,
) -> (r: Result<RunResult, Stop>)
    ensures
        follows(
            r,
            final(tape)@,
            flow_land(old(tape)@, cwd@, remote@, slug@, n, branch@, force),
        ),
{
    check_pr_open(tape, cwd, slug, n)?;
    let empty: String = run(
        tape,
        jj(cwd, chain(list3("log", "-r", "@"), list3("--no-graph", "-T", "empty"))),
        "failed to inspect working copy: ".to_string(),
        "",
    )?;
    let empty: String = trim(empty.as_str());
    if same(empty.as_str(), "true") {
        return nothing_to_land(tape, cwd, slug, n, branch);
    }
    if force {
        force_push(tape, cwd, remote, slug, n, branch)?;
    } else {
        forward_push(tape, cwd, remote, n, branch)?;
    }
    verify_push_reached_github(tape, cwd, slug, branch)?;
    Ok(report(slug, n, true))
}

/// Advances a pull request to the working-copy commit.
pub open spec fn flow_pr_push(t: Seq<AnswerView>, args: PrPushArgsView) -> Flow<RunResultView> {
    flow_here(t).and(
        |place: (Seq<char>, Seq<char>, Seq<char>), t: Seq<AnswerView>|
            flow_target(t, args, place.0, place.2).and(
                |target: (u64, Seq<char>), t: Seq<AnswerView>|
                    if spec_is_pr_bookmark(target.1) {
                        Flow::Failed(spec_invalid(reserved_message(target.1)), t)
                    } else {
                        flow_land(
                            t,
                            place.0,
                            place.1,
                            place.2,
                            target.0,
                            target.1,
                            args.force_with_lease,
                        )
                    },
            ),
    )
}

pub fn pr_push(tape: &mut Tape, args: &PrPushArgs) -> (r: Result<RunResult, Stop>)
    ensures
        follows(r, final(tape)@, flow_pr_push(old(tape)@, args.deep_view())),
{
    let place: (String, String, String) = here(tape)?;
    let target: (u64, String) = resolve_pr_push_target(
        tape,
        args,
        place.0.as_str(),
        place.2.as_str(),
    )?;
    match assert_not_pr_bookmark(target.1.as_str()) {
        Ok(_) => {},
        Err(why) => {
            return invalid(why);
        },
    }
    land(
        tape,
        place.0.as_str(),
        place.1.as_str(),
        place.2.as_str(),
        target.0,
        target.1.as_str(),
        args.force_with_lease,
    )
}

} // verus!
