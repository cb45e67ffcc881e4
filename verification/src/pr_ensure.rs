//! Creating a pull request for a branch, or finding the one there is.

use vstd::prelude::*;

use crate::cli::{PrEnsureArgs, PrEnsureArgsView};
use crate::error::{CubeError, CubeErrorView};
use crate::flow::{
    ask_ack, ask_done, ask_found, ask_name, ask_text, follows, Action, ActionView, AnswerView,
    Content, ContentView, Entry, EntryView, Flow, IoFaultView, Stop, Tape,
};
use crate::git::{assert_not_pr_bookmark, reserved_message, spec_is_pr_bookmark};
use crate::jj::{jj, spec_jj};
use crate::json::{parse_json_list, trees, Json, JsonView};
use crate::number::{decimal, spec_decimal};
use crate::outside::json_parsed_list;
use crate::paths::{path_join, spec_path_join};
use crate::pr::{
    detect_jj_bookmark, flow_detect_bookmark, flow_here, flow_run, flow_set_pr_bookmark,
    flow_verify_push, gh, here, invalid, pr_number, pr_number_from_url, run, set_pr_bookmark,
    spec_gh, spec_invalid, verify_push_reached_github,
};
use crate::report::{spec_result, Payload, PayloadView, RunResult, RunResultView};
use crate::text::{cat, chain, copy, list1, list2, list3, list4, same, spec_trim, trim};

verus! {

// ---------------------------------------------------------------------------
// The body
// ---------------------------------------------------------------------------

/// The paths that stand for standard input.
pub open spec fn names_stdin(path: Seq<char>) -> bool {
    path == "/dev/stdin"@ || path == "-"@ || path == "/dev/fd/0"@
}

pub fn is_stdin_path(path: &str) -> (r: bool)
    ensures
        r == names_stdin(path@),
{
    same(path, "/dev/stdin") || same(path, "-") || same(path, "/dev/fd/0")
}

/// Reads a stream to its end and keeps the text in a fresh temporary file. A text
/// of nothing but whitespace is refused.
pub open spec fn flow_keep_stream(
    t: Seq<AnswerView>,
    path: Seq<char>,
    source: ActionView,
) -> Flow<(Seq<char>, Option<Seq<char>>)> {
    ask_text(t, source).and(
        |content: ContentView, t: Seq<AnswerView>|
            match content {
                ContentView::Fault(fault) => Flow::Failed(CubeErrorView::Io(fault.text), t),
                ContentView::Text(text) => if spec_trim(text).len() == 0 {
                    Flow::Failed(
                        spec_invalid(
                            "--body-file `"@ + path
                                + "` produced empty content; refusing to create a PR with no description"@,
                        ),
                        t,
                    )
                } else {
                    ask_name(t, ActionView::TempDir).and(
                        |dir: Seq<char>, t: Seq<AnswerView>|
                            ask_name(t, ActionView::FreshId).and(
                                |id: Seq<char>, t: Seq<AnswerView>|
                                    {
                                        let kept = spec_path_join(
                                            dir,
                                            "cube-pr-body-"@ + id + ".md"@,
                                        );
                                        ask_done(t, ActionView::WriteFile { path: kept, text }).and(
                                            |fault: Option<IoFaultView>, t: Seq<AnswerView>|
                                                match fault {
                                                    Some(f) => Flow::Failed(
                                                        CubeErrorView::Io(f.text),
                                                        t,
                                                    ),
                                                    None => Flow::Done((kept, Some(kept)), t),
                                                },
                                        )
                                    },
                            ),
                    )
                },
            },
    )
}

fn keep_stream(tape: &mut Tape, path: &str, source: Action) -> (r: Result<
    (String, Option<String>),
    Stop,
>)
    ensures
        follows(r, final(tape)@, flow_keep_stream(old(tape)@, path@, source.deep_view())),
{
    let text: String = match tape.ask_text(source)? {
        Content::Fault(fault) => {
            return Err(Stop::Fail(CubeError::Io(fault.text)));
        },
        Content::Text(text) => text,
    };
    let bare: String = trim(text.as_str());
    if bare.as_str().is_empty() {
        return invalid(
            cat(
                cat("--body-file `".to_string(), path),
                "` produced empty content; refusing to create a PR with no description",
            ),
        );
    }
    let dir: String = tape.ask_name(Action::TempDir)?;
    let id: String = tape.ask_name(Action::FreshId)?;
    let name: String = cat(cat("cube-pr-body-".to_string(), id.as_str()), ".md");
    let kept: String = path_join(dir.as_str(), name.as_str());
    match tape.ask_done(Action::WriteFile { path: copy(&kept), text })? {
        Some(f) => Err(Stop::Fail(CubeError::Io(f.text))),
        None => Ok((copy(&kept), Some(kept))),
    }
}

/// The file that holds the body, and the temporary file to remove afterwards, if
/// one was made. Standard input and pipes are read to their end first; a file must
/// be there and must not be empty.
pub open spec fn flow_resolve_body(t: Seq<AnswerView>, path: Seq<char>) -> Flow<
    (Seq<char>, Option<Seq<char>>),
> {
    if names_stdin(path) {
        flow_keep_stream(t, path, ActionView::ReadStdin)
    } else {
        ask_found(t, ActionView::Stat(path)).and(
            |found: EntryView, t: Seq<AnswerView>|
                match found {
                    EntryView::Stream => flow_keep_stream(t, path, ActionView::ReadFile(path)),
                    EntryView::Fault(cause) => Flow::Failed(
                        spec_invalid("--body-file `"@ + path + "`: "@ + cause),
                        t,
                    ),
                    EntryView::Sized(size) => if size == 0 {
                        Flow::Failed(
                            spec_invalid(
                                "--body-file `"@ + path
                                    + "` is empty; refusing to create a PR with no description"@,
                            ),
                            t,
                        )
                    } else {
                        Flow::Done((path, None), t)
                    },
                },
        )
    }
}

pub fn resolve_body_file(tape: &mut Tape, path: &str) -> (r: Result<
    (String, Option<String>),
    Stop,
>)
    ensures
        follows(r, final(tape)@, flow_resolve_body(old(tape)@, path@)),
{
    if is_stdin_path(path) {
        return keep_stream(tape, path, Action::ReadStdin);
    }
    match tape.ask_found(Action::Stat(path.to_string()))? {
        Entry::Stream => keep_stream(tape, path, Action::ReadFile(path.to_string())),
        Entry::Fault(cause) => invalid(
            cat(cat(cat("--body-file `".to_string(), path), "`: "), cause.as_str()),
        ),
        Entry::Sized(size) => {
            if size == 0 {
                invalid(
                    cat(
                        cat("--body-file `".to_string(), path),
                        "` is empty; refusing to create a PR with no description",
                    ),
                )
            } else {
                Ok((path.to_string(), None))
            }
        },
    }
}

// ---------------------------------------------------------------------------
// The command
// ---------------------------------------------------------------------------

/// An option and its value, where there is one.
pub open spec fn option_args(name: Seq<char>, value: Option<Seq<char>>) -> Seq<Seq<char>> {
    match value {
        Some(v) => seq![name, v],
        None => Seq::empty(),
    }
}

fn option_list(name: &str, value: &Option<String>) -> (r: Vec<String>)
    ensures
        r.deep_view() == option_args(name@, value.deep_view()),
{
    match value {
        Some(v) => list2(name, v.as_str()),
        None => {
            let none: Vec<String> = Vec::new();
            assert(none.deep_view() =~= Seq::<Seq<char>>::empty());
            none
        },
    }
}

/// Arguments of `gh` to create a pull request.
pub open spec fn create_args(
    slug: Seq<char>,
    branch: Seq<char>,
    title: Option<Seq<char>>,
    body: Option<Seq<char>>,
    body_file: Option<Seq<char>>,
    draft: bool,
) -> Seq<Seq<char>> {
    seq!["pr"@, "create"@, "-R"@, slug] + seq!["--head"@, branch, "--base"@, "main"@]
        + option_args("--title"@, title) + option_args("--body"@, body) + option_args(
        "--body-file"@,
        body_file,
    ) + (if draft {
        seq!["--draft"@]
    } else {
        Seq::empty()
    })
}

fn create_list(
    slug: &str,
    branch: &str,
    title: &Option<String>,
    body: &Option<String>,
    body_file: &Option<String>,
    draft: bool,
) -> (r: Vec<String>)
    ensures
        r.deep_view() == create_args(
            slug@,
            branch@,
            title.deep_view(),
            body.deep_view(),
            body_file.deep_view(),
            draft,
        ),
{
    let all: Vec<String> = chain(
        chain(
            chain(
                chain(
                    list4("pr", "create", "-R", slug),
                    list4("--head", branch, "--base", "main"),
                ),
                option_list("--title", title),
            ),
            option_list("--body", body),
        ),
        option_list("--body-file", body_file),
    );
    let ghost before = all.deep_view();
    if draft {
        chain(all, list1("--draft"))
    } else {
        assert(before + Seq::<Seq<char>>::empty() =~= before);
        all
    }
}

/// Points the bookmark of the pull request at the branch and reports its URL.
pub open spec fn flow_finish(
    t: Seq<AnswerView>,
    cwd: Seq<char>,
    branch: Seq<char>,
    created: bool,
    url: Seq<char>,
) -> Flow<RunResultView> {
    flow_set_pr_bookmark(t, cwd, pr_number(url), branch).and(
        |bookmark: Option<Seq<char>>, t: Seq<AnswerView>|
            Flow::Done(
                spec_result(
                    url,
                    PayloadView::PrEnsured {
                        created,
                        url,
                        number: pr_number(url),
                        pr_bookmark: bookmark,
                    },
                ),
                t,
            ),
    )
}

fn finish(tape: &mut Tape, cwd: &str, branch: &str, created: bool, url: String) -> (r: Result<
    RunResult,
    Stop,
>)
    ensures
        follows(r, final(tape)@, flow_finish(old(tape)@, cwd@, branch@, created, url@)),
{
    let number: Option<u64> = pr_number_from_url(url.as_str());
    let pr_bookmark: Option<String> = set_pr_bookmark(tape, cwd, number, branch)?;
    let message: String = copy(&url);
    Ok(RunResult::new(message, Payload::PrEnsured { created, url, number, pr_bookmark }))
}

pub open spec fn flow_body_of(t: Seq<AnswerView>, path: Option<Seq<char>>) -> Flow<
    (Option<Seq<char>>, Option<Seq<char>>),
> {
    match path {
        None => Flow::Done((None, None), t),
        Some(p) => flow_resolve_body(t, p).and(
            |found: (Seq<char>, Option<Seq<char>>), t: Seq<AnswerView>|
                Flow::Done((Some(found.0), found.1), t),
        ),
    }
}

pub open spec fn flow_remove_temp(t: Seq<AnswerView>, temp: Option<Seq<char>>) -> Flow<()> {
    match temp {
        None => Flow::Done((), t),
        Some(p) => ask_ack(t, ActionView::RemoveFile(p)),
    }
}

/// Creates the pull request.
pub open spec fn flow_create(
    t: Seq<AnswerView>,
    cwd: Seq<char>,
    slug: Seq<char>,
    branch: Seq<char>,
    args: PrEnsureArgsView,
) -> Flow<RunResultView> {
    flow_body_of(t, args.body_file).and(
        |body: (Option<Seq<char>>, Option<Seq<char>>), t: Seq<AnswerView>|
            flow_run(
                t,
                spec_gh(cwd, create_args(slug, branch, args.title, args.body, body.0, args.draft)),
                "failed to create PR: "@,
                ""@,
            ).and(
                |output: Seq<char>, t: Seq<AnswerView>|
                    flow_remove_temp(t, body.1).and(
                        |u: (), t: Seq<AnswerView>|
                            if spec_trim(output).len() == 0 {
                                Flow::Failed(
                                    spec_invalid(
                                        "gh pr create produced no output — PR may not have been created"@,
                                    ),
                                    t,
                                )
                            } else {
                                flow_finish(t, cwd, branch, true, spec_trim(output))
                            },
                    ),
            ),
    )
}

fn create(tape: &mut Tape, cwd: &str, slug: &str, branch: &str, args: &PrEnsureArgs) -> (r: Result<
    RunResult,
    Stop,
>)
    ensures
        follows(
            r,
            final(tape)@,
            flow_create(old(tape)@, cwd@, slug@, branch@, args.deep_view()),
        ),
{
    let body: (Option<String>, Option<String>) = match &args.body_file {
        None => (None, None),
        Some(path) => {
            let found: (String, Option<String>) = resolve_body_file(tape, path.as_str())?;
            (Some(found.0), found.1)
        },
    };
    let output: String = run(
        tape,
        gh(cwd, create_list(slug, branch, &args.title, &args.body, &body.0, args.draft)),
        "failed to create PR: ".to_string(),
        "",
    )?;
    if let Some(temp) = body.1 {
        tape.ask_ack(Action::RemoveFile(temp))?;
    }
    let url: String = trim(output.as_str());
    if url.as_str().is_empty() {
        return invalid(
            "gh pr create produced no output — PR may not have been created".to_string(),
        );
    }
    finish(tape, cwd, branch, true, url)
}

/// The open pull requests in a listing; none where it cannot be read.
pub open spec fn listed(list: Seq<char>) -> Seq<JsonView> {
    match json_parsed_list(list) {
        Ok(prs) => prs,
        Err(_) => Seq::empty(),
    }
}

/// What to do about the open pull requests of a branch.
#[derive(Debug, Clone, PartialEq, Eq)]
pub enum Existing {
    /// There is none: create one.
    Create,
    /// This is the one.
    Use(String),
    /// There is more than one.
    TooMany(usize),
}

/// One pull request with a URL is used, none leads to a new one, and more are an error.
pub fn choose_existing(prs: &Vec<Json>) -> (r: Existing)
    ensures
        match r {
            Existing::TooMany(n) => n == prs@.len() && prs@.len() > 1,
            Existing::Use(url) => prs@.len() == 1 && prs@[0].tree().text_at("url"@) == Some(url@),
            Existing::Create => prs@.len() == 0 || (prs@.len() == 1 && prs@[0].tree().text_at(
                "url"@,
            ) is None),
        },
{
    let n: usize = prs.len();
    if n > 1 {
        Existing::TooMany(n)
    } else if n == 1 {
        match prs[0].text_at("url") {
            Some(url) => Existing::Use(url),
            None => Existing::Create,
        }
    } else {
        Existing::Create
    }
}

/// The failure for more than one open pull request.
pub open spec fn too_many_message(n: nat, branch: Seq<char>) -> Seq<char> {
    "found "@ + spec_decimal(n) + " open PRs for branch `"@ + branch
        + "` — expected at most 1. Close duplicate PRs before retrying."@
}

/// Uses the open pull request of the branch, or creates one.
pub open spec fn flow_find_or_create(
    t: Seq<AnswerView>,
    cwd: Seq<char>,
    slug: Seq<char>,
    branch: Seq<char>,
    args: PrEnsureArgsView,
) -> Flow<RunResultView> {
    flow_run(
        t,
        spec_gh(
            cwd,
            seq!["pr"@, "list"@, "-R"@, slug] + seq!["--head"@, branch, "--state"@, "open"@]
                + seq!["--json"@, "url"@],
        ),
        "failed to check for existing PR: "@,
        ""@,
    ).and(
        |list: Seq<char>, t: Seq<AnswerView>|
            {
                let prs = listed(list);
                if prs.len() > 1 {
                    Flow::Failed(spec_invalid(too_many_message(prs.len(), branch)), t)
                } else if prs.len() == 1 && prs[0].text_at("url"@) is Some {
                    flow_finish(t, cwd, branch, false, prs[0].text_at("url"@)->0)
                } else {
                    flow_create(t, cwd, slug, branch, args)
                }
            },
    )
}

fn find_or_create(
    tape: &mut Tape,
    cwd: &str,
    slug: &str,
    branch: &str,
    args: &PrEnsureArgs,
) -> (r: Result<RunResult, Stop>)
    ensures
        follows(
            r,
            final(tape)@,
            flow_find_or_create(old(tape)@, cwd@, slug@, branch@, args.deep_view()),
        ),
{
    let list: String = run(
        tape,
        gh(
            cwd,
            chain(
                chain(
                    list4("pr", "list", "-R", slug),
                    list4("--head", branch, "--state", "open"),
                ),
                list2("--json", "url"),
            ),
        ),
        "failed to check for existing PR: ".to_string(),
        "",
    )?;
    let prs: Vec<Json> = match parse_json_list(list.as_str()) {
        Ok(prs) => prs,
        Err(_) => Vec::new(),
    };
    assert(trees(prs@) =~= listed(list@));
    match choose_existing(&prs) {
        Existing::TooMany(n) => invalid(
            cat(
                cat(
                    cat(
                        cat("found ".to_string(), decimal(n as u64).as_str()),
                        " open PRs for branch `",
                    ),
                    branch,
                ),
                "` — expected at most 1. Close duplicate PRs before retrying.",
            ),
        ),
        Existing::Use(url) => finish(tape, cwd, branch, false, url),
        Existing::Create => create(tape, cwd, slug, branch, args),
    }
}

pub open spec fn flow_branch(
    t: Seq<AnswerView>,
    cwd: Seq<char>,
    branch: Option<Seq<char>>,
) -> Flow<Seq<char>> {
    match branch {
        Some(b) => Flow::Done(b, t),
        None => flow_detect_bookmark(t, cwd),
    }
}

/// Arguments of `jj` to push a branch that the remote may not have yet.
pub open spec fn push_new_args(branch: Seq<char>, remote: Seq<char>) -> Seq<Seq<char>> {
    seq!["git"@, "push"@, "-b"@, branch] + seq!["--remote"@, remote, "--allow-new"@]
}

/// Pushes the branch to the GitHub remote, makes sure that GitHub has it, and uses
/// its open pull request or creates one.
pub open spec fn flow_ensure_pr(t: Seq<AnswerView>, args: PrEnsureArgsView) -> Flow<
    RunResultView,
> {
    flow_here(t).and(
        |place: (Seq<char>, Seq<char>, Seq<char>), t: Seq<AnswerView>|
            flow_branch(t, place.0, args.branch).and(
                |branch: Seq<char>, t: Seq<AnswerView>|
                    if spec_is_pr_bookmark(branch) {
                        Flow::Failed(spec_invalid(reserved_message(branch)), t)
                    } else {
                        flow_run(
                            t,
                            spec_jj(place.0, push_new_args(branch, place.1)),
                            "failed to push branch `"@ + branch + "`: "@,
                            ""@,
                        ).and(
                            |o: Seq<char>, t: Seq<AnswerView>|
                                flow_verify_push(t, place.0, place.2, branch).and(
                                    |u: (), t: Seq<AnswerView>|
                                        flow_find_or_create(t, place.0, place.2, branch, args),
                                ),
                        )
                    },
            ),
    )
}

pub fn ensure_pr(tape: &mut Tape, args: &PrEnsureArgs) -> (r: Result<RunResult, Stop>)
    ensures
        follows(r, final(tape)@, flow_ensure_pr(old(tape)@, args.deep_view())),
{
    let place: (String, String, String) = here(tape)?;
    let branch: String = match &args.branch {
        Some(b) => copy(b),
        None => detect_jj_bookmark(tape, place.0.as_str())?,
    };
    match assert_not_pr_bookmark(branch.as_str()) {
        Ok(_) => {},
        Err(why) => {
            return invalid(why);
        },
    }
    run(
        tape,
        jj(
            place.0.as_str(),
            chain(
                list4("git", "push", "-b", branch.as_str()),
                list3("--remote", place.1.as_str(), "--allow-new"),
            ),
        ),
        cat(cat("failed to push branch `".to_string(), branch.as_str()), "`: "),
        "",
    )?;
    verify_push_reached_github(tape, place.0.as_str(), place.2.as_str(), branch.as_str())?;
    find_or_create(tape, place.0.as_str(), place.2.as_str(), branch.as_str(), args)
}

} // verus!
