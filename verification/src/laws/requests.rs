//! Pull requests step by step: what is pushed, which pull request it goes to, and how one is
//! created.

use vstd::prelude::*;

use crate::app::flow_command;
use crate::cli::{PrCommandView, PrEnsureArgsView, PrPushArgsView};
use crate::error::CubeErrorView;
use crate::flow::{ActionView, AnswerView, ContentView, EntryView, Flow};
use crate::git::{reserved_message, spec_github_remote, spec_is_pr_bookmark};
use crate::json::JsonView;
use crate::laws::steps::{
    ends_with, fails_with, gh, goes_on_as, group_given, is_reserved, jj, on_pr, runs, Step,
};
use crate::number::spec_decimal;
use crate::outside::{json_parsed, json_parsed_list};
use crate::paths::spec_path_join;
use crate::pr::{flow_verify_push, not_reached_message, pr_number};
use crate::pr_ensure::flow_find_or_create;
use crate::pr_push::{
    first_branch, flow_land, flow_target, last_branch, last_number, moved_message,
    not_descendant_message, numbered,
};
use crate::report::{spec_result, PayloadView};
use crate::reset::filled_lines;
use crate::split::spec_lines;
use crate::text::spec_trim;

verus! {

/// An option with its value, where there is one.
pub open spec fn option(name: Seq<char>, value: Option<Seq<char>>) -> Seq<Seq<char>> {
    match value {
        Some(value) => seq![name, value],
        None => Seq::empty(),
    }
}

proof fn lemma_reserved(name: Seq<char>)
    ensures
        spec_is_pr_bookmark(name) == is_reserved(name),
{
    reveal_strlit("pr/");
    if is_reserved(name) {
        assert(name.subrange(0, 3) =~= "pr/"@);
    }
    if spec_is_pr_bookmark(name) {
        let front = name.subrange(0, 3);
        assert(front[0] == name[0] && front[1] == name[1] && front[2] == name[2]);
    }
}

proof fn lemma_first_branch(names: Seq<Seq<char>>, i: int)
    requires
        0 <= i < names.len(),
        !is_reserved(names[i]),
        forall|j: int| 0 <= j < i ==> is_reserved(#[trigger] names[j]),
    ensures
        first_branch(names) == Some(names[i]),
    decreases names.len(),
{
    lemma_reserved(names[0]);
    if i > 0 {
        let rest = names.drop_first();
        assert forall|j: int| 0 <= j < i - 1 implies is_reserved(#[trigger] rest[j]) by {
            assert(rest[j] == names[j + 1]);
        }
        assert(rest[i - 1] == names[i]);
        lemma_first_branch(rest, i - 1);
    }
}

proof fn lemma_no_branch(names: Seq<Seq<char>>)
    requires
        forall|j: int| 0 <= j < names.len() ==> is_reserved(#[trigger] names[j]),
    ensures
        first_branch(names) is None,
    decreases names.len(),
{
    if names.len() > 0 {
        lemma_reserved(names[0]);
        let rest = names.drop_first();
        assert forall|j: int| 0 <= j < rest.len() implies is_reserved(#[trigger] rest[j]) by {
            assert(rest[j] == names[j + 1]);
        }
        lemma_no_branch(rest);
    }
}

proof fn lemma_last_branch(names: Seq<Seq<char>>, i: int)
    requires
        0 <= i < names.len(),
        !is_reserved(names[i]),
        forall|j: int| i < j < names.len() ==> is_reserved(#[trigger] names[j]),
    ensures
        last_branch(names) == Some(names[i]),
    decreases names.len(),
{
    lemma_reserved(names.last());
    if i < names.len() - 1 {
        let rest = names.drop_last();
        assert forall|j: int| i < j < rest.len() implies is_reserved(#[trigger] rest[j]) by {
            assert(rest[j] == names[j]);
        }
        lemma_last_branch(rest, i);
    }
}

proof fn lemma_last_number(names: Seq<Seq<char>>, k: int)
    requires
        0 <= k < names.len(),
        numbered(names[k]) is Some,
        forall|j: int| k < j < names.len() ==> numbered(#[trigger] names[j]) is None,
    ensures
        last_number(names) == numbered(names[k]),
    decreases names.len(),
{
    if k < names.len() - 1 {
        assert(numbered(names[names.len() - 1]) is None);
        let rest = names.drop_last();
        assert forall|j: int| k < j < rest.len() implies numbered(#[trigger] rest[j]) is None by {
            assert(rest[j] == names[j]);
        }
        lemma_last_number(rest, k);
    }
}

/// Ensuring a pull request pushes the branch that was given to the GitHub remote, and
/// goes on only once GitHub has it at the same commit.
pub proof fn law_ensured_branch_is_pushed_and_verified(
    cwd: Seq<char>,
    remotes: Seq<char>,
    remote: Seq<char>,
    slug: Seq<char>,
    args: PrEnsureArgsView,
    branch: Seq<char>,
    o1: Seq<char>,
    local: Seq<char>,
    github: Seq<char>,
    more: Seq<AnswerView>,
)
    requires
        spec_github_remote(remotes) == Some((remote, slug)),
        args.branch == Some(branch),
        !is_reserved(branch),
        spec_trim(local) == spec_trim(github),
    ensures
        ({
            let command = on_pr(PrCommandView::Ensure(args));
            let steps = seq![
                (ActionView::CurrentDir, AnswerView::Output(cwd)),
                (jj(cwd, seq!["git"@, "remote"@, "list"@]), AnswerView::Output(remotes)),
                (
                    jj(
                        cwd,
                        seq!["git"@, "push"@, "-b"@, branch, "--remote"@, remote, "--allow-new"@],
                    ),
                    AnswerView::Output(o1),
                ),
                (
                    jj(cwd, seq!["log"@, "-r"@, branch, "--no-graph"@, "-T"@, "commit_id"@]),
                    AnswerView::Output(local),
                ),
                (
                    gh(
                        cwd,
                        seq![
                            "api"@,
                            "repos/"@ + slug + "/branches/"@ + branch,
                            "--jq"@,
                            ".commit.sha"@,
                        ],
                    ),
                    AnswerView::Output(github),
                ),
            ];
            goes_on_as(
                |t: Seq<AnswerView>| flow_command(t, command),
                steps,
                |t: Seq<AnswerView>| flow_find_or_create(t, cwd, slug, branch, args),
                more,
            )
        }),
{
    broadcast use group_given;
    assert(
        seq!["git"@, "push"@, "-b"@, branch] + seq!["--remote"@, remote, "--allow-new"@]
            =~= seq!["git"@, "push"@, "-b"@, branch, "--remote"@, remote, "--allow-new"@]
    );
    assert(
        seq!["log"@, "-r"@, branch] + seq!["--no-graph"@, "-T"@, "commit_id"@]
            =~= seq!["log"@, "-r"@, branch, "--no-graph"@, "-T"@, "commit_id"@]
    );
    lemma_reserved(branch);
}

/// Where GitHub has the branch at another commit after the push, ensuring a pull request
/// fails.
pub proof fn law_push_that_did_not_arrive_is_a_failure(
    cwd: Seq<char>,
    remotes: Seq<char>,
    remote: Seq<char>,
    slug: Seq<char>,
    args: PrEnsureArgsView,
    branch: Seq<char>,
    o1: Seq<char>,
    local: Seq<char>,
    github: Seq<char>,
    more: Seq<AnswerView>,
)
    requires
        spec_github_remote(remotes) == Some((remote, slug)),
        args.branch == Some(branch),
        !is_reserved(branch),
        spec_trim(local) != spec_trim(github),
    ensures
        ({
            let command = on_pr(PrCommandView::Ensure(args));
            let steps = seq![
                (ActionView::CurrentDir, AnswerView::Output(cwd)),
                (jj(cwd, seq!["git"@, "remote"@, "list"@]), AnswerView::Output(remotes)),
                (
                    jj(
                        cwd,
                        seq!["git"@, "push"@, "-b"@, branch, "--remote"@, remote, "--allow-new"@],
                    ),
                    AnswerView::Output(o1),
                ),
                (
                    jj(cwd, seq!["log"@, "-r"@, branch, "--no-graph"@, "-T"@, "commit_id"@]),
                    AnswerView::Output(local),
                ),
                (
                    gh(
                        cwd,
                        seq![
                            "api"@,
                            "repos/"@ + slug + "/branches/"@ + branch,
                            "--jq"@,
                            ".commit.sha"@,
                        ],
                    ),
                    AnswerView::Output(github),
                ),
            ];
            fails_with(
                |t: Seq<AnswerView>| flow_command(t, command),
                steps,
                CubeErrorView::InvalidArgument(
                    not_reached_message(slug, branch, spec_trim(local), spec_trim(github)),
                ),
                more,
            )
        }),
{
    broadcast use group_given;
    assert(
        seq!["git"@, "push"@, "-b"@, branch] + seq!["--remote"@, remote, "--allow-new"@]
            =~= seq!["git"@, "push"@, "-b"@, branch, "--remote"@, remote, "--allow-new"@]
    );
    assert(
        seq!["log"@, "-r"@, branch] + seq!["--no-graph"@, "-T"@, "commit_id"@]
            =~= seq!["log"@, "-r"@, branch, "--no-graph"@, "-T"@, "commit_id"@]
    );
    lemma_reserved(branch);
}

/// A branch that is reserved for pull requests is refused before anything is pushed.
pub proof fn law_reserved_branch_is_refused(
    cwd: Seq<char>,
    remotes: Seq<char>,
    remote: Seq<char>,
    slug: Seq<char>,
    args: PrEnsureArgsView,
    branch: Seq<char>,
    more: Seq<AnswerView>,
)
    requires
        spec_github_remote(remotes) == Some((remote, slug)),
        args.branch == Some(branch),
        is_reserved(branch),
    ensures
        ({
            let command = on_pr(PrCommandView::Ensure(args));
            let steps = seq![
                (ActionView::CurrentDir, AnswerView::Output(cwd)),
                (jj(cwd, seq!["git"@, "remote"@, "list"@]), AnswerView::Output(remotes)),
            ];
            fails_with(
                |t: Seq<AnswerView>| flow_command(t, command),
                steps,
                CubeErrorView::InvalidArgument(reserved_message(branch)),
                more,
            )
        }),
{
    broadcast use group_given;
    lemma_reserved(branch);
}

/// Where no branch is given, the first bookmark on the working-copy commit is pushed.
pub proof fn law_current_bookmark_is_the_branch(
    cwd: Seq<char>,
    remotes: Seq<char>,
    remote: Seq<char>,
    slug: Seq<char>,
    args: PrEnsureArgsView,
    listing: Seq<char>,
    branch: Seq<char>,
    rest: Seq<Seq<char>>,
    o1: Seq<char>,
    more: Seq<AnswerView>,
)
    requires
        spec_github_remote(remotes) == Some((remote, slug)),
        args.branch is None,
        filled_lines(spec_lines(listing)) == seq![branch] + rest,
        !is_reserved(branch),
    ensures
        ({
            let command = on_pr(PrCommandView::Ensure(args));
            let steps = seq![
                (ActionView::CurrentDir, AnswerView::Output(cwd)),
                (jj(cwd, seq!["git"@, "remote"@, "list"@]), AnswerView::Output(remotes)),
                (
                    jj(
                        cwd,
                        seq![
                            "log"@,
                            "-r"@,
                            "@"@,
                            "--no-graph"@,
                            "-T"@,
                            "bookmarks.map(|b| b.name()).join(\"\\n\")"@,
                        ],
                    ),
                    AnswerView::Output(listing),
                ),
                (
                    jj(
                        cwd,
                        seq!["git"@, "push"@, "-b"@, branch, "--remote"@, remote, "--allow-new"@],
                    ),
                    AnswerView::Output(o1),
                ),
            ];
            goes_on_as(
                |t: Seq<AnswerView>| flow_command(t, command),
                steps,
                |t: Seq<AnswerView>| flow_verify_push(t, cwd, slug, branch).and(|u: (), t: Seq<AnswerView>| flow_find_or_create(t, cwd, slug, branch, args)),
                more,
            )
        }),
{
    broadcast use group_given;
    assert(
        seq!["log"@, "-r"@, "@"@]
            + seq!["--no-graph"@, "-T"@, "bookmarks.map(|b| b.name()).join(\"\\n\")"@]
            =~= seq![
                "log"@,
                "-r"@,
                "@"@,
                "--no-graph"@,
                "-T"@,
                "bookmarks.map(|b| b.name()).join(\"\\n\")"@,
            ]
    );
    assert(
        seq!["git"@, "push"@, "-b"@, branch] + seq!["--remote"@, remote, "--allow-new"@]
            =~= seq!["git"@, "push"@, "-b"@, branch, "--remote"@, remote, "--allow-new"@]
    );
    lemma_reserved(branch);
}

/// Where GitHub lists one open pull request of the branch, it is handed back with its
/// number, and its bookmark is set on the branch; none is created.
pub proof fn law_open_pull_request_is_used(
    cwd: Seq<char>,
    slug: Seq<char>,
    branch: Seq<char>,
    args: PrEnsureArgsView,
    list: Seq<char>,
    pr: JsonView,
    url: Seq<char>,
    n: u64,
    o1: Seq<char>,
    more: Seq<AnswerView>,
)
    requires
        json_parsed_list(list) == Ok::<Seq<JsonView>, Seq<char>>(seq![pr]),
        pr.text_at("url"@) == Some(url),
        pr_number(url) == Some(n),
    ensures
        ({
            let steps = seq![
                (
                    gh(
                        cwd,
                        seq![
                            "pr"@,
                            "list"@,
                            "-R"@,
                            slug,
                            "--head"@,
                            branch,
                            "--state"@,
                            "open"@,
                            "--json"@,
                            "url"@,
                        ],
                    ),
                    AnswerView::Output(list),
                ),
                (
                    jj(
                        cwd,
                        seq!["bookmark"@, "set"@, "pr/"@ + spec_decimal(n as nat), "-r"@, branch],
                    ),
                    AnswerView::Output(o1),
                ),
            ];
            ends_with(
                |t: Seq<AnswerView>| flow_find_or_create(t, cwd, slug, branch, args),
                steps,
                spec_result(
                    url,
                    PayloadView::PrEnsured {
                        created: false,
                        url,
                        number: Some(n),
                        pr_bookmark: Some("pr/"@ + spec_decimal(n as nat)),
                    },
                ),
                more,
            )
        }),
{
    broadcast use group_given;
    assert(
        seq!["pr"@, "list"@, "-R"@, slug] + seq!["--head"@, branch, "--state"@, "open"@]
            + seq!["--json"@, "url"@]
            =~= seq![
                "pr"@,
                "list"@,
                "-R"@,
                slug,
                "--head"@,
                branch,
                "--state"@,
                "open"@,
                "--json"@,
                "url"@,
            ]
    );
    assert(
        seq!["bookmark"@, "set"@, "pr/"@ + spec_decimal(n as nat)] + seq!["-r"@, branch]
            =~= seq!["bookmark"@, "set"@, "pr/"@ + spec_decimal(n as nat), "-r"@, branch]
    );
}

/// Where GitHub lists several open pull requests of the branch, nothing is created.
pub proof fn law_several_pull_requests_are_refused(
    cwd: Seq<char>,
    slug: Seq<char>,
    branch: Seq<char>,
    args: PrEnsureArgsView,
    list: Seq<char>,
    a: JsonView,
    b: JsonView,
    more: Seq<AnswerView>,
)
    requires
        json_parsed_list(list) == Ok::<Seq<JsonView>, Seq<char>>(seq![a, b]),
    ensures
        ({
            let steps = seq![
                (
                    gh(
                        cwd,
                        seq![
                            "pr"@,
                            "list"@,
                            "-R"@,
                            slug,
                            "--head"@,
                            branch,
                            "--state"@,
                            "open"@,
                            "--json"@,
                            "url"@,
                        ],
                    ),
                    AnswerView::Output(list),
                ),
            ];
            fails_with(
                |t: Seq<AnswerView>| flow_find_or_create(t, cwd, slug, branch, args),
                steps,
                CubeErrorView::InvalidArgument(
                    "found "@ + spec_decimal(2) + " open PRs for branch `"@ + branch
                        + "` — expected at most 1. Close duplicate PRs before retrying."@,
                ),
                more,
            )
        }),
{
    broadcast use group_given;
    assert(
        seq!["pr"@, "list"@, "-R"@, slug] + seq!["--head"@, branch, "--state"@, "open"@]
            + seq!["--json"@, "url"@]
            =~= seq![
                "pr"@,
                "list"@,
                "-R"@,
                slug,
                "--head"@,
                branch,
                "--state"@,
                "open"@,
                "--json"@,
                "url"@,
            ]
    );
}

/// Where GitHub lists no open pull request of the branch, one is created against `main`
/// with the title and the body that were given, as a draft just where that was asked for,
/// and handed back with its number.
pub proof fn law_pull_request_is_created_as_asked(
    cwd: Seq<char>,
    slug: Seq<char>,
    branch: Seq<char>,
    args: PrEnsureArgsView,
    list: Seq<char>,
    out: Seq<char>,
    n: u64,
    o1: Seq<char>,
    more: Seq<AnswerView>,
)
    requires
        json_parsed_list(list) == Ok::<Seq<JsonView>, Seq<char>>(Seq::empty()),
        args.body_file is None,
        spec_trim(out) == out,
        out.len() > 0,
        pr_number(out) == Some(n),
    ensures
        ({
            let steps = seq![
                (
                    gh(
                        cwd,
                        seq![
                            "pr"@,
                            "list"@,
                            "-R"@,
                            slug,
                            "--head"@,
                            branch,
                            "--state"@,
                            "open"@,
                            "--json"@,
                            "url"@,
                        ],
                    ),
                    AnswerView::Output(list),
                ),
                (
                    gh(
                        cwd,
                        seq!["pr"@, "create"@, "-R"@, slug, "--head"@, branch, "--base"@, "main"@]
                            + option("--title"@, args.title) + option("--body"@, args.body)
                            + option("--body-file"@, None)
                            + (if args.draft { seq!["--draft"@] } else { Seq::empty() }),
                    ),
                    AnswerView::Output(out),
                ),
                (
                    jj(
                        cwd,
                        seq!["bookmark"@, "set"@, "pr/"@ + spec_decimal(n as nat), "-r"@, branch],
                    ),
                    AnswerView::Output(o1),
                ),
            ];
            ends_with(
                |t: Seq<AnswerView>| flow_find_or_create(t, cwd, slug, branch, args),
                steps,
                spec_result(
                    out,
                    PayloadView::PrEnsured {
                        created: true,
                        url: out,
                        number: Some(n),
                        pr_bookmark: Some("pr/"@ + spec_decimal(n as nat)),
                    },
                ),
                more,
            )
        }),
{
    broadcast use group_given;
    assert(
        seq!["pr"@, "list"@, "-R"@, slug] + seq!["--head"@, branch, "--state"@, "open"@]
            + seq!["--json"@, "url"@]
            =~= seq![
                "pr"@,
                "list"@,
                "-R"@,
                slug,
                "--head"@,
                branch,
                "--state"@,
                "open"@,
                "--json"@,
                "url"@,
            ]
    );
    assert(
        seq!["bookmark"@, "set"@, "pr/"@ + spec_decimal(n as nat)] + seq!["-r"@, branch]
            =~= seq!["bookmark"@, "set"@, "pr/"@ + spec_decimal(n as nat), "-r"@, branch]
    );
    assert(
        seq!["pr"@, "create"@, "-R"@, slug] + seq!["--head"@, branch, "--base"@, "main"@]
            =~= seq!["pr"@, "create"@, "-R"@, slug, "--head"@, branch, "--base"@, "main"@]
    );
}

/// A body in a file that is not empty is handed on by its path.
pub proof fn law_body_file_is_handed_on(
    cwd: Seq<char>,
    slug: Seq<char>,
    branch: Seq<char>,
    args: PrEnsureArgsView,
    list: Seq<char>,
    file: Seq<char>,
    size: u64,
    out: Seq<char>,
    n: u64,
    o1: Seq<char>,
    more: Seq<AnswerView>,
)
    requires
        json_parsed_list(list) == Ok::<Seq<JsonView>, Seq<char>>(Seq::empty()),
        args.body_file == Some(file),
        file != "/dev/stdin"@,
        file != "-"@,
        file != "/dev/fd/0"@,
        size > 0,
        spec_trim(out) == out,
        out.len() > 0,
        pr_number(out) == Some(n),
    ensures
        ({
            let steps = seq![
                (
                    gh(
                        cwd,
                        seq![
                            "pr"@,
                            "list"@,
                            "-R"@,
                            slug,
                            "--head"@,
                            branch,
                            "--state"@,
                            "open"@,
                            "--json"@,
                            "url"@,
                        ],
                    ),
                    AnswerView::Output(list),
                ),
                (ActionView::Stat(file), AnswerView::Found(EntryView::Sized(size))),
                (
                    gh(
                        cwd,
                        seq!["pr"@, "create"@, "-R"@, slug, "--head"@, branch, "--base"@, "main"@]
                            + option("--title"@, args.title) + option("--body"@, args.body)
                            + option("--body-file"@, Some(file))
                            + (if args.draft { seq!["--draft"@] } else { Seq::empty() }),
                    ),
                    AnswerView::Output(out),
                ),
                (
                    jj(
                        cwd,
                        seq!["bookmark"@, "set"@, "pr/"@ + spec_decimal(n as nat), "-r"@, branch],
                    ),
                    AnswerView::Output(o1),
                ),
            ];
            ends_with(
                |t: Seq<AnswerView>| flow_find_or_create(t, cwd, slug, branch, args),
                steps,
                spec_result(
                    out,
                    PayloadView::PrEnsured {
                        created: true,
                        url: out,
                        number: Some(n),
                        pr_bookmark: Some("pr/"@ + spec_decimal(n as nat)),
                    },
                ),
                more,
            )
        }),
{
    broadcast use group_given;
    assert(
        seq!["pr"@, "list"@, "-R"@, slug] + seq!["--head"@, branch, "--state"@, "open"@]
            + seq!["--json"@, "url"@]
            =~= seq![
                "pr"@,
                "list"@,
                "-R"@,
                slug,
                "--head"@,
                branch,
                "--state"@,
                "open"@,
                "--json"@,
                "url"@,
            ]
    );
    assert(
        seq!["bookmark"@, "set"@, "pr/"@ + spec_decimal(n as nat)] + seq!["-r"@, branch]
            =~= seq!["bookmark"@, "set"@, "pr/"@ + spec_decimal(n as nat), "-r"@, branch]
    );
    assert(
        seq!["pr"@, "create"@, "-R"@, slug] + seq!["--head"@, branch, "--base"@, "main"@]
            =~= seq!["pr"@, "create"@, "-R"@, slug, "--head"@, branch, "--base"@, "main"@]
    );
}

/// A body from standard input is kept in a file of its own while the pull request is
/// created, and the file is removed afterwards.
pub proof fn law_body_from_standard_input_is_kept(
    cwd: Seq<char>,
    slug: Seq<char>,
    branch: Seq<char>,
    args: PrEnsureArgsView,
    list: Seq<char>,
    text: Seq<char>,
    dir: Seq<char>,
    id: Seq<char>,
    out: Seq<char>,
    n: u64,
    o1: Seq<char>,
    more: Seq<AnswerView>,
)
    requires
        json_parsed_list(list) == Ok::<Seq<JsonView>, Seq<char>>(Seq::empty()),
        args.body_file == Some("-"@),
        spec_trim(text).len() > 0,
        spec_trim(out) == out,
        out.len() > 0,
        pr_number(out) == Some(n),
    ensures
        ({
            let kept = spec_path_join(dir, "cube-pr-body-"@ + id + ".md"@);
            let steps = seq![
                (
                    gh(
                        cwd,
                        seq![
                            "pr"@,
                            "list"@,
                            "-R"@,
                            slug,
                            "--head"@,
                            branch,
                            "--state"@,
                            "open"@,
                            "--json"@,
                            "url"@,
                        ],
                    ),
                    AnswerView::Output(list),
                ),
                (ActionView::ReadStdin, AnswerView::Text(ContentView::Text(text))),
                (ActionView::TempDir, AnswerView::Name(dir)),
                (ActionView::FreshId, AnswerView::Name(id)),
                (ActionView::WriteFile { path: kept, text }, AnswerView::Done(None)),
                (
                    gh(
                        cwd,
                        seq!["pr"@, "create"@, "-R"@, slug, "--head"@, branch, "--base"@, "main"@]
                            + option("--title"@, args.title) + option("--body"@, args.body)
                            + option("--body-file"@, Some(kept))
                            + (if args.draft { seq!["--draft"@] } else { Seq::empty() }),
                    ),
                    AnswerView::Output(out),
                ),
                (ActionView::RemoveFile(kept), AnswerView::Ack),
                (
                    jj(
                        cwd,
                        seq!["bookmark"@, "set"@, "pr/"@ + spec_decimal(n as nat), "-r"@, branch],
                    ),
                    AnswerView::Output(o1),
                ),
            ];
            ends_with(
                |t: Seq<AnswerView>| flow_find_or_create(t, cwd, slug, branch, args),
                steps,
                spec_result(
                    out,
                    PayloadView::PrEnsured {
                        created: true,
                        url: out,
                        number: Some(n),
                        pr_bookmark: Some("pr/"@ + spec_decimal(n as nat)),
                    },
                ),
                more,
            )
        }),
{
    broadcast use group_given;
    let kept = spec_path_join(dir, "cube-pr-body-"@ + id + ".md"@);
    assert(
        seq!["pr"@, "list"@, "-R"@, slug] + seq!["--head"@, branch, "--state"@, "open"@]
            + seq!["--json"@, "url"@]
            =~= seq![
                "pr"@,
                "list"@,
                "-R"@,
                slug,
                "--head"@,
                branch,
                "--state"@,
                "open"@,
                "--json"@,
                "url"@,
            ]
    );
    assert(
        seq!["bookmark"@, "set"@, "pr/"@ + spec_decimal(n as nat)] + seq!["-r"@, branch]
            =~= seq!["bookmark"@, "set"@, "pr/"@ + spec_decimal(n as nat), "-r"@, branch]
    );
    assert(
        seq!["pr"@, "create"@, "-R"@, slug] + seq!["--head"@, branch, "--base"@, "main"@]
            =~= seq!["pr"@, "create"@, "-R"@, slug, "--head"@, branch, "--base"@, "main"@]
    );
}

/// A file without a body is refused, and nothing is created.
pub proof fn law_empty_body_file_is_refused(
    cwd: Seq<char>,
    slug: Seq<char>,
    branch: Seq<char>,
    args: PrEnsureArgsView,
    list: Seq<char>,
    file: Seq<char>,
    more: Seq<AnswerView>,
)
    requires
        json_parsed_list(list) == Ok::<Seq<JsonView>, Seq<char>>(Seq::empty()),
        args.body_file == Some(file),
        file != "/dev/stdin"@,
        file != "-"@,
        file != "/dev/fd/0"@,
    ensures
        ({
            let steps = seq![
                (
                    gh(
                        cwd,
                        seq![
                            "pr"@,
                            "list"@,
                            "-R"@,
                            slug,
                            "--head"@,
                            branch,
                            "--state"@,
                            "open"@,
                            "--json"@,
                            "url"@,
                        ],
                    ),
                    AnswerView::Output(list),
                ),
                (ActionView::Stat(file), AnswerView::Found(EntryView::Sized(0))),
            ];
            fails_with(
                |t: Seq<AnswerView>| flow_find_or_create(t, cwd, slug, branch, args),
                steps,
                CubeErrorView::InvalidArgument(
                    "--body-file `"@ + file
                        + "` is empty; refusing to create a PR with no description"@,
                ),
                more,
            )
        }),
{
    broadcast use group_given;
    assert(
        seq!["pr"@, "list"@, "-R"@, slug] + seq!["--head"@, branch, "--state"@, "open"@]
            + seq!["--json"@, "url"@]
            =~= seq![
                "pr"@,
                "list"@,
                "-R"@,
                slug,
                "--head"@,
                branch,
                "--state"@,
                "open"@,
                "--json"@,
                "url"@,
            ]
    );
}

/// Advancing a pull request finds the GitHub remote, then the pull request and its
/// branch, and lands the commit there, by force just where that was asked for; a branch
/// that is reserved for pull requests is refused.
pub proof fn law_push_goes_to_its_target(
    cwd: Seq<char>,
    remotes: Seq<char>,
    remote: Seq<char>,
    slug: Seq<char>,
    args: PrPushArgsView,
    more: Seq<AnswerView>,
)
    requires
        spec_github_remote(remotes) == Some((remote, slug)),
    ensures
        ({
            let command = on_pr(PrCommandView::Push(args));
            let steps = seq![
                (ActionView::CurrentDir, AnswerView::Output(cwd)),
                (jj(cwd, seq!["git"@, "remote"@, "list"@]), AnswerView::Output(remotes)),
            ];
            goes_on_as(
                |t: Seq<AnswerView>| flow_command(t, command),
                steps,
                |t: Seq<AnswerView>| flow_target(t, args, cwd, slug).and(|target: (u64, Seq<char>), t: Seq<AnswerView>| if spec_is_pr_bookmark(target.1) { Flow::Failed(CubeErrorView::InvalidArgument(reserved_message(target.1)), t) } else { flow_land(t, cwd, remote, slug, target.0, target.1, args.force_with_lease) }),
                more,
            )
        }),
{
    broadcast use group_given;
}

/// With the pull request and the branch given, nothing is looked up for them.
pub proof fn law_given_target_is_taken(
    cwd: Seq<char>,
    slug: Seq<char>,
    n: u64,
    branch: Seq<char>,
    force_with_lease: bool,
    more: Seq<AnswerView>,
)
    ensures
        ({
            let steps = Seq::<Step>::empty();
            ends_with(
                |t: Seq<AnswerView>| flow_target(
                    t,
                    PrPushArgsView { pr: Some(n), branch: Some(branch), force_with_lease },
                    cwd,
                    slug,
                ),
                steps,
                (n, branch),
                more,
            )
        }),
{
    broadcast use group_given;
}

/// With the pull request given, the branch is the first bookmark beside that of the pull
/// request which is not reserved for pull requests.
pub proof fn law_branch_of_a_pull_request(
    cwd: Seq<char>,
    slug: Seq<char>,
    n: u64,
    branch: Seq<char>,
    force_with_lease: bool,
    listing: Seq<char>,
    names: Seq<Seq<char>>,
    i: int,
    more: Seq<AnswerView>,
)
    requires
        filled_lines(spec_lines(listing)) == names,
        0 <= i < names.len(),
        names[i] == branch,
        !is_reserved(branch),
        forall|j: int| 0 <= j < i ==> is_reserved(#[trigger] names[j]),
    ensures
        ({
            let steps = seq![
                (
                    jj(
                        cwd,
                        seq![
                            "log"@,
                            "-r"@,
                            "pr/"@ + spec_decimal(n as nat),
                            "--no-graph"@,
                            "-T"@,
                            "bookmarks.map(|b| b.name()).join(\"\\n\")"@,
                        ],
                    ),
                    AnswerView::Output(listing),
                ),
            ];
            ends_with(
                |t: Seq<AnswerView>| flow_target(
                    t,
                    PrPushArgsView { pr: Some(n), branch: None, force_with_lease },
                    cwd,
                    slug,
                ),
                steps,
                (n, branch),
                more,
            )
        }),
{
    broadcast use group_given;
    assert(
        seq!["log"@, "-r"@, "pr/"@ + spec_decimal(n as nat)]
            + seq!["--no-graph"@, "-T"@, "bookmarks.map(|b| b.name()).join(\"\\n\")"@]
            =~= seq![
                "log"@,
                "-r"@,
                "pr/"@ + spec_decimal(n as nat),
                "--no-graph"@,
                "-T"@,
                "bookmarks.map(|b| b.name()).join(\"\\n\")"@,
            ]
    );
    lemma_first_branch(names, i);
}

/// Where every bookmark beside that of the pull request is reserved, there is no branch
/// to push.
pub proof fn law_pull_request_without_a_branch_is_refused(
    cwd: Seq<char>,
    slug: Seq<char>,
    n: u64,
    force_with_lease: bool,
    listing: Seq<char>,
    names: Seq<Seq<char>>,
    more: Seq<AnswerView>,
)
    requires
        filled_lines(spec_lines(listing)) == names,
        forall|j: int| 0 <= j < names.len() ==> is_reserved(#[trigger] names[j]),
    ensures
        ({
            let steps = seq![
                (
                    jj(
                        cwd,
                        seq![
                            "log"@,
                            "-r"@,
                            "pr/"@ + spec_decimal(n as nat),
                            "--no-graph"@,
                            "-T"@,
                            "bookmarks.map(|b| b.name()).join(\"\\n\")"@,
                        ],
                    ),
                    AnswerView::Output(listing),
                ),
            ];
            fails_with(
                |t: Seq<AnswerView>| flow_target(
                    t,
                    PrPushArgsView { pr: Some(n), branch: None, force_with_lease },
                    cwd,
                    slug,
                ),
                steps,
                CubeErrorView::InvalidArgument(
                    "no head branch found co-located with `"@ + ("pr/"@ + spec_decimal(n as nat))
                        + "`; pass --branch explicitly"@,
                ),
                more,
            )
        }),
{
    broadcast use group_given;
    assert(
        seq!["log"@, "-r"@, "pr/"@ + spec_decimal(n as nat)]
            + seq!["--no-graph"@, "-T"@, "bookmarks.map(|b| b.name()).join(\"\\n\")"@]
            =~= seq![
                "log"@,
                "-r"@,
                "pr/"@ + spec_decimal(n as nat),
                "--no-graph"@,
                "-T"@,
                "bookmarks.map(|b| b.name()).join(\"\\n\")"@,
            ]
    );
    lemma_no_branch(names);
}

/// With the branch given, the pull request is the first that GitHub lists as open for it.
pub proof fn law_pull_request_of_a_branch(
    cwd: Seq<char>,
    slug: Seq<char>,
    n: u64,
    branch: Seq<char>,
    force_with_lease: bool,
    list: Seq<char>,
    first: JsonView,
    rest: Seq<JsonView>,
    more: Seq<AnswerView>,
)
    requires
        json_parsed_list(list) == Ok::<Seq<JsonView>, Seq<char>>(seq![first] + rest),
        first.count_at("number"@) == Some(n),
    ensures
        ({
            let steps = seq![
                (
                    gh(
                        cwd,
                        seq![
                            "pr"@,
                            "list"@,
                            "-R"@,
                            slug,
                            "--head"@,
                            branch,
                            "--state"@,
                            "open"@,
                            "--json"@,
                            "number"@,
                        ],
                    ),
                    AnswerView::Output(list),
                ),
            ];
            ends_with(
                |t: Seq<AnswerView>| flow_target(
                    t,
                    PrPushArgsView { pr: None, branch: Some(branch), force_with_lease },
                    cwd,
                    slug,
                ),
                steps,
                (n, branch),
                more,
            )
        }),
{
    broadcast use group_given;
    assert(
        seq!["pr"@, "list"@, "-R"@, slug] + seq!["--head"@, branch, "--state"@, "open"@]
            + seq!["--json"@, "number"@]
            =~= seq![
                "pr"@,
                "list"@,
                "-R"@,
                slug,
                "--head"@,
                branch,
                "--state"@,
                "open"@,
                "--json"@,
                "number"@,
            ]
    );
    assert((seq![first] + rest)[0] == first);
}

/// With neither given, both are read from the nearest ancestor that carries the bookmark
/// of a pull request: the last number and the last branch in its listing.
pub proof fn law_target_is_inferred(
    cwd: Seq<char>,
    slug: Seq<char>,
    n: u64,
    branch: Seq<char>,
    force_with_lease: bool,
    listing: Seq<char>,
    names: Seq<Seq<char>>,
    i: int,
    k: int,
    more: Seq<AnswerView>,
)
    requires
        filled_lines(spec_lines(listing)) == names,
        spec_trim(listing).len() > 0,
        0 <= i < names.len(),
        names[i] == branch,
        !is_reserved(branch),
        forall|j: int| i < j < names.len() ==> is_reserved(#[trigger] names[j]),
        0 <= k < names.len(),
        numbered(names[k]) == Some(n),
        forall|j: int| k < j < names.len() ==> numbered(#[trigger] names[j]) is None,
    ensures
        ({
            let steps = seq![
                (
                    jj(
                        cwd,
                        seq![
                            "log"@,
                            "-r"@,
                            "latest(ancestors(@) & bookmarks(glob:\"pr/*\"))"@,
                            "--no-graph"@,
                            "-T"@,
                            "bookmarks.map(|b| b.name()).join(\"\\n\")"@,
                        ],
                    ),
                    AnswerView::Output(listing),
                ),
            ];
            ends_with(
                |t: Seq<AnswerView>| flow_target(
                    t,
                    PrPushArgsView { pr: None, branch: None, force_with_lease },
                    cwd,
                    slug,
                ),
                steps,
                (n, branch),
                more,
            )
        }),
{
    broadcast use group_given;
    assert(
        seq!["log"@, "-r"@, "latest(ancestors(@) & bookmarks(glob:\"pr/*\"))"@]
            + seq!["--no-graph"@, "-T"@, "bookmarks.map(|b| b.name()).join(\"\\n\")"@]
            =~= seq![
                "log"@,
                "-r"@,
                "latest(ancestors(@) & bookmarks(glob:\"pr/*\"))"@,
                "--no-graph"@,
                "-T"@,
                "bookmarks.map(|b| b.name()).join(\"\\n\")"@,
            ]
    );
    lemma_last_branch(names, i);
    lemma_last_number(names, k);
}

/// A commit that descends from the pull request is landed by moving the branch and the
/// bookmark of the pull request to it and pushing the branch to the GitHub remote; that
/// it was pushed is reported once GitHub has it.
pub proof fn law_commit_is_pushed_forward(
    cwd: Seq<char>,
    remote: Seq<char>,
    slug: Seq<char>,
    n: u64,
    branch: Seq<char>,
    said: Seq<char>,
    json: JsonView,
    empty: Seq<char>,
    ancestor: Seq<char>,
    o1: Seq<char>,
    o2: Seq<char>,
    o3: Seq<char>,
    local: Seq<char>,
    github: Seq<char>,
    more: Seq<AnswerView>,
)
    requires
        json_parsed(said) == Ok::<JsonView, Seq<char>>(json),
        json.text_at("state"@) == Some("OPEN"@),
        spec_trim(empty) != "true"@,
        spec_trim(ancestor).len() > 0,
        spec_trim(local) == spec_trim(github),
    ensures
        ({
            let bookmark = "pr/"@ + spec_decimal(n as nat);
            let url = "https://github.com/"@ + slug + "/pull/"@ + spec_decimal(n as nat);
            let steps = seq![
                (
                    gh(
                        cwd,
                        seq![
                            "pr"@,
                            "view"@,
                            spec_decimal(n as nat),
                            "-R"@,
                            slug,
                            "--json"@,
                            "state"@,
                        ],
                    ),
                    AnswerView::Output(said),
                ),
                (
                    jj(cwd, seq!["log"@, "-r"@, "@"@, "--no-graph"@, "-T"@, "empty"@]),
                    AnswerView::Output(empty),
                ),
                (
                    jj(
                        cwd,
                        seq![
                            "log"@,
                            "-r"@,
                            bookmark + " & ancestors(@)"@,
                            "--no-graph"@,
                            "-T"@,
                            "commit_id"@,
                        ],
                    ),
                    AnswerView::Output(ancestor),
                ),
                (jj(cwd, seq!["bookmark"@, "set"@, branch, "-r"@, "@"@]), AnswerView::Output(o1)),
                (jj(cwd, seq!["bookmark"@, "set"@, bookmark, "-r"@, "@"@]), AnswerView::Output(o2)),
                (
                    jj(cwd, seq!["git"@, "push"@, "-b"@, branch, "--remote"@, remote]),
                    AnswerView::Output(o3),
                ),
                (
                    jj(cwd, seq!["log"@, "-r"@, branch, "--no-graph"@, "-T"@, "commit_id"@]),
                    AnswerView::Output(local),
                ),
                (
                    gh(
                        cwd,
                        seq![
                            "api"@,
                            "repos/"@ + slug + "/branches/"@ + branch,
                            "--jq"@,
                            ".commit.sha"@,
                        ],
                    ),
                    AnswerView::Output(github),
                ),
            ];
            ends_with(
                |t: Seq<AnswerView>| flow_land(t, cwd, remote, slug, n, branch, false),
                steps,
                spec_result(url, PayloadView::PrPushed { pushed: true, url, number: n }),
                more,
            )
        }),
{
    broadcast use group_given;
    let bookmark = "pr/"@ + spec_decimal(n as nat);
    let url = "https://github.com/"@ + slug + "/pull/"@ + spec_decimal(n as nat);
    assert(
        seq!["pr"@, "view"@, spec_decimal(n as nat)] + seq!["-R"@, slug, "--json"@, "state"@]
            =~= seq!["pr"@, "view"@, spec_decimal(n as nat), "-R"@, slug, "--json"@, "state"@]
    );
    assert(
        seq!["log"@, "-r"@, "@"@] + seq!["--no-graph"@, "-T"@, "empty"@]
            =~= seq!["log"@, "-r"@, "@"@, "--no-graph"@, "-T"@, "empty"@]
    );
    assert(
        seq!["log"@, "-r"@, bookmark + " & ancestors(@)"@]
            + seq!["--no-graph"@, "-T"@, "commit_id"@]
            =~= seq![
                "log"@,
                "-r"@,
                bookmark + " & ancestors(@)"@,
                "--no-graph"@,
                "-T"@,
                "commit_id"@,
            ]
    );
    assert(
        seq!["bookmark"@, "set"@, branch] + seq!["-r"@, "@"@]
            =~= seq!["bookmark"@, "set"@, branch, "-r"@, "@"@]
    );
    assert(
        seq!["bookmark"@, "set"@, bookmark] + seq!["-r"@, "@"@]
            =~= seq!["bookmark"@, "set"@, bookmark, "-r"@, "@"@]
    );
    assert(
        seq!["git"@, "push"@, "-b"@, branch] + seq!["--remote"@, remote]
            =~= seq!["git"@, "push"@, "-b"@, branch, "--remote"@, remote]
    );
    assert(
        seq!["log"@, "-r"@, branch] + seq!["--no-graph"@, "-T"@, "commit_id"@]
            =~= seq!["log"@, "-r"@, branch, "--no-graph"@, "-T"@, "commit_id"@]
    );
}

/// A rewritten commit is landed by force where the commit that was last fetched is the
/// one that GitHub has.
#[verifier::rlimit(25)]
pub proof fn law_commit_is_pushed_by_force(
    cwd: Seq<char>,
    remote: Seq<char>,
    slug: Seq<char>,
    n: u64,
    branch: Seq<char>,
    said: Seq<char>,
    json: JsonView,
    empty: Seq<char>,
    fetched: Seq<char>,
    seen: Seq<char>,
    o1: Seq<char>,
    o2: Seq<char>,
    o3: Seq<char>,
    local: Seq<char>,
    github: Seq<char>,
    more: Seq<AnswerView>,
)
    requires
        json_parsed(said) == Ok::<JsonView, Seq<char>>(json),
        json.text_at("state"@) == Some("OPEN"@),
        spec_trim(empty) != "true"@,
        spec_trim(fetched) == spec_trim(seen),
        spec_trim(local) == spec_trim(github),
    ensures
        ({
            let bookmark = "pr/"@ + spec_decimal(n as nat);
            let url = "https://github.com/"@ + slug + "/pull/"@ + spec_decimal(n as nat);
            let steps = seq![
                (
                    gh(
                        cwd,
                        seq![
                            "pr"@,
                            "view"@,
                            spec_decimal(n as nat),
                            "-R"@,
                            slug,
                            "--json"@,
                            "state"@,
                        ],
                    ),
                    AnswerView::Output(said),
                ),
                (
                    jj(cwd, seq!["log"@, "-r"@, "@"@, "--no-graph"@, "-T"@, "empty"@]),
                    AnswerView::Output(empty),
                ),
                (
                    jj(
                        cwd,
                        seq![
                            "log"@,
                            "-r"@,
                            branch + "@"@ + remote,
                            "--no-graph"@,
                            "-T"@,
                            "commit_id"@,
                        ],
                    ),
                    AnswerView::Output(fetched),
                ),
                (
                    gh(
                        cwd,
                        seq![
                            "api"@,
                            "repos/"@ + slug + "/branches/"@ + branch,
                            "--jq"@,
                            ".commit.sha"@,
                        ],
                    ),
                    AnswerView::Output(seen),
                ),
                (jj(cwd, seq!["bookmark"@, "set"@, branch, "-r"@, "@"@]), AnswerView::Output(o1)),
                (jj(cwd, seq!["bookmark"@, "set"@, bookmark, "-r"@, "@"@]), AnswerView::Output(o2)),
                (
                    runs(cwd, "git"@, seq!["push"@, "--force-with-lease"@, remote, branch]),
                    AnswerView::Output(o3),
                ),
                (
                    jj(cwd, seq!["log"@, "-r"@, branch, "--no-graph"@, "-T"@, "commit_id"@]),
                    AnswerView::Output(local),
                ),
                (
                    gh(
                        cwd,
                        seq![
                            "api"@,
                            "repos/"@ + slug + "/branches/"@ + branch,
                            "--jq"@,
                            ".commit.sha"@,
                        ],
                    ),
                    AnswerView::Output(github),
                ),
            ];
            ends_with(
                |t: Seq<AnswerView>| flow_land(t, cwd, remote, slug, n, branch, true),
                steps,
                spec_result(url, PayloadView::PrPushed { pushed: true, url, number: n }),
                more,
            )
        }),
{
    broadcast use group_given;
    let bookmark = "pr/"@ + spec_decimal(n as nat);
    let url = "https://github.com/"@ + slug + "/pull/"@ + spec_decimal(n as nat);
    assert(
        seq!["pr"@, "view"@, spec_decimal(n as nat)] + seq!["-R"@, slug, "--json"@, "state"@]
            =~= seq!["pr"@, "view"@, spec_decimal(n as nat), "-R"@, slug, "--json"@, "state"@]
    );
    assert(
        seq!["log"@, "-r"@, "@"@] + seq!["--no-graph"@, "-T"@, "empty"@]
            =~= seq!["log"@, "-r"@, "@"@, "--no-graph"@, "-T"@, "empty"@]
    );
    assert(
        seq!["log"@, "-r"@, branch + "@"@ + remote] + seq!["--no-graph"@, "-T"@, "commit_id"@]
            =~= seq!["log"@, "-r"@, branch + "@"@ + remote, "--no-graph"@, "-T"@, "commit_id"@]
    );
    assert(
        seq!["bookmark"@, "set"@, branch] + seq!["-r"@, "@"@]
            =~= seq!["bookmark"@, "set"@, branch, "-r"@, "@"@]
    );
    assert(
        seq!["bookmark"@, "set"@, bookmark] + seq!["-r"@, "@"@]
            =~= seq!["bookmark"@, "set"@, bookmark, "-r"@, "@"@]
    );
    assert(
        seq!["log"@, "-r"@, branch] + seq!["--no-graph"@, "-T"@, "commit_id"@]
            =~= seq!["log"@, "-r"@, branch, "--no-graph"@, "-T"@, "commit_id"@]
    );
}

/// Where GitHub has moved since the last fetch, nothing is moved or pushed.
pub proof fn law_moved_branch_is_not_forced(
    cwd: Seq<char>,
    remote: Seq<char>,
    slug: Seq<char>,
    n: u64,
    branch: Seq<char>,
    said: Seq<char>,
    json: JsonView,
    empty: Seq<char>,
    fetched: Seq<char>,
    seen: Seq<char>,
    more: Seq<AnswerView>,
)
    requires
        json_parsed(said) == Ok::<JsonView, Seq<char>>(json),
        json.text_at("state"@) == Some("OPEN"@),
        spec_trim(empty) != "true"@,
        spec_trim(fetched) != spec_trim(seen),
    ensures
        ({
            let bookmark = "pr/"@ + spec_decimal(n as nat);
            let url = "https://github.com/"@ + slug + "/pull/"@ + spec_decimal(n as nat);
            let steps = seq![
                (
                    gh(
                        cwd,
                        seq![
                            "pr"@,
                            "view"@,
                            spec_decimal(n as nat),
                            "-R"@,
                            slug,
                            "--json"@,
                            "state"@,
                        ],
                    ),
                    AnswerView::Output(said),
                ),
                (
                    jj(cwd, seq!["log"@, "-r"@, "@"@, "--no-graph"@, "-T"@, "empty"@]),
                    AnswerView::Output(empty),
                ),
                (
                    jj(
                        cwd,
                        seq![
                            "log"@,
                            "-r"@,
                            branch + "@"@ + remote,
                            "--no-graph"@,
                            "-T"@,
                            "commit_id"@,
                        ],
                    ),
                    AnswerView::Output(fetched),
                ),
                (
                    gh(
                        cwd,
                        seq![
                            "api"@,
                            "repos/"@ + slug + "/branches/"@ + branch,
                            "--jq"@,
                            ".commit.sha"@,
                        ],
                    ),
                    AnswerView::Output(seen),
                ),
            ];
            fails_with(
                |t: Seq<AnswerView>| flow_land(t, cwd, remote, slug, n, branch, true),
                steps,
                CubeErrorView::InvalidArgument(
                    moved_message(branch, spec_trim(seen), spec_trim(fetched)),
                ),
                more,
            )
        }),
{
    broadcast use group_given;
    let bookmark = "pr/"@ + spec_decimal(n as nat);
    let url = "https://github.com/"@ + slug + "/pull/"@ + spec_decimal(n as nat);
    assert(
        seq!["pr"@, "view"@, spec_decimal(n as nat)] + seq!["-R"@, slug, "--json"@, "state"@]
            =~= seq!["pr"@, "view"@, spec_decimal(n as nat), "-R"@, slug, "--json"@, "state"@]
    );
    assert(
        seq!["log"@, "-r"@, "@"@] + seq!["--no-graph"@, "-T"@, "empty"@]
            =~= seq!["log"@, "-r"@, "@"@, "--no-graph"@, "-T"@, "empty"@]
    );
    assert(
        seq!["log"@, "-r"@, branch + "@"@ + remote] + seq!["--no-graph"@, "-T"@, "commit_id"@]
            =~= seq!["log"@, "-r"@, branch + "@"@ + remote, "--no-graph"@, "-T"@, "commit_id"@]
    );
}

/// A commit that does not descend from the pull request is neither moved to nor pushed.
pub proof fn law_unrelated_commit_is_not_pushed(
    cwd: Seq<char>,
    remote: Seq<char>,
    slug: Seq<char>,
    n: u64,
    branch: Seq<char>,
    said: Seq<char>,
    json: JsonView,
    empty: Seq<char>,
    ancestor: Seq<char>,
    more: Seq<AnswerView>,
)
    requires
        json_parsed(said) == Ok::<JsonView, Seq<char>>(json),
        json.text_at("state"@) == Some("OPEN"@),
        spec_trim(empty) != "true"@,
        spec_trim(ancestor).len() == 0,
    ensures
        ({
            let bookmark = "pr/"@ + spec_decimal(n as nat);
            let url = "https://github.com/"@ + slug + "/pull/"@ + spec_decimal(n as nat);
            let steps = seq![
                (
                    gh(
                        cwd,
                        seq![
                            "pr"@,
                            "view"@,
                            spec_decimal(n as nat),
                            "-R"@,
                            slug,
                            "--json"@,
                            "state"@,
                        ],
                    ),
                    AnswerView::Output(said),
                ),
                (
                    jj(cwd, seq!["log"@, "-r"@, "@"@, "--no-graph"@, "-T"@, "empty"@]),
                    AnswerView::Output(empty),
                ),
                (
                    jj(
                        cwd,
                        seq![
                            "log"@,
                            "-r"@,
                            bookmark + " & ancestors(@)"@,
                            "--no-graph"@,
                            "-T"@,
                            "commit_id"@,
                        ],
                    ),
                    AnswerView::Output(ancestor),
                ),
            ];
            fails_with(
                |t: Seq<AnswerView>| flow_land(t, cwd, remote, slug, n, branch, false),
                steps,
                CubeErrorView::InvalidArgument(not_descendant_message(n)),
                more,
            )
        }),
{
    broadcast use group_given;
    let bookmark = "pr/"@ + spec_decimal(n as nat);
    let url = "https://github.com/"@ + slug + "/pull/"@ + spec_decimal(n as nat);
    assert(
        seq!["pr"@, "view"@, spec_decimal(n as nat)] + seq!["-R"@, slug, "--json"@, "state"@]
            =~= seq!["pr"@, "view"@, spec_decimal(n as nat), "-R"@, slug, "--json"@, "state"@]
    );
    assert(
        seq!["log"@, "-r"@, "@"@] + seq!["--no-graph"@, "-T"@, "empty"@]
            =~= seq!["log"@, "-r"@, "@"@, "--no-graph"@, "-T"@, "empty"@]
    );
    assert(
        seq!["log"@, "-r"@, bookmark + " & ancestors(@)"@]
            + seq!["--no-graph"@, "-T"@, "commit_id"@]
            =~= seq![
                "log"@,
                "-r"@,
                bookmark + " & ancestors(@)"@,
                "--no-graph"@,
                "-T"@,
                "commit_id"@,
            ]
    );
}

/// An empty commit on top of what GitHub has already is nothing to land, and no failure;
/// on top of anything else it is refused.
pub proof fn law_landed_commit_is_not_pushed_again(
    cwd: Seq<char>,
    remote: Seq<char>,
    slug: Seq<char>,
    n: u64,
    branch: Seq<char>,
    said: Seq<char>,
    json: JsonView,
    empty: Seq<char>,
    github: Seq<char>,
    sha: Seq<char>,
    force: bool,
    more: Seq<AnswerView>,
)
    requires
        json_parsed(said) == Ok::<JsonView, Seq<char>>(json),
        json.text_at("state"@) == Some("OPEN"@),
        spec_trim(empty) == "true"@,
        spec_trim(sha) == spec_trim(github),
    ensures
        ({
            let bookmark = "pr/"@ + spec_decimal(n as nat);
            let url = "https://github.com/"@ + slug + "/pull/"@ + spec_decimal(n as nat);
            let steps = seq![
                (
                    gh(
                        cwd,
                        seq![
                            "pr"@,
                            "view"@,
                            spec_decimal(n as nat),
                            "-R"@,
                            slug,
                            "--json"@,
                            "state"@,
                        ],
                    ),
                    AnswerView::Output(said),
                ),
                (
                    jj(cwd, seq!["log"@, "-r"@, "@"@, "--no-graph"@, "-T"@, "empty"@]),
                    AnswerView::Output(empty),
                ),
                (
                    gh(
                        cwd,
                        seq![
                            "api"@,
                            "repos/"@ + slug + "/branches/"@ + branch,
                            "--jq"@,
                            ".commit.sha"@,
                        ],
                    ),
                    AnswerView::Output(github),
                ),
                (
                    jj(cwd, seq!["log"@, "-r"@, bookmark, "--no-graph"@, "-T"@, "commit_id"@]),
                    AnswerView::Output(sha),
                ),
            ];
            ends_with(
                |t: Seq<AnswerView>| flow_land(t, cwd, remote, slug, n, branch, force),
                steps,
                spec_result(url, PayloadView::PrPushed { pushed: false, url, number: n }),
                more,
            )
        }),
{
    broadcast use group_given;
    let bookmark = "pr/"@ + spec_decimal(n as nat);
    let url = "https://github.com/"@ + slug + "/pull/"@ + spec_decimal(n as nat);
    assert(
        seq!["pr"@, "view"@, spec_decimal(n as nat)] + seq!["-R"@, slug, "--json"@, "state"@]
            =~= seq!["pr"@, "view"@, spec_decimal(n as nat), "-R"@, slug, "--json"@, "state"@]
    );
    assert(
        seq!["log"@, "-r"@, "@"@] + seq!["--no-graph"@, "-T"@, "empty"@]
            =~= seq!["log"@, "-r"@, "@"@, "--no-graph"@, "-T"@, "empty"@]
    );
    assert(
        seq!["log"@, "-r"@, bookmark] + seq!["--no-graph"@, "-T"@, "commit_id"@]
            =~= seq!["log"@, "-r"@, bookmark, "--no-graph"@, "-T"@, "commit_id"@]
    );
}

/// An empty commit on top of anything but what GitHub has is refused.
pub proof fn law_empty_commit_is_refused(
    cwd: Seq<char>,
    remote: Seq<char>,
    slug: Seq<char>,
    n: u64,
    branch: Seq<char>,
    said: Seq<char>,
    json: JsonView,
    empty: Seq<char>,
    github: Seq<char>,
    sha: Seq<char>,
    force: bool,
    more: Seq<AnswerView>,
)
    requires
        json_parsed(said) == Ok::<JsonView, Seq<char>>(json),
        json.text_at("state"@) == Some("OPEN"@),
        spec_trim(empty) == "true"@,
        spec_trim(sha) != spec_trim(github),
    ensures
        ({
            let bookmark = "pr/"@ + spec_decimal(n as nat);
            let url = "https://github.com/"@ + slug + "/pull/"@ + spec_decimal(n as nat);
            let steps = seq![
                (
                    gh(
                        cwd,
                        seq![
                            "pr"@,
                            "view"@,
                            spec_decimal(n as nat),
                            "-R"@,
                            slug,
                            "--json"@,
                            "state"@,
                        ],
                    ),
                    AnswerView::Output(said),
                ),
                (
                    jj(cwd, seq!["log"@, "-r"@, "@"@, "--no-graph"@, "-T"@, "empty"@]),
                    AnswerView::Output(empty),
                ),
                (
                    gh(
                        cwd,
                        seq![
                            "api"@,
                            "repos/"@ + slug + "/branches/"@ + branch,
                            "--jq"@,
                            ".commit.sha"@,
                        ],
                    ),
                    AnswerView::Output(github),
                ),
                (
                    jj(cwd, seq!["log"@, "-r"@, bookmark, "--no-graph"@, "-T"@, "commit_id"@]),
                    AnswerView::Output(sha),
                ),
            ];
            fails_with(
                |t: Seq<AnswerView>| flow_land(t, cwd, remote, slug, n, branch, force),
                steps,
                CubeErrorView::InvalidArgument(
                    "@ is empty — nothing to land; create a commit before running `cube pr push`"@,
                ),
                more,
            )
        }),
{
    broadcast use group_given;
    let bookmark = "pr/"@ + spec_decimal(n as nat);
    let url = "https://github.com/"@ + slug + "/pull/"@ + spec_decimal(n as nat);
    assert(
        seq!["pr"@, "view"@, spec_decimal(n as nat)] + seq!["-R"@, slug, "--json"@, "state"@]
            =~= seq!["pr"@, "view"@, spec_decimal(n as nat), "-R"@, slug, "--json"@, "state"@]
    );
    assert(
        seq!["log"@, "-r"@, "@"@] + seq!["--no-graph"@, "-T"@, "empty"@]
            =~= seq!["log"@, "-r"@, "@"@, "--no-graph"@, "-T"@, "empty"@]
    );
    assert(
        seq!["log"@, "-r"@, bookmark] + seq!["--no-graph"@, "-T"@, "commit_id"@]
            =~= seq!["log"@, "-r"@, bookmark, "--no-graph"@, "-T"@, "commit_id"@]
    );
}

/// A pull request that GitHub does not call open is not pushed to.
pub proof fn law_pull_request_that_is_not_open_is_not_pushed_to(
    cwd: Seq<char>,
    remote: Seq<char>,
    slug: Seq<char>,
    n: u64,
    branch: Seq<char>,
    said: Seq<char>,
    json: JsonView,
    empty: Seq<char>,
    force: bool,
    state: Seq<char>,
    more: Seq<AnswerView>,
)
    requires
        json_parsed(said) == Ok::<JsonView, Seq<char>>(json),
        json.text_at("state"@) == Some(state),
        state != "OPEN"@,
    ensures
        ({
            let steps = seq![
                (
                    gh(
                        cwd,
                        seq![
                            "pr"@,
                            "view"@,
                            spec_decimal(n as nat),
                            "-R"@,
                            slug,
                            "--json"@,
                            "state"@,
                        ],
                    ),
                    AnswerView::Output(said),
                ),
            ];
            fails_with(
                |t: Seq<AnswerView>| flow_land(t, cwd, remote, slug, n, branch, force),
                steps,
                CubeErrorView::InvalidArgument(
                    "PR #"@ + spec_decimal(n as nat) + " is "@ + state
                        + " — refusing to push onto a non-open PR. Only OPEN pull requests can be advanced with `cube pr push`."@,
                ),
                more,
            )
        }),
{
    broadcast use group_given;
    assert(
        seq!["pr"@, "view"@, spec_decimal(n as nat)] + seq!["-R"@, slug, "--json"@, "state"@]
            =~= seq!["pr"@, "view"@, spec_decimal(n as nat), "-R"@, slug, "--json"@, "state"@]
    );
}

} // verus!
