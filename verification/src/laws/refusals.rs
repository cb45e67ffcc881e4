//! What is refused, what is passed over, and how that is told.

use vstd::prelude::*;

use crate::app::flow_command;
use crate::cli::{
    CommandView, PrCommandView, PrEnsureArgsView, PrMergeArgsView, PrPushArgsView, PrSyncArgsView,
    StackCommandView,
};
use crate::config::RepoResolverView;
use crate::ensure::{
    fallback_error, flow_ensure_by_name, flow_ensure_by_origin, flow_note_branch,
    RepoEnsureDefaultsView,
};
use crate::error::CubeErrorView;
use crate::exclude::{begin_mark, exclude_block, flow_rewrite, spec_upsert};
use crate::flow::{ActionView, AnswerView, DirEntryView, Flow, IoFaultView, ListingView};
use crate::jj::lowercase;
use crate::json::JsonView;
use crate::laws::steps::{
    ends_with, fails_with, gh, group_given, jj, on_pr, rows_of, runs, Step,
};
use crate::outside::json_parsed_list;
use crate::pool_gc::{aged_line, flow_gc_logs, flow_mark_reset, flow_pool_gc};
use crate::pr::flow_detect_bookmark;
use crate::pr_ensure::{create_args, flow_create};
use crate::pr_push::{flow_target, spec_named_state};
use crate::records::{effective_from_name, RepoRecordView, WorkspaceRecordView};
use crate::repo::spec_repo_id;
use crate::report::RunResultView;
use crate::reset::{filled_lines, flow_current_change};
use crate::resume::head_branch_in;
use crate::split::spec_lines;
use crate::text::{spec_contains, spec_ends, spec_trim};
use crate::workspace::{flow_clean_logs, flow_list, flow_resolve_lease};

verus! {

/// A stack cannot be rebased yet, and nothing is asked for it.
pub proof fn law_stacks_are_not_rebased_yet(
    stack: StackCommandView,
    more: Seq<AnswerView>,
)
    ensures
        ({
            let command = CommandView::Stack { command: stack };
            let steps = Seq::<Step>::empty();
            fails_with(
                |t: Seq<AnswerView>| flow_command(t, command),
                steps,
                CubeErrorView::NotImplemented(
                    "stack command `rebase`"@ + " is not implemented yet"@,
                ),
                more,
            )
        }),
{
    broadcast use group_given;
}

/// Pull requests cannot be synced or merged yet, and nothing is asked for it.
pub proof fn law_pull_requests_are_not_merged_yet(
    t: Seq<AnswerView>,
    sync: PrSyncArgsView,
    merge: PrMergeArgsView,
)
    ensures
        flow_command(t, on_pr(PrCommandView::Sync(sync))) == Flow::<RunResultView>::Failed(
            CubeErrorView::NotImplemented(
                "pr command `"@ + "sync"@ + "`"@ + " is not implemented yet"@,
            ),
            t,
        ),
        flow_command(t, on_pr(PrCommandView::Merge(merge))) == Flow::<RunResultView>::Failed(
            CubeErrorView::NotImplemented(
                "pr command `"@ + "merge"@ + "`"@ + " is not implemented yet"@,
            ),
            t,
        ),
{
}

/// A repository cannot be ensured under a name of white space.
pub proof fn law_repo_needs_a_name(
    defaults: RepoEnsureDefaultsView,
    given: Seq<char>,
    resolvers: Seq<RepoResolverView>,
    more: Seq<AnswerView>,
)
    requires
        spec_trim(given).len() == 0,
    ensures
        ({
            let steps = Seq::<Step>::empty();
            fails_with(
                |t: Seq<AnswerView>| flow_ensure_by_name(t, given, defaults, resolvers),
                steps,
                CubeErrorView::InvalidArgument("repo name must not be empty"@),
                more,
            )
        }),
{
    broadcast use group_given;
}

/// A repository cannot be ensured from an origin of white space.
pub proof fn law_repo_needs_an_origin(
    defaults: RepoEnsureDefaultsView,
    given: Seq<char>,
    more: Seq<AnswerView>,
)
    requires
        spec_trim(given).len() == 0,
    ensures
        ({
            let steps = Seq::<Step>::empty();
            fails_with(
                |t: Seq<AnswerView>| flow_ensure_by_origin(t, given, defaults),
                steps,
                CubeErrorView::InvalidArgument("origin must not be empty"@),
                more,
            )
        }),
{
    broadcast use group_given;
}

/// A repository cannot be ensured from an origin that names none.
pub proof fn law_origin_must_name_a_repo(
    defaults: RepoEnsureDefaultsView,
    given: Seq<char>,
    more: Seq<AnswerView>,
)
    requires
        spec_trim(given).len() > 0,
        spec_repo_id(spec_trim(given)).len() == 0,
    ensures
        ({
            let steps = Seq::<Step>::empty();
            fails_with(
                |t: Seq<AnswerView>| flow_ensure_by_origin(t, given, defaults),
                steps,
                CubeErrorView::InvalidArgument(
                    "could not infer repo id from origin `"@ + spec_trim(given) + "`"@,
                ),
                more,
            )
        }),
{
    broadcast use group_given;
}

/// A GitHub repository that is not there is told of as such: where `git` says that it was
/// not
/// found, does not exist or could not be read. All other failures stay as they are.
pub proof fn law_missing_github_repo_is_told_of(
    program: Seq<char>,
    args: Seq<Seq<char>>,
    status: Option<i32>,
    stderr: Seq<char>,
    org: Seq<char>,
    repo: Seq<char>,
)
    ensures
        ({
            let failed = CubeErrorView::CommandFailed { program, args, status, stderr };
            let said = lowercase(stderr);
            let told = fallback_error(failed, org, repo);
            if spec_contains(said, "not found"@) || spec_contains(said, "does not exist"@)
                || spec_contains(said, "could not read from remote repository"@) {
                told is InvalidArgument
            } else {
                told == failed
            }
        }),
{
}

/// A default branch other than the recorded one is told of.
pub proof fn law_other_default_branch_is_told_of(
    record: RepoRecordView,
    branch: Seq<char>,
    more: Seq<AnswerView>,
)
    requires
        branch != record.main_branch,
    ensures
        ({
            let steps = seq![
                (
                    ActionView::Warn(
                        "cube: detected default branch `"@ + branch + "` for repo `"@ + record.repo
                            + "`"@,
                    ),
                    AnswerView::Ack,
                ),
            ];
            ends_with(
                |t: Seq<AnswerView>| flow_note_branch(t, record, branch),
                steps,
                (),
                more,
            )
        }),
{
    broadcast use group_given;
}

/// The recorded default branch is not told of.
pub proof fn law_same_default_branch_is_not_told_of(
    record: RepoRecordView,
    more: Seq<AnswerView>,
)
    ensures
        ({
            let steps = Seq::<Step>::empty();
            ends_with(
                |t: Seq<AnswerView>| flow_note_branch(t, record, record.main_branch),
                steps,
                (),
                more,
            )
        }),
{
    broadcast use group_given;
}

/// A branch without an open pull request cannot be pushed to one.
pub proof fn law_branch_needs_a_pull_request(
    cwd: Seq<char>,
    slug: Seq<char>,
    branch: Seq<char>,
    force_with_lease: bool,
    list: Seq<char>,
    more: Seq<AnswerView>,
)
    requires
        json_parsed_list(list) == Ok::<Seq<JsonView>, Seq<char>>(Seq::empty()),
    ensures
        ({
            let steps = seq![
                (
                    gh(
                        cwd,
                        seq![
                            "pr"@,
                            "list"@,
                            "-R"@,
                            slug,
                            "--head"@,
                            branch,
                            "--state"@,
                            "open"@,
                            "--json"@,
                            "number"@,
                        ],
                    ),
                    AnswerView::Output(list),
                ),
            ];
            fails_with(
                |t: Seq<AnswerView>| flow_target(
                    t,
                    PrPushArgsView { pr: None, branch: Some(branch), force_with_lease },
                    cwd,
                    slug,
                ),
                steps,
                CubeErrorView::InvalidArgument(
                    "no open PR found for branch `"@ + branch
                        + "`; create a PR with `cube pr ensure` first"@,
                ),
                more,
            )
        }),
{
    broadcast use group_given;
    assert(
        seq!["pr"@, "list"@, "-R"@, slug] + seq!["--head"@, branch, "--state"@, "open"@]
            + seq!["--json"@, "number"@]
            =~= seq![
                "pr"@,
                "list"@,
                "-R"@,
                slug,
                "--head"@,
                branch,
                "--state"@,
                "open"@,
                "--json"@,
                "number"@,
            ]
    );
}

/// A listing of pull requests that cannot be read is a failure.
pub proof fn law_strange_listing_is_a_failure(
    cwd: Seq<char>,
    slug: Seq<char>,
    branch: Seq<char>,
    force_with_lease: bool,
    list: Seq<char>,
    cause: Seq<char>,
    more: Seq<AnswerView>,
)
    requires
        json_parsed_list(list) == Err::<Seq<JsonView>, Seq<char>>(cause),
    ensures
        ({
            let steps = seq![
                (
                    gh(
                        cwd,
                        seq![
                            "pr"@,
                            "list"@,
                            "-R"@,
                            slug,
                            "--head"@,
                            branch,
                            "--state"@,
                            "open"@,
                            "--json"@,
                            "number"@,
                        ],
                    ),
                    AnswerView::Output(list),
                ),
            ];
            fails_with(
                |t: Seq<AnswerView>| flow_target(
                    t,
                    PrPushArgsView { pr: None, branch: Some(branch), force_with_lease },
                    cwd,
                    slug,
                ),
                steps,
                CubeErrorView::InvalidArgument(
                    "unexpected response from `gh pr list` for branch `"@ + branch + "`: "@ + cause,
                ),
                more,
            )
        }),
{
    broadcast use group_given;
    assert(
        seq!["pr"@, "list"@, "-R"@, slug] + seq!["--head"@, branch, "--state"@, "open"@]
            + seq!["--json"@, "number"@]
            =~= seq![
                "pr"@,
                "list"@,
                "-R"@,
                slug,
                "--head"@,
                branch,
                "--state"@,
                "open"@,
                "--json"@,
                "number"@,
            ]
    );
}

/// Where no ancestor carries the bookmark of a pull request, nothing is inferred.
pub proof fn law_ancestry_without_a_pull_request(
    cwd: Seq<char>,
    slug: Seq<char>,
    force_with_lease: bool,
    output: Seq<char>,
    more: Seq<AnswerView>,
)
    requires
        spec_trim(output).len() == 0,
    ensures
        ({
            let steps = seq![
                (
                    jj(
                        cwd,
                        seq![
                            "log"@,
                            "-r"@,
                            "latest(ancestors(@) & bookmarks(glob:\"pr/*\"))"@,
                            "--no-graph"@,
                            "-T"@,
                            "bookmarks.map(|b| b.name()).join(\"\\n\")"@,
                        ],
                    ),
                    AnswerView::Output(output),
                ),
            ];
            fails_with(
                |t: Seq<AnswerView>| flow_target(
                    t,
                    PrPushArgsView { pr: None, branch: None, force_with_lease },
                    cwd,
                    slug,
                ),
                steps,
                CubeErrorView::InvalidArgument(
                    "could not infer PR from `@`'s ancestry — no `pr/<n>` bookmark found. Pass `--pr <n>` or `--branch <name>` explicitly, or run `cube workspace lease --resume_pr <n>` to position the workspace first."@,
                ),
                more,
            )
        }),
{
    broadcast use group_given;
    assert(
        seq!["log"@, "-r"@, "latest(ancestors(@) & bookmarks(glob:\"pr/*\"))"@]
            + seq!["--no-graph"@, "-T"@, "bookmarks.map(|b| b.name()).join(\"\\n\")"@]
            =~= seq![
                "log"@,
                "-r"@,
                "latest(ancestors(@) & bookmarks(glob:\"pr/*\"))"@,
                "--no-graph"@,
                "-T"@,
                "bookmarks.map(|b| b.name()).join(\"\\n\")"@,
            ]
    );
}

/// A pull request is not taken for created where `gh` prints nothing.
pub proof fn law_pull_request_without_output(
    cwd: Seq<char>,
    slug: Seq<char>,
    branch: Seq<char>,
    title: Option<Seq<char>>,
    body: Option<Seq<char>>,
    output: Seq<char>,
    more: Seq<AnswerView>,
)
    requires
        spec_trim(output).len() == 0,
    ensures
        ({
            let args = PrEnsureArgsView {
                branch: None,
                title,
                body,
                body_file: None,
                draft: false,
            };
            let steps = seq![
                (
                    runs(cwd, "gh"@, create_args(slug, branch, title, body, None, false)),
                    AnswerView::Output(output),
                ),
            ];
            fails_with(
                |t: Seq<AnswerView>| flow_create(t, cwd, slug, branch, args),
                steps,
                CubeErrorView::InvalidArgument(
                    "gh pr create produced no output — PR may not have been created"@,
                ),
                more,
            )
        }),
{
    broadcast use group_given;
}

/// A pull request in which GitHub names no state counts as one that is not open.
pub proof fn law_nameless_state_is_not_open(said: JsonView)
    ensures
        said.text_at("state"@) is None ==> spec_named_state(said) == "UNKNOWN"@,
        said.text_at("state"@) matches Some(s) ==> spec_named_state(said) == s,
{
}

/// A pull request that is merged or closed is not resumed; any other is, on the branch
/// that GitHub names for it.
pub proof fn law_resumed_branch(n: u64, slug: Seq<char>, said: JsonView, branch: Seq<char>)
    requires
        said.text_at("headRefName"@) == Some(branch),
    ensures
        head_branch_in(n, slug, said) is Err <==> said.text_at("state"@) == Some("MERGED"@)
            || said.text_at("state"@) == Some("CLOSED"@),
        head_branch_in(n, slug, said) is Ok ==> head_branch_in(n, slug, said)->Ok_0 == branch,
{
    reveal_strlit("UNKNOWN");
    reveal_strlit("MERGED");
    reveal_strlit("CLOSED");
    assert("UNKNOWN"@.len() == 7 && "MERGED"@.len() == 6 && "CLOSED"@.len() == 6);
}

/// A commit without a bookmark has no branch.
pub proof fn law_commit_needs_a_bookmark(
    cwd: Seq<char>,
    output: Seq<char>,
    more: Seq<AnswerView>,
)
    requires
        filled_lines(spec_lines(output)).len() == 0,
    ensures
        ({
            let steps = seq![
                (
                    jj(
                        cwd,
                        seq![
                            "log"@,
                            "-r"@,
                            "@"@,
                            "--no-graph"@,
                            "-T"@,
                            "bookmarks.map(|b| b.name()).join(\"\\n\")"@,
                        ],
                    ),
                    AnswerView::Output(output),
                ),
            ];
            fails_with(
                |t: Seq<AnswerView>| flow_detect_bookmark(t, cwd),
                steps,
                CubeErrorView::InvalidArgument(
                    "no bookmark on current jj commit — run `jj bookmark create <name> -r @` first"@,
                ),
                more,
            )
        }),
{
    broadcast use group_given;
    assert(
        seq!["log"@, "-r"@, "@"@]
            + seq!["--no-graph"@, "-T"@, "bookmarks.map(|b| b.name()).join(\"\\n\")"@]
            =~= seq![
                "log"@,
                "-r"@,
                "@"@,
                "--no-graph"@,
                "-T"@,
                "bookmarks.map(|b| b.name()).join(\"\\n\")"@,
            ]
    );
}

/// A change cannot be created where `jj` names no change.
pub proof fn law_change_needs_an_id(
    path: Seq<char>,
    output: Seq<char>,
    more: Seq<AnswerView>,
)
    requires
        filled_lines(spec_lines(output)).len() == 0,
    ensures
        ({
            let steps = seq![
                (
                    jj(
                        path,
                        seq![
                            "log"@,
                            "--no-graph"@,
                            "-r"@,
                            "@"@,
                            "-T"@,
                            "change_id ++ \"\\n\" ++ commit_id.short()"@,
                        ],
                    ),
                    AnswerView::Output(output),
                ),
            ];
            fails_with(
                |t: Seq<AnswerView>| flow_current_change(t, path),
                steps,
                CubeErrorView::InvalidArgument("jj change query did not return a change id"@),
                more,
            )
        }),
{
    broadcast use group_given;
    assert(
        seq!["log"@, "--no-graph"@, "-r"@, "@"@]
            + seq!["-T"@, "change_id ++ \"\\n\" ++ commit_id.short()"@]
            =~= seq![
                "log"@,
                "--no-graph"@,
                "-r"@,
                "@"@,
                "-T"@,
                "change_id ++ \"\\n\" ++ commit_id.short()"@,
            ]
    );
}

/// A change cannot be created where `jj` names no commit.
pub proof fn law_change_needs_a_commit(
    path: Seq<char>,
    output: Seq<char>,
    more: Seq<AnswerView>,
)
    requires
        filled_lines(spec_lines(output)).len() == 1,
    ensures
        ({
            let steps = seq![
                (
                    jj(
                        path,
                        seq![
                            "log"@,
                            "--no-graph"@,
                            "-r"@,
                            "@"@,
                            "-T"@,
                            "change_id ++ \"\\n\" ++ commit_id.short()"@,
                        ],
                    ),
                    AnswerView::Output(output),
                ),
            ];
            fails_with(
                |t: Seq<AnswerView>| flow_current_change(t, path),
                steps,
                CubeErrorView::InvalidArgument("jj change query did not return a head commit"@),
                more,
            )
        }),
{
    broadcast use group_given;
    assert(
        seq!["log"@, "--no-graph"@, "-r"@, "@"@]
            + seq!["-T"@, "change_id ++ \"\\n\" ++ commit_id.short()"@]
            =~= seq![
                "log"@,
                "--no-graph"@,
                "-r"@,
                "@"@,
                "-T"@,
                "change_id ++ \"\\n\" ++ commit_id.short()"@,
            ]
    );
}

/// A release names a workspace or a lease.
pub proof fn law_release_needs_a_name(
    repo: Option<Seq<char>>,
    more: Seq<AnswerView>,
)
    ensures
        ({
            let steps = Seq::<Step>::empty();
            fails_with(
                |t: Seq<AnswerView>| flow_resolve_lease(t, None, None, repo),
                steps,
                CubeErrorView::InvalidArgument(
                    "release requires a workspace id positional or --lease"@,
                ),
                more,
            )
        }),
{
    broadcast use group_given;
}

/// A lease that was given is the one that is released, whatever workspace is named beside
/// it.
pub proof fn law_lease_is_taken_as_given(
    workspace: Option<Seq<char>>,
    lease: Seq<char>,
    repo: Option<Seq<char>>,
    more: Seq<AnswerView>,
)
    ensures
        ({
            let steps = Seq::<Step>::empty();
            ends_with(
                |t: Seq<AnswerView>| flow_resolve_lease(t, workspace, Some(lease), repo),
                steps,
                lease,
                more,
            )
        }),
{
    broadcast use group_given;
}

/// A list is not filtered by a state that there is not.
pub proof fn law_unknown_state_is_refused(
    repo: Option<Seq<char>>,
    state: Seq<char>,
    holder: Option<Seq<char>>,
    more: Seq<AnswerView>,
)
    requires
        effective_from_name(state) is None,
    ensures
        ({
            let steps = Seq::<Step>::empty();
            fails_with(
                |t: Seq<AnswerView>| flow_list(t, repo, Some(state), holder),
                steps,
                CubeErrorView::InvalidArgument(
                    "invalid --state `"@ + state
                        + "`; expected `free`, `free-dirty`, `free-conflicted`, or `leased`"@,
                ),
                more,
            )
        }),
{
    broadcast use group_given;
}

/// The logs of a workspace are removed where it has a place for them.
pub proof fn law_logs_of_a_workspace_are_removed(
    id: Seq<char>,
    path: Seq<char>,
    more: Seq<AnswerView>,
)
    ensures
        ({
            let steps = seq![
                (ActionView::WorkspaceLogs(id), AnswerView::Place(Some(path))),
                (ActionView::RemoveTree(path), AnswerView::Done(None)),
            ];
            ends_with(
                |t: Seq<AnswerView>| flow_clean_logs(t, id),
                steps,
                (),
                more,
            )
        }),
{
    broadcast use group_given;
}

/// Logs that cannot be removed are told of, and nothing fails.
pub proof fn law_logs_that_stay_are_told_of(
    id: Seq<char>,
    path: Seq<char>,
    text: Seq<char>,
    more: Seq<AnswerView>,
)
    ensures
        ({
            let steps = seq![
                (ActionView::WorkspaceLogs(id), AnswerView::Place(Some(path))),
                (
                    ActionView::RemoveTree(path),
                    AnswerView::Done(Some(IoFaultView { not_found: false, text })),
                ),
                (
                    ActionView::Warn(
                        "warning: failed to clean up workspace logs for "@ + id + ": "@
                            + ("I/O error: "@ + text),
                    ),
                    AnswerView::Ack,
                ),
            ];
            ends_with(
                |t: Seq<AnswerView>| flow_clean_logs(t, id),
                steps,
                (),
                more,
            )
        }),
{
    broadcast use group_given;
}

/// Logs that are gone already are no fault.
pub proof fn law_logs_that_are_gone_are_not_told_of(
    id: Seq<char>,
    path: Seq<char>,
    text: Seq<char>,
    more: Seq<AnswerView>,
)
    ensures
        ({
            let steps = seq![
                (ActionView::WorkspaceLogs(id), AnswerView::Place(Some(path))),
                (
                    ActionView::RemoveTree(path),
                    AnswerView::Done(Some(IoFaultView { not_found: true, text })),
                ),
            ];
            ends_with(
                |t: Seq<AnswerView>| flow_clean_logs(t, id),
                steps,
                (),
                more,
            )
        }),
{
    broadcast use group_given;
}

/// A workspace that was claimed while it was reset is told of and not marked as reset.
pub proof fn law_claimed_workspace_is_not_marked(
    w: WorkspaceRecordView,
    now: i64,
    more: Seq<AnswerView>,
)
    ensures
        ({
            let steps = seq![
                (
                    ActionView::ClearUnhealthy { repo: w.repo, workspace_id: w.workspace_id },
                    AnswerView::Cleared(false),
                ),
                (
                    ActionView::Warn(
                        aged_line(w.workspace_id, ": claimed between reset and store update"@),
                    ),
                    AnswerView::Ack,
                ),
            ];
            ends_with(
                |t: Seq<AnswerView>| flow_mark_reset(t, now, w),
                steps,
                (),
                more,
            )
        }),
{
    broadcast use group_given;
}

/// A workspace that the registry still calls unhealthy is told of.
pub proof fn law_workspace_that_stays_marked_is_told_of(
    w: WorkspaceRecordView,
    now: i64,
    e: CubeErrorView,
    more: Seq<AnswerView>,
)
    ensures
        ({
            let steps = seq![
                (
                    ActionView::ClearUnhealthy { repo: w.repo, workspace_id: w.workspace_id },
                    AnswerView::Failed(e),
                ),
                (
                    ActionView::Warn(
                        aged_line(w.workspace_id, ": failed to clear store state: "@ + e.message()),
                    ),
                    AnswerView::Ack,
                ),
            ];
            ends_with(
                |t: Seq<AnswerView>| flow_mark_reset(t, now, w),
                steps,
                (),
                more,
            )
        }),
{
    broadcast use group_given;
}

/// Without the registry the pool-wide cleanup does nothing but say so.
pub proof fn law_cleanup_without_a_registry(
    e: CubeErrorView,
    more: Seq<AnswerView>,
)
    ensures
        ({
            let steps = seq![
                (ActionView::OpenStore, AnswerView::Failed(e)),
                (ActionView::Warn("cube: auto gc: failed to open store"@), AnswerView::Ack),
            ];
            ends_with(
                |t: Seq<AnswerView>| flow_pool_gc(t),
                steps,
                (),
                more,
            )
        }),
{
    broadcast use group_given;
}

/// Without the list of the workspaces the pool-wide cleanup does nothing but say so.
pub proof fn law_cleanup_without_a_listing(
    e: CubeErrorView,
    more: Seq<AnswerView>,
)
    ensures
        ({
            let steps = seq![
                (ActionView::OpenStore, AnswerView::Saved),
                (rows_of(None, None), AnswerView::Failed(e)),
                (
                    ActionView::Warn("cube: auto gc: failed to list workspaces: "@ + e.message()),
                    AnswerView::Ack,
                ),
            ];
            ends_with(
                |t: Seq<AnswerView>| flow_pool_gc(t),
                steps,
                (),
                more,
            )
        }),
{
    broadcast use group_given;
}

/// Logs whose directory cannot be read stay, and that is told of.
pub proof fn law_logs_without_a_listing_stay(
    dir: Seq<char>,
    cause: Seq<char>,
    more: Seq<AnswerView>,
)
    ensures
        ({
            let steps = seq![
                (ActionView::LogsDir, AnswerView::Place(Some(dir))),
                (ActionView::Exists(dir), AnswerView::Flag(true)),
                (ActionView::ReadDir(dir), AnswerView::Listed(ListingView::Failed(cause))),
                (
                    ActionView::Warn(
                        "cube: workspace logs gc: failed to read "@ + dir + ": "@ + cause,
                    ),
                    AnswerView::Ack,
                ),
            ];
            ends_with(
                |t: Seq<AnswerView>| flow_gc_logs(t),
                steps,
                (),
                more,
            )
        }),
{
    broadcast use group_given;
}

/// Logs stay where the workspaces cannot be listed, and that is told of.
pub proof fn law_logs_of_unknown_owners_stay(
    dir: Seq<char>,
    entries: Seq<DirEntryView>,
    e: CubeErrorView,
    more: Seq<AnswerView>,
)
    ensures
        ({
            let steps = seq![
                (ActionView::LogsDir, AnswerView::Place(Some(dir))),
                (ActionView::Exists(dir), AnswerView::Flag(true)),
                (ActionView::ReadDir(dir), AnswerView::Listed(ListingView::Entries(entries))),
                (rows_of(None, None), AnswerView::Failed(e)),
                (
                    ActionView::Warn(
                        "cube: workspace logs gc: failed to list workspaces: "@ + e.message(),
                    ),
                    AnswerView::Ack,
                ),
            ];
            ends_with(
                |t: Seq<AnswerView>| flow_gc_logs(t),
                steps,
                (),
                more,
            )
        }),
{
    broadcast use group_given;
}

/// An exclude file that cannot be written is told of, and nothing fails.
pub proof fn law_exclude_file_that_stays_is_told_of(
    file: Seq<char>,
    body: Seq<char>,
    id: Seq<char>,
    text: Seq<char>,
    not_found: bool,
    more: Seq<AnswerView>,
)
    requires
        spec_upsert(body, exclude_block(id)) != body,
    ensures
        ({
            let steps = seq![
                (
                    ActionView::WriteFile {
                        path: file,
                        text: spec_upsert(body, exclude_block(id)),
                    },
                    AnswerView::Done(Some(IoFaultView { not_found, text })),
                ),
                (
                    ActionView::Warn(
                        "warning: cube could not "@ + "write"@ + " "@ + file
                            + " for the Boss-infra exclude guard: "@ + text,
                    ),
                    AnswerView::Ack,
                ),
            ];
            ends_with(
                |t: Seq<AnswerView>| flow_rewrite(t, file, body, id),
                steps,
                (),
                more,
            )
        }),
{
    broadcast use group_given;
}

/// The block for the exclude file begins and ends with the marks, and ends with the logs
/// of the workspace.
pub proof fn law_block_names_the_logs(id: Seq<char>)
    ensures
        spec_ends(
            exclude_block(id),
            id + ".log\n"@ + "# <<< boss-internal infra (managed by cube) <<<"@ + "\n"@,
        ),
        begin_mark() == "# >>> boss-internal infra (managed by cube) >>>"@,
{
    let end = id + ".log\n"@ + "# <<< boss-internal infra (managed by cube) <<<"@ + "\n"@;
    let block = exclude_block(id);
    assert(block =~= block.subrange(0, block.len() - end.len()) + end);
    assert(block.subrange(block.len() - end.len(), block.len() as int) =~= end);
}

} // verus!
