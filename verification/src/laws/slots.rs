//! The other commands on workspaces, step by step: giving a slot back, looking at it,
//! taking it out of the registry and cleaning it up.

use vstd::prelude::*;

use crate::app::flow_command;
use crate::cli::WorkspaceCommandView;
use crate::error::CubeErrorView;
use crate::events::AuditEventView;
use crate::flow::{ActionView, AnswerView, DirEntryView, ListingView};
use crate::gc::{flow_closed_among, flow_closed_bookmarks, picked, Pick};
use crate::git::spec_github_remote;
use crate::laws::names::law_state_names_are_read_back;
use crate::laws::steps::{
    ends_with, fails_with, gh, goes_on_as, group_given, hands_back, jj, named_op, on_workspace,
    rows_of, rows_with,
};
use crate::order::with_name;
use crate::paths::spec_under;
use crate::pool::{candidates_in, flow_find_workspace, flow_sync_around};
use crate::reconcile::{
    flow_reconcile, flow_reconcile_each, flow_reconcile_row, flow_reconcile_rows,
    flow_repos_to_reconcile,
};
use crate::records::{
    first_failure, EffectiveState, ReconcileReportView, ReconciledRowView, RepoRecordView,
    SetupStepView, WorkspaceCandidateView, WorkspaceListFilterView, WorkspaceRecordView,
    WorkspaceState,
};
use crate::report::{spec_result, PayloadView, WorkspaceGcResultView};
use crate::split::{spec_join, spec_words};
use crate::text::spec_trim;
use crate::workspace::{flow_gc_each, flow_gc_one, flow_release_gc, flow_release_slot, repos_of};

verus! {

proof fn lemma_two_repos(a: WorkspaceRecordView, b: WorkspaceRecordView)
    ensures
        spec_join(repos_of(seq![a, b]), ", "@) == a.repo + ", "@ + b.repo,
{
    reveal_with_fuel(spec_join, 3);
    let both = repos_of(seq![a, b]);
    assert(both =~= seq![a.repo, b.repo]);
    assert(both.drop_last() =~= seq![a.repo]);
    assert(spec_join(both, ", "@) =~= a.repo + ", "@ + b.repo);
}

/// A release resets the workspace of the lease to the default branch that the registry
/// has for its repository, under the lock of that repository, before anything else.
pub proof fn law_release_resets_to_the_default_branch(
    lease: Seq<char>,
    repo: Option<Seq<char>>,
    reason: Option<Seq<char>>,
    w: WorkspaceRecordView,
    record: RepoRecordView,
    o1: Seq<char>,
    o2: Seq<char>,
    o3: Seq<char>,
    more: Seq<AnswerView>,
)
    ensures
        ({
            let command = on_workspace(
                WorkspaceCommandView::Release {
                    workspace: None,
                    lease: Some(lease),
                    repo,
                    reason,
                    keep_dirty: false,
                },
            );
            let path = w.workspace_path;
            let main = record.main_branch;
            let steps = seq![
                (ActionView::OpenStore, AnswerView::Saved),
                (ActionView::WorkspaceByLease(lease), AnswerView::Workspace(Some(w))),
                (ActionView::Lock(w.repo), AnswerView::Saved),
                (ActionView::IsDir(path), AnswerView::Flag(true)),
                (ActionView::GetRepo(w.repo), AnswerView::Repo(Some(record))),
                (named_op(path, "git"@, seq!["fetch"@]), AnswerView::Ack),
                (jj(path, seq!["git"@, "fetch"@]), AnswerView::Output(o1)),
                (named_op(path, "bookmark-set"@, seq![main, main + "@origin"@]), AnswerView::Ack),
                (
                    jj(
                        path,
                        seq![
                            "bookmark"@,
                            "set"@,
                            main,
                            "-r"@,
                            main + "@origin"@,
                            "--allow-backwards"@,
                        ],
                    ),
                    AnswerView::Output(o2),
                ),
                (named_op(path, "new"@, seq![main]), AnswerView::Ack),
                (jj(path, seq!["new"@, main]), AnswerView::Output(o3)),
            ];
            goes_on_as(
                |t: Seq<AnswerView>| flow_command(t, command),
                steps,
                |t: Seq<AnswerView>| flow_release_gc(t, w).and(|u: (), t: Seq<AnswerView>| flow_release_slot(t, lease, reason, false)),
                more,
            )
        }),
{
    broadcast use group_given;
    let path = w.workspace_path;
    let main = record.main_branch;
    assert(
        seq!["bookmark"@, "set"@, main] + seq!["-r"@, main + "@origin"@, "--allow-backwards"@]
            =~= seq!["bookmark"@, "set"@, main, "-r"@, main + "@origin"@, "--allow-backwards"@]
    );
}

/// A slot is given back under its lease and with the reason that was given, noted, and
/// the workspace is handed back.
pub proof fn law_release_gives_the_slot_back(
    lease: Seq<char>,
    reason: Option<Seq<char>>,
    keep_dirty: bool,
    w: WorkspaceRecordView,
    more: Seq<AnswerView>,
)
    ensures
        ({
            let steps = seq![
                (
                    ActionView::ReleaseWorkspace { lease_id: lease, reason },
                    AnswerView::Workspace(Some(w)),
                ),
                (
                    ActionView::Audit(
                        AuditEventView::named("lease.released"@).text("repo"@, w.repo)
                            .text("workspace_id"@, w.workspace_id).text("lease_id"@, lease)
                            .maybe_text("reason"@, reason).flag("keep_dirty"@, keep_dirty),
                    ),
                    AnswerView::Ack,
                ),
            ];
            ends_with(
                |t: Seq<AnswerView>| flow_release_slot(t, lease, reason, keep_dirty),
                steps,
                spec_result(
                    "Released "@ + w.workspace_id
                        + (if keep_dirty { " (kept dirty)."@ } else { "."@ }),
                    PayloadView::Workspace(w),
                ),
                more,
            )
        }),
{
    broadcast use group_given;
}

/// A release that keeps the tree gives the slot back without running anything.
pub proof fn law_release_keeps_the_tree(
    lease: Seq<char>,
    repo: Option<Seq<char>>,
    reason: Option<Seq<char>>,
    w: WorkspaceRecordView,
    after: WorkspaceRecordView,
    more: Seq<AnswerView>,
)
    ensures
        ({
            let command = on_workspace(
                WorkspaceCommandView::Release {
                    workspace: None,
                    lease: Some(lease),
                    repo,
                    reason,
                    keep_dirty: true,
                },
            );
            let steps = seq![
                (ActionView::OpenStore, AnswerView::Saved),
                (ActionView::WorkspaceByLease(lease), AnswerView::Workspace(Some(w))),
                (ActionView::Lock(w.repo), AnswerView::Saved),
                (ActionView::IsDir(w.workspace_path), AnswerView::Flag(true)),
                (
                    ActionView::ReleaseWorkspace { lease_id: lease, reason },
                    AnswerView::Workspace(Some(after)),
                ),
                (
                    ActionView::Audit(
                        AuditEventView::named("lease.released"@).text("repo"@, after.repo)
                            .text("workspace_id"@, after.workspace_id).text("lease_id"@, lease)
                            .maybe_text("reason"@, reason).flag("keep_dirty"@, true),
                    ),
                    AnswerView::Ack,
                ),
            ];
            hands_back(command, steps, PayloadView::Workspace(after), more)
        }),
{
    broadcast use group_given;
}

/// A release by the name of a workspace is a release of the lease that the registry has
/// for it.
pub proof fn law_release_by_name_finds_the_lease(
    id: Seq<char>,
    repo: Option<Seq<char>>,
    reason: Option<Seq<char>>,
    row: WorkspaceRecordView,
    lease: Seq<char>,
    w: WorkspaceRecordView,
    after: WorkspaceRecordView,
    more: Seq<AnswerView>,
)
    requires
        row.lease_id == Some(lease),
    ensures
        ({
            let command = on_workspace(
                WorkspaceCommandView::Release {
                    workspace: Some(id),
                    lease: None,
                    repo,
                    reason,
                    keep_dirty: true,
                },
            );
            let steps = seq![
                (ActionView::OpenStore, AnswerView::Saved),
                (rows_with(repo, Some(id)), AnswerView::Workspaces(seq![row])),
                (ActionView::WorkspaceByLease(lease), AnswerView::Workspace(Some(w))),
                (ActionView::Lock(w.repo), AnswerView::Saved),
                (ActionView::IsDir(w.workspace_path), AnswerView::Flag(true)),
                (
                    ActionView::ReleaseWorkspace { lease_id: lease, reason },
                    AnswerView::Workspace(Some(after)),
                ),
                (
                    ActionView::Audit(
                        AuditEventView::named("lease.released"@).text("repo"@, after.repo)
                            .text("workspace_id"@, after.workspace_id).text("lease_id"@, lease)
                            .maybe_text("reason"@, reason).flag("keep_dirty"@, true),
                    ),
                    AnswerView::Ack,
                ),
            ];
            hands_back(command, steps, PayloadView::Workspace(after), more)
        }),
{
    broadcast use group_given;
}

/// A workspace that the registry does not know cannot be released.
pub proof fn law_release_of_an_unknown_workspace_fails(
    id: Seq<char>,
    repo: Option<Seq<char>>,
    reason: Option<Seq<char>>,
    keep_dirty: bool,
    row: WorkspaceRecordView,
    more: Seq<AnswerView>,
)
    ensures
        ({
            let command = on_workspace(
                WorkspaceCommandView::Release {
                    workspace: Some(id),
                    lease: None,
                    repo,
                    reason,
                    keep_dirty,
                },
            );
            let steps = seq![
                (ActionView::OpenStore, AnswerView::Saved),
                (rows_with(repo, Some(id)), AnswerView::Workspaces(Seq::empty())),
            ];
            fails_with(
                |t: Seq<AnswerView>| flow_command(t, command),
                steps,
                CubeErrorView::WorkspaceNotFound(id),
                more,
            )
        }),
{
    broadcast use group_given;
}

/// A workspace that nobody holds cannot be released.
pub proof fn law_release_of_a_free_workspace_fails(
    id: Seq<char>,
    repo: Option<Seq<char>>,
    reason: Option<Seq<char>>,
    keep_dirty: bool,
    row: WorkspaceRecordView,
    more: Seq<AnswerView>,
)
    requires
        row.lease_id is None,
    ensures
        ({
            let command = on_workspace(
                WorkspaceCommandView::Release {
                    workspace: Some(id),
                    lease: None,
                    repo,
                    reason,
                    keep_dirty,
                },
            );
            let steps = seq![
                (ActionView::OpenStore, AnswerView::Saved),
                (rows_with(repo, Some(id)), AnswerView::Workspaces(seq![row])),
            ];
            fails_with(
                |t: Seq<AnswerView>| flow_command(t, command),
                steps,
                CubeErrorView::InvalidArgument(
                    "workspace `"@ + row.repo + "/"@ + row.workspace_id
                        + "` is not currently leased"@,
                ),
                more,
            )
        }),
{
    broadcast use group_given;
}

/// A lease that the registry does not know cannot be released.
pub proof fn law_release_of_an_unknown_lease_fails(
    lease: Seq<char>,
    repo: Option<Seq<char>>,
    reason: Option<Seq<char>>,
    keep_dirty: bool,
    more: Seq<AnswerView>,
)
    ensures
        ({
            let command = on_workspace(
                WorkspaceCommandView::Release {
                    workspace: None,
                    lease: Some(lease),
                    repo,
                    reason,
                    keep_dirty,
                },
            );
            let steps = seq![
                (ActionView::OpenStore, AnswerView::Saved),
                (ActionView::WorkspaceByLease(lease), AnswerView::Workspace(None)),
            ];
            fails_with(
                |t: Seq<AnswerView>| flow_command(t, command),
                steps,
                CubeErrorView::LeaseNotFound(lease),
                more,
            )
        }),
{
    broadcast use group_given;
}

/// Where the directory of a leased workspace is gone, its row is taken out of the
/// registry and the lease counts as unknown.
pub proof fn law_release_of_a_vanished_workspace_forgets_it(
    lease: Seq<char>,
    repo: Option<Seq<char>>,
    reason: Option<Seq<char>>,
    keep_dirty: bool,
    w: WorkspaceRecordView,
    more: Seq<AnswerView>,
)
    ensures
        ({
            let command = on_workspace(
                WorkspaceCommandView::Release {
                    workspace: None,
                    lease: Some(lease),
                    repo,
                    reason,
                    keep_dirty,
                },
            );
            let steps = seq![
                (ActionView::OpenStore, AnswerView::Saved),
                (ActionView::WorkspaceByLease(lease), AnswerView::Workspace(Some(w))),
                (ActionView::Lock(w.repo), AnswerView::Saved),
                (ActionView::IsDir(w.workspace_path), AnswerView::Flag(false)),
                (
                    ActionView::Warn(
                        "warning: cube workspace `"@ + w.repo + "/"@ + w.workspace_id
                            + "` directory is missing at "@ + w.workspace_path
                            + "; removing the dangling registry row instead of running release reset"@,
                    ),
                    AnswerView::Ack,
                ),
                (
                    ActionView::Audit(
                        AuditEventView::named("workspace.dir_missing_reconciled"@)
                            .text("repo"@, w.repo).text("workspace_id"@, w.workspace_id)
                            .text("workspace_path"@, w.workspace_path).text(
                            "prior_state"@,
                            match w.state {
                                WorkspaceState::Free => "free"@,
                                WorkspaceState::Leased => "leased"@,
                            },
                        ).text("lease_id"@, lease),
                    ),
                    AnswerView::Ack,
                ),
                (
                    ActionView::ForgetWorkspace { repo: w.repo, workspace_id: w.workspace_id },
                    AnswerView::Saved,
                ),
            ];
            fails_with(
                |t: Seq<AnswerView>| flow_command(t, command),
                steps,
                CubeErrorView::LeaseNotFound(lease),
                more,
            )
        }),
{
    broadcast use group_given;
}

/// A forced release frees the lease with the reason that was given, or `force-released`,
/// under the lock of the repository, and hands the workspace back.
pub proof fn law_forced_release_gives_the_reason(
    lease: Seq<char>,
    repo: Option<Seq<char>>,
    reason: Option<Seq<char>>,
    w: WorkspaceRecordView,
    after: WorkspaceRecordView,
    more: Seq<AnswerView>,
)
    ensures
        ({
            let command = on_workspace(
                WorkspaceCommandView::ForceRelease {
                    workspace: None,
                    lease: Some(lease),
                    repo,
                    reason,
                },
            );
            let why = match reason { Some(r) => r, None => "force-released"@ };
            let steps = seq![
                (ActionView::OpenStore, AnswerView::Saved),
                (ActionView::WorkspaceByLease(lease), AnswerView::Workspace(Some(w))),
                (ActionView::Lock(w.repo), AnswerView::Saved),
                (
                    ActionView::ForceRelease { lease_id: lease, reason: why },
                    AnswerView::Workspace(Some(after)),
                ),
                (
                    ActionView::Audit(
                        AuditEventView::named("lease.force_released"@).text("repo"@, after.repo)
                            .text("workspace_id"@, after.workspace_id).text("lease_id"@, lease)
                            .text("reason"@, why),
                    ),
                    AnswerView::Ack,
                ),
            ];
            hands_back(command, steps, PayloadView::Workspace(after), more)
        }),
{
    broadcast use group_given;
}

/// A forced release by the name of a workspace frees the lease that the registry has for
/// it.
pub proof fn law_forced_release_by_name_finds_the_lease(
    id: Seq<char>,
    repo: Option<Seq<char>>,
    reason: Seq<char>,
    row: WorkspaceRecordView,
    lease: Seq<char>,
    w: WorkspaceRecordView,
    after: WorkspaceRecordView,
    more: Seq<AnswerView>,
)
    requires
        row.lease_id == Some(lease),
    ensures
        ({
            let command = on_workspace(
                WorkspaceCommandView::ForceRelease {
                    workspace: Some(id),
                    lease: None,
                    repo,
                    reason: Some(reason),
                },
            );
            let steps = seq![
                (ActionView::OpenStore, AnswerView::Saved),
                (rows_with(repo, Some(id)), AnswerView::Workspaces(seq![row])),
                (ActionView::WorkspaceByLease(lease), AnswerView::Workspace(Some(w))),
                (ActionView::Lock(w.repo), AnswerView::Saved),
                (
                    ActionView::ForceRelease { lease_id: lease, reason },
                    AnswerView::Workspace(Some(after)),
                ),
                (
                    ActionView::Audit(
                        AuditEventView::named("lease.force_released"@).text("repo"@, after.repo)
                            .text("workspace_id"@, after.workspace_id).text("lease_id"@, lease)
                            .text("reason"@, reason),
                    ),
                    AnswerView::Ack,
                ),
            ];
            hands_back(command, steps, PayloadView::Workspace(after), more)
        }),
{
    broadcast use group_given;
}

/// A heartbeat moves the expiry of the lease to the given number of seconds from now, or
/// to half an hour from now.
pub proof fn law_heartbeat_moves_the_expiry(
    lease: Seq<char>,
    ttl_seconds: Option<u64>,
    now: i64,
    w: WorkspaceRecordView,
    more: Seq<AnswerView>,
)
    requires
        ttl_seconds matches Some(s) ==> s <= i64::MAX && now + s <= i64::MAX,
        now + 1800 <= i64::MAX,
    ensures
        ({
            let command = on_workspace(WorkspaceCommandView::Heartbeat { lease, ttl_seconds });
            let ttl = match ttl_seconds { Some(s) => s as int, None => 1800int };
            let steps = seq![
                (ActionView::OpenStore, AnswerView::Saved),
                (ActionView::Clock, AnswerView::Time(now)),
                (
                    ActionView::HeartbeatLease {
                        lease_id: lease,
                        expires_at_epoch_s: (now + ttl) as i64,
                    },
                    AnswerView::Workspace(Some(w)),
                ),
            ];
            hands_back(command, steps, PayloadView::Workspace(w), more)
        }),
{
    broadcast use group_given;
}

/// The expiry of a lease that the registry does not know cannot be moved.
pub proof fn law_heartbeat_of_an_unknown_lease_fails(
    lease: Seq<char>,
    ttl_seconds: Option<u64>,
    now: i64,
    more: Seq<AnswerView>,
)
    requires
        ttl_seconds matches Some(s) ==> s <= i64::MAX && now + s <= i64::MAX,
        now + 1800 <= i64::MAX,
    ensures
        ({
            let command = on_workspace(WorkspaceCommandView::Heartbeat { lease, ttl_seconds });
            let ttl = match ttl_seconds { Some(s) => s as int, None => 1800int };
            let steps = seq![
                (ActionView::OpenStore, AnswerView::Saved),
                (ActionView::Clock, AnswerView::Time(now)),
                (
                    ActionView::HeartbeatLease {
                        lease_id: lease,
                        expires_at_epoch_s: (now + ttl) as i64,
                    },
                    AnswerView::Workspace(None),
                ),
            ];
            fails_with(
                |t: Seq<AnswerView>| flow_command(t, command),
                steps,
                CubeErrorView::LeaseNotFound(lease),
                more,
            )
        }),
{
    broadcast use group_given;
}

/// The status of a workspace is its row in the registry and what `jj status` says at the
/// path that was given.
pub proof fn law_status_shows_the_workspace_at_the_path(
    path: Seq<char>,
    w: WorkspaceRecordView,
    status: Seq<char>,
    home: Option<Seq<char>>,
    more: Seq<AnswerView>,
)
    ensures
        ({
            let command = on_workspace(WorkspaceCommandView::Status { workspace: path });
            let steps = seq![
                (ActionView::OpenStore, AnswerView::Saved),
                (ActionView::WorkspaceByPath(path), AnswerView::Workspace(Some(w))),
                (ActionView::IsDir(w.workspace_path), AnswerView::Flag(true)),
                (jj(path, seq!["status"@]), AnswerView::Output(status)),
                (ActionView::HomeDir, AnswerView::Place(home)),
            ];
            hands_back(
                command,
                steps,
                PayloadView::Status { workspace: w, jj_status: status },
                more,
            )
        }),
{
    broadcast use group_given;
}

/// A path that the registry does not know, and that lies in no pool, has no status.
pub proof fn law_status_of_an_unknown_path_fails(
    path: Seq<char>,
    more: Seq<AnswerView>,
)
    ensures
        ({
            let command = on_workspace(WorkspaceCommandView::Status { workspace: path });
            let steps = seq![
                (ActionView::OpenStore, AnswerView::Saved),
                (ActionView::WorkspaceByPath(path), AnswerView::Workspace(None)),
                (ActionView::ListRepos, AnswerView::Repos(Seq::empty())),
                (ActionView::WorkspaceByPath(path), AnswerView::Workspace(None)),
            ];
            fails_with(
                |t: Seq<AnswerView>| flow_command(t, command),
                steps,
                CubeErrorView::WorkspaceNotFound(path),
                more,
            )
        }),
{
    broadcast use group_given;
    reveal_with_fuel(flow_sync_around, 2);
}

/// Setting a workspace up runs the steps of the workspace at the path that was given, and
/// hands them back.
pub proof fn law_setup_runs_the_steps_of_the_workspace(
    path: Seq<char>,
    w: WorkspaceRecordView,
    done: Seq<SetupStepView>,
    more: Seq<AnswerView>,
)
    requires
        first_failure(done) is None,
    ensures
        ({
            let command = on_workspace(WorkspaceCommandView::Setup { workspace: path });
            let steps = seq![
                (ActionView::OpenStore, AnswerView::Saved),
                (ActionView::WorkspaceByPath(path), AnswerView::Workspace(Some(w))),
                (ActionView::IsDir(w.workspace_path), AnswerView::Flag(true)),
                (ActionView::RunSetup(w), AnswerView::Setup(done)),
            ];
            hands_back(command, steps, PayloadView::Setup { workspace: w, setup: done }, more)
        }),
{
    broadcast use group_given;
}

/// A setup step that fails is the failure of the setup.
pub proof fn law_setup_names_the_step_that_failed(
    path: Seq<char>,
    w: WorkspaceRecordView,
    done: Seq<SetupStepView>,
    step: Seq<char>,
    error: Seq<char>,
    more: Seq<AnswerView>,
)
    requires
        first_failure(done) == Some((step, error)),
    ensures
        ({
            let command = on_workspace(WorkspaceCommandView::Setup { workspace: path });
            let steps = seq![
                (ActionView::OpenStore, AnswerView::Saved),
                (ActionView::WorkspaceByPath(path), AnswerView::Workspace(Some(w))),
                (ActionView::IsDir(w.workspace_path), AnswerView::Flag(true)),
                (ActionView::RunSetup(w), AnswerView::Setup(done)),
            ];
            fails_with(
                |t: Seq<AnswerView>| flow_command(t, command),
                steps,
                CubeErrorView::SetupStepFailed { step, error },
                more,
            )
        }),
{
    broadcast use group_given;
}

/// A path that the registry does not know is looked for in the pools that it lies in,
/// after their directories have been registered.
pub proof fn law_workspaces_are_found_under_their_pool(
    path: Seq<char>,
    repo: RepoRecordView,
    entry: DirEntryView,
    found: WorkspaceCandidateView,
    w: WorkspaceRecordView,
    more: Seq<AnswerView>,
)
    requires
        spec_under(path, repo.workspace_root),
        candidates_in(
            repo.workspace_root,
            repo.workspace_prefix,
            seq![entry],
        ) == Ok::<Seq<WorkspaceCandidateView>, CubeErrorView>(seq![found]),
    ensures
        ({
            let steps = seq![
                (ActionView::WorkspaceByPath(path), AnswerView::Workspace(None)),
                (ActionView::ListRepos, AnswerView::Repos(seq![repo])),
                (ActionView::IsDir(repo.workspace_root), AnswerView::Flag(true)),
                (
                    ActionView::ReadDir(repo.workspace_root),
                    AnswerView::Listed(ListingView::Entries(seq![entry])),
                ),
                (
                    ActionView::SyncWorkspaces { repo: repo.repo, candidates: seq![found] },
                    AnswerView::Saved,
                ),
                (ActionView::WorkspaceByPath(path), AnswerView::Workspace(Some(w))),
                (ActionView::IsDir(w.workspace_path), AnswerView::Flag(true)),
            ];
            ends_with(
                |t: Seq<AnswerView>| flow_find_workspace(t, path),
                steps,
                Some(w),
                more,
            )
        }),
{
    broadcast use group_given;
    reveal_with_fuel(flow_sync_around, 3);
    assert(seq![repo].drop_first() =~= Seq::<RepoRecordView>::empty());
}

/// Listing brings the rows of the named repository in line with the directories, or of
/// all of them, and then lists the workspaces with the repository and the holder that
/// were asked for.
pub proof fn law_list_is_filtered_as_asked(
    repo: Option<Seq<char>>,
    holder: Option<Seq<char>>,
    now: i64,
    found: Seq<WorkspaceRecordView>,
    home: Option<Seq<char>>,
    more: Seq<AnswerView>,
)
    ensures
        ({
            let command = on_workspace(WorkspaceCommandView::List { repo, state: None, holder });
            let effective_state: Option<EffectiveState> = None;
            let steps = seq![
                (ActionView::OpenStore, AnswerView::Saved),
                (ActionView::Clock, AnswerView::Time(now)),
                (rows_of(repo, None), AnswerView::Workspaces(Seq::empty())),
                (
                    ActionView::ListWorkspaces(
                        WorkspaceListFilterView {
                            repo,
                            workspace_id: None,
                            effective_state,
                            holder_pattern: holder,
                        },
                    ),
                    AnswerView::Workspaces(found),
                ),
                (ActionView::HomeDir, AnswerView::Place(home)),
            ];
            hands_back(
                command,
                steps,
                PayloadView::Workspaces {
                    workspaces: found,
                    reconciled: ReconcileReportView { removed: Seq::empty(), held: Seq::empty() },
                },
                more,
            )
        }),
{
    broadcast use group_given;
    reveal_with_fuel(flow_repos_to_reconcile, 2);
    reveal_with_fuel(flow_reconcile_each, 2);
}

/// Listing by the name of a state lists the workspaces in that state.
pub proof fn law_list_is_filtered_by_state(
    repo: Option<Seq<char>>,
    state: EffectiveState,
    holder: Option<Seq<char>>,
    now: i64,
    found: Seq<WorkspaceRecordView>,
    home: Option<Seq<char>>,
    more: Seq<AnswerView>,
)
    ensures
        ({
            let command = on_workspace(
                WorkspaceCommandView::List {
                    repo,
                    state: Some(
                        match state {
                            EffectiveState::Free => "free"@,
                            EffectiveState::FreeDirty => "free-dirty"@,
                            EffectiveState::FreeConflicted => "free-conflicted"@,
                            EffectiveState::Leased => "leased"@,
                        },
                    ),
                    holder,
                },
            );
            let name = match state {
                EffectiveState::Free => "free"@,
                EffectiveState::FreeDirty => "free-dirty"@,
                EffectiveState::FreeConflicted => "free-conflicted"@,
                EffectiveState::Leased => "leased"@,
            };
            let effective_state = Some(state);
            let steps = seq![
                (ActionView::OpenStore, AnswerView::Saved),
                (ActionView::Clock, AnswerView::Time(now)),
                (rows_of(repo, None), AnswerView::Workspaces(Seq::empty())),
                (
                    ActionView::ListWorkspaces(
                        WorkspaceListFilterView {
                            repo,
                            workspace_id: None,
                            effective_state,
                            holder_pattern: holder,
                        },
                    ),
                    AnswerView::Workspaces(found),
                ),
                (ActionView::HomeDir, AnswerView::Place(home)),
            ];
            hands_back(
                command,
                steps,
                PayloadView::Workspaces {
                    workspaces: found,
                    reconciled: ReconcileReportView { removed: Seq::empty(), held: Seq::empty() },
                },
                more,
            )
        }),
{
    broadcast use group_given;
    law_state_names_are_read_back(state);
    reveal_with_fuel(flow_repos_to_reconcile, 2);
    reveal_with_fuel(flow_reconcile_each, 2);
}

/// Before a list is made, a free row whose directory is gone is taken out of the registry
/// under the lock of its repository, and reported.
pub proof fn law_missing_rows_are_reconciled_under_the_lock(
    repo: Option<Seq<char>>,
    now: i64,
    row: WorkspaceRecordView,
    more: Seq<AnswerView>,
)
    requires
        row.state == WorkspaceState::Free,
    ensures
        ({
            let steps = seq![
                (rows_of(repo, None), AnswerView::Workspaces(seq![row])),
                (ActionView::IsDir(row.workspace_path), AnswerView::Flag(false)),
                (ActionView::Lock(row.repo), AnswerView::Saved),
                (rows_of(Some(row.repo), None), AnswerView::Workspaces(seq![row])),
                (ActionView::IsDir(row.workspace_path), AnswerView::Flag(false)),
                (
                    ActionView::ForgetWorkspace { repo: row.repo, workspace_id: row.workspace_id },
                    AnswerView::Saved,
                ),
                (
                    ActionView::Warn(
                        "warning: cube workspace `"@ + row.repo + "/"@ + row.workspace_id
                            + "` directory is missing at "@ + row.workspace_path
                            + "; removing the dangling registry row"@,
                    ),
                    AnswerView::Ack,
                ),
                (
                    ActionView::Audit(
                        AuditEventView::named("workspace.dir_missing_reconciled"@)
                            .text("repo"@, row.repo).text("workspace_id"@, row.workspace_id)
                            .text("workspace_path"@, row.workspace_path)
                            .text("prior_state"@, "free"@),
                    ),
                    AnswerView::Ack,
                ),
                (ActionView::Unlock, AnswerView::Ack),
            ];
            ends_with(
                |t: Seq<AnswerView>| flow_reconcile(t, repo, now),
                steps,
                ReconcileReportView {
                    removed: seq![
                        ReconciledRowView {
                            repo: row.repo,
                            workspace_id: row.workspace_id,
                            workspace_path: row.workspace_path,
                            prior_state: row.state,
                            lease_id: row.lease_id,
                            holder: row.holder,
                            lease_expires_at_epoch_s: row.lease_expires_at_epoch_s,
                        },
                    ],
                    held: Seq::empty(),
                },
                more,
            )
        }),
{
    broadcast use group_given;
    reveal_with_fuel(flow_repos_to_reconcile, 3);
    reveal_with_fuel(flow_reconcile_each, 3);
    reveal_with_fuel(flow_reconcile_rows, 3);
    assert(seq![row].drop_first() =~= Seq::<WorkspaceRecordView>::empty());
    assert(with_name(Seq::empty(), row.repo) =~= seq![row.repo]);
    assert(seq![row.repo].drop_first() =~= Seq::<Seq<char>>::empty());
    let one = ReconcileReportView::nothing().remove(row);
    assert(ReconcileReportView::nothing().merge(one) =~= one);
}

/// A row whose directory is gone and whose lease is past its expiry is released, taken
/// out of the registry, and reported.
pub proof fn law_expired_missing_row_is_released_and_forgotten(
    now: i64,
    row: WorkspaceRecordView,
    lease: Seq<char>,
    expiry: i64,
    report: ReconcileReportView,
    after: Option<WorkspaceRecordView>,
    more: Seq<AnswerView>,
)
    requires
        row.state == WorkspaceState::Leased,
        row.lease_expires_at_epoch_s == Some(expiry),
        expiry <= now,
        row.lease_id == Some(lease),
    ensures
        ({
            let steps = seq![
                (ActionView::IsDir(row.workspace_path), AnswerView::Flag(false)),
                (
                    ActionView::ForceRelease { lease_id: lease, reason: "dir_missing"@ },
                    AnswerView::Workspace(after),
                ),
                (
                    ActionView::ForgetWorkspace { repo: row.repo, workspace_id: row.workspace_id },
                    AnswerView::Saved,
                ),
                (
                    ActionView::Warn(
                        "warning: cube workspace `"@ + row.repo + "/"@ + row.workspace_id
                            + "` directory is missing at "@ + row.workspace_path
                            + " and its lease has expired (was held by "@ + (
                            match row.holder { Some(h) => h, None => "<unknown>"@ }
                        ) + "); force-releasing and removing the dangling registry row"@,
                    ),
                    AnswerView::Ack,
                ),
                (
                    ActionView::Audit(
                        AuditEventView::named("workspace.dir_missing_reconciled"@)
                            .text("repo"@, row.repo).text("workspace_id"@, row.workspace_id)
                            .text("workspace_path"@, row.workspace_path)
                            .text("prior_state"@, "leased"@).text("lease_id"@, lease)
                            .maybe_text("holder"@, row.holder),
                    ),
                    AnswerView::Ack,
                ),
            ];
            ends_with(
                |t: Seq<AnswerView>| flow_reconcile_row(t, now, row, report),
                steps,
                report.remove(row),
                more,
            )
        }),
{
    broadcast use group_given;
}

/// A row whose directory is gone but whose lease is still active stays, and is warned of
/// and reported as held.
pub proof fn law_held_missing_row_is_reported(
    now: i64,
    row: WorkspaceRecordView,
    report: ReconcileReportView,
    more: Seq<AnswerView>,
)
    requires
        row.state == WorkspaceState::Leased,
        row.lease_expires_at_epoch_s is None || row.lease_expires_at_epoch_s->0 > now,
    ensures
        ({
            let steps = seq![
                (ActionView::IsDir(row.workspace_path), AnswerView::Flag(false)),
                (
                    ActionView::Warn(
                        "warning: cube workspace `"@ + row.repo + "/"@ + row.workspace_id
                            + "` directory is missing at "@ + row.workspace_path
                            + " but its lease is still active (held by "@ + (
                            match row.holder { Some(h) => h, None => "<unknown>"@ }
                        ) + "); run `cube workspace force-release "@ + row.workspace_id + "` to reclaim"@,
                    ),
                    AnswerView::Ack,
                ),
                (
                    ActionView::Audit(
                        AuditEventView::named("workspace.dir_missing_held"@).text("repo"@, row.repo)
                            .text("workspace_id"@, row.workspace_id)
                            .text("workspace_path"@, row.workspace_path)
                            .maybe_text("lease_id"@, row.lease_id).maybe_text("holder"@, row.holder)
                            .maybe_int("lease_expires_at_epoch_s"@, row.lease_expires_at_epoch_s),
                    ),
                    AnswerView::Ack,
                ),
            ];
            ends_with(
                |t: Seq<AnswerView>| flow_reconcile_row(t, now, row, report),
                steps,
                report.hold(row),
                more,
            )
        }),
{
    broadcast use group_given;
}

/// Removing a workspace takes the row with that id out of the registry, under the lock of
/// its repository, and deletes the directory of its logs; its own directory stays.
pub proof fn law_removed_workspace_is_forgotten(
    id: Seq<char>,
    repo: Option<Seq<char>>,
    force: bool,
    w: WorkspaceRecordView,
    logs: Seq<char>,
    more: Seq<AnswerView>,
)
    requires
        w.state == WorkspaceState::Free || force,
    ensures
        ({
            let command = on_workspace(
                WorkspaceCommandView::Remove { workspace: id, repo, force, expunge: false },
            );
            let steps = seq![
                (ActionView::OpenStore, AnswerView::Saved),
                (rows_with(repo, Some(id)), AnswerView::Workspaces(seq![w])),
                (ActionView::Lock(w.repo), AnswerView::Saved),
                (
                    ActionView::ForgetWorkspace { repo: w.repo, workspace_id: w.workspace_id },
                    AnswerView::Saved,
                ),
                (ActionView::WorkspaceLogs(w.workspace_id), AnswerView::Place(Some(logs))),
                (ActionView::RemoveTree(logs), AnswerView::Done(None)),
                (
                    ActionView::Audit(
                        AuditEventView::named("workspace.removed"@).text("repo"@, w.repo)
                            .text("workspace_id"@, w.workspace_id).text(
                            "prior_state"@,
                            match w.state {
                                WorkspaceState::Free => "free"@,
                                WorkspaceState::Leased => "leased"@,
                            },
                        ).maybe_text("lease_id"@, w.lease_id).maybe_text("holder"@, w.holder).flag("forced"@, force).flag("expunged"@, false),
                    ),
                    AnswerView::Ack,
                ),
            ];
            hands_back(
                command,
                steps,
                PayloadView::Removed { workspace: w, forced: force, expunged: false },
                more,
            )
        }),
{
    broadcast use group_given;
}

/// Removing a workspace for good also deletes its directory, after its row.
pub proof fn law_expunged_workspace_is_deleted(
    id: Seq<char>,
    repo: Option<Seq<char>>,
    force: bool,
    w: WorkspaceRecordView,
    more: Seq<AnswerView>,
)
    requires
        w.state == WorkspaceState::Free || force,
    ensures
        ({
            let command = on_workspace(
                WorkspaceCommandView::Remove { workspace: id, repo, force, expunge: true },
            );
            let steps = seq![
                (ActionView::OpenStore, AnswerView::Saved),
                (rows_with(repo, Some(id)), AnswerView::Workspaces(seq![w])),
                (ActionView::Lock(w.repo), AnswerView::Saved),
                (
                    ActionView::ForgetWorkspace { repo: w.repo, workspace_id: w.workspace_id },
                    AnswerView::Saved,
                ),
                (ActionView::RemoveTree(w.workspace_path), AnswerView::Done(None)),
                (ActionView::WorkspaceLogs(w.workspace_id), AnswerView::Place(None)),
                (
                    ActionView::Audit(
                        AuditEventView::named("workspace.removed"@).text("repo"@, w.repo)
                            .text("workspace_id"@, w.workspace_id).text(
                            "prior_state"@,
                            match w.state {
                                WorkspaceState::Free => "free"@,
                                WorkspaceState::Leased => "leased"@,
                            },
                        ).maybe_text("lease_id"@, w.lease_id).maybe_text("holder"@, w.holder).flag("forced"@, force).flag("expunged"@, true),
                    ),
                    AnswerView::Ack,
                ),
            ];
            hands_back(
                command,
                steps,
                PayloadView::Removed { workspace: w, forced: force, expunged: true },
                more,
            )
        }),
{
    broadcast use group_given;
}

/// A workspace that the registry does not know cannot be removed.
pub proof fn law_unknown_workspace_is_not_removed(
    id: Seq<char>,
    repo: Option<Seq<char>>,
    force: bool,
    expunge: bool,
    more: Seq<AnswerView>,
)
    ensures
        ({
            let command = on_workspace(
                WorkspaceCommandView::Remove { workspace: id, repo, force, expunge },
            );
            let steps = seq![
                (ActionView::OpenStore, AnswerView::Saved),
                (rows_with(repo, Some(id)), AnswerView::Workspaces(Seq::empty())),
            ];
            fails_with(
                |t: Seq<AnswerView>| flow_command(t, command),
                steps,
                CubeErrorView::WorkspaceNotFound(id),
                more,
            )
        }),
{
    broadcast use group_given;
}

/// A name that several repositories have is not removed, and the failure names the
/// repositories.
pub proof fn law_ambiguous_workspace_is_not_removed(
    id: Seq<char>,
    repo: Option<Seq<char>>,
    force: bool,
    expunge: bool,
    a: WorkspaceRecordView,
    b: WorkspaceRecordView,
    more: Seq<AnswerView>,
)
    ensures
        ({
            let command = on_workspace(
                WorkspaceCommandView::Remove { workspace: id, repo, force, expunge },
            );
            let steps = seq![
                (ActionView::OpenStore, AnswerView::Saved),
                (rows_with(repo, Some(id)), AnswerView::Workspaces(seq![a, b])),
            ];
            fails_with(
                |t: Seq<AnswerView>| flow_command(t, command),
                steps,
                CubeErrorView::InvalidArgument(
                    "workspace id `"@ + id + "` matches multiple repos ("@
                        + (a.repo + ", "@ + b.repo) + "); disambiguate with --repo"@,
                ),
                more,
            )
        }),
{
    broadcast use group_given;
    lemma_two_repos(a, b);
}

/// Cleaning up bookmarks asks the registry for the workspaces with the id that was given,
/// or for all of them, and hands back one entry for each that it names.
pub proof fn law_cleanup_asks_for_the_named_workspace(
    id: Option<Seq<char>>,
    dry_run: bool,
    w: WorkspaceRecordView,
    more: Seq<AnswerView>,
)
    requires
        w.state == WorkspaceState::Leased,
    ensures
        ({
            let command = on_workspace(WorkspaceCommandView::Gc { workspace: id, dry_run });
            let steps = seq![
                (ActionView::OpenStore, AnswerView::Saved),
                (rows_with(None, id), AnswerView::Workspaces(seq![w])),
            ];
            hands_back(
                command,
                steps,
                PayloadView::Gc(
                    Seq::empty()
                        .push(
                            WorkspaceGcResultView {
                                workspace_id: w.workspace_id,
                                bookmarks_forgotten: Seq::empty(),
                                skipped_reason: Some("leased"@),
                                error: None,
                            },
                        ),
                ),
                more,
            )
        }),
{
    broadcast use group_given;
    reveal_with_fuel(flow_gc_each, 3);
    assert(seq![w].drop_first() =~= Seq::<WorkspaceRecordView>::empty());
}

/// A workspace whose directory is gone is passed over by the cleanup.
pub proof fn law_cleanup_passes_over_missing_directories(
    dry_run: bool,
    w: WorkspaceRecordView,
    more: Seq<AnswerView>,
)
    requires
        w.state == WorkspaceState::Free,
    ensures
        ({
            let steps = seq![
                (ActionView::IsDir(w.workspace_path), AnswerView::Flag(false)),
            ];
            ends_with(
                |t: Seq<AnswerView>| flow_gc_one(t, w, dry_run),
                steps,
                WorkspaceGcResultView {
                    workspace_id: w.workspace_id,
                    bookmarks_forgotten: Seq::empty(),
                    skipped_reason: Some("directory_missing"@),
                    error: None,
                },
                more,
            )
        }),
{
    broadcast use group_given;
}

/// The cleanup of a free workspace fetches, and forgets the bookmarks of executions that
/// the main branch has taken in; a dry run only names them.
pub proof fn law_cleanup_forgets_what_is_consumed(
    dry_run: bool,
    w: WorkspaceRecordView,
    o1: Seq<char>,
    execs: Seq<char>,
    remotes: Seq<char>,
    names: Seq<Seq<char>>,
    more: Seq<AnswerView>,
)
    requires
        w.state == WorkspaceState::Free,
        picked(spec_words(execs), Pick::Exec) == names,
        spec_github_remote(remotes) is None,
        names.len() > 0,
        dry_run,
    ensures
        ({
            let path = w.workspace_path;
            let steps = seq![
                (ActionView::IsDir(path), AnswerView::Flag(true)),
                (jj(path, seq!["git"@, "fetch"@]), AnswerView::Output(o1)),
                (
                    jj(
                        path,
                        seq![
                            "log"@,
                            "-r"@,
                            "bookmarks(glob:\"boss/exec_*\") & ::main"@,
                            "--no-graph"@,
                            "-T"@,
                            "bookmarks ++ \"\\n\""@,
                        ],
                    ),
                    AnswerView::Output(execs),
                ),
                (jj(path, seq!["git"@, "remote"@, "list"@]), AnswerView::Output(remotes)),
            ];
            ends_with(
                |t: Seq<AnswerView>| flow_gc_one(t, w, dry_run),
                steps,
                WorkspaceGcResultView {
                    workspace_id: w.workspace_id,
                    bookmarks_forgotten: names,
                    skipped_reason: None,
                    error: None,
                },
                more,
            )
        }),
{
    broadcast use group_given;
    let path = w.workspace_path;
    assert(
        seq!["log"@, "-r"@, "bookmarks(glob:\"boss/exec_*\") & ::main"@]
            + seq!["--no-graph"@, "-T"@, "bookmarks ++ \"\\n\""@]
            =~= seq![
                "log"@,
                "-r"@,
                "bookmarks(glob:\"boss/exec_*\") & ::main"@,
                "--no-graph"@,
                "-T"@,
                "bookmarks ++ \"\\n\""@,
            ]
    );
    assert(names + Seq::<Seq<char>>::empty() =~= names);
}

/// The cleanup of a free workspace ends with forgetting all that it found, in one
/// command.
pub proof fn law_cleanup_runs_forget(
    w: WorkspaceRecordView,
    o1: Seq<char>,
    execs: Seq<char>,
    remotes: Seq<char>,
    name: Seq<char>,
    o2: Seq<char>,
    more: Seq<AnswerView>,
)
    requires
        w.state == WorkspaceState::Free,
        picked(spec_words(execs), Pick::Exec) == seq![name],
        spec_github_remote(remotes) is None,
    ensures
        ({
            let path = w.workspace_path;
            let steps = seq![
                (ActionView::IsDir(path), AnswerView::Flag(true)),
                (jj(path, seq!["git"@, "fetch"@]), AnswerView::Output(o1)),
                (
                    jj(
                        path,
                        seq![
                            "log"@,
                            "-r"@,
                            "bookmarks(glob:\"boss/exec_*\") & ::main"@,
                            "--no-graph"@,
                            "-T"@,
                            "bookmarks ++ \"\\n\""@,
                        ],
                    ),
                    AnswerView::Output(execs),
                ),
                (jj(path, seq!["git"@, "remote"@, "list"@]), AnswerView::Output(remotes)),
                (jj(path, seq!["bookmark"@, "forget"@, name]), AnswerView::Output(o2)),
            ];
            ends_with(
                |t: Seq<AnswerView>| flow_gc_one(t, w, false),
                steps,
                WorkspaceGcResultView {
                    workspace_id: w.workspace_id,
                    bookmarks_forgotten: seq![name],
                    skipped_reason: None,
                    error: None,
                },
                more,
            )
        }),
{
    broadcast use group_given;
    let path = w.workspace_path;
    assert(
        seq!["log"@, "-r"@, "bookmarks(glob:\"boss/exec_*\") & ::main"@]
            + seq!["--no-graph"@, "-T"@, "bookmarks ++ \"\\n\""@]
            =~= seq![
                "log"@,
                "-r"@,
                "bookmarks(glob:\"boss/exec_*\") & ::main"@,
                "--no-graph"@,
                "-T"@,
                "bookmarks ++ \"\\n\""@,
            ]
    );
    assert(seq!["bookmark"@, "forget"@] + seq![name] =~= seq!["bookmark"@, "forget"@, name]);
    assert(seq![name] + Seq::<Seq<char>>::empty() =~= seq![name]);
}

/// A bookmark of a pull request goes where GitHub says that it is merged or closed, and
/// stays where it is open.
pub proof fn law_closed_pull_requests_are_found(
    path: Seq<char>,
    remotes: Seq<char>,
    remote: Seq<char>,
    slug: Seq<char>,
    listing: Seq<char>,
    n: Seq<char>,
    state: Seq<char>,
    more: Seq<AnswerView>,
)
    requires
        spec_github_remote(remotes) == Some((remote, slug)),
        picked(spec_words(listing), Pick::Pr) == seq!["pr/"@ + n],
        spec_trim(state) == state,
    ensures
        ({
            let steps = seq![
                (jj(path, seq!["git"@, "remote"@, "list"@]), AnswerView::Output(remotes)),
                (
                    jj(
                        path,
                        seq![
                            "log"@,
                            "-r"@,
                            "bookmarks(glob:\"pr/*\")"@,
                            "--no-graph"@,
                            "-T"@,
                            "bookmarks ++ \"\\n\""@,
                        ],
                    ),
                    AnswerView::Output(listing),
                ),
                (
                    gh(
                        path,
                        seq![
                            "pr"@,
                            "view"@,
                            n,
                            "-R"@,
                            slug,
                            "--json"@,
                            "state"@,
                            "--jq"@,
                            ".state"@,
                        ],
                    ),
                    AnswerView::Output(state),
                ),
            ];
            ends_with(
                |t: Seq<AnswerView>| flow_closed_bookmarks(t, path),
                steps,
                if state == "MERGED"@ || state == "CLOSED"@ { seq!["pr/"@ + n] } else { Seq::empty() },
                more,
            )
        }),
{
    broadcast use group_given;
    assert(
        seq!["log"@, "-r"@, "bookmarks(glob:\"pr/*\")"@]
            + seq!["--no-graph"@, "-T"@, "bookmarks ++ \"\\n\""@]
            =~= seq![
                "log"@,
                "-r"@,
                "bookmarks(glob:\"pr/*\")"@,
                "--no-graph"@,
                "-T"@,
                "bookmarks ++ \"\\n\""@,
            ]
    );
    assert(
        seq!["pr"@, "view"@, n] + seq!["-R"@, slug, "--json"@] + seq!["state"@, "--jq"@, ".state"@]
            =~= seq!["pr"@, "view"@, n, "-R"@, slug, "--json"@, "state"@, "--jq"@, ".state"@]
    );
    reveal_with_fuel(flow_closed_among, 3);
    assert(seq!["pr/"@ + n].drop_first() =~= Seq::<Seq<char>>::empty());
    assert(("pr/"@ + n).subrange(0, "pr/"@.len() as int) =~= "pr/"@);
    assert(("pr/"@ + n).subrange("pr/"@.len() as int, ("pr/"@ + n).len() as int) =~= n);
}

} // verus!
