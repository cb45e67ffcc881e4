//! Leasing step by step: which workspace is claimed, for how long, and what is run in it
//! before it is handed over.

use vstd::prelude::*;

use crate::app::flow_command;
use crate::cli::WorkspaceCommandView;
use crate::error::CubeErrorView;
use crate::events::AuditEventView;
use crate::flow::{ask_saved, ActionView, AnswerView, DirEntryView, ListingView};
use crate::git::spec_github_remote;
use crate::health::{flow_repair, health_of, WorkspaceHealthOutcomeView};
use crate::jj::{is_no_repo, recovery};
use crate::json::JsonView;
use crate::laws::steps::{
    claim, ends_with, fails_with, gh, goes_on_as, group_given, jj, lemma_one_free, lemma_two_free,
    named_op, on_workspace, rows_of, rows_with,
};
use crate::lease::{
    acquired_event, expired_of, flow_claim, flow_gc_husks, flow_hand_over, flow_lease_clean,
    flow_lease_dirty, flow_lease_from, flow_note_expired, flow_provision, flow_refresh,
    flow_settle, leased_elsewhere, without_husks, LeaseArgsView, TicketView,
};
use crate::number::spec_decimal;
use crate::outside::json_parsed;
use crate::paths::spec_path_join;
use crate::pool::{
    candidates_in, flow_auto_create, flow_track_each, ids_of, spec_next_id, tracked_branches,
};
use crate::reconcile::flow_reconcile_rows;
use crate::records::{
    first_failure, EffectiveState, ExpiredLeaseView, RepoRecordView, SetupStepView,
    WorkspaceCandidateView, WorkspaceHealth, WorkspaceRecordView, WorkspaceState,
};
use crate::report::{spec_result, HealthCheckView, PayloadView, PrResumeInfoView};
use crate::scan::{each_once, flow_scan, spec_ordered, with_id, ScanView};
use crate::setup::spec_lease_message;

verus! {

/// Where nothing is free, there is nothing to try.
proof fn lemma_nothing_free(prefer: Option<Seq<char>>)
    ensures
        spec_ordered(Seq::empty(), prefer) == Seq::<WorkspaceRecordView>::empty(),
{
    reveal_with_fuel(each_once, 2);
    reveal_with_fuel(with_id, 2);
    assert(spec_ordered(Seq::empty(), prefer) =~= Seq::<WorkspaceRecordView>::empty());
}

proof fn lemma_without_none(candidates: Seq<WorkspaceCandidateView>)
    ensures
        without_husks(candidates, Seq::empty()) == candidates,
    decreases candidates.len(),
{
    if candidates.len() > 0 {
        lemma_without_none(candidates.drop_last());
        assert(candidates.drop_last().push(candidates.last()) =~= candidates);
    } else {
        assert(without_husks(candidates, Seq::empty()) =~= candidates);
    }
}

proof fn lemma_two_tracked()
    ensures
        tracked_branches(Some("main"@)) == seq!["main"@, "master"@],
        seq!["main"@, "master"@].drop_first() == seq!["master"@],
        seq!["master"@].drop_first() == Seq::<Seq<char>>::empty(),
{
    let usual = seq!["main"@, "master"@];
    assert(usual[0] == "main"@);
    assert(usual.contains("main"@));
    assert(usual.drop_first() =~= seq!["master"@]);
    assert(seq!["master"@].drop_first() =~= Seq::<Seq<char>>::empty());
}

/// Where there is nothing to reclaim or to clean up, a lease is opened under the lock of
/// the repository, at the time that the clock shows.
pub proof fn law_lease_is_opened(
    repo: RepoRecordView,
    name: Seq<char>,
    task: Seq<char>,
    prefer: Option<Seq<char>>,
    allow_dirty: bool,
    resume_pr: Option<u64>,
    now: i64,
    lease_id: Seq<char>,
    holder: Seq<char>,
    more: Seq<AnswerView>,
)
    requires
        allow_dirty ==> prefer is Some,
    ensures
        ({
            let command = on_workspace(
                WorkspaceCommandView::Lease { repo: name, task, prefer, allow_dirty, resume_pr },
            );
            let ticket = TicketView { repo: name, task, holder, lease_id, now_epoch_s: now };
            let steps = seq![
                (ActionView::OpenStore, AnswerView::Saved),
                (ActionView::GetRepo(name), AnswerView::Repo(Some(repo))),
                (ActionView::Clock, AnswerView::Time(now)),
                (ActionView::GetPoolNumber("last_pool_gc_at"@), AnswerView::Number(Some(now))),
                (ActionView::Lock(name), AnswerView::Saved),
                (ActionView::IsDir(repo.workspace_root), AnswerView::Flag(false)),
                (
                    ActionView::SyncWorkspaces { repo: name, candidates: Seq::empty() },
                    AnswerView::Saved,
                ),
                (
                    ActionView::ExpireStaleLeases { repo: name, now_epoch_s: now },
                    AnswerView::Expired(Seq::empty()),
                ),
                (rows_of(Some(name), None), AnswerView::Workspaces(Seq::empty())),
                (ActionView::FreshId, AnswerView::Name(lease_id)),
                (ActionView::Holder, AnswerView::Name(holder)),
            ];
            goes_on_as(
                |t: Seq<AnswerView>| flow_command(t, command),
                steps,
                |t: Seq<AnswerView>| if allow_dirty {
                    flow_lease_dirty(t, ticket, prefer->0)
                } else {
                    flow_lease_clean(t, ticket, repo, Seq::empty(), Seq::empty(), prefer, resume_pr)
                },
                more,
            )
        }),
{
    broadcast use group_given;
}

/// Where the pool-wide cleanup was never noted, a lease notes the time and then starts
/// it, before it takes the lock of the repository.
pub proof fn law_lease_starts_the_cleanup(
    repo: RepoRecordView,
    name: Seq<char>,
    task: Seq<char>,
    prefer: Option<Seq<char>>,
    allow_dirty: bool,
    resume_pr: Option<u64>,
    now: i64,
    more: Seq<AnswerView>,
)
    requires
        allow_dirty ==> prefer is Some,
    ensures
        ({
            let command = on_workspace(
                WorkspaceCommandView::Lease { repo: name, task, prefer, allow_dirty, resume_pr },
            );
            let steps = seq![
                (ActionView::OpenStore, AnswerView::Saved),
                (ActionView::GetRepo(name), AnswerView::Repo(Some(repo))),
                (ActionView::Clock, AnswerView::Time(now)),
                (ActionView::GetPoolNumber("last_pool_gc_at"@), AnswerView::Number(None)),
                (
                    ActionView::SetPoolNumber { key: "last_pool_gc_at"@, value: now },
                    AnswerView::Saved,
                ),
                (ActionView::SpawnPoolGc, AnswerView::Ack),
                (ActionView::Lock(name), AnswerView::Saved),
            ];
            goes_on_as(
                |t: Seq<AnswerView>| flow_command(t, command),
                steps,
                |t: Seq<AnswerView>| flow_refresh(t, repo, name, now).and(|pool: (Seq<WorkspaceCandidateView>, Seq<ExpiredLeaseView>), t: Seq<AnswerView>| flow_lease_from(t, LeaseArgsView { repo: name, task, prefer, allow_dirty, resume_pr }, repo, now, pool.0, pool.1)),
                more,
            )
        }),
{
    broadcast use group_given;
}

/// Before a workspace is looked for, the directories of the pool are registered, leases
/// that are past their expiry are taken back and noted, and the rows are held against the
/// directories.
pub proof fn law_registry_is_brought_up_to_date(
    repo: RepoRecordView,
    name: Seq<char>,
    now: i64,
    found: WorkspaceCandidateView,
    entry: DirEntryView,
    expired: ExpiredLeaseView,
    row: WorkspaceRecordView,
    more: Seq<AnswerView>,
)
    requires
        candidates_in(
            repo.workspace_root,
            repo.workspace_prefix,
            seq![entry],
        ) == Ok::<Seq<WorkspaceCandidateView>, CubeErrorView>(seq![found]),
    ensures
        ({
            let steps = seq![
                (ActionView::IsDir(repo.workspace_root), AnswerView::Flag(true)),
                (
                    ActionView::ReadDir(repo.workspace_root),
                    AnswerView::Listed(ListingView::Entries(seq![entry])),
                ),
                (
                    ActionView::SyncWorkspaces { repo: name, candidates: seq![found] },
                    AnswerView::Saved,
                ),
                (
                    ActionView::ExpireStaleLeases { repo: name, now_epoch_s: now },
                    AnswerView::Expired(seq![expired]),
                ),
                (
                    ActionView::Audit(
                        AuditEventView::named("lease.expired_reclaimed"@).text("repo"@, name)
                            .text("workspace_id"@, expired.workspace_id)
                            .text("prior_lease_id"@, expired.lease_id)
                            .maybe_text("prior_holder"@, expired.holder)
                            .maybe_text("prior_task"@, expired.task)
                            .maybe_int("prior_leased_at_epoch_s"@, expired.leased_at_epoch_s)
                            .maybe_int(
                                "prior_lease_expires_at_epoch_s"@,
                                expired.lease_expires_at_epoch_s,
                            ),
                    ),
                    AnswerView::Ack,
                ),
                (rows_of(Some(name), None), AnswerView::Workspaces(seq![row])),
                (ActionView::IsDir(row.workspace_path), AnswerView::Flag(true)),
            ];
            ends_with(
                |t: Seq<AnswerView>| flow_refresh(t, repo, name, now),
                steps,
                (seq![found], seq![expired]),
                more,
            )
        }),
{
    broadcast use group_given;
    reveal_with_fuel(flow_note_expired, 3);
    reveal_with_fuel(flow_reconcile_rows, 3);
    assert(seq![expired].drop_first() =~= Seq::<ExpiredLeaseView>::empty());
    assert(seq![row].drop_first() =~= Seq::<WorkspaceRecordView>::empty());
}

/// A free workspace that is found to be clean is claimed, under the name, task and time
/// of the lease, and for half an hour.
pub proof fn law_clean_workspace_is_claimed(
    repo: RepoRecordView,
    ticket: TicketView,
    candidates: Seq<WorkspaceCandidateView>,
    expired: Seq<ExpiredLeaseView>,
    resume_pr: Option<u64>,
    free: WorkspaceRecordView,
    status: Seq<char>,
    claimed: WorkspaceRecordView,
    more: Seq<AnswerView>,
)
    requires
        ticket.now_epoch_s + 1800 <= i64::MAX,
        health_of(status) == WorkspaceHealthOutcomeView::Clean,
    ensures
        ({
            let steps = seq![
                (
                    rows_of(Some(ticket.repo), Some(EffectiveState::Free)),
                    AnswerView::Workspaces(seq![free]),
                ),
                (ActionView::IsDir(free.workspace_path), AnswerView::Flag(true)),
                (
                    ActionView::IsDir(spec_path_join(free.workspace_path, ".jj"@)),
                    AnswerView::Flag(true),
                ),
                (
                    jj(free.workspace_path, seq!["status"@, "--no-pager"@]),
                    AnswerView::Output(status),
                ),
                (claim(ticket, free.workspace_id), AnswerView::Workspace(Some(claimed))),
            ];
            goes_on_as(
                |t: Seq<AnswerView>| flow_lease_clean(
                    t,
                    ticket,
                    repo,
                    candidates,
                    expired,
                    None,
                    resume_pr,
                ),
                steps,
                |t: Seq<AnswerView>| flow_settle(
                    t,
                    ticket,
                    repo.main_branch,
                    expired,
                    resume_pr,
                    (claimed, false, Seq::empty()),
                    Seq::empty().push(HealthCheckView::Clean { workspace_id: free.workspace_id }),
                ),
                more,
            )
        }),
{
    broadcast use group_given;
    reveal_with_fuel(flow_scan, 3);
    lemma_one_free(free);
}

/// The preferred workspace is looked at first, and claimed where it is clean.
pub proof fn law_preferred_workspace_is_looked_at_first(
    repo: RepoRecordView,
    ticket: TicketView,
    candidates: Seq<WorkspaceCandidateView>,
    expired: Seq<ExpiredLeaseView>,
    resume_pr: Option<u64>,
    other: WorkspaceRecordView,
    free: WorkspaceRecordView,
    status: Seq<char>,
    claimed: WorkspaceRecordView,
    more: Seq<AnswerView>,
)
    requires
        ticket.now_epoch_s + 1800 <= i64::MAX,
        other.workspace_id != free.workspace_id,
        health_of(status) == WorkspaceHealthOutcomeView::Clean,
    ensures
        ({
            let steps = seq![
                (
                    rows_of(Some(ticket.repo), Some(EffectiveState::Free)),
                    AnswerView::Workspaces(seq![other, free]),
                ),
                (ActionView::IsDir(free.workspace_path), AnswerView::Flag(true)),
                (
                    ActionView::IsDir(spec_path_join(free.workspace_path, ".jj"@)),
                    AnswerView::Flag(true),
                ),
                (
                    jj(free.workspace_path, seq!["status"@, "--no-pager"@]),
                    AnswerView::Output(status),
                ),
                (claim(ticket, free.workspace_id), AnswerView::Workspace(Some(claimed))),
            ];
            goes_on_as(
                |t: Seq<AnswerView>| flow_lease_clean(
                    t,
                    ticket,
                    repo,
                    candidates,
                    expired,
                    Some(free.workspace_id),
                    resume_pr,
                ),
                steps,
                |t: Seq<AnswerView>| flow_settle(
                    t,
                    ticket,
                    repo.main_branch,
                    expired,
                    resume_pr,
                    (claimed, false, Seq::empty()),
                    Seq::empty().push(HealthCheckView::Clean { workspace_id: free.workspace_id }),
                ),
                more,
            )
        }),
{
    broadcast use group_given;
    reveal_with_fuel(flow_scan, 3);
    lemma_two_free(other, free);
}

/// A free workspace that is dirty is marked so and passed over, and the next one is
/// taken.
pub proof fn law_dirty_workspace_is_passed_over(
    repo: Seq<char>,
    dirty: WorkspaceRecordView,
    free: WorkspaceRecordView,
    first: Seq<char>,
    second: Seq<char>,
    more: Seq<AnswerView>,
)
    requires
        dirty.workspace_id != free.workspace_id,
        health_of(first) == WorkspaceHealthOutcomeView::DirtyWorkingCopy,
        health_of(second) == WorkspaceHealthOutcomeView::Clean,
    ensures
        ({
            let steps = seq![
                (ActionView::IsDir(dirty.workspace_path), AnswerView::Flag(true)),
                (
                    ActionView::IsDir(spec_path_join(dirty.workspace_path, ".jj"@)),
                    AnswerView::Flag(true),
                ),
                (
                    jj(dirty.workspace_path, seq!["status"@, "--no-pager"@]),
                    AnswerView::Output(first),
                ),
                (
                    ActionView::SetHealth {
                        repo,
                        workspace_id: dirty.workspace_id,
                        health: WorkspaceHealth::Dirty,
                    },
                    AnswerView::Saved,
                ),
                (
                    ActionView::Audit(
                        AuditEventView::named("workspace.health_check_skipped"@).text("repo"@, repo)
                            .text("workspace_id"@, dirty.workspace_id)
                            .text("reason"@, "dirty_working_copy"@),
                    ),
                    AnswerView::Ack,
                ),
                (ActionView::IsDir(free.workspace_path), AnswerView::Flag(true)),
                (
                    ActionView::IsDir(spec_path_join(free.workspace_path, ".jj"@)),
                    AnswerView::Flag(true),
                ),
                (
                    jj(free.workspace_path, seq!["status"@, "--no-pager"@]),
                    AnswerView::Output(second),
                ),
            ];
            ends_with(
                |t: Seq<AnswerView>| flow_scan(t, repo, seq![dirty, free], ScanView::nothing()),
                steps,
                ScanView {
                    checks: Seq::empty()
                        .push(HealthCheckView::Dirty { workspace_id: dirty.workspace_id })
                        .push(HealthCheckView::Clean { workspace_id: free.workspace_id }),
                    clean: Some(free.workspace_id),
                    conflicted: None,
                    husks: Seq::empty(),
                },
                more,
            )
        }),
{
    broadcast use group_given;
    reveal_with_fuel(flow_scan, 4);
    lemma_two_free(dirty, free);
}

/// A free workspace whose directory is gone is passed over without a look, and one that
/// holds no repository is noted and kept in mind.
pub proof fn law_missing_workspace_is_passed_over(
    repo: Seq<char>,
    gone: WorkspaceRecordView,
    husk: WorkspaceRecordView,
    more: Seq<AnswerView>,
)
    requires
        gone.workspace_id != husk.workspace_id,
    ensures
        ({
            let steps = seq![
                (ActionView::IsDir(gone.workspace_path), AnswerView::Flag(false)),
                (ActionView::IsDir(husk.workspace_path), AnswerView::Flag(true)),
                (
                    ActionView::IsDir(spec_path_join(husk.workspace_path, ".jj"@)),
                    AnswerView::Flag(false),
                ),
                (
                    ActionView::IsDir(spec_path_join(husk.workspace_path, ".git"@)),
                    AnswerView::Flag(false),
                ),
                (
                    ActionView::Audit(
                        AuditEventView::named("workspace.broken_empty"@).text("repo"@, repo)
                            .text("workspace_id"@, husk.workspace_id)
                            .text("workspace_path"@, husk.workspace_path),
                    ),
                    AnswerView::Ack,
                ),
            ];
            ends_with(
                |t: Seq<AnswerView>| flow_scan(t, repo, seq![gone, husk], ScanView::nothing()),
                steps,
                ScanView {
                    checks: Seq::empty()
                        .push(HealthCheckView::Missing { workspace_id: gone.workspace_id })
                        .push(
                            HealthCheckView::BrokenEmpty {
                                workspace_id: husk.workspace_id,
                                workspace_path: husk.workspace_path,
                            },
                        ),
                    clean: None,
                    conflicted: None,
                    husks: Seq::empty().push((husk.workspace_id, husk.workspace_path)),
                },
                more,
            )
        }),
{
    broadcast use group_given;
    reveal_with_fuel(flow_scan, 4);
    lemma_two_free(gone, husk);
}

/// A directory without a repository is deleted and taken out of the registry before a new
/// workspace is made.
pub proof fn law_husk_is_cleared_away(
    ticket: TicketView,
    repo: RepoRecordView,
    candidates: Seq<WorkspaceCandidateView>,
    id: Seq<char>,
    path: Seq<char>,
    left: Seq<WorkspaceCandidateView>,
    more: Seq<AnswerView>,
)
    requires
        without_husks(candidates, seq![(id, path)]) == left,
    ensures
        ({
            let steps = seq![
                (ActionView::Exists(path), AnswerView::Flag(true)),
                (ActionView::RemoveTree(path), AnswerView::Done(None)),
                (
                    ActionView::ForgetWorkspace { repo: ticket.repo, workspace_id: id },
                    AnswerView::Saved,
                ),
                (
                    ActionView::Warn(
                        "warning: cube workspace `"@ + ticket.repo + "/"@ + id
                            + "` had neither .git/ nor .jj/ (broken-empty) at "@ + path
                            + "; removing the husk and provisioning a fresh workspace"@,
                    ),
                    AnswerView::Ack,
                ),
                (
                    ActionView::Audit(
                        AuditEventView::named("workspace.broken_empty_gc"@)
                            .text("repo"@, ticket.repo).text("workspace_id"@, id)
                            .text("workspace_path"@, path),
                    ),
                    AnswerView::Ack,
                ),
            ];
            goes_on_as(
                |t: Seq<AnswerView>| flow_provision(t, ticket, repo, candidates, seq![(id, path)]),
                steps,
                |t: Seq<AnswerView>| flow_auto_create(t, repo, left).and(|new: WorkspaceCandidateView, t: Seq<AnswerView>| ask_saved(t, ActionView::SyncWorkspaces { repo: ticket.repo, candidates: left.push(new) }).and(|u: (), t: Seq<AnswerView>| flow_claim(t, ticket, new.workspace_id))),
                more,
            )
        }),
{
    broadcast use group_given;
    reveal_with_fuel(flow_gc_husks, 3);
    assert(seq![(id, path)].drop_first() =~= Seq::<(Seq<char>, Seq<char>)>::empty());
}

/// Where no free workspace is clean, the first whose bookmarks are conflicted is marked
/// so and claimed, and its bookmarks are to be repaired.
pub proof fn law_conflicted_workspace_is_repaired(
    repo: RepoRecordView,
    ticket: TicketView,
    candidates: Seq<WorkspaceCandidateView>,
    expired: Seq<ExpiredLeaseView>,
    resume_pr: Option<u64>,
    free: WorkspaceRecordView,
    status: Seq<char>,
    bookmarks: Seq<Seq<char>>,
    claimed: WorkspaceRecordView,
    more: Seq<AnswerView>,
)
    requires
        ticket.now_epoch_s + 1800 <= i64::MAX,
        health_of(status) == WorkspaceHealthOutcomeView::ConflictedBookmarks(bookmarks),
    ensures
        ({
            let steps = seq![
                (
                    rows_of(Some(ticket.repo), Some(EffectiveState::Free)),
                    AnswerView::Workspaces(seq![free]),
                ),
                (ActionView::IsDir(free.workspace_path), AnswerView::Flag(true)),
                (
                    ActionView::IsDir(spec_path_join(free.workspace_path, ".jj"@)),
                    AnswerView::Flag(true),
                ),
                (
                    jj(free.workspace_path, seq!["status"@, "--no-pager"@]),
                    AnswerView::Output(status),
                ),
                (
                    ActionView::SetHealth {
                        repo: ticket.repo,
                        workspace_id: free.workspace_id,
                        health: WorkspaceHealth::Conflicted,
                    },
                    AnswerView::Saved,
                ),
                (claim(ticket, free.workspace_id), AnswerView::Workspace(Some(claimed))),
            ];
            goes_on_as(
                |t: Seq<AnswerView>| flow_lease_clean(
                    t,
                    ticket,
                    repo,
                    candidates,
                    expired,
                    None,
                    resume_pr,
                ),
                steps,
                |t: Seq<AnswerView>| flow_settle(
                    t,
                    ticket,
                    repo.main_branch,
                    expired,
                    resume_pr,
                    (claimed, false, bookmarks),
                    Seq::empty()
                        .push(
                            HealthCheckView::Conflicted {
                                workspace_id: free.workspace_id,
                                bookmarks,
                                skipped: false,
                            },
                        ),
                ),
                more,
            )
        }),
{
    broadcast use group_given;
    reveal_with_fuel(flow_scan, 3);
    lemma_one_free(free);
}

/// Where no workspace is free, one with the next id is cloned beside the others, under a
/// name that is not taken for a workspace until it is complete, and claimed.
#[verifier::rlimit(25)]
pub proof fn law_new_workspace_is_made(
    repo: RepoRecordView,
    ticket: TicketView,
    candidates: Seq<WorkspaceCandidateView>,
    expired: Seq<ExpiredLeaseView>,
    resume_pr: Option<u64>,
    prefer: Option<Seq<char>>,
    o1: Seq<char>,
    o2: Seq<char>,
    o3: Seq<char>,
    claimed: WorkspaceRecordView,
    more: Seq<AnswerView>,
)
    requires
        ticket.now_epoch_s + 1800 <= i64::MAX,
        repo.source is None,
        repo.main_branch == "main"@,
    ensures
        ({
            let root = repo.workspace_root;
            let id = spec_next_id(
                repo.workspace_prefix,
                Seq::new(candidates.len(), |i: int| candidates[i].workspace_id),
            );
            let path = spec_path_join(root, id);
            let staging = spec_path_join(root, ".incoming-"@ + id);
            let new = WorkspaceCandidateView { workspace_id: id, workspace_path: path };
            let steps = seq![
                (
                    rows_of(Some(ticket.repo), Some(EffectiveState::Free)),
                    AnswerView::Workspaces(Seq::empty()),
                ),
                (ActionView::CreateDirs(root), AnswerView::Done(None)),
                (ActionView::Exists(staging), AnswerView::Flag(false)),
                (
                    jj(root, seq!["git"@, "clone"@, "--colocate"@, repo.origin, staging]),
                    AnswerView::Output(o1),
                ),
                (
                    jj(staging, seq!["bookmark"@, "track"@, "main"@ + "@origin"@]),
                    AnswerView::Output(o2),
                ),
                (
                    jj(staging, seq!["bookmark"@, "track"@, "master"@ + "@origin"@]),
                    AnswerView::Output(o3),
                ),
                (ActionView::Rename { from: staging, to: path }, AnswerView::Done(None)),
                (
                    ActionView::SyncWorkspaces {
                        repo: ticket.repo,
                        candidates: candidates.push(new),
                    },
                    AnswerView::Saved,
                ),
                (claim(ticket, id), AnswerView::Workspace(Some(claimed))),
            ];
            goes_on_as(
                |t: Seq<AnswerView>| flow_lease_clean(
                    t,
                    ticket,
                    repo,
                    candidates,
                    expired,
                    prefer,
                    resume_pr,
                ),
                steps,
                |t: Seq<AnswerView>| flow_settle(
                    t,
                    ticket,
                    repo.main_branch,
                    expired,
                    resume_pr,
                    (claimed, true, Seq::empty()),
                    Seq::empty(),
                ),
                more,
            )
        }),
{
    broadcast use group_given;
    let root = repo.workspace_root;
    let id = spec_next_id(
        repo.workspace_prefix,
        Seq::new(candidates.len(), |i: int| candidates[i].workspace_id),
    );
    let path = spec_path_join(root, id);
    let staging = spec_path_join(root, ".incoming-"@ + id);
    let new = WorkspaceCandidateView { workspace_id: id, workspace_path: path };
    assert(
        seq!["git"@, "clone"@, "--colocate"@] + seq![repo.origin, staging]
            =~= seq!["git"@, "clone"@, "--colocate"@, repo.origin, staging]
    );
    reveal_with_fuel(flow_scan, 3);
    reveal_with_fuel(flow_gc_husks, 2);
    lemma_nothing_free(prefer);
    lemma_without_none(candidates);
    lemma_two_tracked();
    reveal_with_fuel(flow_track_each, 4);
    assert(ids_of(candidates) == Seq::new(candidates.len(), |i: int| candidates[i].workspace_id));
}

/// A claimed workspace is brought to the default branch of its repository: fetched, the
/// branch set to where the remote has it, and a new commit started on it.
pub proof fn law_claimed_workspace_is_reset(
    ticket: TicketView,
    main_branch: Seq<char>,
    expired: Seq<ExpiredLeaseView>,
    claimed: WorkspaceRecordView,
    made: bool,
    checks: Seq<HealthCheckView>,
    o1: Seq<char>,
    o2: Seq<char>,
    o3: Seq<char>,
    more: Seq<AnswerView>,
)
    requires
        expired_of(expired, claimed.workspace_id) is None || made,
    ensures
        ({
            let path = claimed.workspace_path;
            let steps = seq![
                (ActionView::IsDir(path), AnswerView::Flag(true)),
                (named_op(path, "git"@, seq!["fetch"@]), AnswerView::Ack),
                (jj(path, seq!["git"@, "fetch"@]), AnswerView::Output(o1)),
                (
                    named_op(path, "bookmark-set"@, seq![main_branch, main_branch + "@origin"@]),
                    AnswerView::Ack,
                ),
                (
                    jj(
                        path,
                        seq![
                            "bookmark"@,
                            "set"@,
                            main_branch,
                            "-r"@,
                            main_branch + "@origin"@,
                            "--allow-backwards"@,
                        ],
                    ),
                    AnswerView::Output(o2),
                ),
                (named_op(path, "new"@, seq![main_branch]), AnswerView::Ack),
                (jj(path, seq!["new"@, main_branch]), AnswerView::Output(o3)),
            ];
            goes_on_as(
                |t: Seq<AnswerView>| flow_settle(
                    t,
                    ticket,
                    main_branch,
                    expired,
                    None,
                    (claimed, made, Seq::empty()),
                    checks,
                ),
                steps,
                |t: Seq<AnswerView>| flow_hand_over(t, ticket, claimed, checks, None),
                more,
            )
        }),
{
    broadcast use group_given;
    let path = claimed.workspace_path;
    assert(
        seq!["bookmark"@, "set"@, main_branch]
            + seq!["-r"@, main_branch + "@origin"@, "--allow-backwards"@]
            =~= seq![
                "bookmark"@,
                "set"@,
                main_branch,
                "-r"@,
                main_branch + "@origin"@,
                "--allow-backwards"@,
            ]
    );
}

/// The conflicted bookmarks of a claimed workspace are forgotten, each of them noted,
/// before it is reset.
pub proof fn law_conflicts_are_repaired_before_the_reset(
    ticket: TicketView,
    main_branch: Seq<char>,
    expired: Seq<ExpiredLeaseView>,
    claimed: WorkspaceRecordView,
    made: bool,
    checks: Seq<HealthCheckView>,
    bookmark: Seq<char>,
    o0: Seq<char>,
    o1: Seq<char>,
    o2: Seq<char>,
    o3: Seq<char>,
    more: Seq<AnswerView>,
)
    requires
        expired_of(expired, claimed.workspace_id) is None || made,
    ensures
        ({
            let path = claimed.workspace_path;
            let steps = seq![
                (ActionView::IsDir(path), AnswerView::Flag(true)),
                (
                    ActionView::Audit(
                        AuditEventView::named("workspace.bookmark_forgotten"@)
                            .text("workspace_path"@, path).text("bookmark"@, bookmark),
                    ),
                    AnswerView::Ack,
                ),
                (jj(path, seq!["bookmark"@, "forget"@, bookmark]), AnswerView::Output(o0)),
                (named_op(path, "git"@, seq!["fetch"@]), AnswerView::Ack),
                (jj(path, seq!["git"@, "fetch"@]), AnswerView::Output(o1)),
                (
                    named_op(path, "bookmark-set"@, seq![main_branch, main_branch + "@origin"@]),
                    AnswerView::Ack,
                ),
                (
                    jj(
                        path,
                        seq![
                            "bookmark"@,
                            "set"@,
                            main_branch,
                            "-r"@,
                            main_branch + "@origin"@,
                            "--allow-backwards"@,
                        ],
                    ),
                    AnswerView::Output(o2),
                ),
                (named_op(path, "new"@, seq![main_branch]), AnswerView::Ack),
                (jj(path, seq!["new"@, main_branch]), AnswerView::Output(o3)),
            ];
            goes_on_as(
                |t: Seq<AnswerView>| flow_settle(
                    t,
                    ticket,
                    main_branch,
                    expired,
                    None,
                    (claimed, made, seq![bookmark]),
                    checks,
                ),
                steps,
                |t: Seq<AnswerView>| flow_hand_over(t, ticket, claimed, checks, None),
                more,
            )
        }),
{
    broadcast use group_given;
    let path = claimed.workspace_path;
    assert(
        seq!["bookmark"@, "set"@, main_branch]
            + seq!["-r"@, main_branch + "@origin"@, "--allow-backwards"@]
            =~= seq![
                "bookmark"@,
                "set"@,
                main_branch,
                "-r"@,
                main_branch + "@origin"@,
                "--allow-backwards"@,
            ]
    );
    reveal_with_fuel(flow_repair, 3);
    assert(seq![bookmark].drop_first() =~= Seq::<Seq<char>>::empty());
}

/// Where a claimed workspace cannot be reset, the lease is given back with the reason,
/// and the failure is the answer, whatever comes of giving it back.
pub proof fn law_failed_reset_gives_the_lease_back(
    ticket: TicketView,
    main_branch: Seq<char>,
    expired: Seq<ExpiredLeaseView>,
    claimed: WorkspaceRecordView,
    made: bool,
    checks: Seq<HealthCheckView>,
    error: CubeErrorView,
    back: AnswerView,
    more: Seq<AnswerView>,
)
    requires
        expired_of(expired, claimed.workspace_id) is None || made,
        !is_no_repo(error),
        recovery(error) is None,
        back is Workspace || back is Failed,
    ensures
        ({
            let path = claimed.workspace_path;
            let steps = seq![
                (ActionView::IsDir(path), AnswerView::Flag(true)),
                (named_op(path, "git"@, seq!["fetch"@]), AnswerView::Ack),
                (jj(path, seq!["git"@, "fetch"@]), AnswerView::Failed(error)),
                (
                    ActionView::ReleaseWorkspace {
                        lease_id: ticket.lease_id,
                        reason: Some("lease_setup_failed"@),
                    },
                    back,
                ),
            ];
            fails_with(
                |t: Seq<AnswerView>| flow_settle(
                    t,
                    ticket,
                    main_branch,
                    expired,
                    None,
                    (claimed, made, Seq::empty()),
                    checks,
                ),
                steps,
                error,
                more,
            )
        }),
{
    broadcast use group_given;
}

/// A claimed workspace whose directory is gone is taken out of the registry, and the
/// lease fails for want of a workspace.
pub proof fn law_vanished_workspace_is_forgotten(
    ticket: TicketView,
    main_branch: Seq<char>,
    expired: Seq<ExpiredLeaseView>,
    claimed: WorkspaceRecordView,
    made: bool,
    checks: Seq<HealthCheckView>,
    repairs: Seq<Seq<char>>,
    resume_pr: Option<u64>,
    more: Seq<AnswerView>,
)
    ensures
        ({
            let steps = seq![
                (ActionView::IsDir(claimed.workspace_path), AnswerView::Flag(false)),
                (
                    ActionView::Warn(
                        "warning: cube workspace `"@ + claimed.repo + "/"@ + claimed.workspace_id
                            + "` directory disappeared between reconcile and claim at "@
                            + claimed.workspace_path + "; dropping the dangling registry row"@,
                    ),
                    AnswerView::Ack,
                ),
                (
                    ActionView::Audit(
                        AuditEventView::named("workspace.dir_missing_reconciled"@).text("repo"@, claimed.repo).text("workspace_id"@, claimed.workspace_id).text("workspace_path"@, claimed.workspace_path).text("prior_state"@, match claimed.state { WorkspaceState::Free => "free"@, WorkspaceState::Leased => "leased"@ }).text(
                            "lease_id"@,
                            ticket.lease_id,
                        ),
                    ),
                    AnswerView::Ack,
                ),
                (
                    ActionView::ForgetWorkspace {
                        repo: claimed.repo,
                        workspace_id: claimed.workspace_id,
                    },
                    AnswerView::Saved,
                ),
            ];
            fails_with(
                |t: Seq<AnswerView>| flow_settle(
                    t,
                    ticket,
                    main_branch,
                    expired,
                    resume_pr,
                    (claimed, made, repairs),
                    checks,
                ),
                steps,
                CubeErrorView::NoAvailableWorkspace(ticket.repo),
                more,
            )
        }),
{
    broadcast use group_given;
}

/// A lease that resumes a pull request fetches from GitHub, sets the bookmark of the pull
/// request and its head branch to what was fetched, and starts a new commit on the pull
/// request in place of the default branch.
pub proof fn law_pull_request_is_resumed(
    ticket: TicketView,
    main_branch: Seq<char>,
    expired: Seq<ExpiredLeaseView>,
    claimed: WorkspaceRecordView,
    made: bool,
    checks: Seq<HealthCheckView>,
    n: u64,
    remotes: Seq<char>,
    remote: Seq<char>,
    slug: Seq<char>,
    said: Seq<char>,
    json: JsonView,
    branch: Seq<char>,
    o1: Seq<char>,
    o2: Seq<char>,
    o3: Seq<char>,
    o4: Seq<char>,
    more: Seq<AnswerView>,
)
    requires
        expired_of(expired, claimed.workspace_id) is None || made,
        spec_github_remote(remotes) == Some((remote, slug)),
        json_parsed(said) == Ok::<JsonView, Seq<char>>(json),
        json.text_at("state"@) == Some("OPEN"@),
        json.text_at("headRefName"@) == Some(branch),
    ensures
        ({
            let path = claimed.workspace_path;
            let bookmark = "pr/"@ + spec_decimal(n as nat);
            let steps = seq![
                (ActionView::IsDir(path), AnswerView::Flag(true)),
                (jj(path, seq!["git"@, "remote"@, "list"@]), AnswerView::Output(remotes)),
                (jj(path, seq!["git"@, "fetch"@, "--remote"@, remote]), AnswerView::Output(o1)),
                (
                    gh(
                        path,
                        seq![
                            "pr"@,
                            "view"@,
                            spec_decimal(n as nat),
                            "-R"@,
                            slug,
                            "--json"@,
                            "headRefName,headRefOid,state"@,
                        ],
                    ),
                    AnswerView::Output(said),
                ),
                (
                    jj(path, seq!["bookmark"@, "set"@, bookmark, "-r"@, branch + "@"@ + remote]),
                    AnswerView::Output(o2),
                ),
                (
                    jj(
                        path,
                        seq![
                            "bookmark"@,
                            "set"@,
                            branch,
                            "-r"@,
                            branch + "@"@ + remote,
                            "--allow-backwards"@,
                        ],
                    ),
                    AnswerView::Output(o3),
                ),
                (jj(path, seq!["new"@, bookmark]), AnswerView::Output(o4)),
            ];
            goes_on_as(
                |t: Seq<AnswerView>| flow_settle(
                    t,
                    ticket,
                    main_branch,
                    expired,
                    Some(n),
                    (claimed, made, Seq::empty()),
                    checks,
                ),
                steps,
                |t: Seq<AnswerView>| flow_hand_over(
                    t,
                    ticket,
                    claimed,
                    checks,
                    Some(PrResumeInfoView { pr_number: n, head_branch: branch }),
                ),
                more,
            )
        }),
{
    broadcast use group_given;
    let path = claimed.workspace_path;
    let bookmark = "pr/"@ + spec_decimal(n as nat);
    assert(
        seq!["pr"@, "view"@, spec_decimal(n as nat)]
            + seq!["-R"@, slug, "--json"@, "headRefName,headRefOid,state"@]
            =~= seq![
                "pr"@,
                "view"@,
                spec_decimal(n as nat),
                "-R"@,
                slug,
                "--json"@,
                "headRefName,headRefOid,state"@,
            ]
    );
    assert(
        seq!["bookmark"@, "set"@, bookmark] + seq!["-r"@, branch + "@"@ + remote]
            =~= seq!["bookmark"@, "set"@, bookmark, "-r"@, branch + "@"@ + remote]
    );
    assert(
        seq!["bookmark"@, "set"@, branch]
            + seq!["-r"@, branch + "@"@ + remote, "--allow-backwards"@]
            =~= seq![
                "bookmark"@,
                "set"@,
                branch,
                "-r"@,
                branch + "@"@ + remote,
                "--allow-backwards"@,
            ]
    );
    reveal_strlit("OPEN");
    reveal_strlit("MERGED");
    reveal_strlit("CLOSED");
    assert("OPEN"@.len() == 4 && "MERGED"@.len() == 6 && "CLOSED"@.len() == 6);
}

/// A workspace that is in place is handed over with its head commit recorded under the
/// lease, its setup steps run, and all of that in the payload.
pub proof fn law_lease_is_handed_over(
    ticket: TicketView,
    w: WorkspaceRecordView,
    checks: Seq<HealthCheckView>,
    resume: Option<PrResumeInfoView>,
    head: Seq<char>,
    done: Seq<SetupStepView>,
    more: Seq<AnswerView>,
)
    requires
        first_failure(done) is None,
    ensures
        ({
            let path = w.workspace_path;
            let placed = WorkspaceRecordView { head_commit: Some(head), ..w };
            let steps = seq![
                (
                    jj(path, seq!["log"@, "--no-graph"@, "-r"@, "@"@, "-T"@, "commit_id.short()"@]),
                    AnswerView::Output(head),
                ),
                (
                    ActionView::SetHeadCommit { lease_id: ticket.lease_id, head_commit: head },
                    AnswerView::Saved,
                ),
                (
                    ActionView::Audit(
                        AuditEventView::named("lease.acquired"@).text("repo"@, w.repo).text("workspace_id"@, w.workspace_id).text("lease_id"@, ticket.lease_id).text("holder"@, ticket.holder).text("task"@, ticket.task).text("head_commit"@, head).maybe_count("resume_pr_number"@, match resume { Some(info) => Some(info.pr_number), None => None }).maybe_text(
                            "resume_head_branch"@,
                            match resume { Some(info) => Some(info.head_branch), None => None },
                        ),
                    ),
                    AnswerView::Ack,
                ),
                (ActionView::IsDir(spec_path_join(path, ".git"@)), AnswerView::Flag(false)),
                (ActionView::RunSetup(placed), AnswerView::Setup(done)),
            ];
            ends_with(
                |t: Seq<AnswerView>| flow_hand_over(t, ticket, w, checks, resume),
                steps,
                spec_result(
                    spec_lease_message(
                        "Leased "@ + w.workspace_id + ""@ + " at "@ + path + "."@,
                        done,
                    ),
                    PayloadView::Lease {
                        workspace: placed,
                        setup: done,
                        health_check: checks,
                        resume_pr: resume,
                    },
                ),
                more,
            )
        }),
{
    broadcast use group_given;
    let path = w.workspace_path;
    let placed = WorkspaceRecordView { head_commit: Some(head), ..w };
    assert(
        seq!["log"@, "--no-graph"@, "-r"@, "@"@] + seq!["-T"@, "commit_id.short()"@]
            =~= seq!["log"@, "--no-graph"@, "-r"@, "@"@, "-T"@, "commit_id.short()"@]
    );
}

/// A setup step that fails is the failure of the lease.
pub proof fn law_failed_setup_step_is_named(
    ticket: TicketView,
    w: WorkspaceRecordView,
    checks: Seq<HealthCheckView>,
    resume: Option<PrResumeInfoView>,
    head: Seq<char>,
    done: Seq<SetupStepView>,
    step: Seq<char>,
    error: Seq<char>,
    more: Seq<AnswerView>,
)
    requires
        first_failure(done) == Some((step, error)),
    ensures
        ({
            let path = w.workspace_path;
            let placed = WorkspaceRecordView { head_commit: Some(head), ..w };
            let steps = seq![
                (
                    jj(path, seq!["log"@, "--no-graph"@, "-r"@, "@"@, "-T"@, "commit_id.short()"@]),
                    AnswerView::Output(head),
                ),
                (
                    ActionView::SetHeadCommit { lease_id: ticket.lease_id, head_commit: head },
                    AnswerView::Saved,
                ),
                (ActionView::Audit(acquired_event(ticket, placed, resume)), AnswerView::Ack),
                (ActionView::IsDir(spec_path_join(path, ".git"@)), AnswerView::Flag(false)),
                (ActionView::RunSetup(placed), AnswerView::Setup(done)),
            ];
            fails_with(
                |t: Seq<AnswerView>| flow_hand_over(t, ticket, w, checks, resume),
                steps,
                CubeErrorView::SetupStepFailed { step, error },
                more,
            )
        }),
{
    broadcast use group_given;
    let path = w.workspace_path;
    let placed = WorkspaceRecordView { head_commit: Some(head), ..w };
    assert(
        seq!["log"@, "--no-graph"@, "-r"@, "@"@] + seq!["-T"@, "commit_id.short()"@]
            =~= seq!["log"@, "--no-graph"@, "-r"@, "@"@, "-T"@, "commit_id.short()"@]
    );
}

/// A lease that takes a workspace as it is claims the one that is named, runs nothing in
/// it but the look at its commit, and hands it over.
pub proof fn law_dirty_lease_takes_the_named_workspace(
    ticket: TicketView,
    id: Seq<char>,
    row: WorkspaceRecordView,
    claimed: WorkspaceRecordView,
    head: Seq<char>,
    done: Seq<SetupStepView>,
    more: Seq<AnswerView>,
)
    requires
        ticket.now_epoch_s + 1800 <= i64::MAX,
        row.state == WorkspaceState::Free,
        first_failure(done) is None,
    ensures
        ({
            let path = claimed.workspace_path;
            let placed = WorkspaceRecordView { head_commit: Some(head), ..claimed };
            let steps = seq![
                (rows_with(Some(ticket.repo), Some(id)), AnswerView::Workspaces(seq![row])),
                (ActionView::IsDir(row.workspace_path), AnswerView::Flag(true)),
                (
                    ActionView::IsDir(spec_path_join(row.workspace_path, ".jj"@)),
                    AnswerView::Flag(true),
                ),
                (claim(ticket, id), AnswerView::Workspace(Some(claimed))),
                (
                    jj(path, seq!["log"@, "--no-graph"@, "-r"@, "@"@, "-T"@, "commit_id.short()"@]),
                    AnswerView::Output(head),
                ),
                (
                    ActionView::SetHeadCommit { lease_id: ticket.lease_id, head_commit: head },
                    AnswerView::Saved,
                ),
                (
                    ActionView::Audit(
                        AuditEventView::named("lease.acquired_dirty"@).text("repo"@, claimed.repo)
                            .text("workspace_id"@, claimed.workspace_id)
                            .text("lease_id"@, ticket.lease_id).text("holder"@, ticket.holder)
                            .text("task"@, ticket.task).text("head_commit"@, head),
                    ),
                    AnswerView::Ack,
                ),
                (ActionView::RunSetup(placed), AnswerView::Setup(done)),
            ];
            ends_with(
                |t: Seq<AnswerView>| flow_lease_dirty(t, ticket, id),
                steps,
                spec_result(
                    spec_lease_message(
                        "Reclaimed "@ + claimed.workspace_id + " (dirty)"@ + " at "@ + path + "."@,
                        done,
                    ),
                    PayloadView::Lease {
                        workspace: placed,
                        setup: done,
                        health_check: seq![HealthCheckView::AllowedDirty { workspace_id: id }],
                        resume_pr: None,
                    },
                ),
                more,
            )
        }),
{
    broadcast use group_given;
    let path = claimed.workspace_path;
    let placed = WorkspaceRecordView { head_commit: Some(head), ..claimed };
    assert(
        seq!["log"@, "--no-graph"@, "-r"@, "@"@] + seq!["-T"@, "commit_id.short()"@]
            =~= seq!["log"@, "--no-graph"@, "-r"@, "@"@, "-T"@, "commit_id.short()"@]
    );
}

/// A workspace that somebody holds is not taken as it is.
pub proof fn law_leased_workspace_is_not_reclaimed(
    ticket: TicketView,
    id: Seq<char>,
    row: WorkspaceRecordView,
    more: Seq<AnswerView>,
)
    requires
        row.state == WorkspaceState::Leased,
    ensures
        ({
            let steps = seq![
                (rows_with(Some(ticket.repo), Some(id)), AnswerView::Workspaces(seq![row])),
            ];
            fails_with(
                |t: Seq<AnswerView>| flow_lease_dirty(t, ticket, id),
                steps,
                leased_elsewhere(id),
                more,
            )
        }),
{
    broadcast use group_given;
}

/// A workspace that the registry does not know cannot be taken as it is.
pub proof fn law_unknown_workspace_is_not_reclaimed(
    ticket: TicketView,
    id: Seq<char>,
    more: Seq<AnswerView>,
)
    ensures
        ({
            let steps = seq![
                (rows_with(Some(ticket.repo), Some(id)), AnswerView::Workspaces(Seq::empty())),
            ];
            fails_with(
                |t: Seq<AnswerView>| flow_lease_dirty(t, ticket, id),
                steps,
                CubeErrorView::WorkspaceNotFound(id),
                more,
            )
        }),
{
    broadcast use group_given;
}

} // verus!
