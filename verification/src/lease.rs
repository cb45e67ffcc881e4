//! Leasing a workspace: choosing one that is safe to use, or growing the pool, and
//! putting it in place for its holder.

use vstd::prelude::*;

use crate::error::{CubeError, CubeErrorView};
use crate::events::{AuditEvent, AuditEventView};
use crate::exclude::{ensure_boss_infra_excluded, flow_ensure_excluded};
use crate::flow::{
    ask_ack, ask_expired, ask_flag, ask_name, ask_repo, ask_saved, ask_time, ask_workspace,
    ask_workspaces, follows, Action, ActionView, AnswerView, Flow, Stop, Tape,
};
use crate::health::{broken_empty, flow_broken_empty, flow_repair, repair_conflicted_bookmarks};
use crate::pool::{
    auto_create_workspace, discover_workspaces, flow_auto_create, flow_discover, flow_gc_husk,
    gc_broken_empty_workspace,
};
use crate::pool_gc::{flow_trigger_gc, maybe_trigger_pool_gc, plus, spec_plus, warn};
use crate::reconcile::{
    flow_reconcile_repo, forget, forget_action, reconcile_missing_workspaces_in_repo, row_audit,
    row_event,
};
use crate::records::{
    copy_candidates, copy_expired, filter, spec_filter, state_name, EffectiveState, ExpiredLease,
    ExpiredLeaseView, ReconcileReportView, RepoRecord, RepoRecordView, WorkspaceCandidate,
    WorkspaceCandidateView, WorkspaceListFilter, WorkspaceListFilterView, WorkspaceRecord,
    WorkspaceRecordView, WorkspaceState,
};
use crate::report::{
    spec_result, HealthCheck, HealthCheckView, Payload, PayloadView, PrResumeInfo,
    PrResumeInfoView, RunResult, RunResultView,
};
use crate::reset::{
    current_workspace_commit, flow_current_commit, flow_reset, reset_workspace_guarded,
};
use crate::resume::{flow_resume, resume_workspace_on_pr};
use crate::scan::{order_free, scan_free, spec_ordered, flow_scan, Scan, ScanView};
use crate::setup::{
    flow_setup, format_lease_message, run_setup_for_workspace, spec_lease_message,
};
use crate::text::{cat, copy, same};

verus! {

/// How long a lease lasts, in seconds.
pub const DEFAULT_LEASE_TTL_SECS: i64 = 1800;

/// Who leases what, and until when.
#[derive(Debug, Clone, PartialEq, Eq)]
pub struct Ticket {
    pub repo: String,
    pub task: String,
    pub holder: String,
    pub lease_id: String,
    pub now_epoch_s: i64,
}

#[verifier::ext_equal]
pub ghost struct TicketView {
    pub repo: Seq<char>,
    pub task: Seq<char>,
    pub holder: Seq<char>,
    pub lease_id: Seq<char>,
    pub now_epoch_s: i64,
}

impl DeepView for Ticket {
    type V = TicketView;

    open spec fn deep_view(&self) -> TicketView {
        TicketView {
            repo: self.repo@,
            task: self.task@,
            holder: self.holder@,
            lease_id: self.lease_id@,
            now_epoch_s: self.now_epoch_s,
        }
    }
}

/// Claims the workspace for the ticket.
pub open spec fn flow_claim(t: Seq<AnswerView>, ticket: TicketView, id: Seq<char>) -> Flow<
    WorkspaceRecordView,
> {
    ask_workspace(
        t,
        ActionView::ClaimWorkspace {
            repo: ticket.repo,
            workspace_id: id,
            holder: ticket.holder,
            task: ticket.task,
            lease_id: ticket.lease_id,
            leased_at_epoch_s: ticket.now_epoch_s,
            expires_at_epoch_s: Some(spec_plus(ticket.now_epoch_s, DEFAULT_LEASE_TTL_SECS)),
        },
    ).and(
        |claimed: Option<WorkspaceRecordView>, t: Seq<AnswerView>|
            match claimed {
                Some(w) => Flow::Done(w, t),
                None => Flow::Failed(CubeErrorView::NoAvailableWorkspace(ticket.repo), t),
            },
    )
}

fn claim(tape: &mut Tape, ticket: &Ticket, id: &str) -> (r: Result<WorkspaceRecord, Stop>)
    ensures
        follows(r, final(tape)@, flow_claim(old(tape)@, ticket.deep_view(), id@)),
{
    match tape.ask_workspace(
        Action::ClaimWorkspace {
            repo: copy(&ticket.repo),
            workspace_id: id.to_string(),
            holder: copy(&ticket.holder),
            task: copy(&ticket.task),
            lease_id: copy(&ticket.lease_id),
            leased_at_epoch_s: ticket.now_epoch_s,
            expires_at_epoch_s: Some(plus(ticket.now_epoch_s, DEFAULT_LEASE_TTL_SECS)),
        },
    )? {
        Some(w) => Ok(w),
        None => Err(Stop::Fail(CubeError::NoAvailableWorkspace(copy(&ticket.repo)))),
    }
}

/// The workspace with its head commit set.
pub open spec fn at_commit(w: WorkspaceRecordView, head: Seq<char>) -> WorkspaceRecordView {
    WorkspaceRecordView { head_commit: Some(head), ..w }
}

/// Reads the head commit of the claimed workspace and records it.
pub open spec fn flow_record_head(
    t: Seq<AnswerView>,
    lease_id: Seq<char>,
    w: WorkspaceRecordView,
) -> Flow<WorkspaceRecordView> {
    flow_current_commit(t, w.workspace_path).and(
        |head: Seq<char>, t: Seq<AnswerView>|
            ask_saved(t, ActionView::SetHeadCommit { lease_id, head_commit: head }).and(
                |u: (), t: Seq<AnswerView>| Flow::Done(at_commit(w, head), t),
            ),
    )
}

fn record_head(tape: &mut Tape, lease_id: &str, w: WorkspaceRecord) -> (r: Result<
    WorkspaceRecord,
    Stop,
>)
    ensures
        follows(
            r,
            final(tape)@,
            flow_record_head(old(tape)@, lease_id@, w.deep_view()),
        ),
{
    let head: String = current_workspace_commit(tape, w.workspace_path.as_str())?;
    tape.ask_saved(
        Action::SetHeadCommit { lease_id: lease_id.to_string(), head_commit: copy(&head) },
    )?;
    let mut w: WorkspaceRecord = w;
    w.head_commit = Some(head);
    Ok(w)
}

// ---------------------------------------------------------------------------
// Taking a workspace as it is
// ---------------------------------------------------------------------------

/// The event for a lease.
pub open spec fn lease_event(
    name: Seq<char>,
    ticket: TicketView,
    w: WorkspaceRecordView,
) -> AuditEventView {
    AuditEventView::named(name).text("repo"@, w.repo).text("workspace_id"@, w.workspace_id).text(
        "lease_id"@,
        ticket.lease_id,
    ).text("holder"@, ticket.holder).text("task"@, ticket.task).maybe_text(
        "head_commit"@,
        w.head_commit,
    )
}

fn lease_audit(name: &str, ticket: &Ticket, w: &WorkspaceRecord) -> (r: AuditEvent)
    ensures
        r.deep_view() == lease_event(name@, ticket.deep_view(), w.deep_view()),
{
    AuditEvent::named(name).text("repo", w.repo.as_str()).text(
        "workspace_id",
        w.workspace_id.as_str(),
    ).text("lease_id", ticket.lease_id.as_str()).text("holder", ticket.holder.as_str()).text(
        "task",
        ticket.task.as_str(),
    ).maybe_text("head_commit", &w.head_commit)
}

pub open spec fn leased_elsewhere(id: Seq<char>) -> CubeErrorView {
    CubeErrorView::InvalidArgument(
        "workspace `"@ + id
            + "` is currently leased; cannot reclaim it dirty. Use `cube workspace force-release` first if the prior holder is gone."@,
    )
}

pub open spec fn nothing_to_reclaim(id: Seq<char>) -> CubeErrorView {
    CubeErrorView::InvalidArgument(
        "workspace `"@ + id
            + "` has neither a .jj nor a .git directory; there is no in-flight work to reclaim with --allow-dirty."@,
    )
}

/// The workspace to take as it is: it must be registered and free, and its
/// directory must hold a repository.
pub open spec fn flow_reclaimable(t: Seq<AnswerView>, repo: Seq<char>, id: Seq<char>) -> Flow<()> {
    ask_workspaces(t, ActionView::ListWorkspaces(spec_filter(Some(repo), Some(id)))).and(
        |found: Seq<WorkspaceRecordView>, t: Seq<AnswerView>|
            if found.len() == 0 {
                Flow::Failed(CubeErrorView::WorkspaceNotFound(id), t)
            } else if found[0].state == WorkspaceState::Leased {
                Flow::Failed(leased_elsewhere(id), t)
            } else {
                ask_flag(t, ActionView::IsDir(found[0].workspace_path)).and(
                    |there: bool, t: Seq<AnswerView>|
                        if !there {
                            Flow::Failed(CubeErrorView::WorkspaceNotFound(id), t)
                        } else {
                            flow_broken_empty(t, found[0].workspace_path).and(
                                |broken: bool, t: Seq<AnswerView>|
                                    if broken {
                                        Flow::Failed(nothing_to_reclaim(id), t)
                                    } else {
                                        Flow::Done((), t)
                                    },
                            )
                        },
                )
            },
    )
}

fn reclaimable(tape: &mut Tape, repo: &str, id: &str) -> (r: Result<(), Stop>)
    ensures
        follows(r, final(tape)@, flow_reclaimable(old(tape)@, repo@, id@)),
{
    let found: Vec<WorkspaceRecord> = tape.ask_workspaces(
        Action::ListWorkspaces(filter(Some(repo.to_string()), Some(id.to_string()))),
    )?;
    if found.len() == 0 {
        return Err(Stop::Fail(CubeError::WorkspaceNotFound(id.to_string())));
    }
    let target: &WorkspaceRecord = &found[0];
    assert(found.deep_view()[0] == target.deep_view());
    if let WorkspaceState::Leased = target.state {
        return Err(
            Stop::Fail(
                CubeError::InvalidArgument(
                    cat(
                        cat("workspace `".to_string(), id),
                        "` is currently leased; cannot reclaim it dirty. Use `cube workspace force-release` first if the prior holder is gone.",
                    ),
                ),
            ),
        );
    }
    let there: bool = tape.ask_flag(Action::IsDir(copy(&target.workspace_path)))?;
    if !there {
        return Err(Stop::Fail(CubeError::WorkspaceNotFound(id.to_string())));
    }
    let broken: bool = broken_empty(tape, target.workspace_path.as_str())?;
    if broken {
        return Err(
            Stop::Fail(
                CubeError::InvalidArgument(
                    cat(
                        cat("workspace `".to_string(), id),
                        "` has neither a .jj nor a .git directory; there is no in-flight work to reclaim with --allow-dirty.",
                    ),
                ),
            ),
        );
    }
    Ok(())
}

/// The message of a lease: `<verb> <id><how> at <path>.`
pub open spec fn lease_line(
    verb: Seq<char>,
    w: WorkspaceRecordView,
    how: Seq<char>,
) -> Seq<char> {
    verb + w.workspace_id + how + " at "@ + w.workspace_path + "."@
}

fn lease_text(verb: &str, w: &WorkspaceRecord, how: &str) -> (r: String)
    ensures
        r@ == lease_line(verb@, w.deep_view(), how@),
{
    cat(
        cat(
            cat(
                cat(cat(verb.to_string(), w.workspace_id.as_str()), how),
                " at ",
            ),
            w.workspace_path.as_str(),
        ),
        ".",
    )
}

/// Takes the named workspace with its working copy as the last holder left it. No
/// other workspace will do.
pub open spec fn flow_lease_dirty(t: Seq<AnswerView>, ticket: TicketView, id: Seq<char>) -> Flow<
    RunResultView,
> {
    flow_reclaimable(t, ticket.repo, id).and(
        |u: (), t: Seq<AnswerView>|
            flow_claim(t, ticket, id).and(
                |w: WorkspaceRecordView, t: Seq<AnswerView>|
                    flow_record_head(t, ticket.lease_id, w).and(
                        |w: WorkspaceRecordView, t: Seq<AnswerView>|
                            ask_ack(
                                t,
                                ActionView::Audit(lease_event("lease.acquired_dirty"@, ticket, w)),
                            ).and(
                                |u: (), t: Seq<AnswerView>|
                                    flow_finish_lease(
                                        t,
                                        lease_line("Reclaimed "@, w, " (dirty)"@),
                                        w,
                                        seq![HealthCheckView::AllowedDirty { workspace_id: id }],
                                        None,
                                    ),
                            ),
                    ),
            ),
    )
}

/// Runs the setup of the leased workspace and reports on it.
pub open spec fn flow_finish_lease(
    t: Seq<AnswerView>,
    head: Seq<char>,
    w: WorkspaceRecordView,
    checks: Seq<HealthCheckView>,
    resume: Option<PrResumeInfoView>,
) -> Flow<RunResultView> {
    flow_setup(t, w).and(
        |steps: Seq<crate::records::SetupStepView>, t: Seq<AnswerView>|
            Flow::Done(
                spec_result(
                    spec_lease_message(head, steps),
                    PayloadView::Lease {
                        workspace: w,
                        setup: steps,
                        health_check: checks,
                        resume_pr: resume,
                    },
                ),
                t,
            ),
    )
}

fn finish_lease(
    tape: &mut Tape,
    head: String,
    workspace: WorkspaceRecord,
    health_check: Vec<HealthCheck>,
    resume_pr: Option<PrResumeInfo>,
) -> (r: Result<RunResult, Stop>)
    ensures
        follows(
            r,
            final(tape)@,
            flow_finish_lease(
                old(tape)@,
                head@,
                workspace.deep_view(),
                health_check.deep_view(),
                resume_pr.deep_view(),
            ),
        ),
{
    let setup: crate::records::SetupReport = run_setup_for_workspace(tape, &workspace)?;
    let message: String = format_lease_message(head, &setup);
    Ok(RunResult::new(message, Payload::Lease { workspace, setup, health_check, resume_pr }))
}

fn lease_dirty(tape: &mut Tape, ticket: &Ticket, id: &str) -> (r: Result<RunResult, Stop>)
    ensures
        follows(r, final(tape)@, flow_lease_dirty(old(tape)@, ticket.deep_view(), id@)),
{
    reclaimable(tape, ticket.repo.as_str(), id)?;
    let w: WorkspaceRecord = claim(tape, ticket, id)?;
    let w: WorkspaceRecord = record_head(tape, ticket.lease_id.as_str(), w)?;
    tape.ask_ack(Action::Audit(lease_audit("lease.acquired_dirty", ticket, &w)))?;
    let head: String = lease_text("Reclaimed ", &w, " (dirty)");
    let checks: Vec<HealthCheck> = vec![HealthCheck::AllowedDirty { workspace_id: id.to_string() }];
    assert(checks.deep_view() =~= seq![HealthCheckView::AllowedDirty { workspace_id: id@ }]);
    finish_lease(tape, head, w, checks, None)
}

// ---------------------------------------------------------------------------
// Choosing a workspace
// ---------------------------------------------------------------------------

/// Removes the directories that hold no repository, one after the other.
pub open spec fn flow_gc_husks(
    t: Seq<AnswerView>,
    repo: Seq<char>,
    husks: Seq<(Seq<char>, Seq<char>)>,
) -> Flow<()>
    decreases husks.len(),
{
    if husks.len() == 0 {
        Flow::Done((), t)
    } else {
        flow_gc_husk(t, repo, husks[0].0, husks[0].1).and(
            |u: (), t: Seq<AnswerView>| flow_gc_husks(t, repo, husks.drop_first()),
        )
    }
}

fn gc_husks(tape: &mut Tape, repo: &str, husks: &Vec<(String, String)>) -> (r: Result<(), Stop>)
    ensures
        follows(r, final(tape)@, flow_gc_husks(old(tape)@, repo@, husks.deep_view())),
{
    let ghost whole = husks.deep_view();
    let ghost flow = flow_gc_husks(tape@, repo@, whole);
    let mut i: usize = 0;
    assert(whole.subrange(0, whole.len() as int) =~= whole);
    while i < husks.len()
        invariant
            i <= husks@.len(),
            whole == husks.deep_view(),
            flow == flow_gc_husks(old(tape)@, repo@, husks.deep_view()),
            flow == flow_gc_husks(
                tape@,
                repo@,
                whole.subrange(i as int, whole.len() as int),
            ),
        decreases husks@.len() - i,
    {
        proof {
            let rest = whole.subrange(i as int, whole.len() as int);
            assert(rest[0] == husks@[i as int].deep_view());
            assert(rest.drop_first() =~= whole.subrange(i + 1, whole.len() as int));
        }
        gc_broken_empty_workspace(tape, repo, husks[i].0.as_str(), husks[i].1.as_str())?;
        i += 1;
    }
    Ok(())
}

/// One of the husks has this id.
pub open spec fn is_husk(husks: Seq<(Seq<char>, Seq<char>)>, id: Seq<char>) -> bool {
    exists|i: int| 0 <= i < husks.len() && (#[trigger] husks[i]).0 == id
}

/// The candidates that are no husks.
pub open spec fn without_husks(
    candidates: Seq<WorkspaceCandidateView>,
    husks: Seq<(Seq<char>, Seq<char>)>,
) -> Seq<WorkspaceCandidateView>
    decreases candidates.len(),
{
    if candidates.len() == 0 {
        Seq::empty()
    } else {
        let before = without_husks(candidates.drop_last(), husks);
        if is_husk(husks, candidates.last().workspace_id) {
            before
        } else {
            before.push(candidates.last())
        }
    }
}

fn husk(husks: &Vec<(String, String)>, id: &str) -> (r: bool)
    ensures
        r == is_husk(husks.deep_view(), id@),
{
    let mut i: usize = 0;
    while i < husks.len()
        invariant
            i <= husks@.len(),
            forall|j: int| 0 <= j < i ==> (#[trigger] husks.deep_view()[j]).0 != id@,
        decreases husks@.len() - i,
    {
        assert(husks.deep_view()[i as int] == husks@[i as int].deep_view());
        if same(husks[i].0.as_str(), id) {
            return true;
        }
        i += 1;
    }
    false
}

fn drop_husks(candidates: Vec<WorkspaceCandidate>, husks: &Vec<(String, String)>) -> (r: Vec<
    WorkspaceCandidate,
>)
    ensures
        r.deep_view() == without_husks(candidates.deep_view(), husks.deep_view()),
{
    let mut out: Vec<WorkspaceCandidate> = Vec::new();
    let ghost all = candidates.deep_view();
    let mut i: usize = 0;
    assert(out.deep_view() =~= Seq::<WorkspaceCandidateView>::empty());
    while i < candidates.len()
        invariant
            i <= candidates@.len(),
            all == candidates.deep_view(),
            out.deep_view() == without_husks(all.subrange(0, i as int), husks.deep_view()),
        decreases candidates@.len() - i,
    {
        proof {
            assert(all.subrange(0, i + 1).last() == candidates@[i as int].deep_view());
            assert(all.subrange(0, i + 1).drop_last() =~= all.subrange(0, i as int));
        }
        let ghost before = out.deep_view();
        if !husk(husks, candidates[i].workspace_id.as_str()) {
            out.push(
                WorkspaceCandidate {
                    workspace_id: copy(&candidates[i].workspace_id),
                    workspace_path: copy(&candidates[i].workspace_path),
                },
            );
            assert(out.deep_view() =~= before.push(all[i as int]));
        }
        i += 1;
    }
    assert(all.subrange(0, i as int) =~= all);
    out
}

/// Grows the pool by one and claims the new workspace.
pub open spec fn flow_provision(
    t: Seq<AnswerView>,
    ticket: TicketView,
    repo: RepoRecordView,
    candidates: Seq<WorkspaceCandidateView>,
    husks: Seq<(Seq<char>, Seq<char>)>,
) -> Flow<WorkspaceRecordView> {
    flow_gc_husks(t, ticket.repo, husks).and(
        |u: (), t: Seq<AnswerView>|
            {
                let left = without_husks(candidates, husks);
                flow_auto_create(t, repo, left).and(
                    |new: WorkspaceCandidateView, t: Seq<AnswerView>|
                        ask_saved(
                            t,
                            ActionView::SyncWorkspaces {
                                repo: ticket.repo,
                                candidates: left.push(new),
                            },
                        ).and(
                            |u: (), t: Seq<AnswerView>| flow_claim(t, ticket, new.workspace_id),
                        ),
                )
            },
    )
}

fn provision(
    tape: &mut Tape,
    ticket: &Ticket,
    repo: &RepoRecord,
    candidates: Vec<WorkspaceCandidate>,
    husks: &Vec<(String, String)>,
) -> (r: Result<WorkspaceRecord, Stop>)
    ensures
        follows(
            r,
            final(tape)@,
            flow_provision(
                old(tape)@,
                ticket.deep_view(),
                repo.deep_view(),
                candidates.deep_view(),
                husks.deep_view(),
            ),
        ),
{
    gc_husks(tape, ticket.repo.as_str(), husks)?;
    let mut left: Vec<WorkspaceCandidate> = drop_husks(candidates, husks);
    let new: WorkspaceCandidate = auto_create_workspace(tape, repo, &left)?;
    let id: String = copy(&new.workspace_id);
    let ghost before = left.deep_view();
    let ghost added = new.deep_view();
    left.push(new);
    assert(left.deep_view() =~= before.push(added));
    tape.ask_saved(Action::SyncWorkspaces { repo: copy(&ticket.repo), candidates: left })?;
    claim(tape, ticket, id.as_str())
}

/// The claimed workspace, whether it is new, and the bookmarks to repair in it.
pub open spec fn flow_acquire(
    t: Seq<AnswerView>,
    ticket: TicketView,
    repo: RepoRecordView,
    candidates: Seq<WorkspaceCandidateView>,
    scan: ScanView,
) -> Flow<(WorkspaceRecordView, bool, Seq<Seq<char>>)> {
    match scan.choice() {
        Some(id) => flow_claim(t, ticket, id).and(
            |w: WorkspaceRecordView, t: Seq<AnswerView>|
                Flow::Done((w, false, scan.repairs(id)), t),
        ),
        None => flow_provision(t, ticket, repo, candidates, scan.husks).and(
            |w: WorkspaceRecordView, t: Seq<AnswerView>| Flow::Done((w, true, Seq::empty()), t),
        ),
    }
}

fn acquire(
    tape: &mut Tape,
    ticket: &Ticket,
    repo: &RepoRecord,
    candidates: Vec<WorkspaceCandidate>,
    scan: &Scan,
) -> (r: Result<(WorkspaceRecord, bool, Vec<String>), Stop>)
    ensures
        follows(
            r,
            final(tape)@,
            flow_acquire(
                old(tape)@,
                ticket.deep_view(),
                repo.deep_view(),
                candidates.deep_view(),
                scan.deep_view(),
            ),
        ),
{
    match scan.choice() {
        Some(id) => {
            let w: WorkspaceRecord = claim(tape, ticket, id.as_str())?;
            Ok((w, false, scan.repairs(id.as_str())))
        },
        None => {
            let w: WorkspaceRecord = provision(tape, ticket, repo, candidates, &scan.husks)?;
            let none: Vec<String> = Vec::new();
            assert(none.deep_view() =~= Seq::<Seq<char>>::empty());
            Ok((w, true, none))
        },
    }
}

// ---------------------------------------------------------------------------
// Putting it in place
// ---------------------------------------------------------------------------

/// The lease that was taken back from the workspace, where one was: the last that
/// is listed for it.
pub open spec fn expired_of(expired: Seq<ExpiredLeaseView>, id: Seq<char>) -> Option<
    ExpiredLeaseView,
>
    decreases expired.len(),
{
    if expired.len() == 0 {
        None
    } else if expired.last().workspace_id == id {
        Some(expired.last())
    } else {
        expired_of(expired.drop_last(), id)
    }
}

fn find_expired(expired: &Vec<ExpiredLease>, id: &str) -> (r: Option<ExpiredLease>)
    ensures
        r.deep_view() == expired_of(expired.deep_view(), id@),
{
    let ghost all = expired.deep_view();
    let mut n: usize = expired.len();
    assert(all.subrange(0, n as int) =~= all);
    while n > 0
        invariant
            n <= expired@.len(),
            all == expired.deep_view(),
            expired_of(all, id@) == expired_of(all.subrange(0, n as int), id@),
        decreases n,
    {
        proof {
            assert(all.subrange(0, n as int).last() == expired@[n - 1].deep_view());
            assert(all.subrange(0, n as int).drop_last() =~= all.subrange(0, n - 1));
        }
        if same(expired[n - 1].workspace_id.as_str(), id) {
            return Some(copy_expired(&expired[n - 1]));
        }
        n -= 1;
    }
    None
}

/// Repairs the bookmarks and puts the workspace on the pull request, or on its
/// default branch.
pub open spec fn flow_position(
    t: Seq<AnswerView>,
    path: Seq<char>,
    repairs: Seq<Seq<char>>,
    prior: Option<ExpiredLeaseView>,
    main_branch: Seq<char>,
    resume: Option<u64>,
) -> Flow<Option<PrResumeInfoView>> {
    flow_repair(t, path, repairs).and(
        |u: (), t: Seq<AnswerView>|
            match resume {
                Some(n) => flow_resume(t, path, n, prior, main_branch).and(
                    |info: PrResumeInfoView, t: Seq<AnswerView>| Flow::Done(Some(info), t),
                ),
                None => flow_reset(t, path, main_branch, prior).and(
                    |u: (), t: Seq<AnswerView>| Flow::Done(None, t),
                ),
            },
    )
}

fn position(
    tape: &mut Tape,
    path: &str,
    repairs: &Vec<String>,
    prior: &Option<ExpiredLease>,
    main_branch: &str,
    resume: Option<u64>,
) -> (r: Result<Option<PrResumeInfo>, Stop>)
    ensures
        follows(
            r,
            final(tape)@,
            flow_position(
                old(tape)@,
                path@,
                repairs.deep_view(),
                prior.deep_view(),
                main_branch@,
                resume,
            ),
        ),
{
    repair_conflicted_bookmarks(tape, path, repairs)?;
    match resume {
        Some(n) => {
            let info: PrResumeInfo = resume_workspace_on_pr(tape, path, n, prior, main_branch)?;
            Ok(Some(info))
        },
        None => {
            reset_workspace_guarded(tape, path, main_branch, prior)?;
            Ok(None)
        },
    }
}

/// Gives the lease back after `error`; how that goes does not matter.
pub open spec fn flow_give_back<T>(
    t: Seq<AnswerView>,
    lease_id: Seq<char>,
    error: CubeErrorView,
) -> Flow<T> {
    match ask_workspace(
        t,
        ActionView::ReleaseWorkspace { lease_id, reason: Some("lease_setup_failed"@) },
    ) {
        Flow::Done(_, t) => Flow::Failed(error, t),
        Flow::Failed(_, t) => Flow::Failed(error, t),
        Flow::Asks(a) => Flow::Asks(a),
    }
}

/// Puts the workspace in place; where that fails, the lease is given back.
pub open spec fn flow_position_or_release(
    t: Seq<AnswerView>,
    lease_id: Seq<char>,
    path: Seq<char>,
    repairs: Seq<Seq<char>>,
    prior: Option<ExpiredLeaseView>,
    main_branch: Seq<char>,
    resume: Option<u64>,
) -> Flow<Option<PrResumeInfoView>> {
    match flow_position(t, path, repairs, prior, main_branch, resume) {
        Flow::Failed(e, t) => flow_give_back(t, lease_id, e),
        other => other,
    }
}

fn position_or_release(
    tape: &mut Tape,
    lease_id: &str,
    path: &str,
    repairs: &Vec<String>,
    prior: &Option<ExpiredLease>,
    main_branch: &str,
    resume: Option<u64>,
) -> (r: Result<Option<PrResumeInfo>, Stop>)
    ensures
        follows(
            r,
            final(tape)@,
            flow_position_or_release(
                old(tape)@,
                lease_id@,
                path@,
                repairs.deep_view(),
                prior.deep_view(),
                main_branch@,
                resume,
            ),
        ),
{
    match position(tape, path, repairs, prior, main_branch, resume) {
        Err(Stop::Fail(e)) => {
            match tape.ask_workspace(
                Action::ReleaseWorkspace {
                    lease_id: lease_id.to_string(),
                    reason: Some("lease_setup_failed".to_string()),
                },
            ) {
                Err(Stop::Ask(a)) => Err(Stop::Ask(a)),
                _ => Err(Stop::Fail(e)),
            }
        },
        other => other,
    }
}

/// The warning for a directory that went missing while it was being leased.
pub open spec fn vanished_warning(w: WorkspaceRecordView) -> Seq<char> {
    "warning: cube workspace `"@ + w.repo + "/"@ + w.workspace_id
        + "` directory disappeared between reconcile and claim at "@ + w.workspace_path
        + "; dropping the dangling registry row"@
}

/// Gives up on a workspace whose directory went missing.
pub open spec fn flow_vanished<T>(
    t: Seq<AnswerView>,
    ticket: TicketView,
    w: WorkspaceRecordView,
) -> Flow<T> {
    warn(t, vanished_warning(w)).and(
        |u: (), t: Seq<AnswerView>|
            ask_ack(
                t,
                ActionView::Audit(
                    row_event("workspace.dir_missing_reconciled"@, w).text(
                        "prior_state"@,
                        state_name(w.state),
                    ).text("lease_id"@, ticket.lease_id),
                ),
            ).and(
                |u: (), t: Seq<AnswerView>|
                    ask_saved(t, forget(w)).and(
                        |u: (), t: Seq<AnswerView>|
                            Flow::Failed(CubeErrorView::NoAvailableWorkspace(ticket.repo), t),
                    ),
            ),
    )
}

fn vanished<T: DeepView>(tape: &mut Tape, ticket: &Ticket, w: &WorkspaceRecord) -> (r: Result<
    T,
    Stop,
>)
    ensures
        follows(
            r,
            final(tape)@,
            flow_vanished::<T::V>(old(tape)@, ticket.deep_view(), w.deep_view()),
        ),
{
    let head: String = cat(
        cat(
            cat(
                cat("warning: cube workspace `".to_string(), w.repo.as_str()),
                "/",
            ),
            w.workspace_id.as_str(),
        ),
        "` directory disappeared between reconcile and claim at ",
    );
    tape.ask_ack(
        Action::Warn(
            cat(cat(head, w.workspace_path.as_str()), "; dropping the dangling registry row"),
        ),
    )?;
    tape.ask_ack(
        Action::Audit(
            row_audit("workspace.dir_missing_reconciled", w).text("prior_state", w.state.as_str()).text(
                "lease_id",
                ticket.lease_id.as_str(),
            ),
        ),
    )?;
    tape.ask_saved(forget_action(w))?;
    Err(Stop::Fail(CubeError::NoAvailableWorkspace(copy(&ticket.repo))))
}

/// The event for a lease in the ordinary way.
pub open spec fn acquired_event(
    ticket: TicketView,
    w: WorkspaceRecordView,
    resume: Option<PrResumeInfoView>,
) -> AuditEventView {
    lease_event("lease.acquired"@, ticket, w).maybe_count(
        "resume_pr_number"@,
        match resume {
            Some(info) => Some(info.pr_number),
            None => None,
        },
    ).maybe_text(
        "resume_head_branch"@,
        match resume {
            Some(info) => Some(info.head_branch),
            None => None,
        },
    )
}

/// Records the lease and hands the workspace over.
pub open spec fn flow_hand_over(
    t: Seq<AnswerView>,
    ticket: TicketView,
    w: WorkspaceRecordView,
    checks: Seq<HealthCheckView>,
    resume: Option<PrResumeInfoView>,
) -> Flow<RunResultView> {
    flow_record_head(t, ticket.lease_id, w).and(
        |w: WorkspaceRecordView, t: Seq<AnswerView>|
            ask_ack(t, ActionView::Audit(acquired_event(ticket, w, resume))).and(
                |u: (), t: Seq<AnswerView>|
                    flow_ensure_excluded(t, w.workspace_path, w.workspace_id).and(
                        |u: (), t: Seq<AnswerView>|
                            flow_finish_lease(
                                t,
                                lease_line("Leased "@, w, ""@),
                                w,
                                checks,
                                resume,
                            ),
                    ),
            ),
    )
}

fn hand_over(
    tape: &mut Tape,
    ticket: &Ticket,
    w: WorkspaceRecord,
    checks: Vec<HealthCheck>,
    resume: Option<PrResumeInfo>,
) -> (r: Result<RunResult, Stop>)
    ensures
        follows(
            r,
            final(tape)@,
            flow_hand_over(
                old(tape)@,
                ticket.deep_view(),
                w.deep_view(),
                checks.deep_view(),
                resume.deep_view(),
            ),
        ),
{
    let w: WorkspaceRecord = record_head(tape, ticket.lease_id.as_str(), w)?;
    let number: Option<u64> = match &resume {
        Some(info) => Some(info.pr_number),
        None => None,
    };
    let branch: Option<String> = match &resume {
        Some(info) => Some(copy(&info.head_branch)),
        None => None,
    };
    tape.ask_ack(
        Action::Audit(
            lease_audit("lease.acquired", ticket, &w).maybe_count("resume_pr_number", number).maybe_text(
                "resume_head_branch",
                &branch,
            ),
        ),
    )?;
    ensure_boss_infra_excluded(tape, w.workspace_path.as_str(), w.workspace_id.as_str())?;
    let head: String = lease_text("Leased ", &w, "");
    finish_lease(tape, head, w, checks, resume)
}

/// Puts the acquired workspace in place and hands it over.
pub open spec fn flow_settle(
    t: Seq<AnswerView>,
    ticket: TicketView,
    main_branch: Seq<char>,
    expired: Seq<ExpiredLeaseView>,
    resume: Option<u64>,
    got: (WorkspaceRecordView, bool, Seq<Seq<char>>),
    checks: Seq<HealthCheckView>,
) -> Flow<RunResultView> {
    let w = got.0;
    let prior = if got.1 {
        None
    } else {
        expired_of(expired, w.workspace_id)
    };
    ask_flag(t, ActionView::IsDir(w.workspace_path)).and(
        |there: bool, t: Seq<AnswerView>|
            if !there {
                flow_vanished(t, ticket, w)
            } else {
                flow_position_or_release(
                    t,
                    ticket.lease_id,
                    w.workspace_path,
                    got.2,
                    prior,
                    main_branch,
                    resume,
                ).and(
                    |info: Option<PrResumeInfoView>, t: Seq<AnswerView>|
                        flow_hand_over(t, ticket, w, checks, info),
                )
            },
    )
}

/// The free workspaces of a repository.
pub open spec fn free_in(repo: Seq<char>) -> WorkspaceListFilterView {
    WorkspaceListFilterView {
        repo: Some(repo),
        workspace_id: None,
        effective_state: Some(EffectiveState::Free),
        holder_pattern: None,
    }
}

/// Leases a workspace in the ordinary way: a clean one, else one that can be
/// repaired, else a new one.
pub open spec fn flow_lease_clean(
    t: Seq<AnswerView>,
    ticket: TicketView,
    repo: RepoRecordView,
    candidates: Seq<WorkspaceCandidateView>,
    expired: Seq<ExpiredLeaseView>,
    prefer: Option<Seq<char>>,
    resume: Option<u64>,
) -> Flow<RunResultView> {
    ask_workspaces(t, ActionView::ListWorkspaces(free_in(ticket.repo))).and(
        |free: Seq<WorkspaceRecordView>, t: Seq<AnswerView>|
            flow_scan(t, ticket.repo, spec_ordered(free, prefer), ScanView::nothing()).and(
                |scan: ScanView, t: Seq<AnswerView>|
                    flow_acquire(t, ticket, repo, candidates, scan).and(
                        |got: (WorkspaceRecordView, bool, Seq<Seq<char>>), t: Seq<AnswerView>|
                            flow_settle(
                                t,
                                ticket,
                                repo.main_branch,
                                expired,
                                resume,
                                got,
                                scan.checks,
                            ),
                    ),
            ),
    )
}

fn lease_clean(
    tape: &mut Tape,
    ticket: &Ticket,
    repo: &RepoRecord,
    candidates: Vec<WorkspaceCandidate>,
    expired: &Vec<ExpiredLease>,
    prefer: &Option<String>,
    resume: Option<u64>,
) -> (r: Result<RunResult, Stop>)
    ensures
        follows(
            r,
            final(tape)@,
            flow_lease_clean(
                old(tape)@,
                ticket.deep_view(),
                repo.deep_view(),
                candidates.deep_view(),
                expired.deep_view(),
                prefer.deep_view(),
                resume,
            ),
        ),
{
    let free: Vec<WorkspaceRecord> = tape.ask_workspaces(
        Action::ListWorkspaces(
            WorkspaceListFilter {
                repo: Some(copy(&ticket.repo)),
                workspace_id: None,
                effective_state: Some(EffectiveState::Free),
                holder_pattern: None,
            },
        ),
    )?;
    let ordered: Vec<WorkspaceRecord> = order_free(&free, prefer);
    let scan: Scan = scan_free(tape, ticket.repo.as_str(), &ordered)?;
    let got: (WorkspaceRecord, bool, Vec<String>) = acquire(
        tape,
        ticket,
        repo,
        candidates,
        &scan,
    )?;
    let w: WorkspaceRecord = got.0;
    let there: bool = tape.ask_flag(Action::IsDir(copy(&w.workspace_path)))?;
    if !there {
        return vanished(tape, ticket, &w);
    }
    let prior: Option<ExpiredLease> = if got.1 {
        None
    } else {
        find_expired(expired, w.workspace_id.as_str())
    };
    let info: Option<PrResumeInfo> = position_or_release(
        tape,
        ticket.lease_id.as_str(),
        w.workspace_path.as_str(),
        &got.2,
        &prior,
        repo.main_branch.as_str(),
        resume,
    )?;
    hand_over(tape, ticket, w, scan.checks, info)
}

// ---------------------------------------------------------------------------
// The command
// ---------------------------------------------------------------------------

/// The event for a lease that was taken back.
pub open spec fn expired_event(repo: Seq<char>, e: ExpiredLeaseView) -> AuditEventView {
    AuditEventView::named("lease.expired_reclaimed"@).text("repo"@, repo).text(
        "workspace_id"@,
        e.workspace_id,
    ).text("prior_lease_id"@, e.lease_id).maybe_text("prior_holder"@, e.holder).maybe_text(
        "prior_task"@,
        e.task,
    ).maybe_int("prior_leased_at_epoch_s"@, e.leased_at_epoch_s).maybe_int(
        "prior_lease_expires_at_epoch_s"@,
        e.lease_expires_at_epoch_s,
    )
}

pub open spec fn flow_note_expired(
    t: Seq<AnswerView>,
    repo: Seq<char>,
    expired: Seq<ExpiredLeaseView>,
) -> Flow<()>
    decreases expired.len(),
{
    if expired.len() == 0 {
        Flow::Done((), t)
    } else {
        ask_ack(t, ActionView::Audit(expired_event(repo, expired[0]))).and(
            |u: (), t: Seq<AnswerView>| flow_note_expired(t, repo, expired.drop_first()),
        )
    }
}

fn note_expired(tape: &mut Tape, repo: &str, expired: &Vec<ExpiredLease>) -> (r: Result<(), Stop>)
    ensures
        follows(r, final(tape)@, flow_note_expired(old(tape)@, repo@, expired.deep_view())),
{
    let ghost whole = expired.deep_view();
    let ghost flow = flow_note_expired(tape@, repo@, whole);
    let mut i: usize = 0;
    assert(whole.subrange(0, whole.len() as int) =~= whole);
    while i < expired.len()
        invariant
            i <= expired@.len(),
            whole == expired.deep_view(),
            flow == flow_note_expired(old(tape)@, repo@, expired.deep_view()),
            flow == flow_note_expired(
                tape@,
                repo@,
                whole.subrange(i as int, whole.len() as int),
            ),
        decreases expired@.len() - i,
    {
        let e: &ExpiredLease = &expired[i];
        proof {
            let rest = whole.subrange(i as int, whole.len() as int);
            assert(rest[0] == e.deep_view());
            assert(rest.drop_first() =~= whole.subrange(i + 1, whole.len() as int));
        }
        tape.ask_ack(
            Action::Audit(
                AuditEvent::named("lease.expired_reclaimed").text("repo", repo).text(
                    "workspace_id",
                    e.workspace_id.as_str(),
                ).text("prior_lease_id", e.lease_id.as_str()).maybe_text(
                    "prior_holder",
                    &e.holder,
                ).maybe_text("prior_task", &e.task).maybe_int(
                    "prior_leased_at_epoch_s",
                    e.leased_at_epoch_s,
                ).maybe_int("prior_lease_expires_at_epoch_s", e.lease_expires_at_epoch_s),
            ),
        )?;
        i += 1;
    }
    Ok(())
}

/// The pool brought up to date: the directories found, and the leases that were
/// past their expiry taken back.
pub open spec fn flow_refresh(t: Seq<AnswerView>, repo: RepoRecordView, name: Seq<char>, now: i64) -> Flow<
    (Seq<WorkspaceCandidateView>, Seq<ExpiredLeaseView>),
> {
    flow_discover(t, repo).and(
        |candidates: Seq<WorkspaceCandidateView>, t: Seq<AnswerView>|
            ask_saved(t, ActionView::SyncWorkspaces { repo: name, candidates }).and(
                |u: (), t: Seq<AnswerView>|
                    ask_expired(
                        t,
                        ActionView::ExpireStaleLeases { repo: name, now_epoch_s: now },
                    ).and(
                        |expired: Seq<ExpiredLeaseView>, t: Seq<AnswerView>|
                            flow_note_expired(t, name, expired).and(
                                |u: (), t: Seq<AnswerView>|
                                    flow_reconcile_repo(t, name, now).and(
                                        |report: ReconcileReportView, t: Seq<AnswerView>|
                                            Flow::Done((candidates, expired), t),
                                    ),
                            ),
                    ),
            ),
    )
}

fn refresh(tape: &mut Tape, repo: &RepoRecord, name: &str, now: i64) -> (r: Result<
    (Vec<WorkspaceCandidate>, Vec<ExpiredLease>),
    Stop,
>)
    ensures
        follows(r, final(tape)@, flow_refresh(old(tape)@, repo.deep_view(), name@, now)),
{
    let candidates: Vec<WorkspaceCandidate> = discover_workspaces(tape, repo)?;
    tape.ask_saved(
        Action::SyncWorkspaces { repo: name.to_string(), candidates: copy_candidates(&candidates) },
    )?;
    let expired: Vec<ExpiredLease> = tape.ask_expired(
        Action::ExpireStaleLeases { repo: name.to_string(), now_epoch_s: now },
    )?;
    note_expired(tape, name, &expired)?;
    reconcile_missing_workspaces_in_repo(tape, name, now)?;
    Ok((candidates, expired))
}

/// What a lease is asked for with.
#[derive(Debug, Clone, PartialEq, Eq)]
pub struct LeaseArgs {
    pub repo: String,
    pub task: String,
    pub prefer: Option<String>,
    pub allow_dirty: bool,
    pub resume_pr: Option<u64>,
}

#[verifier::ext_equal]
pub ghost struct LeaseArgsView {
    pub repo: Seq<char>,
    pub task: Seq<char>,
    pub prefer: Option<Seq<char>>,
    pub allow_dirty: bool,
    pub resume_pr: Option<u64>,
}

impl DeepView for LeaseArgs {
    type V = LeaseArgsView;

    open spec fn deep_view(&self) -> LeaseArgsView {
        LeaseArgsView {
            repo: self.repo@,
            task: self.task@,
            prefer: self.prefer.deep_view(),
            allow_dirty: self.allow_dirty,
            resume_pr: self.resume_pr,
        }
    }
}

/// The repository record, or the failure that there is none.
pub open spec fn flow_known_repo(t: Seq<AnswerView>, repo: Seq<char>) -> Flow<RepoRecordView> {
    ask_repo(t, ActionView::GetRepo(repo)).and(
        |found: Option<RepoRecordView>, t: Seq<AnswerView>|
            match found {
                Some(record) => Flow::Done(record, t),
                None => Flow::Failed(CubeErrorView::RepoNotFound(repo), t),
            },
    )
}

pub fn known_repo(tape: &mut Tape, repo: &str) -> (r: Result<RepoRecord, Stop>)
    ensures
        follows(r, final(tape)@, flow_known_repo(old(tape)@, repo@)),
{
    match tape.ask_repo(Action::GetRepo(repo.to_string()))? {
        Some(record) => Ok(record),
        None => Err(Stop::Fail(CubeError::RepoNotFound(repo.to_string()))),
    }
}

/// Leases a workspace: brings the pool up to date under the repository's lock, and
/// takes the preferred workspace as it is where that is asked for, or leases in the
/// ordinary way.
pub open spec fn flow_lease(t: Seq<AnswerView>, args: LeaseArgsView) -> Flow<RunResultView> {
    flow_known_repo(t, args.repo).and(
        |repo: RepoRecordView, t: Seq<AnswerView>|
            ask_time(t, ActionView::Clock).and(
                |now: i64, t: Seq<AnswerView>|
                    flow_trigger_gc(t, now).and(
                        |u: (), t: Seq<AnswerView>|
                            ask_saved(t, ActionView::Lock(args.repo)).and(
                                |u: (), t: Seq<AnswerView>|
                                    flow_refresh(t, repo, args.repo, now).and(
                                        |
                                            pool: (
                                                Seq<WorkspaceCandidateView>,
                                                Seq<ExpiredLeaseView>,
                                            ),
                                            t: Seq<AnswerView>,
                                        | flow_lease_from(t, args, repo, now, pool.0, pool.1),
                                    ),
                            ),
                    ),
            ),
    )
}

/// Leases from a pool that is up to date.
pub open spec fn flow_lease_from(
    t: Seq<AnswerView>,
    args: LeaseArgsView,
    repo: RepoRecordView,
    now: i64,
    candidates: Seq<WorkspaceCandidateView>,
    expired: Seq<ExpiredLeaseView>,
) -> Flow<RunResultView> {
    ask_name(t, ActionView::FreshId).and(
        |lease_id: Seq<char>, t: Seq<AnswerView>|
            ask_name(t, ActionView::Holder).and(
                |holder: Seq<char>, t: Seq<AnswerView>|
                    {
                        let ticket = TicketView {
                            repo: args.repo,
                            task: args.task,
                            holder,
                            lease_id,
                            now_epoch_s: now,
                        };
                        if args.allow_dirty {
                            flow_lease_dirty(t, ticket, args.prefer->0)
                        } else {
                            flow_lease_clean(
                                t,
                                ticket,
                                repo,
                                candidates,
                                expired,
                                args.prefer,
                                args.resume_pr,
                            )
                        }
                    },
            ),
    )
}

/// Leases a workspace. Taking one as it is needs its name.
pub fn lease_workspace(tape: &mut Tape, args: LeaseArgs) -> (r: Result<RunResult, Stop>)
    requires
        args.allow_dirty ==> args.prefer is Some,
    ensures
        follows(r, final(tape)@, flow_lease(old(tape)@, args.deep_view())),
{
    let repo: RepoRecord = known_repo(tape, args.repo.as_str())?;
    let now: i64 = tape.ask_time(Action::Clock)?;
    maybe_trigger_pool_gc(tape, now)?;
    tape.ask_saved(Action::Lock(copy(&args.repo)))?;
    let pool: (Vec<WorkspaceCandidate>, Vec<ExpiredLease>) = refresh(
        tape,
        &repo,
        args.repo.as_str(),
        now,
    )?;
    let lease_id: String = tape.ask_name(Action::FreshId)?;
    let holder: String = tape.ask_name(Action::Holder)?;
    let ticket: Ticket = Ticket {
        repo: copy(&args.repo),
        task: copy(&args.task),
        holder,
        lease_id,
        now_epoch_s: now,
    };
    if args.allow_dirty {
        if let Some(id) = &args.prefer {
            return lease_dirty(tape, &ticket, id.as_str());
        }
    }
    lease_clean(tape, &ticket, &repo, pool.0, &pool.1, &args.prefer, args.resume_pr)
}

} // verus!
