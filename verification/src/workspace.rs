//! The commands on workspaces other than leasing one.

use vstd::prelude::*;

use crate::cli::{WorkspaceCommand, WorkspaceCommandView};
use crate::error::{CubeError, CubeErrorView};
use crate::events::{AuditEvent, AuditEventView};
use crate::flow::{
    ask_ack, ask_done, ask_flag, ask_place, ask_saved, ask_time, ask_workspace, ask_workspaces,
    follows, Action, ActionView, AnswerView, Flow, IoFaultView, Stop, Tape,
};
use crate::gc::{flow_gc_bookmarks, gc_workspace_bookmarks};
use crate::jj::{flow_run_jj, jj, run_jj, spec_jj};
use crate::lease::{
    flow_known_repo, flow_lease, known_repo, lease_workspace, LeaseArgs, LeaseArgsView,
    DEFAULT_LEASE_TTL_SECS,
};
use crate::number::{decimal, signed, spec_decimal, spec_signed, wide_decimal};
use crate::pool::{find_workspace_record, flow_find_workspace};
use crate::pool_gc::{plus, spec_plus, warn};
use crate::reconcile::{
    flow_reconcile, forget, forget_action, missing_at, missing_text, reconcile_missing_workspaces,
    row_audit, row_event,
};
use crate::records::{
    effective_from_name, filter, spec_filter, state_name, EffectiveState, ReconcileReport,
    ReconcileReportView, RepoRecord, RepoRecordView, SetupReport, SetupStepView,
    WorkspaceListFilter, WorkspaceListFilterView, WorkspaceRecord, WorkspaceRecordView,
    WorkspaceState,
};
use crate::render::{
    format_workspace_list, human_workspace_detail, spec_workspace_detail, spec_workspace_list,
};
use crate::report::{
    spec_result, Payload, PayloadView, RunResult, RunResultView, WorkspaceGcResult,
    WorkspaceGcResultView,
};
use crate::reset::{flow_reset, reset_workspace};
use crate::setup::{
    flow_setup, format_setup_message, run_setup_for_workspace, spec_setup_message,
};
use crate::split::{join, spec_join};
use crate::text::{cat, copy, copy_opt, list1};

verus! {

// ---------------------------------------------------------------------------
// Which lease
// ---------------------------------------------------------------------------

/// The repositories of the rows.
pub open spec fn repos_of(rows: Seq<WorkspaceRecordView>) -> Seq<Seq<char>> {
    Seq::new(rows.len(), |i: int| rows[i].repo)
}

/// The failure for an id that more than one repository has.
pub open spec fn ambiguous(id: Seq<char>, rows: Seq<WorkspaceRecordView>) -> CubeErrorView {
    CubeErrorView::InvalidArgument(
        "workspace id `"@ + id + "` matches multiple repos ("@ + spec_join(repos_of(rows), ", "@)
            + "); disambiguate with --repo"@,
    )
}

fn ambiguous_error(id: &str, rows: &Vec<WorkspaceRecord>) -> (r: CubeError)
    ensures
        r.deep_view() == ambiguous(id@, rows.deep_view()),
{
    let mut repos: Vec<String> = Vec::new();
    let mut i: usize = 0;
    while i < rows.len()
        invariant
            i <= rows@.len(),
            repos@.len() == i,
            forall|j: int| 0 <= j < i ==> #[trigger] repos@[j]@ == rows@[j].repo@,
        decreases rows@.len() - i,
    {
        repos.push(copy(&rows[i].repo));
        i += 1;
    }
    assert(repos.deep_view() =~= repos_of(rows.deep_view()));
    CubeError::InvalidArgument(
        cat(
            cat(
                cat(cat("workspace id `".to_string(), id), "` matches multiple repos ("),
                join(&repos, ", ").as_str(),
            ),
            "); disambiguate with --repo",
        ),
    )
}

/// The lease to release: the one given, or that of the workspace given.
pub open spec fn flow_resolve_lease(
    t: Seq<AnswerView>,
    workspace: Option<Seq<char>>,
    lease: Option<Seq<char>>,
    repo: Option<Seq<char>>,
) -> Flow<Seq<char>> {
    match (lease, workspace) {
        (Some(lease), _) => Flow::Done(lease, t),
        (None, None) => Flow::Failed(
            CubeErrorView::InvalidArgument(
                "release requires a workspace id positional or --lease"@,
            ),
            t,
        ),
        (None, Some(id)) => ask_workspaces(
            t,
            ActionView::ListWorkspaces(spec_filter(repo, Some(id))),
        ).and(
            |rows: Seq<WorkspaceRecordView>, t: Seq<AnswerView>|
                if rows.len() == 0 {
                    Flow::Failed(CubeErrorView::WorkspaceNotFound(id), t)
                } else if rows.len() > 1 {
                    Flow::Failed(ambiguous(id, rows), t)
                } else {
                    match rows[0].lease_id {
                        Some(lease) => Flow::Done(lease, t),
                        None => Flow::Failed(
                            CubeErrorView::InvalidArgument(
                                "workspace `"@ + rows[0].repo + "/"@ + rows[0].workspace_id
                                    + "` is not currently leased"@,
                            ),
                            t,
                        ),
                    }
                },
        ),
    }
}

pub fn resolve_release_lease(
    tape: &mut Tape,
    workspace: &Option<String>,
    lease: &Option<String>,
    repo: &Option<String>,
) -> (r: Result<String, Stop>)
    ensures
        follows(
            r,
            final(tape)@,
            flow_resolve_lease(
                old(tape)@,
                workspace.deep_view(),
                lease.deep_view(),
                repo.deep_view(),
            ),
        ),
{
    if let Some(lease) = lease {
        return Ok(copy(lease));
    }
    let id: &String = match workspace {
        Some(id) => id,
        None => {
            return Err(
                Stop::Fail(
                    CubeError::InvalidArgument(
                        "release requires a workspace id positional or --lease".to_string(),
                    ),
                ),
            );
        },
    };
    let rows: Vec<WorkspaceRecord> = tape.ask_workspaces(
        Action::ListWorkspaces(filter(copy_opt(repo), Some(copy(id)))),
    )?;
    if rows.len() == 0 {
        return Err(Stop::Fail(CubeError::WorkspaceNotFound(copy(id))));
    }
    if rows.len() > 1 {
        return Err(Stop::Fail(ambiguous_error(id.as_str(), &rows)));
    }
    assert(rows.deep_view()[0] == rows@[0].deep_view());
    match &rows[0].lease_id {
        Some(lease) => Ok(copy(lease)),
        None => Err(
            Stop::Fail(
                CubeError::InvalidArgument(
                    cat(
                        cat(
                            cat(
                                cat("workspace `".to_string(), rows[0].repo.as_str()),
                                "/",
                            ),
                            rows[0].workspace_id.as_str(),
                        ),
                        "` is not currently leased",
                    ),
                ),
            ),
        ),
    }
}

/// The workspace that an answer about a lease is on, or the failure that there is
/// no such lease.
pub open spec fn of_lease(
    found: Flow<Option<WorkspaceRecordView>>,
    lease: Seq<char>,
) -> Flow<WorkspaceRecordView> {
    found.and(
        |w: Option<WorkspaceRecordView>, t: Seq<AnswerView>|
            match w {
                Some(w) => Flow::Done(w, t),
                None => Flow::Failed(CubeErrorView::LeaseNotFound(lease), t),
            },
    )
}

fn ask_lease(tape: &mut Tape, action: Action, lease: &str) -> (r: Result<WorkspaceRecord, Stop>)
    ensures
        follows(
            r,
            final(tape)@,
            of_lease(ask_workspace(old(tape)@, action.deep_view()), lease@),
        ),
{
    match tape.ask_workspace(action)? {
        Some(w) => Ok(w),
        None => Err(Stop::Fail(CubeError::LeaseNotFound(lease.to_string()))),
    }
}

// ---------------------------------------------------------------------------
// Release
// ---------------------------------------------------------------------------

/// Drops the row of a workspace whose directory is gone: there is nothing to
/// release.
pub open spec fn flow_release_gone(
    t: Seq<AnswerView>,
    lease: Seq<char>,
    w: WorkspaceRecordView,
) -> Flow<RunResultView> {
    warn(
        t,
        missing_at(w)
            + "; removing the dangling registry row instead of running release reset"@,
    ).and(
        |u: (), t: Seq<AnswerView>|
            ask_ack(
                t,
                ActionView::Audit(
                    row_event("workspace.dir_missing_reconciled"@, w).text(
                        "prior_state"@,
                        state_name(w.state),
                    ).text("lease_id"@, lease),
                ),
            ).and(
                |u: (), t: Seq<AnswerView>|
                    ask_saved(t, forget(w)).and(
                        |u: (), t: Seq<AnswerView>|
                            Flow::Failed(CubeErrorView::LeaseNotFound(lease), t),
                    ),
            ),
    )
}

fn release_gone(tape: &mut Tape, lease: &str, w: &WorkspaceRecord) -> (r: Result<RunResult, Stop>)
    ensures
        follows(r, final(tape)@, flow_release_gone(old(tape)@, lease@, w.deep_view())),
{
    tape.ask_ack(
        Action::Warn(
            cat(
                missing_text(w),
                "; removing the dangling registry row instead of running release reset",
            ),
        ),
    )?;
    tape.ask_ack(
        Action::Audit(
            row_audit("workspace.dir_missing_reconciled", w).text("prior_state", w.state.as_str()).text(
                "lease_id",
                lease,
            ),
        ),
    )?;
    tape.ask_saved(forget_action(w))?;
    Err(Stop::Fail(CubeError::LeaseNotFound(lease.to_string())))
}

/// Cleans up the bookmarks of a workspace on its release; that it fails is only
/// worth a warning.
pub open spec fn flow_release_gc(t: Seq<AnswerView>, w: WorkspaceRecordView) -> Flow<()> {
    match flow_gc_bookmarks(t, w.workspace_path, false, false) {
        Flow::Done(forgotten, t) => if forgotten.len() > 0 {
            warn(
                t,
                "cube: release gc: "@ + spec_decimal(forgotten.len())
                    + " consumed bookmark(s) forgotten in "@ + w.workspace_id,
            )
        } else {
            Flow::Done((), t)
        },
        Flow::Failed(e, t) => warn(
            t,
            "warning: bookmark gc on release of "@ + w.workspace_id + " failed: "@ + e.message(),
        ),
        Flow::Asks(a) => Flow::Asks(a),
    }
}

fn release_gc(tape: &mut Tape, w: &WorkspaceRecord) -> (r: Result<(), Stop>)
    ensures
        follows(r, final(tape)@, flow_release_gc(old(tape)@, w.deep_view())),
{
    let id: &str = w.workspace_id.as_str();
    match gc_workspace_bookmarks(tape, w.workspace_path.as_str(), false, false) {
        Ok(forgotten) => {
            if forgotten.len() > 0 {
                let head: String = cat(
                    cat(
                        "cube: release gc: ".to_string(),
                        decimal(forgotten.len() as u64).as_str(),
                    ),
                    " consumed bookmark(s) forgotten in ",
                );
                tape.ask_ack(Action::Warn(cat(head, id)))
            } else {
                Ok(())
            }
        },
        Err(Stop::Fail(e)) => {
            let head: String = cat(
                cat("warning: bookmark gc on release of ".to_string(), id),
                " failed: ",
            );
            tape.ask_ack(Action::Warn(cat(head, e.message().as_str())))
        },
        Err(stop) => Err(stop),
    }
}

/// Resets a workspace that is being released, unless it is to be kept as it is.
pub open spec fn flow_clean_for_release(
    t: Seq<AnswerView>,
    w: WorkspaceRecordView,
    keep_dirty: bool,
) -> Flow<()> {
    if keep_dirty {
        Flow::Done((), t)
    } else {
        flow_known_repo(t, w.repo).and(
            |repo: RepoRecordView, t: Seq<AnswerView>|
                flow_reset(t, w.workspace_path, repo.main_branch, None).and(
                    |u: (), t: Seq<AnswerView>| flow_release_gc(t, w),
                ),
        )
    }
}

fn clean_for_release(tape: &mut Tape, w: &WorkspaceRecord, keep_dirty: bool) -> (r: Result<
    (),
    Stop,
>)
    ensures
        follows(
            r,
            final(tape)@,
            flow_clean_for_release(old(tape)@, w.deep_view(), keep_dirty),
        ),
{
    if keep_dirty {
        return Ok(());
    }
    let repo: RepoRecord = known_repo(tape, w.repo.as_str())?;
    reset_workspace(tape, w.workspace_path.as_str(), repo.main_branch.as_str())?;
    release_gc(tape, w)
}

/// Gives the slot back and reports it.
pub open spec fn flow_release_slot(
    t: Seq<AnswerView>,
    lease: Seq<char>,
    reason: Option<Seq<char>>,
    keep_dirty: bool,
) -> Flow<RunResultView> {
    of_lease(
        ask_workspace(t, ActionView::ReleaseWorkspace { lease_id: lease, reason }),
        lease,
    ).and(
        |w: WorkspaceRecordView, t: Seq<AnswerView>|
            ask_ack(
                t,
                ActionView::Audit(
                    AuditEventView::named("lease.released"@).text("repo"@, w.repo).text(
                        "workspace_id"@,
                        w.workspace_id,
                    ).text("lease_id"@, lease).maybe_text("reason"@, reason).flag(
                        "keep_dirty"@,
                        keep_dirty,
                    ),
                ),
            ).and(
                |u: (), t: Seq<AnswerView>|
                    Flow::Done(
                        spec_result(
                            "Released "@ + w.workspace_id + (if keep_dirty {
                                " (kept dirty)."@
                            } else {
                                "."@
                            }),
                            PayloadView::Workspace(w),
                        ),
                        t,
                    ),
            ),
    )
}

fn release_slot(tape: &mut Tape, lease: &str, reason: &Option<String>, keep_dirty: bool) -> (r:
    Result<RunResult, Stop>)
    ensures
        follows(
            r,
            final(tape)@,
            flow_release_slot(old(tape)@, lease@, reason.deep_view(), keep_dirty),
        ),
{
    let w: WorkspaceRecord = ask_lease(
        tape,
        Action::ReleaseWorkspace { lease_id: lease.to_string(), reason: copy_opt(reason) },
        lease,
    )?;
    tape.ask_ack(
        Action::Audit(
            AuditEvent::named("lease.released").text("repo", w.repo.as_str()).text(
                "workspace_id",
                w.workspace_id.as_str(),
            ).text("lease_id", lease).maybe_text("reason", reason).flag("keep_dirty", keep_dirty),
        ),
    )?;
    let how: &str = if keep_dirty {
        " (kept dirty)."
    } else {
        "."
    };
    let message: String = cat(
        cat("Released ".to_string(), w.workspace_id.as_str()),
        how,
    );
    Ok(RunResult::new(message, Payload::Workspace(w)))
}

/// Releases a lease, with a reset of the workspace unless it is to be kept as it
/// is.
pub open spec fn flow_release(
    t: Seq<AnswerView>,
    workspace: Option<Seq<char>>,
    lease: Option<Seq<char>>,
    repo: Option<Seq<char>>,
    reason: Option<Seq<char>>,
    keep_dirty: bool,
) -> Flow<RunResultView> {
    flow_resolve_lease(t, workspace, lease, repo).and(
        |lease: Seq<char>, t: Seq<AnswerView>|
            of_lease(ask_workspace(t, ActionView::WorkspaceByLease(lease)), lease).and(
                |w: WorkspaceRecordView, t: Seq<AnswerView>|
                    ask_saved(t, ActionView::Lock(w.repo)).and(
                        |u: (), t: Seq<AnswerView>|
                            ask_flag(t, ActionView::IsDir(w.workspace_path)).and(
                                |there: bool, t: Seq<AnswerView>|
                                    if !there {
                                        flow_release_gone(t, lease, w)
                                    } else {
                                        flow_clean_for_release(t, w, keep_dirty).and(
                                            |u: (), t: Seq<AnswerView>|
                                                flow_release_slot(t, lease, reason, keep_dirty),
                                        )
                                    },
                            ),
                    ),
            ),
    )
}

fn release(
    tape: &mut Tape,
    workspace: &Option<String>,
    lease: &Option<String>,
    repo: &Option<String>,
    reason: &Option<String>,
    keep_dirty: bool,
) -> (r: Result<RunResult, Stop>)
    ensures
        follows(
            r,
            final(tape)@,
            flow_release(
                old(tape)@,
                workspace.deep_view(),
                lease.deep_view(),
                repo.deep_view(),
                reason.deep_view(),
                keep_dirty,
            ),
        ),
{
    let lease: String = resolve_release_lease(tape, workspace, lease, repo)?;
    let w: WorkspaceRecord = ask_lease(
        tape,
        Action::WorkspaceByLease(copy(&lease)),
        lease.as_str(),
    )?;
    tape.ask_saved(Action::Lock(copy(&w.repo)))?;
    let there: bool = tape.ask_flag(Action::IsDir(copy(&w.workspace_path)))?;
    if !there {
        return release_gone(tape, lease.as_str(), &w);
    }
    clean_for_release(tape, &w, keep_dirty)?;
    release_slot(tape, lease.as_str(), reason, keep_dirty)
}

/// Releases a lease without touching the workspace.
pub open spec fn flow_force_release(
    t: Seq<AnswerView>,
    workspace: Option<Seq<char>>,
    lease: Option<Seq<char>>,
    repo: Option<Seq<char>>,
    reason: Option<Seq<char>>,
) -> Flow<RunResultView> {
    let why = match reason {
        Some(r) => r,
        None => "force-released"@,
    };
    flow_resolve_lease(t, workspace, lease, repo).and(
        |lease: Seq<char>, t: Seq<AnswerView>|
            of_lease(ask_workspace(t, ActionView::WorkspaceByLease(lease)), lease).and(
                |w: WorkspaceRecordView, t: Seq<AnswerView>|
                    ask_saved(t, ActionView::Lock(w.repo)).and(
                        |u: (), t: Seq<AnswerView>|
                            of_lease(
                                ask_workspace(
                                    t,
                                    ActionView::ForceRelease { lease_id: lease, reason: why },
                                ),
                                lease,
                            ).and(
                                |w: WorkspaceRecordView, t: Seq<AnswerView>|
                                    flow_force_released(t, lease, why, w),
                            ),
                    ),
            ),
    )
}

pub open spec fn flow_force_released(
    t: Seq<AnswerView>,
    lease: Seq<char>,
    why: Seq<char>,
    w: WorkspaceRecordView,
) -> Flow<RunResultView> {
    ask_ack(
        t,
        ActionView::Audit(
            AuditEventView::named("lease.force_released"@).text("repo"@, w.repo).text(
                "workspace_id"@,
                w.workspace_id,
            ).text("lease_id"@, lease).text("reason"@, why),
        ),
    ).and(
        |u: (), t: Seq<AnswerView>|
            Flow::Done(
                spec_result(
                    "Force-released "@ + w.workspace_id + " (workspace not reset)."@,
                    PayloadView::Workspace(w),
                ),
                t,
            ),
    )
}

fn force_release(
    tape: &mut Tape,
    workspace: &Option<String>,
    lease: &Option<String>,
    repo: &Option<String>,
    reason: &Option<String>,
) -> (r: Result<RunResult, Stop>)
    ensures
        follows(
            r,
            final(tape)@,
            flow_force_release(
                old(tape)@,
                workspace.deep_view(),
                lease.deep_view(),
                repo.deep_view(),
                reason.deep_view(),
            ),
        ),
{
    let lease: String = resolve_release_lease(tape, workspace, lease, repo)?;
    let w: WorkspaceRecord = ask_lease(
        tape,
        Action::WorkspaceByLease(copy(&lease)),
        lease.as_str(),
    )?;
    tape.ask_saved(Action::Lock(w.repo))?;
    let why: String = match reason {
        Some(r) => copy(r),
        None => "force-released".to_string(),
    };
    let w: WorkspaceRecord = ask_lease(
        tape,
        Action::ForceRelease { lease_id: copy(&lease), reason: copy(&why) },
        lease.as_str(),
    )?;
    tape.ask_ack(
        Action::Audit(
            AuditEvent::named("lease.force_released").text("repo", w.repo.as_str()).text(
                "workspace_id",
                w.workspace_id.as_str(),
            ).text("lease_id", lease.as_str()).text("reason", why.as_str()),
        ),
    )?;
    let message: String = cat(
        cat("Force-released ".to_string(), w.workspace_id.as_str()),
        " (workspace not reset).",
    );
    Ok(RunResult::new(message, Payload::Workspace(w)))
}

// ---------------------------------------------------------------------------
// Heartbeat
// ---------------------------------------------------------------------------

/// A number of seconds as a signed number; one too large for it wraps round.
pub open spec fn seconds(s: u64) -> i64 {
    if s <= i64::MAX {
        s as i64
    } else {
        (s - 0x1_0000_0000_0000_0000) as i64
    }
}

fn as_seconds(s: u64) -> (r: i64)
    ensures
        r == seconds(s),
{
    if s <= 0x7fff_ffff_ffff_ffff {
        s as i64
    } else {
        let below: u64 = u64::MAX - s;
        -(below as i64) - 1
    }
}

/// Moves the expiry of a lease.
pub open spec fn flow_heartbeat(
    t: Seq<AnswerView>,
    lease: Seq<char>,
    ttl_seconds: Option<u64>,
) -> Flow<RunResultView> {
    let ttl = match ttl_seconds {
        Some(s) => seconds(s),
        None => DEFAULT_LEASE_TTL_SECS,
    };
    ask_time(t, ActionView::Clock).and(
        |now: i64, t: Seq<AnswerView>|
            {
                let expiry = spec_plus(now, ttl);
                of_lease(
                    ask_workspace(
                        t,
                        ActionView::HeartbeatLease { lease_id: lease, expires_at_epoch_s: expiry },
                    ),
                    lease,
                ).and(
                    |w: WorkspaceRecordView, t: Seq<AnswerView>|
                        Flow::Done(
                            spec_result(
                                "Heartbeat lease "@ + lease + "; new expiry "@ + spec_signed(
                                    expiry as int,
                                ) + " (in "@ + spec_signed(ttl as int) + "s)."@,
                                PayloadView::Workspace(w),
                            ),
                            t,
                        ),
                )
            },
    )
}

fn heartbeat(tape: &mut Tape, lease: &str, ttl_seconds: Option<u64>) -> (r: Result<
    RunResult,
    Stop,
>)
    ensures
        follows(r, final(tape)@, flow_heartbeat(old(tape)@, lease@, ttl_seconds)),
{
    let now: i64 = tape.ask_time(Action::Clock)?;
    let ttl: i64 = match ttl_seconds {
        Some(s) => as_seconds(s),
        None => DEFAULT_LEASE_TTL_SECS,
    };
    let expiry: i64 = plus(now, ttl);
    let w: WorkspaceRecord = ask_lease(
        tape,
        Action::HeartbeatLease { lease_id: lease.to_string(), expires_at_epoch_s: expiry },
        lease,
    )?;
    let head: String = cat(
        cat(cat("Heartbeat lease ".to_string(), lease), "; new expiry "),
        signed(expiry).as_str(),
    );
    let message: String = cat(cat(cat(head, " (in "), signed(ttl).as_str()), "s).");
    Ok(RunResult::new(message, Payload::Workspace(w)))
}

// ---------------------------------------------------------------------------
// Status, setup, list
// ---------------------------------------------------------------------------

/// The registered workspace at the path, or the failure that there is none.
pub open spec fn flow_known_workspace(t: Seq<AnswerView>, path: Seq<char>) -> Flow<
    WorkspaceRecordView,
> {
    flow_find_workspace(t, path).and(
        |found: Option<WorkspaceRecordView>, t: Seq<AnswerView>|
            match found {
                Some(w) => Flow::Done(w, t),
                None => Flow::Failed(CubeErrorView::WorkspaceNotFound(path), t),
            },
    )
}

pub fn known_workspace(tape: &mut Tape, path: &str) -> (r: Result<WorkspaceRecord, Stop>)
    ensures
        follows(r, final(tape)@, flow_known_workspace(old(tape)@, path@)),
{
    match find_workspace_record(tape, path)? {
        Some(w) => Ok(w),
        None => Err(Stop::Fail(CubeError::WorkspaceNotFound(path.to_string()))),
    }
}

pub open spec fn flow_status(t: Seq<AnswerView>, path: Seq<char>) -> Flow<RunResultView> {
    flow_known_workspace(t, path).and(
        |w: WorkspaceRecordView, t: Seq<AnswerView>|
            flow_run_jj(t, spec_jj(path, seq!["status"@])).and(
                |status: Seq<char>, t: Seq<AnswerView>|
                    ask_place(t, ActionView::HomeDir).and(
                        |home: Option<Seq<char>>, t: Seq<AnswerView>|
                            Flow::Done(
                                RunResultView {
                                    message: spec_workspace_detail(w, status, home),
                                    payload: PayloadView::Status {
                                        workspace: w,
                                        jj_status: status,
                                    },
                                },
                                t,
                            ),
                    ),
            ),
    )
}

fn status(tape: &mut Tape, path: &str) -> (r: Result<RunResult, Stop>)
    ensures
        follows(r, final(tape)@, flow_status(old(tape)@, path@)),
{
    let workspace: WorkspaceRecord = known_workspace(tape, path)?;
    let jj_status: String = run_jj(tape, &jj(path, list1("status")))?;
    let home: Option<String> = tape.ask_place(Action::HomeDir)?;
    let message: Vec<crate::report::Span> = human_workspace_detail(
        &workspace,
        jj_status.as_str(),
        &home,
    );
    Ok(RunResult { message, payload: Payload::Status { workspace, jj_status } })
}

pub open spec fn flow_set_up(t: Seq<AnswerView>, path: Seq<char>) -> Flow<RunResultView> {
    flow_known_workspace(t, path).and(
        |w: WorkspaceRecordView, t: Seq<AnswerView>|
            flow_setup(t, w).and(
                |steps: Seq<SetupStepView>, t: Seq<AnswerView>|
                    Flow::Done(
                        spec_result(
                            spec_setup_message(w.workspace_id, steps),
                            PayloadView::Setup { workspace: w, setup: steps },
                        ),
                        t,
                    ),
            ),
    )
}

fn set_up(tape: &mut Tape, path: &str) -> (r: Result<RunResult, Stop>)
    ensures
        follows(r, final(tape)@, flow_set_up(old(tape)@, path@)),
{
    let workspace: WorkspaceRecord = known_workspace(tape, path)?;
    let setup: SetupReport = run_setup_for_workspace(tape, &workspace)?;
    let message: String = format_setup_message(workspace.workspace_id.as_str(), &setup);
    Ok(RunResult::new(message, Payload::Setup { workspace, setup }))
}

/// The failure for a state that a listing cannot filter by.
pub open spec fn bad_state(name: Seq<char>) -> CubeErrorView {
    CubeErrorView::InvalidArgument(
        "invalid --state `"@ + name
            + "`; expected `free`, `free-dirty`, `free-conflicted`, or `leased`"@,
    )
}

/// Lists workspaces, after the rows whose directory is gone have been dealt with.
pub open spec fn flow_list(
    t: Seq<AnswerView>,
    repo: Option<Seq<char>>,
    state: Option<Seq<char>>,
    holder: Option<Seq<char>>,
) -> Flow<RunResultView> {
    match state {
        Some(name) => match effective_from_name(name) {
            None => Flow::Failed(bad_state(name), t),
            Some(s) => flow_list_by(t, repo, Some(s), holder),
        },
        None => flow_list_by(t, repo, None, holder),
    }
}

pub open spec fn flow_list_by(
    t: Seq<AnswerView>,
    repo: Option<Seq<char>>,
    state: Option<EffectiveState>,
    holder: Option<Seq<char>>,
) -> Flow<RunResultView> {
    ask_time(t, ActionView::Clock).and(
        |now: i64, t: Seq<AnswerView>|
            flow_reconcile(t, repo, now).and(
                |reconciled: ReconcileReportView, t: Seq<AnswerView>|
                    ask_workspaces(
                        t,
                        ActionView::ListWorkspaces(
                            WorkspaceListFilterView {
                                repo,
                                workspace_id: None,
                                effective_state: state,
                                holder_pattern: holder,
                            },
                        ),
                    ).and(
                        |workspaces: Seq<WorkspaceRecordView>, t: Seq<AnswerView>|
                            ask_place(t, ActionView::HomeDir).and(
                                |home: Option<Seq<char>>, t: Seq<AnswerView>|
                                    Flow::Done(
                                        RunResultView {
                                            message: spec_workspace_list(workspaces, home),
                                            payload: PayloadView::Workspaces {
                                                workspaces,
                                                reconciled,
                                            },
                                        },
                                        t,
                                    ),
                            ),
                    ),
            ),
    )
}

fn list(
    tape: &mut Tape,
    repo: &Option<String>,
    state: &Option<String>,
    holder: &Option<String>,
) -> (r: Result<RunResult, Stop>)
    ensures
        follows(
            r,
            final(tape)@,
            flow_list(old(tape)@, repo.deep_view(), state.deep_view(), holder.deep_view()),
        ),
{
    let effective: Option<EffectiveState> = match state {
        Some(name) => match EffectiveState::from_name(name.as_str()) {
            Some(s) => Some(s),
            None => {
                return Err(
                    Stop::Fail(
                        CubeError::InvalidArgument(
                            cat(
                                cat("invalid --state `".to_string(), name.as_str()),
                                "`; expected `free`, `free-dirty`, `free-conflicted`, or `leased`",
                            ),
                        ),
                    ),
                );
            },
        },
        None => None,
    };
    let now: i64 = tape.ask_time(Action::Clock)?;
    let reconciled: ReconcileReport = reconcile_missing_workspaces(tape, repo, now)?;
    let workspaces: Vec<WorkspaceRecord> = tape.ask_workspaces(
        Action::ListWorkspaces(
            WorkspaceListFilter {
                repo: copy_opt(repo),
                workspace_id: None,
                effective_state: effective,
                holder_pattern: copy_opt(holder),
            },
        ),
    )?;
    let home: Option<String> = tape.ask_place(Action::HomeDir)?;
    let message: Vec<crate::report::Span> = format_workspace_list(&workspaces, &home);
    Ok(RunResult { message, payload: Payload::Workspaces { workspaces, reconciled } })
}

// ---------------------------------------------------------------------------
// Remove
// ---------------------------------------------------------------------------

/// The one row with the id, or the failure that there is none or more than one.
pub open spec fn flow_one_row(
    t: Seq<AnswerView>,
    repo: Option<Seq<char>>,
    id: Seq<char>,
) -> Flow<WorkspaceRecordView> {
    ask_workspaces(t, ActionView::ListWorkspaces(spec_filter(repo, Some(id)))).and(
        |rows: Seq<WorkspaceRecordView>, t: Seq<AnswerView>|
            if rows.len() == 0 {
                Flow::Failed(CubeErrorView::WorkspaceNotFound(id), t)
            } else if rows.len() > 1 {
                Flow::Failed(ambiguous(id, rows), t)
            } else {
                Flow::Done(rows[0], t)
            },
    )
}

fn one_row(tape: &mut Tape, repo: &Option<String>, id: &str) -> (r: Result<WorkspaceRecord, Stop>)
    ensures
        follows(r, final(tape)@, flow_one_row(old(tape)@, repo.deep_view(), id@)),
{
    let rows: Vec<WorkspaceRecord> = tape.ask_workspaces(
        Action::ListWorkspaces(filter(copy_opt(repo), Some(id.to_string()))),
    )?;
    if rows.len() == 0 {
        return Err(Stop::Fail(CubeError::WorkspaceNotFound(id.to_string())));
    }
    if rows.len() > 1 {
        return Err(Stop::Fail(ambiguous_error(id, &rows)));
    }
    assert(rows.deep_view()[0] == rows@[0].deep_view());
    let mut rows: Vec<WorkspaceRecord> = rows;
    Ok(rows.remove(0))
}

/// Deletes the directory of a removed workspace, where that is asked for; one that
/// is gone already is no error.
pub open spec fn flow_expunge(t: Seq<AnswerView>, path: Seq<char>, expunge: bool) -> Flow<()> {
    if !expunge {
        Flow::Done((), t)
    } else {
        ask_done(t, ActionView::RemoveTree(path)).and(
            |fault: Option<IoFaultView>, t: Seq<AnswerView>|
                match fault {
                    Some(f) if !f.not_found => Flow::Failed(
                        CubeErrorView::WorkspaceDirRemove { path, source: f.text },
                        t,
                    ),
                    _ => Flow::Done((), t),
                },
        )
    }
}

/// Deletes the logs of a removed workspace; that it fails is only worth a warning.
pub open spec fn flow_clean_logs(t: Seq<AnswerView>, id: Seq<char>) -> Flow<()> {
    ask_place(t, ActionView::WorkspaceLogs(id)).and(
        |place: Option<Seq<char>>, t: Seq<AnswerView>|
            match place {
                None => Flow::Done((), t),
                Some(path) => ask_done(t, ActionView::RemoveTree(path)).and(
                    |fault: Option<IoFaultView>, t: Seq<AnswerView>|
                        match fault {
                            Some(f) if !f.not_found => warn(
                                t,
                                "warning: failed to clean up workspace logs for "@ + id + ": "@
                                    + CubeErrorView::Io(f.text).message(),
                            ),
                            _ => Flow::Done((), t),
                        },
                ),
            },
    )
}

fn expunge_dir(tape: &mut Tape, path: &str, expunge: bool) -> (r: Result<(), Stop>)
    ensures
        follows(r, final(tape)@, flow_expunge(old(tape)@, path@, expunge)),
{
    if !expunge {
        return Ok(());
    }
    if let Some(f) = tape.ask_done(Action::RemoveTree(path.to_string()))? {
        if !f.not_found {
            return Err(
                Stop::Fail(
                    CubeError::WorkspaceDirRemove { path: path.to_string(), source: f.text },
                ),
            );
        }
    }
    Ok(())
}

pub fn cleanup_workspace_logs(tape: &mut Tape, id: &str) -> (r: Result<(), Stop>)
    ensures
        follows(r, final(tape)@, flow_clean_logs(old(tape)@, id@)),
{
    if let Some(path) = tape.ask_place(Action::WorkspaceLogs(id.to_string()))? {
        if let Some(f) = tape.ask_done(Action::RemoveTree(path))? {
            if !f.not_found {
                let cause: CubeError = CubeError::Io(f.text);
                let head: String = cat(
                    cat("warning: failed to clean up workspace logs for ".to_string(), id),
                    ": ",
                );
                return tape.ask_ack(Action::Warn(cat(head, cause.message().as_str())));
            }
        }
    }
    Ok(())
}

/// The message of a removal.
pub open spec fn removed_message(w: WorkspaceRecordView, expunge: bool) -> Seq<char> {
    "Removed "@ + w.repo + "/"@ + w.workspace_id + (if expunge {
        " from the registry and deleted workspace directory at "@
    } else {
        " from the registry (workspace directory left intact at "@
    }) + w.workspace_path + (if expunge {
        "."@
    } else {
        ")."@
    })
}

fn removed_text(w: &WorkspaceRecord, expunge: bool) -> (r: String)
    ensures
        r@ == removed_message(w.deep_view(), expunge),
{
    let name: String = cat(
        cat(cat("Removed ".to_string(), w.repo.as_str()), "/"),
        w.workspace_id.as_str(),
    );
    if expunge {
        cat(
            cat(
                cat(name, " from the registry and deleted workspace directory at "),
                w.workspace_path.as_str(),
            ),
            ".",
        )
    } else {
        cat(
            cat(
                cat(name, " from the registry (workspace directory left intact at "),
                w.workspace_path.as_str(),
            ),
            ").",
        )
    }
}

/// The event for a removal.
pub open spec fn removed_event(w: WorkspaceRecordView, force: bool, expunge: bool) -> AuditEventView {
    AuditEventView::named("workspace.removed"@).text("repo"@, w.repo).text(
        "workspace_id"@,
        w.workspace_id,
    ).text("prior_state"@, state_name(w.state)).maybe_text("lease_id"@, w.lease_id).maybe_text(
        "holder"@,
        w.holder,
    ).flag("forced"@, force).flag("expunged"@, expunge)
}

/// Takes a workspace out of the registry. One that is leased is refused unless that
/// is forced.
pub open spec fn flow_remove(
    t: Seq<AnswerView>,
    id: Seq<char>,
    repo: Option<Seq<char>>,
    force: bool,
    expunge: bool,
) -> Flow<RunResultView> {
    flow_one_row(t, repo, id).and(
        |w: WorkspaceRecordView, t: Seq<AnswerView>|
            ask_saved(t, ActionView::Lock(w.repo)).and(
                |u: (), t: Seq<AnswerView>|
                    if w.state == WorkspaceState::Leased && !force {
                        Flow::Failed(
                            CubeErrorView::InvalidArgument(
                                "workspace `"@ + w.repo + "/"@ + w.workspace_id
                                    + "` is currently leased; force-release it first or pass --force"@,
                            ),
                            t,
                        )
                    } else {
                        flow_take_out(t, w, force, expunge)
                    },
            ),
    )
}

pub open spec fn flow_take_out(
    t: Seq<AnswerView>,
    w: WorkspaceRecordView,
    force: bool,
    expunge: bool,
) -> Flow<RunResultView> {
    ask_saved(t, forget(w)).and(
        |u: (), t: Seq<AnswerView>|
            flow_expunge(t, w.workspace_path, expunge).and(
                |u: (), t: Seq<AnswerView>|
                    flow_clean_logs(t, w.workspace_id).and(
                        |u: (), t: Seq<AnswerView>|
                            ask_ack(t, ActionView::Audit(removed_event(w, force, expunge))).and(
                                |u: (), t: Seq<AnswerView>|
                                    Flow::Done(
                                        spec_result(
                                            removed_message(w, expunge),
                                            PayloadView::Removed {
                                                workspace: w,
                                                forced: force,
                                                expunged: expunge,
                                            },
                                        ),
                                        t,
                                    ),
                            ),
                    ),
            ),
    )
}

fn remove(
    tape: &mut Tape,
    id: &str,
    repo: &Option<String>,
    force: bool,
    expunge: bool,
) -> (r: Result<RunResult, Stop>)
    ensures
        follows(
            r,
            final(tape)@,
            flow_remove(old(tape)@, id@, repo.deep_view(), force, expunge),
        ),
{
    let w: WorkspaceRecord = one_row(tape, repo, id)?;
    tape.ask_saved(Action::Lock(copy(&w.repo)))?;
    let leased: bool = match w.state {
        WorkspaceState::Leased => true,
        WorkspaceState::Free => false,
    };
    if leased && !force {
        return Err(
            Stop::Fail(
                CubeError::InvalidArgument(
                    cat(
                        cat(
                            cat(cat("workspace `".to_string(), w.repo.as_str()), "/"),
                            w.workspace_id.as_str(),
                        ),
                        "` is currently leased; force-release it first or pass --force",
                    ),
                ),
            ),
        );
    }
    tape.ask_saved(forget_action(&w))?;
    expunge_dir(tape, w.workspace_path.as_str(), expunge)?;
    cleanup_workspace_logs(tape, w.workspace_id.as_str())?;
    tape.ask_ack(
        Action::Audit(
            AuditEvent::named("workspace.removed").text("repo", w.repo.as_str()).text(
                "workspace_id",
                w.workspace_id.as_str(),
            ).text("prior_state", w.state.as_str()).maybe_text("lease_id", &w.lease_id).maybe_text(
                "holder",
                &w.holder,
            ).flag("forced", force).flag("expunged", expunge),
        ),
    )?;
    let message: String = removed_text(&w, expunge);
    Ok(
        RunResult::new(
            message,
            Payload::Removed { workspace: w, forced: force, expunged: expunge },
        ),
    )
}

// ---------------------------------------------------------------------------
// Cleanup
// ---------------------------------------------------------------------------

/// What is reported of a workspace that was passed over.
pub open spec fn passed_over(id: Seq<char>, why: Seq<char>) -> WorkspaceGcResultView {
    WorkspaceGcResultView {
        workspace_id: id,
        bookmarks_forgotten: Seq::empty(),
        skipped_reason: Some(why),
        error: None,
    }
}

fn pass_over(id: &str, why: &str) -> (r: WorkspaceGcResult)
    ensures
        r.deep_view() == passed_over(id@, why@),
{
    let r: WorkspaceGcResult = WorkspaceGcResult {
        workspace_id: id.to_string(),
        bookmarks_forgotten: Vec::new(),
        skipped_reason: Some(why.to_string()),
        error: None,
    };
    assert(r.deep_view().bookmarks_forgotten =~= Seq::<Seq<char>>::empty());
    r
}

/// Cleans up the bookmarks of one workspace; a leased one and one whose directory
/// is gone are passed over, and a failure is part of the report.
pub open spec fn flow_gc_one(t: Seq<AnswerView>, w: WorkspaceRecordView, dry_run: bool) -> Flow<
    WorkspaceGcResultView,
> {
    if w.state == WorkspaceState::Leased {
        Flow::Done(passed_over(w.workspace_id, "leased"@), t)
    } else {
        ask_flag(t, ActionView::IsDir(w.workspace_path)).and(
            |there: bool, t: Seq<AnswerView>|
                if !there {
                    Flow::Done(passed_over(w.workspace_id, "directory_missing"@), t)
                } else {
                    match flow_gc_bookmarks(t, w.workspace_path, true, dry_run) {
                        Flow::Done(names, t) => Flow::Done(
                            WorkspaceGcResultView {
                                workspace_id: w.workspace_id,
                                bookmarks_forgotten: names,
                                skipped_reason: None,
                                error: None,
                            },
                            t,
                        ),
                        Flow::Failed(e, t) => Flow::Done(
                            WorkspaceGcResultView {
                                workspace_id: w.workspace_id,
                                bookmarks_forgotten: Seq::empty(),
                                skipped_reason: None,
                                error: Some(e.message()),
                            },
                            t,
                        ),
                        Flow::Asks(a) => Flow::Asks(a),
                    }
                },
        )
    }
}

fn gc_one(tape: &mut Tape, w: &WorkspaceRecord, dry_run: bool) -> (r: Result<
    WorkspaceGcResult,
    Stop,
>)
    ensures
        follows(r, final(tape)@, flow_gc_one(old(tape)@, w.deep_view(), dry_run)),
{
    let id: &str = w.workspace_id.as_str();
    if let WorkspaceState::Leased = w.state {
        return Ok(pass_over(id, "leased"));
    }
    let there: bool = tape.ask_flag(Action::IsDir(copy(&w.workspace_path)))?;
    if !there {
        return Ok(pass_over(id, "directory_missing"));
    }
    match gc_workspace_bookmarks(tape, w.workspace_path.as_str(), true, dry_run) {
        Ok(names) => Ok(
            WorkspaceGcResult {
                workspace_id: id.to_string(),
                bookmarks_forgotten: names,
                skipped_reason: None,
                error: None,
            },
        ),
        Err(Stop::Fail(e)) => {
            let r: WorkspaceGcResult = WorkspaceGcResult {
                workspace_id: id.to_string(),
                bookmarks_forgotten: Vec::new(),
                skipped_reason: None,
                error: Some(e.message()),
            };
            assert(r.deep_view().bookmarks_forgotten =~= Seq::<Seq<char>>::empty());
            Ok(r)
        },
        Err(stop) => Err(stop),
    }
}

pub open spec fn flow_gc_each(
    t: Seq<AnswerView>,
    records: Seq<WorkspaceRecordView>,
    dry_run: bool,
    results: Seq<WorkspaceGcResultView>,
) -> Flow<Seq<WorkspaceGcResultView>>
    decreases records.len(),
{
    if records.len() == 0 {
        Flow::Done(results, t)
    } else {
        flow_gc_one(t, records[0], dry_run).and(
            |one: WorkspaceGcResultView, t: Seq<AnswerView>|
                flow_gc_each(t, records.drop_first(), dry_run, results.push(one)),
        )
    }
}

fn gc_each(tape: &mut Tape, records: &Vec<WorkspaceRecord>, dry_run: bool) -> (r: Result<
    Vec<WorkspaceGcResult>,
    Stop,
>)
    ensures
        follows(
            r,
            final(tape)@,
            flow_gc_each(old(tape)@, records.deep_view(), dry_run, Seq::empty()),
        ),
{
    let mut results: Vec<WorkspaceGcResult> = Vec::new();
    let ghost whole = records.deep_view();
    let ghost flow = flow_gc_each(tape@, whole, dry_run, Seq::empty());
    let mut i: usize = 0;
    assert(whole.subrange(0, whole.len() as int) =~= whole);
    assert(results.deep_view() =~= Seq::<WorkspaceGcResultView>::empty());
    while i < records.len()
        invariant
            i <= records@.len(),
            whole == records.deep_view(),
            flow == flow_gc_each(old(tape)@, records.deep_view(), dry_run, Seq::empty()),
            flow == flow_gc_each(
                tape@,
                whole.subrange(i as int, whole.len() as int),
                dry_run,
                results.deep_view(),
            ),
        decreases records@.len() - i,
    {
        proof {
            let rest = whole.subrange(i as int, whole.len() as int);
            assert(rest[0] == records@[i as int].deep_view());
            assert(rest.drop_first() =~= whole.subrange(i + 1, whole.len() as int));
        }
        let one: WorkspaceGcResult = gc_one(tape, &records[i], dry_run)?;
        let ghost before = results.deep_view();
        let ghost added = one.deep_view();
        results.push(one);
        assert(results.deep_view() =~= before.push(added));
        i += 1;
    }
    Ok(results)
}

/// How many bookmarks were forgotten in all.
pub open spec fn total_forgotten(results: Seq<WorkspaceGcResultView>) -> nat
    decreases results.len(),
{
    if results.len() == 0 {
        0
    } else {
        total_forgotten(results.drop_last()) + results.last().bookmarks_forgotten.len()
    }
}

fn count_forgotten(results: &Vec<WorkspaceGcResult>) -> (r: u128)
    ensures
        r == total_forgotten(results.deep_view()),
{
    let ghost all = results.deep_view();
    let mut total: u128 = 0;
    let mut i: usize = 0;
    while i < results.len()
        invariant
            i <= results@.len(),
            all == results.deep_view(),
            total == total_forgotten(all.subrange(0, i as int)),
            total <= i * 0xffff_ffff_ffff_ffff,
        decreases results@.len() - i,
    {
        proof {
            assert(all.subrange(0, i + 1).last() == results@[i as int].deep_view());
            assert(all.subrange(0, i + 1).drop_last() =~= all.subrange(0, i as int));
            assert(i * 0xffff_ffff_ffff_ffff + 0xffff_ffff_ffff_ffff == (i + 1)
                * 0xffff_ffff_ffff_ffff) by (nonlinear_arith);
            assert(i * 0xffff_ffff_ffff_ffff <= 0xffff_ffff_ffff_fffe * 0xffff_ffff_ffff_ffff)
                by (nonlinear_arith)
                requires
                    i <= 0xffff_ffff_ffff_fffe,
            ;
        }
        total = total + results[i].bookmarks_forgotten.len() as u128;
        i += 1;
    }
    assert(all.subrange(0, i as int) =~= all);
    total
}

/// The message of a cleanup.
pub open spec fn gc_message(results: Seq<WorkspaceGcResultView>, dry_run: bool) -> Seq<char> {
    spec_decimal(results.len()) + " workspace(s): "@ + spec_decimal(total_forgotten(results)) + (
    if dry_run {
        " bookmark(s) would be forgotten (dry-run)."@
    } else {
        " bookmark(s) forgotten."@
    })
}

pub open spec fn flow_gc(t: Seq<AnswerView>, id: Option<Seq<char>>, dry_run: bool) -> Flow<
    RunResultView,
> {
    ask_workspaces(t, ActionView::ListWorkspaces(spec_filter(None, id))).and(
        |records: Seq<WorkspaceRecordView>, t: Seq<AnswerView>|
            flow_gc_each(t, records, dry_run, Seq::empty()).and(
                |results: Seq<WorkspaceGcResultView>, t: Seq<AnswerView>|
                    Flow::Done(
                        spec_result(gc_message(results, dry_run), PayloadView::Gc(results)),
                        t,
                    ),
            ),
    )
}

fn gc(tape: &mut Tape, id: &Option<String>, dry_run: bool) -> (r: Result<RunResult, Stop>)
    ensures
        follows(r, final(tape)@, flow_gc(old(tape)@, id.deep_view(), dry_run)),
{
    let records: Vec<WorkspaceRecord> = tape.ask_workspaces(
        Action::ListWorkspaces(filter(None, copy_opt(id))),
    )?;
    let results: Vec<WorkspaceGcResult> = gc_each(tape, &records, dry_run)?;
    let how: &str = if dry_run {
        " bookmark(s) would be forgotten (dry-run)."
    } else {
        " bookmark(s) forgotten."
    };
    let message: String = cat(
        cat(
            cat(decimal(results.len() as u64), " workspace(s): "),
            wide_decimal(count_forgotten(&results)).as_str(),
        ),
        how,
    );
    Ok(RunResult::new(message, Payload::Gc(results)))
}

// ---------------------------------------------------------------------------
// Dispatch
// ---------------------------------------------------------------------------

/// Taking a workspace as it is needs its name.
pub open spec fn well_formed(command: WorkspaceCommandView) -> bool {
    match command {
        WorkspaceCommandView::Lease { prefer, allow_dirty, .. } => allow_dirty ==> prefer is Some,
        _ => true,
    }
}

pub open spec fn flow_workspace(t: Seq<AnswerView>, command: WorkspaceCommandView) -> Flow<
    RunResultView,
> {
    ask_saved(t, ActionView::OpenStore).and(
        |u: (), t: Seq<AnswerView>|
            match command {
                WorkspaceCommandView::Lease { repo, task, prefer, allow_dirty, resume_pr } => {
                    flow_lease(t, LeaseArgsView { repo, task, prefer, allow_dirty, resume_pr })
                },
                WorkspaceCommandView::Release { workspace, lease, repo, reason, keep_dirty } => {
                    flow_release(t, workspace, lease, repo, reason, keep_dirty)
                },
                WorkspaceCommandView::Heartbeat { lease, ttl_seconds } => flow_heartbeat(
                    t,
                    lease,
                    ttl_seconds,
                ),
                WorkspaceCommandView::ForceRelease { workspace, lease, repo, reason } => {
                    flow_force_release(t, workspace, lease, repo, reason)
                },
                WorkspaceCommandView::Status { workspace } => flow_status(t, workspace),
                WorkspaceCommandView::Setup { workspace } => flow_set_up(t, workspace),
                WorkspaceCommandView::List { repo, state, holder } => flow_list(
                    t,
                    repo,
                    state,
                    holder,
                ),
                WorkspaceCommandView::Gc { workspace, dry_run } => flow_gc(t, workspace, dry_run),
                WorkspaceCommandView::Rebase => Flow::Failed(
                    CubeErrorView::NotImplemented(
                        "workspace command `rebase` is not implemented yet"@,
                    ),
                    t,
                ),
                WorkspaceCommandView::Remove { workspace, repo, force, expunge } => flow_remove(
                    t,
                    workspace,
                    repo,
                    force,
                    expunge,
                ),
            },
    )
}

pub fn run_workspace(tape: &mut Tape, command: WorkspaceCommand) -> (r: Result<RunResult, Stop>)
    requires
        well_formed(command.deep_view()),
    ensures
        follows(r, final(tape)@, flow_workspace(old(tape)@, command.deep_view())),
{
    tape.ask_saved(Action::OpenStore)?;
    match command {
        WorkspaceCommand::Lease { repo, task, prefer, allow_dirty, resume_pr } => lease_workspace(
            tape,
            LeaseArgs { repo, task, prefer, allow_dirty, resume_pr },
        ),
        WorkspaceCommand::Release { workspace, lease, repo, reason, keep_dirty } => release(
            tape,
            &workspace,
            &lease,
            &repo,
            &reason,
            keep_dirty,
        ),
        WorkspaceCommand::Heartbeat { lease, ttl_seconds } => heartbeat(
            tape,
            lease.as_str(),
            ttl_seconds,
        ),
        WorkspaceCommand::ForceRelease { workspace, lease, repo, reason } => force_release(
            tape,
            &workspace,
            &lease,
            &repo,
            &reason,
        ),
        WorkspaceCommand::Status { workspace } => status(tape, workspace.as_str()),
        WorkspaceCommand::Setup { workspace } => set_up(tape, workspace.as_str()),
        WorkspaceCommand::List { repo, state, holder } => list(tape, &repo, &state, &holder),
        WorkspaceCommand::Gc { workspace, dry_run } => gc(tape, &workspace, dry_run),
        WorkspaceCommand::Rebase => Err(
            Stop::Fail(
                CubeError::NotImplemented(
                    "workspace command `rebase` is not implemented yet".to_string(),
                ),
            ),
        ),
        WorkspaceCommand::Remove { workspace, repo, force, expunge } => remove(
            tape,
            workspace.as_str(),
            &repo,
            force,
            expunge,
        ),
    }
}

} // verus!
