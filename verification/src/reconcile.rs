//! Registry rows whose directory is gone: what becomes of each.

use vstd::prelude::*;

use crate::events::{AuditEvent, AuditEventView};
use crate::flow::{
    ask_ack, ask_flag, ask_saved, ask_workspace, ask_workspaces, follows, Action, ActionView,
    AnswerView, Flow, Stop, Tape,
};
use crate::order::{insert_name, with_name};
use crate::pool_gc::warn;
use crate::records::{
    filter, spec_filter, state_name, ReconcileReport, ReconcileReportView, WorkspaceRecord,
    WorkspaceRecordView, WorkspaceState,
};
use crate::text::{cat, copy, copy_opt};

verus! {

/// What becomes of a row whose directory is gone.
#[derive(Debug, Clone, Copy, PartialEq, Eq, Structural)]
pub enum Fate {
    /// Nobody holds it: it is forgotten.
    Forget,
    /// Its lease is still active: it is left alone, with a warning.
    Hold,
    /// Its lease has run out: it is released by force and forgotten.
    Evict,
}

/// A free row is forgotten. A leased row is held while its lease is active, and a
/// lease without an expiry always is; otherwise the row is evicted.
pub open spec fn fate_of(row: WorkspaceRecordView, now: i64) -> Fate {
    match row.state {
        WorkspaceState::Free => Fate::Forget,
        WorkspaceState::Leased => match row.lease_expires_at_epoch_s {
            None => Fate::Hold,
            Some(expiry) => if expiry > now {
                Fate::Hold
            } else {
                Fate::Evict
            },
        },
    }
}

pub fn fate(row: &WorkspaceRecord, now: i64) -> (r: Fate)
    ensures
        r == fate_of(row.deep_view(), now),
{
    match row.state {
        WorkspaceState::Free => Fate::Forget,
        WorkspaceState::Leased => match row.lease_expires_at_epoch_s {
            None => Fate::Hold,
            Some(expiry) => {
                if expiry > now {
                    Fate::Hold
                } else {
                    Fate::Evict
                }
            },
        },
    }
}

/// How the warnings on a row begin.
pub open spec fn missing_at(row: WorkspaceRecordView) -> Seq<char> {
    "warning: cube workspace `"@ + row.repo + "/"@ + row.workspace_id
        + "` directory is missing at "@ + row.workspace_path
}

pub fn missing_text(row: &WorkspaceRecord) -> (r: String)
    ensures
        r@ == missing_at(row.deep_view()),
{
    cat(
        cat(
            cat(
                cat(
                    cat("warning: cube workspace `".to_string(), row.repo.as_str()),
                    "/",
                ),
                row.workspace_id.as_str(),
            ),
            "` directory is missing at ",
        ),
        row.workspace_path.as_str(),
    )
}

pub open spec fn holder_name(holder: Option<Seq<char>>) -> Seq<char> {
    match holder {
        Some(h) => h,
        None => "<unknown>"@,
    }
}

fn holder_text(holder: &Option<String>) -> (r: String)
    ensures
        r@ == holder_name(holder.deep_view()),
{
    match holder {
        Some(h) => copy(h),
        None => "<unknown>".to_string(),
    }
}

/// How the events on a row begin.
pub open spec fn row_event(name: Seq<char>, row: WorkspaceRecordView) -> AuditEventView {
    AuditEventView::named(name).text("repo"@, row.repo).text("workspace_id"@, row.workspace_id).text(
        "workspace_path"@,
        row.workspace_path,
    )
}

pub fn row_audit(name: &str, row: &WorkspaceRecord) -> (r: AuditEvent)
    ensures
        r.deep_view() == row_event(name@, row.deep_view()),
{
    AuditEvent::named(name).text("repo", row.repo.as_str()).text(
        "workspace_id",
        row.workspace_id.as_str(),
    ).text("workspace_path", row.workspace_path.as_str())
}

pub open spec fn forget(row: WorkspaceRecordView) -> ActionView {
    ActionView::ForgetWorkspace { repo: row.repo, workspace_id: row.workspace_id }
}

pub fn forget_action(row: &WorkspaceRecord) -> (r: Action)
    ensures
        r.deep_view() == forget(row.deep_view()),
{
    Action::ForgetWorkspace { repo: copy(&row.repo), workspace_id: copy(&row.workspace_id) }
}

pub open spec fn flow_forget_row(t: Seq<AnswerView>, row: WorkspaceRecordView) -> Flow<()> {
    ask_saved(t, forget(row)).and(
        |u: (), t: Seq<AnswerView>|
            warn(t, missing_at(row) + "; removing the dangling registry row"@).and(
                |u: (), t: Seq<AnswerView>|
                    ask_ack(
                        t,
                        ActionView::Audit(
                            row_event("workspace.dir_missing_reconciled"@, row).text(
                                "prior_state"@,
                                state_name(row.state),
                            ),
                        ),
                    ),
            ),
    )
}

fn forget_row(tape: &mut Tape, row: &WorkspaceRecord) -> (r: Result<(), Stop>)
    ensures
        follows(r, final(tape)@, flow_forget_row(old(tape)@, row.deep_view())),
{
    tape.ask_saved(forget_action(row))?;
    tape.ask_ack(
        Action::Warn(cat(missing_text(row), "; removing the dangling registry row")),
    )?;
    tape.ask_ack(
        Action::Audit(
            row_audit("workspace.dir_missing_reconciled", row).text(
                "prior_state",
                row.state.as_str(),
            ),
        ),
    )
}

pub open spec fn flow_hold_row(t: Seq<AnswerView>, row: WorkspaceRecordView) -> Flow<()> {
    warn(
        t,
        missing_at(row) + " but its lease is still active (held by "@ + holder_name(row.holder)
            + "); run `cube workspace force-release "@ + row.workspace_id + "` to reclaim"@,
    ).and(
        |u: (), t: Seq<AnswerView>|
            ask_ack(
                t,
                ActionView::Audit(
                    row_event("workspace.dir_missing_held"@, row).maybe_text(
                        "lease_id"@,
                        row.lease_id,
                    ).maybe_text("holder"@, row.holder).maybe_int(
                        "lease_expires_at_epoch_s"@,
                        row.lease_expires_at_epoch_s,
                    ),
                ),
            ),
    )
}

fn hold_row(tape: &mut Tape, row: &WorkspaceRecord) -> (r: Result<(), Stop>)
    ensures
        follows(r, final(tape)@, flow_hold_row(old(tape)@, row.deep_view())),
{
    let head: String = cat(
        cat(missing_text(row), " but its lease is still active (held by "),
        holder_text(&row.holder).as_str(),
    );
    tape.ask_ack(
        Action::Warn(
            cat(
                cat(
                    cat(head, "); run `cube workspace force-release "),
                    row.workspace_id.as_str(),
                ),
                "` to reclaim",
            ),
        ),
    )?;
    tape.ask_ack(
        Action::Audit(
            row_audit("workspace.dir_missing_held", row).maybe_text("lease_id", &row.lease_id).maybe_text(
                "holder",
                &row.holder,
            ).maybe_int("lease_expires_at_epoch_s", row.lease_expires_at_epoch_s),
        ),
    )
}

pub open spec fn flow_release_missing(t: Seq<AnswerView>, lease: Option<Seq<char>>) -> Flow<()> {
    match lease {
        None => Flow::Done((), t),
        Some(lease_id) => ask_workspace(
            t,
            ActionView::ForceRelease { lease_id, reason: "dir_missing"@ },
        ).and(|w: Option<WorkspaceRecordView>, t: Seq<AnswerView>| Flow::Done((), t)),
    }
}

pub open spec fn flow_evict_row(t: Seq<AnswerView>, row: WorkspaceRecordView) -> Flow<()> {
    flow_release_missing(t, row.lease_id).and(
        |u: (), t: Seq<AnswerView>|
            ask_saved(t, forget(row)).and(
                |u: (), t: Seq<AnswerView>|
                    warn(
                        t,
                        missing_at(row) + " and its lease has expired (was held by "@
                            + holder_name(row.holder)
                            + "); force-releasing and removing the dangling registry row"@,
                    ).and(
                        |u: (), t: Seq<AnswerView>|
                            ask_ack(
                                t,
                                ActionView::Audit(
                                    row_event("workspace.dir_missing_reconciled"@, row).text(
                                        "prior_state"@,
                                        state_name(row.state),
                                    ).maybe_text("lease_id"@, row.lease_id).maybe_text(
                                        "holder"@,
                                        row.holder,
                                    ),
                                ),
                            ),
                    ),
            ),
    )
}

fn evict_row(tape: &mut Tape, row: &WorkspaceRecord) -> (r: Result<(), Stop>)
    ensures
        follows(r, final(tape)@, flow_evict_row(old(tape)@, row.deep_view())),
{
    if let Some(lease_id) = &row.lease_id {
        tape.ask_workspace(
            Action::ForceRelease { lease_id: copy(lease_id), reason: "dir_missing".to_string() },
        )?;
    }
    tape.ask_saved(forget_action(row))?;
    let head: String = cat(
        cat(missing_text(row), " and its lease has expired (was held by "),
        holder_text(&row.holder).as_str(),
    );
    tape.ask_ack(
        Action::Warn(
            cat(head, "); force-releasing and removing the dangling registry row"),
        ),
    )?;
    tape.ask_ack(
        Action::Audit(
            row_audit("workspace.dir_missing_reconciled", row).text(
                "prior_state",
                row.state.as_str(),
            ).maybe_text("lease_id", &row.lease_id).maybe_text("holder", &row.holder),
        ),
    )
}

/// Deals with one row: a row with its directory is left alone, and any other meets
/// its fate.
pub open spec fn flow_reconcile_row(
    t: Seq<AnswerView>,
    now: i64,
    row: WorkspaceRecordView,
    report: ReconcileReportView,
) -> Flow<ReconcileReportView> {
    ask_flag(t, ActionView::IsDir(row.workspace_path)).and(
        |there: bool, t: Seq<AnswerView>|
            if there {
                Flow::Done(report, t)
            } else {
                match fate_of(row, now) {
                    Fate::Forget => flow_forget_row(t, row).and(
                        |u: (), t: Seq<AnswerView>| Flow::Done(report.remove(row), t),
                    ),
                    Fate::Hold => flow_hold_row(t, row).and(
                        |u: (), t: Seq<AnswerView>| Flow::Done(report.hold(row), t),
                    ),
                    Fate::Evict => flow_evict_row(t, row).and(
                        |u: (), t: Seq<AnswerView>| Flow::Done(report.remove(row), t),
                    ),
                }
            },
    )
}

pub open spec fn flow_reconcile_rows(
    t: Seq<AnswerView>,
    now: i64,
    rows: Seq<WorkspaceRecordView>,
    report: ReconcileReportView,
) -> Flow<ReconcileReportView>
    decreases rows.len(),
{
    if rows.len() == 0 {
        Flow::Done(report, t)
    } else {
        flow_reconcile_row(t, now, rows[0], report).and(
            |report: ReconcileReportView, t: Seq<AnswerView>|
                flow_reconcile_rows(t, now, rows.drop_first(), report),
        )
    }
}

/// Reconciles the rows of one repository, whose lock the caller holds.
pub open spec fn flow_reconcile_repo(t: Seq<AnswerView>, repo: Seq<char>, now: i64) -> Flow<
    ReconcileReportView,
> {
    ask_workspaces(t, ActionView::ListWorkspaces(spec_filter(Some(repo), None))).and(
        |rows: Seq<WorkspaceRecordView>, t: Seq<AnswerView>|
            flow_reconcile_rows(t, now, rows, ReconcileReportView::nothing()),
    )
}

pub fn reconcile_missing_workspaces_in_repo(tape: &mut Tape, repo: &str, now: i64) -> (r: Result<
    ReconcileReport,
    Stop,
>)
    ensures
        follows(r, final(tape)@, flow_reconcile_repo(old(tape)@, repo@, now)),
{
    let rows: Vec<WorkspaceRecord> = tape.ask_workspaces(
        Action::ListWorkspaces(filter(Some(repo.to_string()), None)),
    )?;
    let mut report: ReconcileReport = ReconcileReport::nothing();
    let ghost whole = rows.deep_view();
    let ghost flow = flow_reconcile_rows(tape@, now, whole, report.deep_view());
    let mut i: usize = 0;
    assert(whole.subrange(0, whole.len() as int) =~= whole);
    while i < rows.len()
        invariant
            i <= rows@.len(),
            whole == rows.deep_view(),
            flow == flow_reconcile_repo(old(tape)@, repo@, now),
            flow == flow_reconcile_rows(
                tape@,
                now,
                whole.subrange(i as int, whole.len() as int),
                report.deep_view(),
            ),
        decreases rows@.len() - i,
    {
        let row: &WorkspaceRecord = &rows[i];
        proof {
            let rest = whole.subrange(i as int, whole.len() as int);
            assert(rest[0] == row.deep_view());
            assert(rest.drop_first() =~= whole.subrange(i + 1, whole.len() as int));
        }
        let there: bool = tape.ask_flag(Action::IsDir(copy(&row.workspace_path)))?;
        if !there {
            match fate(row, now) {
                Fate::Forget => {
                    forget_row(tape, row)?;
                    report.remove(row);
                },
                Fate::Hold => {
                    hold_row(tape, row)?;
                    report.hold(row);
                },
                Fate::Evict => {
                    evict_row(tape, row)?;
                    report.remove(row);
                },
            }
        }
        i += 1;
    }
    Ok(report)
}

/// The repositories of the rows whose directory is gone, sorted, behind `found`.
pub open spec fn flow_repos_to_reconcile(
    t: Seq<AnswerView>,
    rows: Seq<WorkspaceRecordView>,
    found: Seq<Seq<char>>,
) -> Flow<Seq<Seq<char>>>
    decreases rows.len(),
{
    if rows.len() == 0 {
        Flow::Done(found, t)
    } else {
        ask_flag(t, ActionView::IsDir(rows[0].workspace_path)).and(
            |there: bool, t: Seq<AnswerView>|
                flow_repos_to_reconcile(
                    t,
                    rows.drop_first(),
                    if there {
                        found
                    } else {
                        with_name(found, rows[0].repo)
                    },
                ),
        )
    }
}

fn repos_to_reconcile(tape: &mut Tape, rows: &Vec<WorkspaceRecord>) -> (r: Result<
    Vec<String>,
    Stop,
>)
    ensures
        follows(
            r,
            final(tape)@,
            flow_repos_to_reconcile(old(tape)@, rows.deep_view(), Seq::empty()),
        ),
{
    let mut found: Vec<String> = Vec::new();
    let ghost whole = rows.deep_view();
    let ghost flow = flow_repos_to_reconcile(tape@, whole, Seq::empty());
    let mut i: usize = 0;
    assert(whole.subrange(0, whole.len() as int) =~= whole);
    assert(found.deep_view() =~= Seq::<Seq<char>>::empty());
    while i < rows.len()
        invariant
            i <= rows@.len(),
            whole == rows.deep_view(),
            flow == flow_repos_to_reconcile(old(tape)@, rows.deep_view(), Seq::empty()),
            flow == flow_repos_to_reconcile(
                tape@,
                whole.subrange(i as int, whole.len() as int),
                found.deep_view(),
            ),
        decreases rows@.len() - i,
    {
        proof {
            let rest = whole.subrange(i as int, whole.len() as int);
            assert(rest[0] == rows@[i as int].deep_view());
            assert(rest.drop_first() =~= whole.subrange(i + 1, whole.len() as int));
        }
        let there: bool = tape.ask_flag(Action::IsDir(copy(&rows[i].workspace_path)))?;
        if !there {
            insert_name(&mut found, &rows[i].repo);
        }
        i += 1;
    }
    Ok(found)
}

/// Reconciles the repositories one after the other, each under its lock.
pub open spec fn flow_reconcile_each(
    t: Seq<AnswerView>,
    now: i64,
    repos: Seq<Seq<char>>,
    report: ReconcileReportView,
) -> Flow<ReconcileReportView>
    decreases repos.len(),
{
    if repos.len() == 0 {
        Flow::Done(report, t)
    } else {
        ask_saved(t, ActionView::Lock(repos[0])).and(
            |u: (), t: Seq<AnswerView>|
                flow_reconcile_repo(t, repos[0], now).and(
                    |sub: ReconcileReportView, t: Seq<AnswerView>|
                        ask_ack(t, ActionView::Unlock).and(
                            |u: (), t: Seq<AnswerView>|
                                flow_reconcile_each(
                                    t,
                                    now,
                                    repos.drop_first(),
                                    report.merge(sub),
                                ),
                        ),
                ),
        )
    }
}

/// Reconciles the rows of one repository or of all, taking the lock of each that
/// has a row without its directory.
pub open spec fn flow_reconcile(t: Seq<AnswerView>, repo: Option<Seq<char>>, now: i64) -> Flow<
    ReconcileReportView,
> {
    ask_workspaces(t, ActionView::ListWorkspaces(spec_filter(repo, None))).and(
        |rows: Seq<WorkspaceRecordView>, t: Seq<AnswerView>|
            flow_repos_to_reconcile(t, rows, Seq::empty()).and(
                |repos: Seq<Seq<char>>, t: Seq<AnswerView>|
                    flow_reconcile_each(t, now, repos, ReconcileReportView::nothing()),
            ),
    )
}

pub fn reconcile_missing_workspaces(tape: &mut Tape, repo: &Option<String>, now: i64) -> (r: Result<
    ReconcileReport,
    Stop,
>)
    ensures
        follows(r, final(tape)@, flow_reconcile(old(tape)@, repo.deep_view(), now)),
{
    let rows: Vec<WorkspaceRecord> = tape.ask_workspaces(
        Action::ListWorkspaces(filter(copy_opt(repo), None)),
    )?;
    let repos: Vec<String> = repos_to_reconcile(tape, &rows)?;
    let mut report: ReconcileReport = ReconcileReport::nothing();
    let ghost whole = repos.deep_view();
    let ghost flow = flow_reconcile_each(tape@, now, whole, report.deep_view());
    let mut i: usize = 0;
    assert(whole.subrange(0, whole.len() as int) =~= whole);
    while i < repos.len()
        invariant
            i <= repos@.len(),
            whole == repos.deep_view(),
            flow == flow_reconcile(old(tape)@, repo.deep_view(), now),
            flow == flow_reconcile_each(
                tape@,
                now,
                whole.subrange(i as int, whole.len() as int),
                report.deep_view(),
            ),
        decreases repos@.len() - i,
    {
        proof {
            let rest = whole.subrange(i as int, whole.len() as int);
            assert(rest[0] == repos@[i as int]@);
            assert(rest.drop_first() =~= whole.subrange(i + 1, whole.len() as int));
        }
        tape.ask_saved(Action::Lock(copy(&repos[i])))?;
        let sub: ReconcileReport = reconcile_missing_workspaces_in_repo(
            tape,
            repos[i].as_str(),
            now,
        )?;
        tape.ask_ack(Action::Unlock)?;
        report.merge(sub);
        i += 1;
    }
    Ok(report)
}

} // verus!
