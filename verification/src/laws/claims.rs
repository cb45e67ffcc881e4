//! The claims that a lease makes: for whom, from when and for how long.

use vstd::prelude::*;

use crate::app::flow_command;
use crate::cli::WorkspaceCommandView;
use crate::events::AuditEventView;
use crate::exclude::flow_ensure_excluded;
use crate::flow::{ActionView, AnswerView, Flow, ask_ack, ask_output, ask_saved, ask_time};
use crate::health::{flow_check_health, flow_repair};
use crate::jj::{flow_run_jj, spec_jj};
use crate::laws::steps::on_workspace;
use crate::lease::{
    LeaseArgsView, TicketView, expired_event, flow_acquire, flow_claim, flow_gc_husks,
    flow_hand_over, flow_known_repo, flow_lease, flow_lease_clean, flow_lease_dirty,
    flow_lease_from, flow_note_expired, flow_position, flow_reclaimable, flow_record_head,
    flow_refresh, flow_settle,
};
use crate::pool::{flow_auto_create, flow_gc_husk, flow_track_each};
use crate::pool_gc::flow_trigger_gc;
use crate::reconcile::{flow_reconcile_row, flow_reconcile_rows};
use crate::records::{
    ExpiredLeaseView, ReconcileReportView, RepoRecordView, WorkspaceCandidateView,
    WorkspaceRecordView,
};
use crate::report::{HealthCheckView, PrResumeInfoView};
use crate::reset::{flow_fast_forward, flow_guard, flow_new_on_main, flow_reset};
use crate::resume::{flow_github_of, flow_head_branch, flow_resume, flow_stand_on};
use crate::scan::{ScanView, flow_scan, flow_scan_one};

verus! {

/// A procedure that does not ask for a claim next.
spec fn never_claims<T>(flow: Flow<T>) -> bool {
    !(flow matches Flow::Asks(ActionView::ClaimWorkspace { .. }))
}

/// The second that comes 1800 seconds after another, or the last that there is.
pub open spec fn half_an_hour_after(now: i64) -> i64 {
    if now + 1800 > i64::MAX {
        i64::MAX
    } else {
        (now + 1800) as i64
    }
}

/// A claim that a procedure asks for next is for this repository and task, from `now` on
/// and for half an hour.
pub open spec fn claims_half_an_hour<T>(
    flow: Flow<T>,
    for_repo: Seq<char>,
    for_task: Seq<char>,
    now: i64,
) -> bool {
    flow matches Flow::Asks(
        ActionView::ClaimWorkspace {
            repo,
            workspace_id,
            holder,
            task,
            lease_id,
            leased_at_epoch_s,
            expires_at_epoch_s,
        },
    ) ==> {
        &&& repo == for_repo
        &&& task == for_task
        &&& leased_at_epoch_s == now
        &&& expires_at_epoch_s == Some(half_an_hour_after(now))
    }
}

/// Noting the leases that ran out claims nothing.
broadcast proof fn lemma_note_expired(
    t: Seq<AnswerView>,
    repo: Seq<char>,
    expired: Seq<ExpiredLeaseView>,
)
    ensures
        never_claims(#[trigger] flow_note_expired(t, repo, expired)),
    decreases expired.len(),
{
    if expired.len() > 0 {
        if let Flow::Done(_, t) = ask_ack(t, ActionView::Audit(expired_event(repo, expired[0]))) {
            lemma_note_expired(t, repo, expired.drop_first());
        }
    }
}

/// Bringing the rows in line claims nothing.
broadcast proof fn lemma_reconcile_rows(
    t: Seq<AnswerView>,
    now: i64,
    rows: Seq<WorkspaceRecordView>,
    report: ReconcileReportView,
)
    ensures
        never_claims(#[trigger] flow_reconcile_rows(t, now, rows, report)),
    decreases rows.len(),
{
    if rows.len() > 0 {
        if let Flow::Done(report, t) = flow_reconcile_row(t, now, rows[0], report) {
            lemma_reconcile_rows(t, now, rows.drop_first(), report);
        }
    }
}

/// Looking at the health of a workspace claims nothing.
broadcast proof fn lemma_check_health(
    t: Seq<AnswerView>,
    path: Seq<char>,
)
    ensures
        never_claims(#[trigger] flow_check_health(t, path)),
{
}

/// Looking at one workspace claims nothing.
broadcast proof fn lemma_scan_one(
    t: Seq<AnswerView>,
    repo: Seq<char>,
    w: WorkspaceRecordView,
    scan: ScanView,
)
    ensures
        never_claims(#[trigger] flow_scan_one(t, repo, w, scan)),
{
    broadcast use {lemma_check_health};
}

/// Looking at the workspaces claims nothing.
broadcast proof fn lemma_scan(
    t: Seq<AnswerView>,
    repo: Seq<char>,
    ordered: Seq<WorkspaceRecordView>,
    scan: ScanView,
)
    ensures
        never_claims(#[trigger] flow_scan(t, repo, ordered, scan)),
    decreases ordered.len(),
{
    broadcast use {lemma_scan_one};
    if ordered.len() > 0 {
        if let Flow::Done(scan, t) = flow_scan_one(t, repo, ordered[0], scan) {
            lemma_scan(t, repo, ordered.drop_first(), scan);
        }
    }
}

/// Clearing away the husks claims nothing.
broadcast proof fn lemma_gc_husks(
    t: Seq<AnswerView>,
    repo: Seq<char>,
    husks: Seq<(Seq<char>, Seq<char>)>,
)
    ensures
        never_claims(#[trigger] flow_gc_husks(t, repo, husks)),
    decreases husks.len(),
{
    if husks.len() > 0 {
        if let Flow::Done(_, t) = flow_gc_husk(t, repo, husks[0].0, husks[0].1) {
            lemma_gc_husks(t, repo, husks.drop_first());
        }
    }
}

/// Tracking branches claims nothing.
broadcast proof fn lemma_track_each(
    t: Seq<AnswerView>,
    path: Seq<char>,
    branches: Seq<Seq<char>>,
    any: bool,
)
    ensures
        never_claims(#[trigger] flow_track_each(t, path, branches, any)),
    decreases branches.len(),
{
    if branches.len() > 0 {
        let track = ActionView::Run(
            spec_jj(path, seq!["bookmark"@, "track"@, branches[0] + "@origin"@]),
        );
        match ask_output(t, track) {
            Flow::Done(_, t) => lemma_track_each(t, path, branches.drop_first(), true),
            Flow::Failed(_, t) => lemma_track_each(t, path, branches.drop_first(), any),
            Flow::Asks(_) => {},
        }
    }
}

/// Making a workspace claims nothing.
broadcast proof fn lemma_auto_create(
    t: Seq<AnswerView>,
    repo: RepoRecordView,
    existing: Seq<WorkspaceCandidateView>,
)
    ensures
        never_claims(#[trigger] flow_auto_create(t, repo, existing)),
{
    broadcast use {lemma_track_each};
}

/// Repairing bookmarks claims nothing.
broadcast proof fn lemma_repair(
    t: Seq<AnswerView>,
    path: Seq<char>,
    bookmarks: Seq<Seq<char>>,
)
    ensures
        never_claims(#[trigger] flow_repair(t, path, bookmarks)),
    decreases bookmarks.len(),
{
    if bookmarks.len() > 0 {
        let noted = ActionView::Audit(
            AuditEventView::named("workspace.bookmark_forgotten"@).text(
                "workspace_path"@,
                path,
            ).text("bookmark"@, bookmarks[0]),
        );
        if let Flow::Done(_, t) = ask_ack(t, noted) {
            let forget = spec_jj(path, seq!["bookmark"@, "forget"@, bookmarks[0]]);
            if let Flow::Done(_, t) = flow_run_jj(t, forget) {
                lemma_repair(t, path, bookmarks.drop_first());
            }
        }
    }
}

/// Guarding the work of the last holder claims nothing.
broadcast proof fn lemma_guard(
    t: Seq<AnswerView>,
    path: Seq<char>,
    main_branch: Seq<char>,
    prior: Option<ExpiredLeaseView>,
)
    ensures
        never_claims(#[trigger] flow_guard(t, path, main_branch, prior)),
{
}

/// Moving the branch on claims nothing.
broadcast proof fn lemma_fast_forward(
    t: Seq<AnswerView>,
    path: Seq<char>,
    main_branch: Seq<char>,
    prior: Option<ExpiredLeaseView>,
)
    ensures
        never_claims(#[trigger] flow_fast_forward(t, path, main_branch, prior)),
{
}

/// Standing on the branch claims nothing.
broadcast proof fn lemma_new_on_main(
    t: Seq<AnswerView>,
    path: Seq<char>,
    main_branch: Seq<char>,
    prior: Option<ExpiredLeaseView>,
)
    ensures
        never_claims(#[trigger] flow_new_on_main(t, path, main_branch, prior)),
{
}

/// Resetting a workspace claims nothing.
broadcast proof fn lemma_reset(
    t: Seq<AnswerView>,
    path: Seq<char>,
    main_branch: Seq<char>,
    prior: Option<ExpiredLeaseView>,
)
    ensures
        never_claims(#[trigger] flow_reset(t, path, main_branch, prior)),
{
    broadcast use {lemma_guard, lemma_fast_forward, lemma_new_on_main};
}

/// Finding the GitHub remote claims nothing.
broadcast proof fn lemma_github_of(
    t: Seq<AnswerView>,
    path: Seq<char>,
)
    ensures
        never_claims(#[trigger] flow_github_of(t, path)),
{
}

/// Finding the branch of a pull request claims nothing.
broadcast proof fn lemma_head_branch(
    t: Seq<AnswerView>,
    path: Seq<char>,
    slug: Seq<char>,
    n: u64,
)
    ensures
        never_claims(#[trigger] flow_head_branch(t, path, slug, n)),
{
}

/// Standing on a pull request claims nothing.
broadcast proof fn lemma_stand_on(
    t: Seq<AnswerView>,
    path: Seq<char>,
    remote: Seq<char>,
    n: u64,
    branch: Seq<char>,
)
    ensures
        never_claims(#[trigger] flow_stand_on(t, path, remote, n, branch)),
{
}

/// Resuming a pull request claims nothing.
broadcast proof fn lemma_resume(
    t: Seq<AnswerView>,
    path: Seq<char>,
    n: u64,
    prior: Option<ExpiredLeaseView>,
    main_branch: Seq<char>,
)
    ensures
        never_claims(#[trigger] flow_resume(t, path, n, prior, main_branch)),
{
    broadcast use {lemma_guard, lemma_github_of, lemma_head_branch, lemma_stand_on};
}

/// Putting a workspace in place claims nothing.
broadcast proof fn lemma_position(
    t: Seq<AnswerView>,
    path: Seq<char>,
    repairs: Seq<Seq<char>>,
    prior: Option<ExpiredLeaseView>,
    main_branch: Seq<char>,
    resume: Option<u64>,
)
    ensures
        never_claims(#[trigger] flow_position(t, path, repairs, prior, main_branch, resume)),
{
    broadcast use {lemma_repair, lemma_resume, lemma_reset};
}

/// Recording the commit claims nothing.
broadcast proof fn lemma_record_head(
    t: Seq<AnswerView>,
    lease_id: Seq<char>,
    w: WorkspaceRecordView,
)
    ensures
        never_claims(#[trigger] flow_record_head(t, lease_id, w)),
{
}

/// Writing the exclude file claims nothing.
broadcast proof fn lemma_ensure_excluded(
    t: Seq<AnswerView>,
    path: Seq<char>,
    workspace_id: Seq<char>,
)
    ensures
        never_claims(#[trigger] flow_ensure_excluded(t, path, workspace_id)),
{
}

/// Handing a workspace over claims nothing.
broadcast proof fn lemma_hand_over(
    t: Seq<AnswerView>,
    ticket: TicketView,
    w: WorkspaceRecordView,
    checks: Seq<HealthCheckView>,
    resume: Option<PrResumeInfoView>,
)
    ensures
        never_claims(#[trigger] flow_hand_over(t, ticket, w, checks, resume)),
{
    broadcast use {lemma_record_head, lemma_ensure_excluded};
}

/// What follows the claim claims nothing more.
broadcast proof fn lemma_settle(
    t: Seq<AnswerView>,
    ticket: TicketView,
    main_branch: Seq<char>,
    expired: Seq<ExpiredLeaseView>,
    resume: Option<u64>,
    got: (WorkspaceRecordView, bool, Seq<Seq<char>>),
    checks: Seq<HealthCheckView>,
)
    ensures
        never_claims(#[trigger] flow_settle(t, ticket, main_branch, expired, resume, got, checks)),
{
    broadcast use {lemma_position, lemma_hand_over};
}

/// Looking whether a workspace can be taken as it is claims nothing.
broadcast proof fn lemma_reclaimable(
    t: Seq<AnswerView>,
    repo: Seq<char>,
    id: Seq<char>,
)
    ensures
        never_claims(#[trigger] flow_reclaimable(t, repo, id)),
{
}

/// Bringing the pool up to date claims nothing.
broadcast proof fn lemma_refresh(
    t: Seq<AnswerView>,
    repo: RepoRecordView,
    name: Seq<char>,
    now: i64,
)
    ensures
        never_claims(#[trigger] flow_refresh(t, repo, name, now)),
{
    broadcast use {lemma_note_expired, lemma_reconcile_rows};
}

/// Starting the cleanup claims nothing.
broadcast proof fn lemma_trigger_gc(
    t: Seq<AnswerView>,
    now: i64,
)
    ensures
        never_claims(#[trigger] flow_trigger_gc(t, now)),
{
}

/// A workspace is claimed for the ticket's repository and task, from its time on, for half
/// an hour.
broadcast proof fn lemma_claim(t: Seq<AnswerView>, ticket: TicketView, id: Seq<char>)
    ensures
        claims_half_an_hour(
            #[trigger] flow_claim(t, ticket, id),
            ticket.repo,
            ticket.task,
            ticket.now_epoch_s,
        ),
{
}

/// The workspace that was found, or a new one, is claimed for the ticket.
broadcast proof fn lemma_acquire(
    t: Seq<AnswerView>,
    ticket: TicketView,
    repo: RepoRecordView,
    candidates: Seq<WorkspaceCandidateView>,
    scan: ScanView,
)
    ensures
        claims_half_an_hour(
            #[trigger] flow_acquire(t, ticket, repo, candidates, scan),
            ticket.repo,
            ticket.task,
            ticket.now_epoch_s,
        ),
{
    broadcast use {lemma_claim, lemma_gc_husks, lemma_auto_create};
}

/// The ordinary lease claims for the ticket.
broadcast proof fn lemma_lease_clean(
    t: Seq<AnswerView>,
    ticket: TicketView,
    repo: RepoRecordView,
    candidates: Seq<WorkspaceCandidateView>,
    expired: Seq<ExpiredLeaseView>,
    prefer: Option<Seq<char>>,
    resume: Option<u64>,
)
    ensures
        claims_half_an_hour(
            #[trigger] flow_lease_clean(t, ticket, repo, candidates, expired, prefer, resume),
            ticket.repo,
            ticket.task,
            ticket.now_epoch_s,
        ),
{
    broadcast use {lemma_scan, lemma_acquire, lemma_settle};
}

/// The lease of a workspace as it is claims for the ticket.
broadcast proof fn lemma_lease_dirty(t: Seq<AnswerView>, ticket: TicketView, id: Seq<char>)
    ensures
        claims_half_an_hour(
            #[trigger] flow_lease_dirty(t, ticket, id),
            ticket.repo,
            ticket.task,
            ticket.now_epoch_s,
        ),
{
    broadcast use {lemma_reclaimable, lemma_claim, lemma_record_head};
}

/// Leasing from a pool that is up to date claims for the command line.
broadcast proof fn lemma_lease_from(
    t: Seq<AnswerView>,
    args: LeaseArgsView,
    repo: RepoRecordView,
    now: i64,
    candidates: Seq<WorkspaceCandidateView>,
    expired: Seq<ExpiredLeaseView>,
)
    ensures
        claims_half_an_hour(
            #[trigger] flow_lease_from(t, args, repo, now, candidates, expired),
            args.repo,
            args.task,
            now,
        ),
{
    broadcast use {lemma_lease_clean, lemma_lease_dirty};
}

/// A lease claims for the command line, from the time that it was told.
proof fn lemma_lease(t: Seq<AnswerView>, args: LeaseArgsView)
    ensures
        if t.len() > 1 && t[1] is Time {
            claims_half_an_hour(flow_lease(t, args), args.repo, args.task, t[1]->Time_0)
        } else {
            never_claims(flow_lease(t, args))
        },
{
    if let Flow::Done(repo, t) = flow_known_repo(t, args.repo) {
        if let Flow::Done(now, t) = ask_time(t, ActionView::Clock) {
            lemma_trigger_gc(t, now);
            if let Flow::Done(_, t) = flow_trigger_gc(t, now) {
                if let Flow::Done(_, t) = ask_saved(t, ActionView::Lock(args.repo)) {
                    lemma_refresh(t, repo, args.repo, now);
                    if let Flow::Done(pool, t) = flow_refresh(t, repo, args.repo, now) {
                        lemma_lease_from(t, args, repo, now, pool.0, pool.1);
                    }
                }
            }
        }
    }
}

/// Whatever it was answered so far, a lease asks for no claim before it knows the time,
/// and every claim that it asks for is for the repository and the task of the command
/// line, from that time on, and runs out half an hour after it.
pub proof fn law_every_claim_lasts_half_an_hour(
    t: Seq<AnswerView>,
    repo: Seq<char>,
    task: Seq<char>,
    prefer: Option<Seq<char>>,
    allow_dirty: bool,
    resume_pr: Option<u64>,
)
    ensures
        ({
            let lease = WorkspaceCommandView::Lease { repo, task, prefer, allow_dirty, resume_pr };
            let flow = flow_command(t, on_workspace(lease));
            if t.len() > 2 && t[2] is Time {
                claims_half_an_hour(flow, repo, task, t[2]->Time_0)
            } else {
                !(flow matches Flow::Asks(ActionView::ClaimWorkspace { .. }))
            }
        }),
{
    if t.len() > 0 {
        let args = LeaseArgsView { repo, task, prefer, allow_dirty, resume_pr };
        lemma_lease(t.drop_first(), args);
    }
}

} // verus!
