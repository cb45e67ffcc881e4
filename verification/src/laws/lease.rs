//! Leasing: which workspace is taken, and what is done to it.

use vstd::prelude::*;

use crate::flow::{ask_flag, ActionView, AnswerView, Flow};
use crate::git::spec_pr_bookmark;
use crate::health::{flow_check_health, WorkspaceHealthOutcomeView};
use crate::jj::{flow_run_jj, spec_jj};
use crate::json::JsonView;
use crate::laws::jj::{law_run_jj_asks_little, left_of, lemma_left_on, may_run};
use crate::laws::reset::{
    law_guard_lets_only_clean_pass, lemma_not_new, lemma_words, new_on, sees_clean,
};
use crate::lease::{
    flow_claim, flow_hand_over, flow_lease_dirty, flow_position, flow_position_or_release,
    flow_reclaimable, TicketView,
};
use crate::records::{ExpiredLeaseView, WorkspaceRecordView};
use crate::report::{HealthCheckView, PrResumeInfoView};
use crate::reset::spec_log_head;
use crate::resume::{flow_github_of, flow_resume, head_branch_in};
use crate::scan::{
    each_once, flow_scan, flow_scan_one, has_id, spec_ordered, with_id, ScanView,
};

verus! {

// ---------------------------------------------------------------------------
// Taking a workspace as it is
// ---------------------------------------------------------------------------

/// Taking a workspace as it is runs nothing but the look at its working-copy commit,
/// with the cures that `jj` may need for that, and claims no workspace but the one
/// that is named.
pub proof fn law_dirty_lease_keeps_the_tree(t: Seq<AnswerView>, ticket: TicketView, id: Seq<char>)
    ensures
        match flow_lease_dirty(t, ticket, id) {
            Flow::Asks(ActionView::Run(c)) => exists|path: Seq<char>| #[trigger]
                may_run(spec_jj(path, spec_log_head("commit_id.short()"@)), c),
            Flow::Asks(ActionView::ClaimWorkspace { workspace_id, .. }) => workspace_id == id,
            _ => true,
        },
{
    if let Flow::Done(_, t1) = flow_reclaimable(t, ticket.repo, id) {
        if let Flow::Done(w, t2) = flow_claim(t1, ticket, id) {
            law_run_jj_asks_little(
                t2,
                spec_jj(w.workspace_path, spec_log_head("commit_id.short()"@)),
            );
        }
    }
}

// ---------------------------------------------------------------------------
// Choosing a workspace
// ---------------------------------------------------------------------------

/// The chosen workspace is one that was found to be clean, or one whose bookmarks
/// were found to be conflicted and are to be repaired.
pub open spec fn is_sound(scan: ScanView) -> bool {
    &&& scan.clean matches Some(id) ==> scan.checks.contains(
        HealthCheckView::Clean { workspace_id: id },
    )
    &&& scan.conflicted matches Some(first) ==> scan.checks.contains(
        HealthCheckView::Conflicted {
            workspace_id: first.0,
            bookmarks: first.1,
            skipped: false,
        },
    )
}

proof fn lemma_push_contains(checks: Seq<HealthCheckView>, check: HealthCheckView)
    ensures
        checks.push(check).contains(check),
        forall|c: HealthCheckView| checks.contains(c) ==> #[trigger] checks.push(check).contains(c),
{
    assert(checks.push(check)[checks.len() as int] == check);
    assert forall|c: HealthCheckView| checks.contains(c) implies #[trigger] checks.push(
        check,
    ).contains(c) by {
        let i = choose|i: int| 0 <= i < checks.len() && checks[i] == c;
        assert(checks.push(check)[i] == c);
    }
}

proof fn lemma_note_sound(scan: ScanView, check: HealthCheckView)
    requires
        is_sound(scan),
    ensures
        is_sound(scan.note(check)),
        scan.note(check).checks.contains(check),
{
    lemma_push_contains(scan.checks, check);
}

proof fn lemma_scan_one_sound(
    t: Seq<AnswerView>,
    repo: Seq<char>,
    w: WorkspaceRecordView,
    scan: ScanView,
)
    requires
        is_sound(scan),
    ensures
        flow_scan_one(t, repo, w, scan) matches Flow::Done(after, _) ==> is_sound(after),
{
    let id = w.workspace_id;
    lemma_note_sound(scan, HealthCheckView::Missing { workspace_id: id });
    lemma_note_sound(scan, HealthCheckView::Dirty { workspace_id: id });
    lemma_note_sound(scan, HealthCheckView::Clean { workspace_id: id });
    lemma_note_sound(
        scan,
        HealthCheckView::BrokenEmpty { workspace_id: id, workspace_path: w.workspace_path },
    );
    if let Flow::Done(_, t1) = ask_flag(t, ActionView::IsDir(w.workspace_path)) {
        if let Flow::Done(outcome, _) = flow_check_health(t1, w.workspace_path) {
            if let WorkspaceHealthOutcomeView::ConflictedBookmarks(bookmarks) = outcome {
                lemma_note_sound(
                    scan,
                    HealthCheckView::Conflicted {
                        workspace_id: id,
                        bookmarks,
                        skipped: scan.conflicted is Some,
                    },
                );
            }
        }
    }
}

proof fn lemma_scan_sound(
    t: Seq<AnswerView>,
    repo: Seq<char>,
    ordered: Seq<WorkspaceRecordView>,
    scan: ScanView,
)
    requires
        is_sound(scan),
    ensures
        flow_scan(t, repo, ordered, scan) matches Flow::Done(after, _) ==> is_sound(after),
    decreases ordered.len(),
{
    if ordered.len() > 0 && scan.clean is None {
        lemma_scan_one_sound(t, repo, ordered[0], scan);
        if let Flow::Done(after, t1) = flow_scan_one(t, repo, ordered[0], scan) {
            lemma_scan_sound(t1, repo, ordered.drop_first(), after);
        }
    }
}

/// The workspace that is chosen was found to be clean, or was found to have the
/// conflicted bookmarks that are then repaired in it. One that is dirty, missing or
/// empty is never chosen.
pub proof fn law_only_sound_workspaces_are_chosen(
    t: Seq<AnswerView>,
    repo: Seq<char>,
    ordered: Seq<WorkspaceRecordView>,
)
    ensures
        flow_scan(t, repo, ordered, ScanView::nothing()) matches Flow::Done(scan, _)
            ==> scan.choice() matches Some(id) ==> {
            ||| scan.checks.contains(HealthCheckView::Clean { workspace_id: id })
            ||| scan.checks.contains(
                HealthCheckView::Conflicted {
                    workspace_id: id,
                    bookmarks: scan.repairs(id),
                    skipped: false,
                },
            )
        },
{
    lemma_scan_sound(t, repo, ordered, ScanView::nothing());
}

// ---------------------------------------------------------------------------
// In which order
// ---------------------------------------------------------------------------

/// No two of the records have the same id.
pub open spec fn ids_distinct(records: Seq<WorkspaceRecordView>) -> bool {
    forall|i: int, j: int|
        0 <= i < j < records.len() ==> records[i].workspace_id != records[j].workspace_id
}

proof fn lemma_with_id(free: Seq<WorkspaceRecordView>, id: Seq<char>)
    ensures
        with_id(free, id).len() <= 1,
        with_id(free, id).len() == 1 ==> with_id(free, id)[0].workspace_id == id,
        has_id(free, id) ==> with_id(free, id).len() == 1,
    decreases free.len(),
{
    if free.len() > 0 {
        lemma_with_id(free.drop_first(), id);
        if has_id(free, id) && free[0].workspace_id != id {
            let i = choose|i: int| 0 <= i < free.len() && (#[trigger] free[i]).workspace_id == id;
            assert(free.drop_first()[i - 1].workspace_id == id);
        }
    }
}

proof fn lemma_each_once(first: Seq<WorkspaceRecordView>, records: Seq<WorkspaceRecordView>)
    requires
        first.len() <= 1,
    ensures
        ids_distinct(each_once(first, records)),
        each_once(first, records).len() >= first.len(),
        first.len() == 1 ==> each_once(first, records)[0] == first[0],
        forall|i: int|
            0 <= i < records.len() ==> has_id(
                each_once(first, records),
                (#[trigger] records[i]).workspace_id,
            ),
    decreases records.len(),
{
    if records.len() > 0 {
        let before = each_once(first, records.drop_last());
        let after = each_once(first, records);
        let last = records.last();
        lemma_each_once(first, records.drop_last());
        assert forall|i: int| 0 <= i < records.len() implies has_id(
            after,
            (#[trigger] records[i]).workspace_id,
        ) by {
            if i < records.len() - 1 {
                assert(records.drop_last()[i] == records[i]);
                assert(has_id(before, records.drop_last()[i].workspace_id));
                let j = choose|j: int|
                    0 <= j < before.len() && (#[trigger] before[j]).workspace_id
                        == records[i].workspace_id;
                assert(after[j].workspace_id == records[i].workspace_id);
            } else if has_id(before, last.workspace_id) {
            } else {
                assert(after[before.len() as int].workspace_id == last.workspace_id);
            }
        }
        if !has_id(before, last.workspace_id) {
            assert forall|i: int, j: int| 0 <= i < j < after.len() implies after[i].workspace_id
                != after[j].workspace_id by {
                if j == before.len() {
                    assert(before[i].workspace_id != last.workspace_id);
                }
            }
        }
    }
}

/// Every free workspace is tried once, and the preferred one is tried first where it
/// is free.
pub proof fn law_each_free_workspace_is_tried_once(
    free: Seq<WorkspaceRecordView>,
    prefer: Option<Seq<char>>,
)
    ensures
        ids_distinct(spec_ordered(free, prefer)),
        forall|i: int|
            0 <= i < free.len() ==> has_id(
                spec_ordered(free, prefer),
                (#[trigger] free[i]).workspace_id,
            ),
        prefer matches Some(id) ==> has_id(free, id) ==> spec_ordered(free, prefer).len() > 0
            && spec_ordered(free, prefer)[0].workspace_id == id,
{
    match prefer {
        Some(id) => {
            lemma_with_id(free, id);
            lemma_each_once(with_id(free, id), free);
        },
        None => lemma_each_once(Seq::empty(), free),
    }
}

// ---------------------------------------------------------------------------
// Putting it in place
// ---------------------------------------------------------------------------

/// Where putting the workspace in place fails, the lease is given back, and the
/// failure is handed on unchanged however that goes.
pub proof fn law_failed_lease_is_given_back(
    t: Seq<AnswerView>,
    lease_id: Seq<char>,
    path: Seq<char>,
    repairs: Seq<Seq<char>>,
    prior: Option<ExpiredLeaseView>,
    main_branch: Seq<char>,
    resume: Option<u64>,
)
    requires
        flow_position(t, path, repairs, prior, main_branch, resume) is Failed,
    ensures
        ({
            let failed = flow_position(t, path, repairs, prior, main_branch, resume);
            match flow_position_or_release(
                t,
                lease_id,
                path,
                repairs,
                prior,
                main_branch,
                resume,
            ) {
                Flow::Done(_, _) => false,
                Flow::Failed(e, _) => failed matches Flow::Failed(first, _) && e == first,
                Flow::Asks(a) => a == (ActionView::ReleaseWorkspace {
                    lease_id,
                    reason: Some("lease_setup_failed"@),
                }),
            }
        }),
{
}

/// A workspace that was taken from an expired lease is put on the head of a pull
/// request only after its working-copy commit was seen to be empty and on top of the
/// default branch.
pub proof fn law_resume_spares_work(
    t: Seq<AnswerView>,
    path: Seq<char>,
    n: u64,
    prior: ExpiredLeaseView,
    main_branch: Seq<char>,
)
    ensures
        ({
            let resumed = flow_resume(t, path, n, Some(prior), main_branch);
            resumed is Done || resumed == Flow::<PrResumeInfoView>::Asks(
                ActionView::Run(new_on(path, spec_pr_bookmark(n))),
            ) ==> exists|seen: Seq<AnswerView>| #[trigger]
                left_of(seen, t) && sees_clean(seen, path, main_branch)
        }),
{
    lemma_words();
    let bookmark = spec_pr_bookmark(n);
    let list = seq!["git"@, "remote"@, "list"@];
    law_run_jj_asks_little(t, spec_jj(path, list));
    match flow_run_jj(t, spec_jj(path, list)) {
        Flow::Asks(ActionView::Run(c)) => lemma_not_new(path, bookmark, list, c),
        _ => {},
    }
    if let Flow::Done(github, t1) = flow_github_of(t, path) {
        let fetch = seq!["git"@, "fetch"@, "--remote"@, github.0];
        law_run_jj_asks_little(t1, spec_jj(path, fetch));
        match flow_run_jj(t1, spec_jj(path, fetch)) {
            Flow::Asks(ActionView::Run(c)) => lemma_not_new(path, bookmark, fetch, c),
            Flow::Done(_, t2) => {
                lemma_left_on(t2, t1, t);
                law_guard_lets_only_clean_pass(t2, path, main_branch, prior, bookmark);
            },
            _ => {},
        }
    }
}

/// A lease that is in place is kept: whatever happens while it is handed over, a failed
/// setup step included, nothing is released or forgotten.
pub proof fn law_failed_setup_keeps_the_lease(
    t: Seq<AnswerView>,
    ticket: TicketView,
    w: WorkspaceRecordView,
    checks: Seq<HealthCheckView>,
    resume: Option<PrResumeInfoView>,
)
    ensures
        match flow_hand_over(t, ticket, w, checks, resume) {
            Flow::Asks(ActionView::ReleaseWorkspace { .. }) => false,
            Flow::Asks(ActionView::ForceRelease { .. }) => false,
            Flow::Asks(ActionView::ForgetWorkspace { .. }) => false,
            _ => true,
        },
{
    law_run_jj_asks_little(t, spec_jj(w.workspace_path, spec_log_head("commit_id.short()"@)));
}

/// No pull request that is merged or closed is resumed.
pub proof fn law_resume_needs_an_open_pr(n: u64, slug: Seq<char>, said: JsonView)
    requires
        said.text_at("state"@) == Some("MERGED"@) || said.text_at("state"@) == Some("CLOSED"@),
    ensures
        head_branch_in(n, slug, said) is Err,
{
}

} // verus!
