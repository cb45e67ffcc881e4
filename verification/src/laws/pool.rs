//! The pool: ids, staging directories, and rows whose directory is gone.

use vstd::prelude::*;

use crate::flow::{ActionView, AnswerView, DirEntryView, DirNameView, Flow};
use crate::number::{law_numeral_is_read_back, spec_decimal, spec_pad};
use crate::pool::{candidates_among, id_number, next_number, spec_next_id};
use crate::reconcile::{fate_of, flow_reconcile_row, Fate};
use crate::records::{
    ReconcileReportView, WorkspaceCandidateView, WorkspaceRecordView, WorkspaceState,
};
use crate::text::{spec_starts, stands_at};

verus! {

/// Every id in use has a lower number than the next, or none.
pub proof fn law_next_number_is_above_all(prefix: Seq<char>, existing: Seq<Seq<char>>)
    ensures
        next_number(prefix, existing) >= 1,
        forall|i: int|
            0 <= i < existing.len() ==> match #[trigger] id_number(prefix, existing[i]) {
                Some(m) => m < next_number(prefix, existing),
                None => true,
            },
    decreases existing.len(),
{
    if existing.len() > 0 {
        let before = existing.drop_last();
        law_next_number_is_above_all(prefix, before);
        assert forall|i: int| 0 <= i < existing.len() implies match #[trigger] id_number(
            prefix,
            existing[i],
        ) {
            Some(m) => m < next_number(prefix, existing),
            None => true,
        } by {
            if i < existing.len() - 1 {
                assert(before[i] == existing[i]);
                assert(id_number(prefix, before[i]) == id_number(prefix, existing[i]));
            }
        }
    }
}

/// The next id is none of those in use, as long as the numbers do not run out.
pub proof fn law_next_id_is_fresh(prefix: Seq<char>, existing: Seq<Seq<char>>)
    requires
        next_number(prefix, existing) <= u32::MAX,
    ensures
        !existing.contains(spec_next_id(prefix, existing)),
        id_number(prefix, spec_next_id(prefix, existing)) == Some(next_number(prefix, existing)),
{
    let n = next_number(prefix, existing);
    let digits = spec_pad(spec_decimal(n), 3);
    let id = spec_next_id(prefix, existing);
    law_numeral_is_read_back(n, 3, u32::MAX as nat);
    assert(id.subrange(0, prefix.len() as int) =~= prefix);
    assert(id.subrange(prefix.len() as int, id.len() as int) =~= digits);
    law_next_number_is_above_all(prefix, existing);
    if existing.contains(id) {
        let i = choose|i: int| 0 <= i < existing.len() && existing[i] == id;
        assert(id_number(prefix, existing[i]) == Some(n));
    }
}

/// The directory of a clone that is not complete is never taken for a workspace,
/// where the prefix of the workspaces begins with anything but a dot.
pub proof fn law_staging_is_no_workspace(
    root: Seq<char>,
    prefix: Seq<char>,
    name: DirNameView,
    id: Seq<char>,
    is_dir: bool,
    rest: Seq<DirEntryView>,
    found: Seq<WorkspaceCandidateView>,
)
    requires
        prefix.len() > 0,
        prefix[0] != '.',
        name.text == ".incoming-"@ + id,
    ensures
        candidates_among(
            root,
            prefix,
            seq![DirEntryView::Named { name, is_dir }] + rest,
            found,
        ) == candidates_among(root, prefix, rest, found),
{
    reveal_strlit(".incoming-");
    assert(name.text[0] == '.');
    let entries = seq![DirEntryView::Named { name, is_dir }] + rest;
    assert(entries.drop_first() =~= rest);
    assert(!spec_starts(name.text, prefix)) by {
        if stands_at(name.text, prefix, 0) {
            assert(name.text.subrange(0, prefix.len() as int)[0] == prefix[0]);
        }
    }
}

// ---------------------------------------------------------------------------
// Rows whose directory is gone
// ---------------------------------------------------------------------------

/// A row whose directory is there is left as it is, and nothing is asked for but
/// whether it is there.
pub proof fn law_present_rows_stay(
    now: i64,
    row: WorkspaceRecordView,
    report: ReconcileReportView,
    rest: Seq<AnswerView>,
)
    ensures
        flow_reconcile_row(seq![AnswerView::Flag(true)] + rest, now, row, report) == Flow::Done(
            report,
            rest,
        ),
{
    let t = seq![AnswerView::Flag(true)] + rest;
    assert(t.drop_first() =~= rest);
}

/// A row with an active lease is never forgotten nor released, and is reported as
/// held. One without an expiry counts as active.
pub proof fn law_active_leases_are_kept(
    t: Seq<AnswerView>,
    now: i64,
    row: WorkspaceRecordView,
    report: ReconcileReportView,
)
    requires
        row.state == WorkspaceState::Leased,
        row.lease_expires_at_epoch_s is None || row.lease_expires_at_epoch_s->0 > now,
    ensures
        match flow_reconcile_row(t, now, row, report) {
            Flow::Asks(ActionView::ForgetWorkspace { .. }) => false,
            Flow::Asks(ActionView::ForceRelease { .. }) => false,
            Flow::Done(after, _) => after == report || after == report.hold(row),
            Flow::Failed(_, _) => false,
            _ => true,
        },
{
    assert(fate_of(row, now) == Fate::Hold);
}

/// A row whose lease has run out is released before it is forgotten.
pub proof fn law_expired_leases_are_released_first(
    now: i64,
    row: WorkspaceRecordView,
    report: ReconcileReportView,
)
    requires
        row.state == WorkspaceState::Leased,
        row.lease_expires_at_epoch_s matches Some(expiry) && expiry <= now,
        row.lease_id is Some,
    ensures
        flow_reconcile_row(seq![AnswerView::Flag(false)], now, row, report) == Flow::<
            ReconcileReportView,
        >::Asks(
            ActionView::ForceRelease { lease_id: row.lease_id->0, reason: "dir_missing"@ },
        ),
{
    assert(fate_of(row, now) == Fate::Evict);
    let t = seq![AnswerView::Flag(false)];
    assert(t.drop_first() =~= Seq::<AnswerView>::empty());
}

} // verus!
