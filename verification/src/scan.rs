//! Looking over the free workspaces for one to lease.

use vstd::prelude::*;

use crate::events::{AuditEvent, AuditEventView};
use crate::flow::{
    ask_ack, ask_flag, ask_saved, follows, Action, ActionView, AnswerView, Flow, Stop, Tape,
};
use crate::health::{
    check_workspace_health, flow_check_health, WorkspaceHealthOutcome, WorkspaceHealthOutcomeView,
};
use crate::records::{copy_workspace, WorkspaceHealth, WorkspaceRecord, WorkspaceRecordView};
use crate::report::{HealthCheck, HealthCheckView};
use crate::text::{copy, copy_all, same};

verus! {

// ---------------------------------------------------------------------------
// In which order
// ---------------------------------------------------------------------------

/// A workspace with this id is among the records.
pub open spec fn has_id(records: Seq<WorkspaceRecordView>, id: Seq<char>) -> bool {
    exists|i: int| 0 <= i < records.len() && (#[trigger] records[i]).workspace_id == id
}

/// The first record with this id.
pub open spec fn with_id(records: Seq<WorkspaceRecordView>, id: Seq<char>) -> Seq<
    WorkspaceRecordView,
>
    decreases records.len(),
{
    if records.len() == 0 {
        Seq::empty()
    } else if records[0].workspace_id == id {
        seq![records[0]]
    } else {
        with_id(records.drop_first(), id)
    }
}

/// `first`, then each of the records whose id has not come up yet.
pub open spec fn each_once(
    first: Seq<WorkspaceRecordView>,
    records: Seq<WorkspaceRecordView>,
) -> Seq<WorkspaceRecordView>
    decreases records.len(),
{
    if records.len() == 0 {
        first
    } else {
        let before = each_once(first, records.drop_last());
        if has_id(before, records.last().workspace_id) {
            before
        } else {
            before.push(records.last())
        }
    }
}

/// The free workspaces in the order in which they are tried: the preferred one
/// first, where it is free, then the others.
pub open spec fn spec_ordered(
    free: Seq<WorkspaceRecordView>,
    prefer: Option<Seq<char>>,
) -> Seq<WorkspaceRecordView> {
    each_once(
        match prefer {
            Some(id) => with_id(free, id),
            None => Seq::empty(),
        },
        free,
    )
}

fn contains_id(records: &Vec<WorkspaceRecord>, id: &str) -> (r: bool)
    ensures
        r == has_id(records.deep_view(), id@),
{
    let mut i: usize = 0;
    while i < records.len()
        invariant
            i <= records@.len(),
            forall|j: int| 0 <= j < i ==> (#[trigger] records.deep_view()[j]).workspace_id != id@,
        decreases records@.len() - i,
    {
        assert(records.deep_view()[i as int] == records@[i as int].deep_view());
        if same(records[i].workspace_id.as_str(), id) {
            return true;
        }
        i += 1;
    }
    false
}

fn find_id(records: &Vec<WorkspaceRecord>, id: &str) -> (r: Vec<WorkspaceRecord>)
    ensures
        r.deep_view() == with_id(records.deep_view(), id@),
{
    let mut out: Vec<WorkspaceRecord> = Vec::new();
    let ghost whole = records.deep_view();
    let mut i: usize = 0;
    assert(whole.subrange(0, whole.len() as int) =~= whole);
    while i < records.len()
        invariant
            i <= records@.len(),
            whole == records.deep_view(),
            out@.len() == 0,
            with_id(whole, id@) == with_id(whole.subrange(i as int, whole.len() as int), id@),
        decreases records@.len() - i,
    {
        proof {
            let rest = whole.subrange(i as int, whole.len() as int);
            assert(rest[0] == records@[i as int].deep_view());
            assert(rest.drop_first() =~= whole.subrange(i + 1, whole.len() as int));
        }
        if same(records[i].workspace_id.as_str(), id) {
            out.push(copy_workspace(&records[i]));
            assert(out.deep_view() =~= seq![whole[i as int]]);
            return out;
        }
        i += 1;
    }
    assert(out.deep_view() =~= Seq::<WorkspaceRecordView>::empty());
    out
}

pub fn order_free(free: &Vec<WorkspaceRecord>, prefer: &Option<String>) -> (r: Vec<
    WorkspaceRecord,
>)
    ensures
        r.deep_view() == spec_ordered(free.deep_view(), prefer.deep_view()),
{
    let mut out: Vec<WorkspaceRecord> = match prefer {
        Some(id) => find_id(free, id.as_str()),
        None => {
            let none: Vec<WorkspaceRecord> = Vec::new();
            assert(none.deep_view() =~= Seq::<WorkspaceRecordView>::empty());
            none
        },
    };
    let ghost first = out.deep_view();
    let ghost all = free.deep_view();
    let mut i: usize = 0;
    while i < free.len()
        invariant
            i <= free@.len(),
            all == free.deep_view(),
            out.deep_view() == each_once(first, all.subrange(0, i as int)),
        decreases free@.len() - i,
    {
        proof {
            assert(all.subrange(0, i + 1).last() == free@[i as int].deep_view());
            assert(all.subrange(0, i + 1).drop_last() =~= all.subrange(0, i as int));
        }
        let ghost before = out.deep_view();
        if !contains_id(&out, free[i].workspace_id.as_str()) {
            out.push(copy_workspace(&free[i]));
            assert(out.deep_view() =~= before.push(all[i as int]));
        }
        i += 1;
    }
    assert(all.subrange(0, i as int) =~= all);
    out
}

// ---------------------------------------------------------------------------
// What is found
// ---------------------------------------------------------------------------

/// What the look over the free workspaces has found.
#[derive(Debug, Clone, PartialEq, Eq)]
pub struct Scan {
    /// What is reported of each.
    pub checks: Vec<HealthCheck>,
    /// The first clean one.
    pub clean: Option<String>,
    /// The first with conflicted bookmarks, and those bookmarks.
    pub conflicted: Option<(String, Vec<String>)>,
    /// Those that hold no repository, with their paths.
    pub husks: Vec<(String, String)>,
}

#[verifier::ext_equal]
pub ghost struct ScanView {
    pub checks: Seq<HealthCheckView>,
    pub clean: Option<Seq<char>>,
    pub conflicted: Option<(Seq<char>, Seq<Seq<char>>)>,
    pub husks: Seq<(Seq<char>, Seq<char>)>,
}

impl DeepView for Scan {
    type V = ScanView;

    open spec fn deep_view(&self) -> ScanView {
        ScanView {
            checks: self.checks.deep_view(),
            clean: self.clean.deep_view(),
            conflicted: self.conflicted.deep_view(),
            husks: self.husks.deep_view(),
        }
    }
}

impl ScanView {
    pub open spec fn nothing() -> ScanView {
        ScanView { checks: Seq::empty(), clean: None, conflicted: None, husks: Seq::empty() }
    }

    pub open spec fn note(self, check: HealthCheckView) -> ScanView {
        ScanView { checks: self.checks.push(check), ..self }
    }

    pub open spec fn found_clean(self, id: Seq<char>) -> ScanView {
        ScanView { clean: Some(id), ..self.note(HealthCheckView::Clean { workspace_id: id }) }
    }

    pub open spec fn found_conflicted(self, id: Seq<char>, bookmarks: Seq<Seq<char>>) -> ScanView {
        ScanView {
            conflicted: match self.conflicted {
                Some(first) => Some(first),
                None => Some((id, bookmarks)),
            },
            ..self.note(
                HealthCheckView::Conflicted {
                    workspace_id: id,
                    bookmarks,
                    skipped: self.conflicted is Some,
                },
            )
        }
    }

    pub open spec fn found_husk(self, id: Seq<char>, path: Seq<char>) -> ScanView {
        ScanView {
            husks: self.husks.push((id, path)),
            ..self.note(HealthCheckView::BrokenEmpty { workspace_id: id, workspace_path: path })
        }
    }

    /// The workspace to use: a clean one, else one whose bookmarks can be repaired.
    pub open spec fn choice(self) -> Option<Seq<char>> {
        match (self.clean, self.conflicted) {
            (Some(id), _) => Some(id),
            (None, Some((id, _))) => Some(id),
            (None, None) => None,
        }
    }

    /// The bookmarks to repair in the chosen workspace.
    pub open spec fn repairs(self, id: Seq<char>) -> Seq<Seq<char>> {
        match self.conflicted {
            Some((other, bookmarks)) if other == id => bookmarks,
            _ => Seq::empty(),
        }
    }
}

impl Scan {
    pub fn nothing() -> (r: Scan)
        ensures
            r.deep_view() == ScanView::nothing(),
    {
        let r: Scan = Scan {
            checks: Vec::new(),
            clean: None,
            conflicted: None,
            husks: Vec::new(),
        };
        assert(r.deep_view() =~= ScanView::nothing());
        r
    }

    fn note(&mut self, check: HealthCheck)
        ensures
            final(self).deep_view() == old(self).deep_view().note(check.deep_view()),
    {
        let ghost added = check.deep_view();
        self.checks.push(check);
        assert(self.deep_view() =~= old(self).deep_view().note(added));
    }

    fn found_clean(&mut self, id: &str)
        ensures
            final(self).deep_view() == old(self).deep_view().found_clean(id@),
    {
        self.note(HealthCheck::Clean { workspace_id: id.to_string() });
        self.clean = Some(id.to_string());
    }

    fn found_conflicted(&mut self, id: &str, bookmarks: Vec<String>)
        ensures
            final(self).deep_view() == old(self).deep_view().found_conflicted(
                id@,
                bookmarks.deep_view(),
            ),
    {
        let skipped: bool = self.conflicted.is_some();
        self.note(
            HealthCheck::Conflicted {
                workspace_id: id.to_string(),
                bookmarks: copy_all(&bookmarks),
                skipped,
            },
        );
        if !skipped {
            self.conflicted = Some((id.to_string(), bookmarks));
        }
    }

    fn found_husk(&mut self, id: &str, path: &str)
        ensures
            final(self).deep_view() == old(self).deep_view().found_husk(id@, path@),
    {
        self.note(
            HealthCheck::BrokenEmpty {
                workspace_id: id.to_string(),
                workspace_path: path.to_string(),
            },
        );
        let ghost before = self.deep_view();
        self.husks.push((id.to_string(), path.to_string()));
        assert(self.deep_view().husks =~= before.husks.push((id@, path@)));
        assert(self.deep_view() =~= old(self).deep_view().found_husk(id@, path@));
    }

    pub fn choice(&self) -> (r: Option<String>)
        ensures
            r.deep_view() == self.deep_view().choice(),
    {
        match (&self.clean, &self.conflicted) {
            (Some(id), _) => Some(copy(id)),
            (None, Some(first)) => Some(copy(&first.0)),
            (None, None) => None,
        }
    }

    pub fn repairs(&self, id: &str) -> (r: Vec<String>)
        ensures
            r.deep_view() == self.deep_view().repairs(id@),
    {
        if let Some(first) = &self.conflicted {
            if same(first.0.as_str(), id) {
                return copy_all(&first.1);
            }
        }
        let none: Vec<String> = Vec::new();
        assert(none.deep_view() =~= Seq::<Seq<char>>::empty());
        none
    }
}

/// Looks over one workspace.
pub open spec fn flow_scan_one(
    t: Seq<AnswerView>,
    repo: Seq<char>,
    w: WorkspaceRecordView,
    scan: ScanView,
) -> Flow<ScanView> {
    let id = w.workspace_id;
    ask_flag(t, ActionView::IsDir(w.workspace_path)).and(
        |there: bool, t: Seq<AnswerView>|
            if !there {
                Flow::Done(scan.note(HealthCheckView::Missing { workspace_id: id }), t)
            } else {
                flow_check_health(t, w.workspace_path).and(
                    |outcome: WorkspaceHealthOutcomeView, t: Seq<AnswerView>|
                        match outcome {
                            WorkspaceHealthOutcomeView::Clean => Flow::Done(
                                scan.found_clean(id),
                                t,
                            ),
                            WorkspaceHealthOutcomeView::ConflictedBookmarks(bookmarks) => ask_saved(
                                t,
                                ActionView::SetHealth {
                                    repo,
                                    workspace_id: id,
                                    health: WorkspaceHealth::Conflicted,
                                },
                            ).and(
                                |u: (), t: Seq<AnswerView>|
                                    Flow::Done(scan.found_conflicted(id, bookmarks), t),
                            ),
                            WorkspaceHealthOutcomeView::DirtyWorkingCopy => flow_note_dirty(
                                t,
                                repo,
                                id,
                            ).and(
                                |u: (), t: Seq<AnswerView>|
                                    Flow::Done(
                                        scan.note(HealthCheckView::Dirty { workspace_id: id }),
                                        t,
                                    ),
                            ),
                            WorkspaceHealthOutcomeView::BrokenEmpty => ask_ack(
                                t,
                                ActionView::Audit(
                                    AuditEventView::named("workspace.broken_empty"@).text(
                                        "repo"@,
                                        repo,
                                    ).text("workspace_id"@, id).text(
                                        "workspace_path"@,
                                        w.workspace_path,
                                    ),
                                ),
                            ).and(
                                |u: (), t: Seq<AnswerView>|
                                    Flow::Done(scan.found_husk(id, w.workspace_path), t),
                            ),
                        },
                )
            },
    )
}

/// Records that a workspace is dirty and was passed over.
pub open spec fn flow_note_dirty(t: Seq<AnswerView>, repo: Seq<char>, id: Seq<char>) -> Flow<()> {
    ask_saved(
        t,
        ActionView::SetHealth { repo, workspace_id: id, health: WorkspaceHealth::Dirty },
    ).and(
        |u: (), t: Seq<AnswerView>|
            ask_ack(
                t,
                ActionView::Audit(
                    AuditEventView::named("workspace.health_check_skipped"@).text("repo"@, repo).text(
                        "workspace_id"@,
                        id,
                    ).text("reason"@, "dirty_working_copy"@),
                ),
            ),
    )
}

fn scan_one(tape: &mut Tape, repo: &str, w: &WorkspaceRecord, scan: &mut Scan) -> (r: Result<
    (),
    Stop,
>)
    ensures
        match r {
            Ok(_) => flow_scan_one(
                old(tape)@,
                repo@,
                w.deep_view(),
                old(scan).deep_view(),
            ) == Flow::Done(final(scan).deep_view(), final(tape)@),
            Err(Stop::Fail(e)) => flow_scan_one(
                old(tape)@,
                repo@,
                w.deep_view(),
                old(scan).deep_view(),
            ) == Flow::<ScanView>::Failed(e.deep_view(), final(tape)@),
            Err(Stop::Ask(a)) => flow_scan_one(
                old(tape)@,
                repo@,
                w.deep_view(),
                old(scan).deep_view(),
            ) == Flow::<ScanView>::Asks(a.deep_view()),
        },
{
    let id: &str = w.workspace_id.as_str();
    let there: bool = tape.ask_flag(Action::IsDir(copy(&w.workspace_path)))?;
    if !there {
        scan.note(HealthCheck::Missing { workspace_id: id.to_string() });
        return Ok(());
    }
    match check_workspace_health(tape, w.workspace_path.as_str())? {
        WorkspaceHealthOutcome::Clean => {
            scan.found_clean(id);
        },
        WorkspaceHealthOutcome::ConflictedBookmarks(bookmarks) => {
            tape.ask_saved(
                Action::SetHealth {
                    repo: repo.to_string(),
                    workspace_id: id.to_string(),
                    health: WorkspaceHealth::Conflicted,
                },
            )?;
            scan.found_conflicted(id, bookmarks);
        },
        WorkspaceHealthOutcome::DirtyWorkingCopy => {
            tape.ask_saved(
                Action::SetHealth {
                    repo: repo.to_string(),
                    workspace_id: id.to_string(),
                    health: WorkspaceHealth::Dirty,
                },
            )?;
            tape.ask_ack(
                Action::Audit(
                    AuditEvent::named("workspace.health_check_skipped").text("repo", repo).text(
                        "workspace_id",
                        id,
                    ).text("reason", "dirty_working_copy"),
                ),
            )?;
            scan.note(HealthCheck::Dirty { workspace_id: id.to_string() });
        },
        WorkspaceHealthOutcome::BrokenEmpty => {
            tape.ask_ack(
                Action::Audit(
                    AuditEvent::named("workspace.broken_empty").text("repo", repo).text(
                        "workspace_id",
                        id,
                    ).text("workspace_path", w.workspace_path.as_str()),
                ),
            )?;
            scan.found_husk(id, w.workspace_path.as_str());
        },
    }
    Ok(())
}

/// Looks over the workspaces in order, up to the first clean one.
pub open spec fn flow_scan(
    t: Seq<AnswerView>,
    repo: Seq<char>,
    ordered: Seq<WorkspaceRecordView>,
    scan: ScanView,
) -> Flow<ScanView>
    decreases ordered.len(),
{
    if ordered.len() == 0 || scan.clean is Some {
        Flow::Done(scan, t)
    } else {
        flow_scan_one(t, repo, ordered[0], scan).and(
            |scan: ScanView, t: Seq<AnswerView>|
                flow_scan(t, repo, ordered.drop_first(), scan),
        )
    }
}

pub fn scan_free(tape: &mut Tape, repo: &str, ordered: &Vec<WorkspaceRecord>) -> (r: Result<
    Scan,
    Stop,
>)
    ensures
        follows(
            r,
            final(tape)@,
            flow_scan(old(tape)@, repo@, ordered.deep_view(), ScanView::nothing()),
        ),
{
    let mut scan: Scan = Scan::nothing();
    let ghost whole = ordered.deep_view();
    let ghost flow = flow_scan(tape@, repo@, whole, scan.deep_view());
    let mut i: usize = 0;
    assert(whole.subrange(0, whole.len() as int) =~= whole);
    while i < ordered.len() && scan.clean.is_none()
        invariant
            i <= ordered@.len(),
            whole == ordered.deep_view(),
            flow == flow_scan(
                old(tape)@,
                repo@,
                ordered.deep_view(),
                ScanView::nothing(),
            ),
            flow == flow_scan(
                tape@,
                repo@,
                whole.subrange(i as int, whole.len() as int),
                scan.deep_view(),
            ),
        decreases ordered@.len() - i,
    {
        proof {
            let rest = whole.subrange(i as int, whole.len() as int);
            assert(rest[0] == ordered@[i as int].deep_view());
            assert(rest.drop_first() =~= whole.subrange(i + 1, whole.len() as int));
        }
        scan_one(tape, repo, &ordered[i], &mut scan)?;
        i += 1;
    }
    Ok(scan)
}

} // verus!
