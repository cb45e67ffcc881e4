//! The rows that the metadata registry keeps, and the smaller records that the
//! commands work with.

use vstd::prelude::*;

use crate::text::{copy, copy_opt};

verus! {

/// A registered repository and the pool of workspaces cut from it.
#[derive(Debug, Clone, PartialEq, Eq)]
pub struct RepoRecord {
    pub repo: String,
    pub origin: String,
    pub main_branch: String,
    pub workspace_root: String,
    pub workspace_prefix: String,
    pub source: Option<String>,
    pub clone_command: Option<String>,
}

#[verifier::ext_equal]
pub ghost struct RepoRecordView {
    pub repo: Seq<char>,
    pub origin: Seq<char>,
    pub main_branch: Seq<char>,
    pub workspace_root: Seq<char>,
    pub workspace_prefix: Seq<char>,
    pub source: Option<Seq<char>>,
    pub clone_command: Option<Seq<char>>,
}

impl DeepView for RepoRecord {
    type V = RepoRecordView;

    open spec fn deep_view(&self) -> RepoRecordView {
        RepoRecordView {
            repo: self.repo@,
            origin: self.origin@,
            main_branch: self.main_branch@,
            workspace_root: self.workspace_root@,
            workspace_prefix: self.workspace_prefix@,
            source: self.source.deep_view(),
            clone_command: self.clone_command.deep_view(),
        }
    }
}

/// Whether somebody holds the workspace.
#[derive(Debug, Clone, Copy, PartialEq, Eq, Structural)]
pub enum WorkspaceState {
    Free,
    Leased,
}

impl DeepView for WorkspaceState {
    type V = WorkspaceState;

    open spec fn deep_view(&self) -> WorkspaceState {
        *self
    }
}

/// The name of a state.
pub open spec fn state_name(state: WorkspaceState) -> Seq<char> {
    match state {
        WorkspaceState::Free => "free"@,
        WorkspaceState::Leased => "leased"@,
    }
}

impl WorkspaceState {
    pub fn as_str(&self) -> (r: &'static str)
        ensures
            r@ == state_name(*self),
    {
        match self {
            WorkspaceState::Free => "free",
            WorkspaceState::Leased => "leased",
        }
    }
}

/// What the last health check found wrong with a free workspace.
#[derive(Debug, Clone, Copy, PartialEq, Eq, Structural)]
pub enum WorkspaceHealth {
    Dirty,
    Conflicted,
}

impl DeepView for WorkspaceHealth {
    type V = WorkspaceHealth;

    open spec fn deep_view(&self) -> WorkspaceHealth {
        *self
    }
}

/// The name of a health status.
pub open spec fn health_name(health: WorkspaceHealth) -> Seq<char> {
    match health {
        WorkspaceHealth::Dirty => "dirty"@,
        WorkspaceHealth::Conflicted => "conflicted"@,
    }
}

impl WorkspaceHealth {
    pub fn as_str(&self) -> (r: &'static str)
        ensures
            r@ == health_name(*self),
    {
        match self {
            WorkspaceHealth::Dirty => "dirty",
            WorkspaceHealth::Conflicted => "conflicted",
        }
    }
}

/// Lease state and health taken together, as listings show and filter by.
#[derive(Debug, Clone, Copy, PartialEq, Eq, Structural)]
pub enum EffectiveState {
    Free,
    FreeDirty,
    FreeConflicted,
    Leased,
}

impl DeepView for EffectiveState {
    type V = EffectiveState;

    open spec fn deep_view(&self) -> EffectiveState {
        *self
    }
}

/// The name of an effective state.
pub open spec fn effective_name(state: EffectiveState) -> Seq<char> {
    match state {
        EffectiveState::Free => "free"@,
        EffectiveState::FreeDirty => "free-dirty"@,
        EffectiveState::FreeConflicted => "free-conflicted"@,
        EffectiveState::Leased => "leased"@,
    }
}

/// The effective state that a name stands for.
pub open spec fn effective_from_name(name: Seq<char>) -> Option<EffectiveState> {
    if name == effective_name(EffectiveState::Free) {
        Some(EffectiveState::Free)
    } else if name == effective_name(EffectiveState::FreeDirty) {
        Some(EffectiveState::FreeDirty)
    } else if name == effective_name(EffectiveState::FreeConflicted) {
        Some(EffectiveState::FreeConflicted)
    } else if name == effective_name(EffectiveState::Leased) {
        Some(EffectiveState::Leased)
    } else {
        None
    }
}

impl EffectiveState {
    pub fn as_str(&self) -> (r: &'static str)
        ensures
            r@ == effective_name(*self),
    {
        match self {
            EffectiveState::Free => "free",
            EffectiveState::FreeDirty => "free-dirty",
            EffectiveState::FreeConflicted => "free-conflicted",
            EffectiveState::Leased => "leased",
        }
    }

    pub fn from_name(name: &str) -> (r: Option<EffectiveState>)
        ensures
            r == effective_from_name(name@),
    {
        if crate::text::same(name, "free") {
            Some(EffectiveState::Free)
        } else if crate::text::same(name, "free-dirty") {
            Some(EffectiveState::FreeDirty)
        } else if crate::text::same(name, "free-conflicted") {
            Some(EffectiveState::FreeConflicted)
        } else if crate::text::same(name, "leased") {
            Some(EffectiveState::Leased)
        } else {
            None
        }
    }
}

/// One workspace of a pool.
#[derive(Debug, Clone, PartialEq, Eq)]
pub struct WorkspaceRecord {
    pub repo: String,
    pub workspace_id: String,
    pub workspace_path: String,
    pub state: WorkspaceState,
    pub lease_id: Option<String>,
    pub holder: Option<String>,
    pub task: Option<String>,
    pub leased_at_epoch_s: Option<i64>,
    pub lease_expires_at_epoch_s: Option<i64>,
    pub head_commit: Option<String>,
    pub health_status: Option<WorkspaceHealth>,
    pub unhealthy_since_epoch_s: Option<i64>,
    pub last_release_reason: Option<String>,
}

#[verifier::ext_equal]
pub ghost struct WorkspaceRecordView {
    pub repo: Seq<char>,
    pub workspace_id: Seq<char>,
    pub workspace_path: Seq<char>,
    pub state: WorkspaceState,
    pub lease_id: Option<Seq<char>>,
    pub holder: Option<Seq<char>>,
    pub task: Option<Seq<char>>,
    pub leased_at_epoch_s: Option<i64>,
    pub lease_expires_at_epoch_s: Option<i64>,
    pub head_commit: Option<Seq<char>>,
    pub health_status: Option<WorkspaceHealth>,
    pub unhealthy_since_epoch_s: Option<i64>,
    pub last_release_reason: Option<Seq<char>>,
}

impl DeepView for WorkspaceRecord {
    type V = WorkspaceRecordView;

    open spec fn deep_view(&self) -> WorkspaceRecordView {
        WorkspaceRecordView {
            repo: self.repo@,
            workspace_id: self.workspace_id@,
            workspace_path: self.workspace_path@,
            state: self.state,
            lease_id: self.lease_id.deep_view(),
            holder: self.holder.deep_view(),
            task: self.task.deep_view(),
            leased_at_epoch_s: self.leased_at_epoch_s,
            lease_expires_at_epoch_s: self.lease_expires_at_epoch_s,
            head_commit: self.head_commit.deep_view(),
            health_status: self.health_status,
            unhealthy_since_epoch_s: self.unhealthy_since_epoch_s,
            last_release_reason: self.last_release_reason.deep_view(),
        }
    }
}

impl WorkspaceRecordView {
    /// Lease state and health taken together.
    pub open spec fn effective_state(self) -> EffectiveState {
        match self.state {
            WorkspaceState::Leased => EffectiveState::Leased,
            WorkspaceState::Free => match self.health_status {
                Some(WorkspaceHealth::Dirty) => EffectiveState::FreeDirty,
                Some(WorkspaceHealth::Conflicted) => EffectiveState::FreeConflicted,
                None => EffectiveState::Free,
            },
        }
    }
}

impl WorkspaceRecord {
    pub fn effective_state(&self) -> (r: EffectiveState)
        ensures
            r == self.deep_view().effective_state(),
    {
        match self.state {
            WorkspaceState::Leased => EffectiveState::Leased,
            WorkspaceState::Free => match self.health_status {
                Some(WorkspaceHealth::Dirty) => EffectiveState::FreeDirty,
                Some(WorkspaceHealth::Conflicted) => EffectiveState::FreeConflicted,
                None => EffectiveState::Free,
            },
        }
    }
}

/// A copy of a workspace record.
pub fn copy_workspace(w: &WorkspaceRecord) -> (r: WorkspaceRecord)
    ensures
        r.deep_view() == w.deep_view(),
{
    WorkspaceRecord {
        repo: copy(&w.repo),
        workspace_id: copy(&w.workspace_id),
        workspace_path: copy(&w.workspace_path),
        state: w.state,
        lease_id: copy_opt(&w.lease_id),
        holder: copy_opt(&w.holder),
        task: copy_opt(&w.task),
        leased_at_epoch_s: w.leased_at_epoch_s,
        lease_expires_at_epoch_s: w.lease_expires_at_epoch_s,
        head_commit: copy_opt(&w.head_commit),
        health_status: w.health_status,
        unhealthy_since_epoch_s: w.unhealthy_since_epoch_s,
        last_release_reason: copy_opt(&w.last_release_reason),
    }
}

/// A directory on disk that belongs to a pool.
#[derive(Debug, Clone, PartialEq, Eq)]
pub struct WorkspaceCandidate {
    pub workspace_id: String,
    pub workspace_path: String,
}

#[verifier::ext_equal]
pub ghost struct WorkspaceCandidateView {
    pub workspace_id: Seq<char>,
    pub workspace_path: Seq<char>,
}

impl DeepView for WorkspaceCandidate {
    type V = WorkspaceCandidateView;

    open spec fn deep_view(&self) -> WorkspaceCandidateView {
        WorkspaceCandidateView {
            workspace_id: self.workspace_id@,
            workspace_path: self.workspace_path@,
        }
    }
}

/// A copy of a list of candidates.
pub fn copy_candidates(v: &Vec<WorkspaceCandidate>) -> (r: Vec<WorkspaceCandidate>)
    ensures
        r.deep_view() == v.deep_view(),
{
    let mut out: Vec<WorkspaceCandidate> = Vec::new();
    let mut i: usize = 0;
    while i < v.len()
        invariant
            i <= v@.len(),
            out@.len() == i,
            forall|j: int| 0 <= j < i ==> #[trigger] out@[j].deep_view() == v@[j].deep_view(),
        decreases v@.len() - i,
    {
        out.push(
            WorkspaceCandidate {
                workspace_id: copy(&v[i].workspace_id),
                workspace_path: copy(&v[i].workspace_path),
            },
        );
        i += 1;
    }
    assert(out.deep_view() =~= v.deep_view());
    out
}

/// A lease that the sweep found past its expiry and took back.
#[derive(Debug, Clone, PartialEq, Eq)]
pub struct ExpiredLease {
    pub workspace_id: String,
    pub lease_id: String,
    pub holder: Option<String>,
    pub task: Option<String>,
    pub leased_at_epoch_s: Option<i64>,
    pub lease_expires_at_epoch_s: Option<i64>,
}

#[verifier::ext_equal]
pub ghost struct ExpiredLeaseView {
    pub workspace_id: Seq<char>,
    pub lease_id: Seq<char>,
    pub holder: Option<Seq<char>>,
    pub task: Option<Seq<char>>,
    pub leased_at_epoch_s: Option<i64>,
    pub lease_expires_at_epoch_s: Option<i64>,
}

impl DeepView for ExpiredLease {
    type V = ExpiredLeaseView;

    open spec fn deep_view(&self) -> ExpiredLeaseView {
        ExpiredLeaseView {
            workspace_id: self.workspace_id@,
            lease_id: self.lease_id@,
            holder: self.holder.deep_view(),
            task: self.task.deep_view(),
            leased_at_epoch_s: self.leased_at_epoch_s,
            lease_expires_at_epoch_s: self.lease_expires_at_epoch_s,
        }
    }
}

/// A copy of an expired lease.
pub fn copy_expired(e: &ExpiredLease) -> (r: ExpiredLease)
    ensures
        r.deep_view() == e.deep_view(),
{
    ExpiredLease {
        workspace_id: copy(&e.workspace_id),
        lease_id: copy(&e.lease_id),
        holder: copy_opt(&e.holder),
        task: copy_opt(&e.task),
        leased_at_epoch_s: e.leased_at_epoch_s,
        lease_expires_at_epoch_s: e.lease_expires_at_epoch_s,
    }
}

/// A change that the tool keeps track of.
#[derive(Debug, Clone, PartialEq, Eq)]
pub struct ChangeRecord {
    pub change_id: String,
    pub repo: String,
    pub workspace_path: String,
    pub parent_change_id: Option<String>,
    pub title: String,
    pub jj_change_id: String,
    pub head_commit: String,
    pub created_at_epoch_s: i64,
}

#[verifier::ext_equal]
pub ghost struct ChangeRecordView {
    pub change_id: Seq<char>,
    pub repo: Seq<char>,
    pub workspace_path: Seq<char>,
    pub parent_change_id: Option<Seq<char>>,
    pub title: Seq<char>,
    pub jj_change_id: Seq<char>,
    pub head_commit: Seq<char>,
    pub created_at_epoch_s: i64,
}

impl DeepView for ChangeRecord {
    type V = ChangeRecordView;

    open spec fn deep_view(&self) -> ChangeRecordView {
        ChangeRecordView {
            change_id: self.change_id@,
            repo: self.repo@,
            workspace_path: self.workspace_path@,
            parent_change_id: self.parent_change_id.deep_view(),
            title: self.title@,
            jj_change_id: self.jj_change_id@,
            head_commit: self.head_commit@,
            created_at_epoch_s: self.created_at_epoch_s,
        }
    }
}

/// Which workspaces a listing asks for; an absent part filters nothing.
#[derive(Debug, Clone, PartialEq, Eq)]
pub struct WorkspaceListFilter {
    pub repo: Option<String>,
    pub workspace_id: Option<String>,
    pub effective_state: Option<EffectiveState>,
    pub holder_pattern: Option<String>,
}

#[verifier::ext_equal]
pub ghost struct WorkspaceListFilterView {
    pub repo: Option<Seq<char>>,
    pub workspace_id: Option<Seq<char>>,
    pub effective_state: Option<EffectiveState>,
    pub holder_pattern: Option<Seq<char>>,
}

impl DeepView for WorkspaceListFilter {
    type V = WorkspaceListFilterView;

    open spec fn deep_view(&self) -> WorkspaceListFilterView {
        WorkspaceListFilterView {
            repo: self.repo.deep_view(),
            workspace_id: self.workspace_id.deep_view(),
            effective_state: self.effective_state,
            holder_pattern: self.holder_pattern.deep_view(),
        }
    }
}

/// The filter that names a repository and a workspace, or leaves either open.
pub open spec fn spec_filter(
    repo: Option<Seq<char>>,
    workspace_id: Option<Seq<char>>,
) -> WorkspaceListFilterView {
    WorkspaceListFilterView {
        repo,
        workspace_id,
        effective_state: None,
        holder_pattern: None,
    }
}

pub fn filter(repo: Option<String>, workspace_id: Option<String>) -> (r: WorkspaceListFilter)
    ensures
        r.deep_view() == spec_filter(repo.deep_view(), workspace_id.deep_view()),
{
    WorkspaceListFilter { repo, workspace_id, effective_state: None, holder_pattern: None }
}

/// How one setup step of a workspace ended.
#[derive(Debug, Clone, PartialEq, Eq)]
pub enum StepStatus {
    Ran,
    Skipped { reason: String },
    Failed { error: String },
}

#[verifier::ext_equal]
pub ghost enum StepStatusView {
    Ran,
    Skipped { reason: Seq<char> },
    Failed { error: Seq<char> },
}

impl DeepView for StepStatus {
    type V = StepStatusView;

    open spec fn deep_view(&self) -> StepStatusView {
        match self {
            StepStatus::Ran => StepStatusView::Ran,
            StepStatus::Skipped { reason } => StepStatusView::Skipped { reason: reason@ },
            StepStatus::Failed { error } => StepStatusView::Failed { error: error@ },
        }
    }
}

/// One setup step and how it ended.
#[derive(Debug, Clone, PartialEq, Eq)]
pub struct SetupStep {
    pub id: String,
    pub status: StepStatus,
}

#[verifier::ext_equal]
pub ghost struct SetupStepView {
    pub id: Seq<char>,
    pub status: StepStatusView,
}

impl DeepView for SetupStep {
    type V = SetupStepView;

    open spec fn deep_view(&self) -> SetupStepView {
        SetupStepView { id: self.id@, status: self.status.deep_view() }
    }
}

/// What the setup of a workspace did, step by step.
#[derive(Debug, Clone, PartialEq, Eq)]
pub struct SetupReport {
    pub steps: Vec<SetupStep>,
}

impl DeepView for SetupReport {
    type V = Seq<SetupStepView>;

    open spec fn deep_view(&self) -> Seq<SetupStepView> {
        self.steps.deep_view()
    }
}

/// How many steps ran.
pub open spec fn steps_ran(steps: Seq<SetupStepView>) -> nat
    decreases steps.len(),
{
    if steps.len() == 0 {
        0
    } else {
        steps_ran(steps.drop_last()) + if steps.last().status is Ran {
            1nat
        } else {
            0
        }
    }
}

/// How many steps were skipped.
pub open spec fn steps_skipped(steps: Seq<SetupStepView>) -> nat
    decreases steps.len(),
{
    if steps.len() == 0 {
        0
    } else {
        steps_skipped(steps.drop_last()) + if steps.last().status is Skipped {
            1nat
        } else {
            0
        }
    }
}

/// The name and cause of the first step that failed.
pub open spec fn first_failure(steps: Seq<SetupStepView>) -> Option<(Seq<char>, Seq<char>)>
    decreases steps.len(),
{
    if steps.len() == 0 {
        None
    } else {
        match steps[0].status {
            StepStatusView::Failed { error } => Some((steps[0].id, error)),
            _ => first_failure(steps.drop_first()),
        }
    }
}

impl SetupReport {
    pub fn empty() -> (r: SetupReport)
        ensures
            r.deep_view() == Seq::<SetupStepView>::empty(),
    {
        let r: SetupReport = SetupReport { steps: Vec::new() };
        assert(r.deep_view() =~= Seq::<SetupStepView>::empty());
        r
    }

    /// How many steps ran.
    pub fn ran_count(&self) -> (r: usize)
        ensures
            r == steps_ran(self.deep_view()),
    {
        let mut n: usize = 0;
        let mut i: usize = 0;
        while i < self.steps.len()
            invariant
                i <= self.steps@.len(),
                n <= i,
                n == steps_ran(self.deep_view().subrange(0, i as int)),
            decreases self.steps@.len() - i,
        {
            proof {
                assert(self.deep_view().subrange(0, i + 1).drop_last()
                    =~= self.deep_view().subrange(0, i as int));
            }
            if let StepStatus::Ran = self.steps[i].status {
                n += 1;
            }
            i += 1;
        }
        assert(self.deep_view().subrange(0, i as int) =~= self.deep_view());
        n
    }

    /// How many steps were skipped.
    pub fn skipped_count(&self) -> (r: usize)
        ensures
            r == steps_skipped(self.deep_view()),
    {
        let mut n: usize = 0;
        let mut i: usize = 0;
        while i < self.steps.len()
            invariant
                i <= self.steps@.len(),
                n <= i,
                n == steps_skipped(self.deep_view().subrange(0, i as int)),
            decreases self.steps@.len() - i,
        {
            proof {
                assert(self.deep_view().subrange(0, i + 1).drop_last()
                    =~= self.deep_view().subrange(0, i as int));
            }
            if let StepStatus::Skipped { .. } = self.steps[i].status {
                n += 1;
            }
            i += 1;
        }
        assert(self.deep_view().subrange(0, i as int) =~= self.deep_view());
        n
    }

    /// The name and cause of the first step that failed.
    pub fn first_failure(&self) -> (r: Option<(String, String)>)
        ensures
            r.deep_view() == first_failure(self.deep_view()),
    {
        let ghost all = self.deep_view();
        let mut i: usize = 0;
        assert(all.subrange(0, all.len() as int) =~= all);
        while i < self.steps.len()
            invariant
                i <= self.steps@.len(),
                all == self.deep_view(),
                first_failure(all) == first_failure(all.subrange(i as int, all.len() as int)),
            decreases self.steps@.len() - i,
        {
            if let StepStatus::Failed { error } = &self.steps[i].status {
                return Some((copy(&self.steps[i].id), copy(error)));
            }
            proof {
                assert(all.subrange(i as int, all.len() as int).drop_first() =~= all.subrange(
                    i + 1,
                    all.len() as int,
                ));
            }
            i += 1;
        }
        None
    }
}

/// A registry row whose directory was found missing.
#[derive(Debug, Clone, PartialEq, Eq)]
pub struct ReconciledRow {
    pub repo: String,
    pub workspace_id: String,
    pub workspace_path: String,
    pub prior_state: WorkspaceState,
    pub lease_id: Option<String>,
    pub holder: Option<String>,
    pub lease_expires_at_epoch_s: Option<i64>,
}

#[verifier::ext_equal]
pub ghost struct ReconciledRowView {
    pub repo: Seq<char>,
    pub workspace_id: Seq<char>,
    pub workspace_path: Seq<char>,
    pub prior_state: WorkspaceState,
    pub lease_id: Option<Seq<char>>,
    pub holder: Option<Seq<char>>,
    pub lease_expires_at_epoch_s: Option<i64>,
}

impl DeepView for ReconciledRow {
    type V = ReconciledRowView;

    open spec fn deep_view(&self) -> ReconciledRowView {
        ReconciledRowView {
            repo: self.repo@,
            workspace_id: self.workspace_id@,
            workspace_path: self.workspace_path@,
            prior_state: self.prior_state,
            lease_id: self.lease_id.deep_view(),
            holder: self.holder.deep_view(),
            lease_expires_at_epoch_s: self.lease_expires_at_epoch_s,
        }
    }
}

/// The summary of a registry row.
pub open spec fn summary_of(record: WorkspaceRecordView) -> ReconciledRowView {
    ReconciledRowView {
        repo: record.repo,
        workspace_id: record.workspace_id,
        workspace_path: record.workspace_path,
        prior_state: record.state,
        lease_id: record.lease_id,
        holder: record.holder,
        lease_expires_at_epoch_s: record.lease_expires_at_epoch_s,
    }
}

impl ReconciledRow {
    pub fn from_record(record: &WorkspaceRecord) -> (r: ReconciledRow)
        ensures
            r.deep_view() == summary_of(record.deep_view()),
    {
        ReconciledRow {
            repo: copy(&record.repo),
            workspace_id: copy(&record.workspace_id),
            workspace_path: copy(&record.workspace_path),
            prior_state: record.state,
            lease_id: copy_opt(&record.lease_id),
            holder: copy_opt(&record.holder),
            lease_expires_at_epoch_s: record.lease_expires_at_epoch_s,
        }
    }
}

/// What reconciling did: the rows it took out of the registry, and the rows it
/// left alone because their lease is still active.
#[derive(Debug, Clone, PartialEq, Eq)]
pub struct ReconcileReport {
    pub removed: Vec<ReconciledRow>,
    pub held: Vec<ReconciledRow>,
}

#[verifier::ext_equal]
pub ghost struct ReconcileReportView {
    pub removed: Seq<ReconciledRowView>,
    pub held: Seq<ReconciledRowView>,
}

impl DeepView for ReconcileReport {
    type V = ReconcileReportView;

    open spec fn deep_view(&self) -> ReconcileReportView {
        ReconcileReportView { removed: self.removed.deep_view(), held: self.held.deep_view() }
    }
}

impl ReconcileReportView {
    /// The report on nothing.
    pub open spec fn nothing() -> ReconcileReportView {
        ReconcileReportView { removed: Seq::empty(), held: Seq::empty() }
    }

    /// This report with one more row taken out.
    pub open spec fn remove(self, row: WorkspaceRecordView) -> ReconcileReportView {
        ReconcileReportView { removed: self.removed.push(summary_of(row)), held: self.held }
    }

    /// This report with one more row left alone.
    pub open spec fn hold(self, row: WorkspaceRecordView) -> ReconcileReportView {
        ReconcileReportView { removed: self.removed, held: self.held.push(summary_of(row)) }
    }

    /// This report with another behind it.
    pub open spec fn merge(self, other: ReconcileReportView) -> ReconcileReportView {
        ReconcileReportView {
            removed: self.removed + other.removed,
            held: self.held + other.held,
        }
    }
}

impl ReconcileReport {
    pub fn nothing() -> (r: ReconcileReport)
        ensures
            r.deep_view() == ReconcileReportView::nothing(),
    {
        let r: ReconcileReport = ReconcileReport { removed: Vec::new(), held: Vec::new() };
        assert(r.deep_view() =~= ReconcileReportView::nothing());
        r
    }

    pub fn remove(&mut self, row: &WorkspaceRecord)
        ensures
            final(self).deep_view() == old(self).deep_view().remove(row.deep_view()),
    {
        self.removed.push(ReconciledRow::from_record(row));
        assert(self.deep_view() =~= old(self).deep_view().remove(row.deep_view()));
    }

    pub fn hold(&mut self, row: &WorkspaceRecord)
        ensures
            final(self).deep_view() == old(self).deep_view().hold(row.deep_view()),
    {
        self.held.push(ReconciledRow::from_record(row));
        assert(self.deep_view() =~= old(self).deep_view().hold(row.deep_view()));
    }

    pub fn merge(&mut self, other: ReconcileReport)
        ensures
            final(self).deep_view() == old(self).deep_view().merge(other.deep_view()),
    {
        let ghost more = other.deep_view();
        let mut removed: Vec<ReconciledRow> = other.removed;
        let mut held: Vec<ReconciledRow> = other.held;
        self.removed.append(&mut removed);
        self.held.append(&mut held);
        assert(self.deep_view() =~= old(self).deep_view().merge(more));
    }
}

} // verus!
