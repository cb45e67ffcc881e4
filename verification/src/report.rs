//! What a command hands back: a message for a reader and a payload for a program.

use vstd::prelude::*;

use crate::records::{
    ChangeRecord, ChangeRecordView, ReconcileReport, ReconcileReportView, RepoRecord,
    RepoRecordView, SetupReport, SetupStepView, WorkspaceRecord, WorkspaceRecordView,
};

verus! {

/// How a piece of a message is set off on a terminal.
#[derive(Debug, Clone, Copy, PartialEq, Eq, Structural)]
pub enum Style {
    Plain,
    /// Of less weight: labels and ids.
    Dim,
    /// The name of the thing described.
    Name,
    /// A free workspace.
    Free,
    /// A leased workspace.
    Leased,
}

/// A piece of a message.
#[derive(Debug, Clone, PartialEq, Eq)]
pub struct Span {
    pub style: Style,
    pub text: String,
}

#[verifier::ext_equal]
pub ghost struct SpanView {
    pub style: Style,
    pub text: Seq<char>,
}

impl DeepView for Span {
    type V = SpanView;

    open spec fn deep_view(&self) -> SpanView {
        SpanView { style: self.style, text: self.text@ }
    }
}

/// A message that is one plain piece.
pub open spec fn plain(text: Seq<char>) -> Seq<SpanView> {
    seq![SpanView { style: Style::Plain, text }]
}

/// What the health check found of one workspace on the way to a lease.
#[derive(Debug, Clone, PartialEq, Eq)]
pub enum HealthCheck {
    /// Its directory is gone.
    Missing { workspace_id: String },
    Clean { workspace_id: String },
    Conflicted { workspace_id: String, bookmarks: Vec<String>, skipped: bool },
    Dirty { workspace_id: String },
    BrokenEmpty { workspace_id: String, workspace_path: String },
    /// It was taken as it is, without a check and without a reset.
    AllowedDirty { workspace_id: String },
}

#[verifier::ext_equal]
pub ghost enum HealthCheckView {
    Missing { workspace_id: Seq<char> },
    Clean { workspace_id: Seq<char> },
    Conflicted { workspace_id: Seq<char>, bookmarks: Seq<Seq<char>>, skipped: bool },
    Dirty { workspace_id: Seq<char> },
    BrokenEmpty { workspace_id: Seq<char>, workspace_path: Seq<char> },
    AllowedDirty { workspace_id: Seq<char> },
}

impl DeepView for HealthCheck {
    type V = HealthCheckView;

    open spec fn deep_view(&self) -> HealthCheckView {
        match self {
            HealthCheck::Missing { workspace_id } => HealthCheckView::Missing {
                workspace_id: workspace_id@,
            },
            HealthCheck::Clean { workspace_id } => HealthCheckView::Clean {
                workspace_id: workspace_id@,
            },
            HealthCheck::Conflicted { workspace_id, bookmarks, skipped } => {
                HealthCheckView::Conflicted {
                    workspace_id: workspace_id@,
                    bookmarks: bookmarks.deep_view(),
                    skipped: *skipped,
                }
            },
            HealthCheck::Dirty { workspace_id } => HealthCheckView::Dirty {
                workspace_id: workspace_id@,
            },
            HealthCheck::BrokenEmpty { workspace_id, workspace_path } => {
                HealthCheckView::BrokenEmpty {
                    workspace_id: workspace_id@,
                    workspace_path: workspace_path@,
                }
            },
            HealthCheck::AllowedDirty { workspace_id } => HealthCheckView::AllowedDirty {
                workspace_id: workspace_id@,
            },
        }
    }
}

/// The pull request that a workspace was positioned on.
#[derive(Debug, Clone, PartialEq, Eq)]
pub struct PrResumeInfo {
    pub pr_number: u64,
    pub head_branch: String,
}

#[verifier::ext_equal]
pub ghost struct PrResumeInfoView {
    pub pr_number: u64,
    pub head_branch: Seq<char>,
}

impl DeepView for PrResumeInfo {
    type V = PrResumeInfoView;

    open spec fn deep_view(&self) -> PrResumeInfoView {
        PrResumeInfoView { pr_number: self.pr_number, head_branch: self.head_branch@ }
    }
}

/// What the cleanup of bookmarks did to one workspace.
#[derive(Debug, Clone, PartialEq, Eq)]
pub struct WorkspaceGcResult {
    pub workspace_id: String,
    pub bookmarks_forgotten: Vec<String>,
    pub skipped_reason: Option<String>,
    pub error: Option<String>,
}

#[verifier::ext_equal]
pub ghost struct WorkspaceGcResultView {
    pub workspace_id: Seq<char>,
    pub bookmarks_forgotten: Seq<Seq<char>>,
    pub skipped_reason: Option<Seq<char>>,
    pub error: Option<Seq<char>>,
}

impl DeepView for WorkspaceGcResult {
    type V = WorkspaceGcResultView;

    open spec fn deep_view(&self) -> WorkspaceGcResultView {
        WorkspaceGcResultView {
            workspace_id: self.workspace_id@,
            bookmarks_forgotten: self.bookmarks_forgotten.deep_view(),
            skipped_reason: self.skipped_reason.deep_view(),
            error: self.error.deep_view(),
        }
    }
}

/// The data of a result.
#[derive(Debug, Clone, PartialEq, Eq)]
pub enum Payload {
    /// A repository that was ensured, with its id beside it.
    RepoEnsured(RepoRecord),
    Repo(RepoRecord),
    Repos(Vec<RepoRecord>),
    Lease {
        workspace: WorkspaceRecord,
        setup: SetupReport,
        health_check: Vec<HealthCheck>,
        resume_pr: Option<PrResumeInfo>,
    },
    Workspace(WorkspaceRecord),
    Status { workspace: WorkspaceRecord, jj_status: String },
    Setup { workspace: WorkspaceRecord, setup: SetupReport },
    Workspaces { workspaces: Vec<WorkspaceRecord>, reconciled: ReconcileReport },
    Removed { workspace: WorkspaceRecord, forced: bool, expunged: bool },
    Gc(Vec<WorkspaceGcResult>),
    Change(ChangeRecord),
    /// A pull request that was created, or found to exist.
    PrEnsured { created: bool, url: String, number: Option<u64>, pr_bookmark: Option<String> },
    /// A pull request that was advanced, or found to need nothing.
    PrPushed { pushed: bool, url: String, number: u64 },
}

#[verifier::ext_equal]
pub ghost enum PayloadView {
    RepoEnsured(RepoRecordView),
    Repo(RepoRecordView),
    Repos(Seq<RepoRecordView>),
    Lease {
        workspace: WorkspaceRecordView,
        setup: Seq<SetupStepView>,
        health_check: Seq<HealthCheckView>,
        resume_pr: Option<PrResumeInfoView>,
    },
    Workspace(WorkspaceRecordView),
    Status { workspace: WorkspaceRecordView, jj_status: Seq<char> },
    Setup { workspace: WorkspaceRecordView, setup: Seq<SetupStepView> },
    Workspaces { workspaces: Seq<WorkspaceRecordView>, reconciled: ReconcileReportView },
    Removed { workspace: WorkspaceRecordView, forced: bool, expunged: bool },
    Gc(Seq<WorkspaceGcResultView>),
    Change(ChangeRecordView),
    PrEnsured {
        created: bool,
        url: Seq<char>,
        number: Option<u64>,
        pr_bookmark: Option<Seq<char>>,
    },
    PrPushed { pushed: bool, url: Seq<char>, number: u64 },
}

impl DeepView for Payload {
    type V = PayloadView;

    open spec fn deep_view(&self) -> PayloadView {
        match self {
            Payload::RepoEnsured(r) => PayloadView::RepoEnsured(r.deep_view()),
            Payload::Repo(r) => PayloadView::Repo(r.deep_view()),
            Payload::Repos(v) => PayloadView::Repos(v.deep_view()),
            Payload::Lease { workspace, setup, health_check, resume_pr } => PayloadView::Lease {
                workspace: workspace.deep_view(),
                setup: setup.deep_view(),
                health_check: health_check.deep_view(),
                resume_pr: resume_pr.deep_view(),
            },
            Payload::Workspace(w) => PayloadView::Workspace(w.deep_view()),
            Payload::Status { workspace, jj_status } => PayloadView::Status {
                workspace: workspace.deep_view(),
                jj_status: jj_status@,
            },
            Payload::Setup { workspace, setup } => PayloadView::Setup {
                workspace: workspace.deep_view(),
                setup: setup.deep_view(),
            },
            Payload::Workspaces { workspaces, reconciled } => PayloadView::Workspaces {
                workspaces: workspaces.deep_view(),
                reconciled: reconciled.deep_view(),
            },
            Payload::Removed { workspace, forced, expunged } => PayloadView::Removed {
                workspace: workspace.deep_view(),
                forced: *forced,
                expunged: *expunged,
            },
            Payload::Gc(v) => PayloadView::Gc(v.deep_view()),
            Payload::Change(c) => PayloadView::Change(c.deep_view()),
            Payload::PrEnsured { created, url, number, pr_bookmark } => PayloadView::PrEnsured {
                created: *created,
                url: url@,
                number: *number,
                pr_bookmark: pr_bookmark.deep_view(),
            },
            Payload::PrPushed { pushed, url, number } => PayloadView::PrPushed {
                pushed: *pushed,
                url: url@,
                number: *number,
            },
        }
    }
}

/// What a command that succeeded hands back.
#[derive(Debug, Clone, PartialEq, Eq)]
pub struct RunResult {
    pub message: Vec<Span>,
    pub payload: Payload,
}

#[verifier::ext_equal]
pub ghost struct RunResultView {
    pub message: Seq<SpanView>,
    pub payload: PayloadView,
}

impl DeepView for RunResult {
    type V = RunResultView;

    open spec fn deep_view(&self) -> RunResultView {
        RunResultView { message: self.message.deep_view(), payload: self.payload.deep_view() }
    }
}

/// A result with a plain message.
pub open spec fn spec_result(message: Seq<char>, payload: PayloadView) -> RunResultView {
    RunResultView { message: plain(message), payload }
}

pub fn plain_message(text: String) -> (r: Vec<Span>)
    ensures
        r.deep_view() == plain(text@),
{
    let r: Vec<Span> = vec![Span { style: Style::Plain, text }];
    assert(r.deep_view() =~= plain(text@));
    r
}

impl RunResult {
    pub fn new(message: String, payload: Payload) -> (r: RunResult)
        ensures
            r.deep_view() == spec_result(message@, payload.deep_view()),
    {
        RunResult { message: plain_message(message), payload }
    }

    /// The message without its styles.
    pub fn text(&self) -> (r: String)
        ensures
            r@ == unstyled(self.deep_view().message),
    {
        let mut out: String = String::new();
        let ghost all = self.deep_view().message;
        let mut i: usize = 0;
        assert(out@ =~= unstyled(all.subrange(0, 0)));
        while i < self.message.len()
            invariant
                i <= self.message@.len(),
                all == self.deep_view().message,
                out@ == unstyled(all.subrange(0, i as int)),
            decreases self.message@.len() - i,
        {
            assert(all.subrange(0, i + 1).drop_last() =~= all.subrange(0, i as int));
            out.append(self.message[i].text.as_str());
            i += 1;
        }
        assert(all.subrange(0, i as int) =~= all);
        out
    }
}

/// The text of a message, without its styles.
pub open spec fn unstyled(spans: Seq<SpanView>) -> Seq<char>
    decreases spans.len(),
{
    if spans.len() == 0 {
        Seq::empty()
    } else {
        unstyled(spans.drop_last()) + spans.last().text
    }
}

} // verus!
