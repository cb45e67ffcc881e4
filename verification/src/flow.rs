//! Procedures as functions of what has been answered so far.
//!
//! A procedure of this library never touches the outside itself. It is given the
//! answers to everything it has asked for up to now, and returns either its result
//! or the next [`Action`] to perform. The caller performs the action, puts the
//! answer behind the others and runs the procedure again from the start.
//!
//! The meaning of a procedure is a [`Flow`]: what it does given the answers that
//! are left.

use std::collections::VecDeque;

use vstd::prelude::*;

use crate::command_runner::{CommandInvocation, CommandInvocationView};
use crate::config::{CubeConfig, CubeConfigView};
use crate::error::{CubeError, CubeErrorView};
use crate::events::{AuditEvent, AuditEventView};
use crate::records::{
    ChangeRecord, ChangeRecordView, ExpiredLease, ExpiredLeaseView, RepoRecord, RepoRecordView,
    SetupReport, SetupStepView, WorkspaceCandidate, WorkspaceCandidateView, WorkspaceHealth,
    WorkspaceListFilter, WorkspaceListFilterView, WorkspaceRecord, WorkspaceRecordView,
};

verus! {

/// One thing to be done outside the library.
#[derive(Debug, Clone, PartialEq, Eq)]
pub enum Action {
    /// Run a subprocess.
    Run(CommandInvocation),
    /// Print a line on standard error.
    Warn(String),
    /// Append an event to the audit log; a failure to do so is never fatal.
    Audit(AuditEvent),
    /// Ask whether a path is a directory.
    IsDir(String),
    /// Ask whether a path exists.
    Exists(String),
    /// Ask whether a program can be found on the search path.
    OnPath(String),
    /// Create a directory and the directories above it.
    CreateDirs(String),
    /// Remove a directory and all below it.
    RemoveTree(String),
    /// Rename a directory.
    Rename { from: String, to: String },
    /// List a directory.
    ReadDir(String),
    /// Read a file as text.
    ReadFile(String),
    /// Read standard input to its end as text.
    ReadStdin,
    /// Write a file.
    WriteFile { path: String, text: String },
    /// Remove a file, whatever comes of it.
    RemoveFile(String),
    /// Look a path up.
    Stat(String),
    /// Read the clock, in seconds since the epoch.
    Clock,
    /// Find the current directory.
    CurrentDir,
    /// Find the directory for temporary files.
    TempDir,
    /// Find the directory for the data of the tool.
    DataDir,
    /// Find the home directory.
    HomeDir,
    /// Find the directory that holds the logs of all workspaces.
    LogsDir,
    /// Find the log directory of a workspace.
    WorkspaceLogs(String),
    /// Find the identity that leases are taken under.
    Holder,
    /// Draw a fresh identifier.
    FreshId,
    /// Read an environment variable.
    Variable(String),
    /// Read the text of a configuration file; what is wrong with it is answered as an
    /// invalid argument.
    ParseConfig(String),
    /// Take the lock of a repository.
    Lock(String),
    /// Let go of the repository lock taken last.
    Unlock,
    /// Start the pool-wide cleanup in the background.
    SpawnPoolGc,
    /// Run the setup steps of a workspace, where any are configured.
    RunSetup(WorkspaceRecord),
    /// Open the metadata registry.
    OpenStore,
    /// Look a repository up by its id.
    GetRepo(String),
    /// Look a repository up by its origin.
    GetRepoByOrigin(String),
    /// Insert or replace a repository.
    UpsertRepo(RepoRecord),
    /// List the repositories.
    ListRepos,
    /// Bring the rows of a pool in line with its directories.
    SyncWorkspaces { repo: String, candidates: Vec<WorkspaceCandidate> },
    /// Take back the leases that are past their expiry.
    ExpireStaleLeases { repo: String, now_epoch_s: i64 },
    /// List workspaces.
    ListWorkspaces(WorkspaceListFilter),
    /// Lease a free workspace.
    ClaimWorkspace {
        repo: String,
        workspace_id: String,
        holder: String,
        task: String,
        lease_id: String,
        leased_at_epoch_s: i64,
        expires_at_epoch_s: Option<i64>,
    },
    /// Record the head commit of a leased workspace.
    SetHeadCommit { lease_id: String, head_commit: String },
    /// Record the health of a workspace.
    SetHealth { repo: String, workspace_id: String, health: WorkspaceHealth },
    /// Release a lease.
    ReleaseWorkspace { lease_id: String, reason: Option<String> },
    /// Release a lease without regard to its holder.
    ForceRelease { lease_id: String, reason: String },
    /// Move the expiry of a lease.
    HeartbeatLease { lease_id: String, expires_at_epoch_s: i64 },
    /// Look a workspace up by its lease.
    WorkspaceByLease(String),
    /// Look a workspace up by its path.
    WorkspaceByPath(String),
    /// Take a workspace out of the registry.
    ForgetWorkspace { repo: String, workspace_id: String },
    /// Mark a free workspace healthy; answers whether it still was free.
    ClearUnhealthy { repo: String, workspace_id: String },
    /// Insert a change.
    InsertChange(ChangeRecord),
    /// Look a change up.
    GetChange(String),
    /// Read a number kept for the pool.
    GetPoolNumber(String),
    /// Keep a number for the pool.
    SetPoolNumber { key: String, value: i64 },
}

#[verifier::ext_equal]
pub ghost enum ActionView {
    Run(CommandInvocationView),
    Warn(Seq<char>),
    Audit(AuditEventView),
    IsDir(Seq<char>),
    Exists(Seq<char>),
    OnPath(Seq<char>),
    CreateDirs(Seq<char>),
    RemoveTree(Seq<char>),
    Rename { from: Seq<char>, to: Seq<char> },
    ReadDir(Seq<char>),
    ReadFile(Seq<char>),
    ReadStdin,
    WriteFile { path: Seq<char>, text: Seq<char> },
    RemoveFile(Seq<char>),
    Stat(Seq<char>),
    Clock,
    CurrentDir,
    TempDir,
    DataDir,
    HomeDir,
    LogsDir,
    WorkspaceLogs(Seq<char>),
    Holder,
    FreshId,
    Variable(Seq<char>),
    ParseConfig(Seq<char>),
    Lock(Seq<char>),
    Unlock,
    SpawnPoolGc,
    RunSetup(WorkspaceRecordView),
    OpenStore,
    GetRepo(Seq<char>),
    GetRepoByOrigin(Seq<char>),
    UpsertRepo(RepoRecordView),
    ListRepos,
    SyncWorkspaces { repo: Seq<char>, candidates: Seq<WorkspaceCandidateView> },
    ExpireStaleLeases { repo: Seq<char>, now_epoch_s: i64 },
    ListWorkspaces(WorkspaceListFilterView),
    ClaimWorkspace {
        repo: Seq<char>,
        workspace_id: Seq<char>,
        holder: Seq<char>,
        task: Seq<char>,
        lease_id: Seq<char>,
        leased_at_epoch_s: i64,
        expires_at_epoch_s: Option<i64>,
    },
    SetHeadCommit { lease_id: Seq<char>, head_commit: Seq<char> },
    SetHealth { repo: Seq<char>, workspace_id: Seq<char>, health: WorkspaceHealth },
    ReleaseWorkspace { lease_id: Seq<char>, reason: Option<Seq<char>> },
    ForceRelease { lease_id: Seq<char>, reason: Seq<char> },
    HeartbeatLease { lease_id: Seq<char>, expires_at_epoch_s: i64 },
    WorkspaceByLease(Seq<char>),
    WorkspaceByPath(Seq<char>),
    ForgetWorkspace { repo: Seq<char>, workspace_id: Seq<char> },
    ClearUnhealthy { repo: Seq<char>, workspace_id: Seq<char> },
    InsertChange(ChangeRecordView),
    GetChange(Seq<char>),
    GetPoolNumber(Seq<char>),
    SetPoolNumber { key: Seq<char>, value: i64 },
}

impl DeepView for Action {
    type V = ActionView;

    open spec fn deep_view(&self) -> ActionView {
        match self {
            Action::Run(x) => ActionView::Run(x.deep_view()),
            Action::Warn(x) => ActionView::Warn(x@),
            Action::Audit(x) => ActionView::Audit(x.deep_view()),
            Action::IsDir(x) => ActionView::IsDir(x@),
            Action::Exists(x) => ActionView::Exists(x@),
            Action::OnPath(x) => ActionView::OnPath(x@),
            Action::CreateDirs(x) => ActionView::CreateDirs(x@),
            Action::RemoveTree(x) => ActionView::RemoveTree(x@),
            Action::Rename { from, to } => ActionView::Rename { from: from@, to: to@ },
            Action::ReadDir(x) => ActionView::ReadDir(x@),
            Action::ReadFile(x) => ActionView::ReadFile(x@),
            Action::ReadStdin => ActionView::ReadStdin,
            Action::WriteFile { path, text } => ActionView::WriteFile { path: path@, text: text@ },
            Action::RemoveFile(x) => ActionView::RemoveFile(x@),
            Action::Stat(x) => ActionView::Stat(x@),
            Action::Clock => ActionView::Clock,
            Action::CurrentDir => ActionView::CurrentDir,
            Action::TempDir => ActionView::TempDir,
            Action::DataDir => ActionView::DataDir,
            Action::HomeDir => ActionView::HomeDir,
            Action::LogsDir => ActionView::LogsDir,
            Action::WorkspaceLogs(x) => ActionView::WorkspaceLogs(x@),
            Action::Holder => ActionView::Holder,
            Action::FreshId => ActionView::FreshId,
            Action::Variable(name) => ActionView::Variable(name@),
            Action::ParseConfig(text) => ActionView::ParseConfig(text@),
            Action::Lock(x) => ActionView::Lock(x@),
            Action::Unlock => ActionView::Unlock,
            Action::SpawnPoolGc => ActionView::SpawnPoolGc,
            Action::RunSetup(x) => ActionView::RunSetup(x.deep_view()),
            Action::OpenStore => ActionView::OpenStore,
            Action::GetRepo(x) => ActionView::GetRepo(x@),
            Action::GetRepoByOrigin(x) => ActionView::GetRepoByOrigin(x@),
            Action::UpsertRepo(x) => ActionView::UpsertRepo(x.deep_view()),
            Action::ListRepos => ActionView::ListRepos,
            Action::SyncWorkspaces { repo, candidates } => ActionView::SyncWorkspaces {
                repo: repo@,
                candidates: candidates.deep_view(),
            },
            Action::ExpireStaleLeases { repo, now_epoch_s } => ActionView::ExpireStaleLeases {
                repo: repo@,
                now_epoch_s: *now_epoch_s,
            },
            Action::ListWorkspaces(x) => ActionView::ListWorkspaces(x.deep_view()),
            Action::ClaimWorkspace {
                repo,
                workspace_id,
                holder,
                task,
                lease_id,
                leased_at_epoch_s,
                expires_at_epoch_s,
            } => ActionView::ClaimWorkspace {
                repo: repo@,
                workspace_id: workspace_id@,
                holder: holder@,
                task: task@,
                lease_id: lease_id@,
                leased_at_epoch_s: *leased_at_epoch_s,
                expires_at_epoch_s: *expires_at_epoch_s,
            },
            Action::SetHeadCommit { lease_id, head_commit } => ActionView::SetHeadCommit {
                lease_id: lease_id@,
                head_commit: head_commit@,
            },
            Action::SetHealth { repo, workspace_id, health } => ActionView::SetHealth {
                repo: repo@,
                workspace_id: workspace_id@,
                health: *health,
            },
            Action::ReleaseWorkspace { lease_id, reason } => ActionView::ReleaseWorkspace {
                lease_id: lease_id@,
                reason: reason.deep_view(),
            },
            Action::ForceRelease { lease_id, reason } => ActionView::ForceRelease {
                lease_id: lease_id@,
                reason: reason@,
            },
            Action::HeartbeatLease { lease_id, expires_at_epoch_s } => ActionView::HeartbeatLease {
                lease_id: lease_id@,
                expires_at_epoch_s: *expires_at_epoch_s,
            },
            Action::WorkspaceByLease(x) => ActionView::WorkspaceByLease(x@),
            Action::WorkspaceByPath(x) => ActionView::WorkspaceByPath(x@),
            Action::ForgetWorkspace { repo, workspace_id } => ActionView::ForgetWorkspace {
                repo: repo@,
                workspace_id: workspace_id@,
            },
            Action::ClearUnhealthy { repo, workspace_id } => ActionView::ClearUnhealthy {
                repo: repo@,
                workspace_id: workspace_id@,
            },
            Action::InsertChange(x) => ActionView::InsertChange(x.deep_view()),
            Action::GetChange(x) => ActionView::GetChange(x@),
            Action::GetPoolNumber(x) => ActionView::GetPoolNumber(x@),
            Action::SetPoolNumber { key, value } => ActionView::SetPoolNumber {
                key: key@,
                value: *value,
            },
        }
    }
}

/// What went wrong with a file or directory.
#[derive(Debug, Clone, PartialEq, Eq)]
pub struct IoFault {
    /// It was not there.
    pub not_found: bool,
    pub text: String,
}

#[verifier::ext_equal]
pub ghost struct IoFaultView {
    pub not_found: bool,
    pub text: Seq<char>,
}

impl DeepView for IoFault {
    type V = IoFaultView;

    open spec fn deep_view(&self) -> IoFaultView {
        IoFaultView { not_found: self.not_found, text: self.text@ }
    }
}

/// One entry met while a directory is listed.
#[derive(Debug, Clone, PartialEq, Eq)]
pub enum DirEntry {
    /// An entry, and whether it is a directory.
    Named { name: DirName, is_dir: bool },
    /// An entry whose type could not be read.
    Untyped { name: DirName, cause: String },
    /// An entry that could not be read at all.
    Unreadable { cause: String },
}

/// The name of an entry.
#[derive(Debug, Clone, PartialEq, Eq)]
pub struct DirName {
    /// The name, with a replacement for each part of it that is not Unicode.
    pub text: String,
    /// Whether there is no such part.
    pub is_unicode: bool,
}

#[verifier::ext_equal]
pub ghost struct DirNameView {
    pub text: Seq<char>,
    pub is_unicode: bool,
}

impl DeepView for DirName {
    type V = DirNameView;

    open spec fn deep_view(&self) -> DirNameView {
        DirNameView { text: self.text@, is_unicode: self.is_unicode }
    }
}

#[verifier::ext_equal]
pub ghost enum DirEntryView {
    Named { name: DirNameView, is_dir: bool },
    Untyped { name: DirNameView, cause: Seq<char> },
    Unreadable { cause: Seq<char> },
}

impl DeepView for DirEntry {
    type V = DirEntryView;

    open spec fn deep_view(&self) -> DirEntryView {
        match self {
            DirEntry::Named { name, is_dir } => DirEntryView::Named {
                name: name.deep_view(),
                is_dir: *is_dir,
            },
            DirEntry::Untyped { name, cause } => DirEntryView::Untyped {
                name: name.deep_view(),
                cause: cause@,
            },
            DirEntry::Unreadable { cause } => DirEntryView::Unreadable { cause: cause@ },
        }
    }
}

/// A directory's entries, or why it could not be listed.
#[derive(Debug, Clone, PartialEq, Eq)]
pub enum Listing {
    Entries(Vec<DirEntry>),
    Failed(String),
}

#[verifier::ext_equal]
pub ghost enum ListingView {
    Entries(Seq<DirEntryView>),
    Failed(Seq<char>),
}

impl DeepView for Listing {
    type V = ListingView;

    open spec fn deep_view(&self) -> ListingView {
        match self {
            Listing::Entries(v) => ListingView::Entries(v.deep_view()),
            Listing::Failed(s) => ListingView::Failed(s@),
        }
    }
}

/// A file's text, or why it could not be read.
#[derive(Debug, Clone, PartialEq, Eq)]
pub enum Content {
    Text(String),
    Fault(IoFault),
}

#[verifier::ext_equal]
pub ghost enum ContentView {
    Text(Seq<char>),
    Fault(IoFaultView),
}

impl DeepView for Content {
    type V = ContentView;

    open spec fn deep_view(&self) -> ContentView {
        match self {
            Content::Text(s) => ContentView::Text(s@),
            Content::Fault(f) => ContentView::Fault(f.deep_view()),
        }
    }
}

/// What a path leads to.
#[derive(Debug, Clone, PartialEq, Eq)]
pub enum Entry {
    /// A pipe or a character device.
    Stream,
    /// Anything else, with its size in bytes.
    Sized(u64),
    Fault(String),
}

#[verifier::ext_equal]
pub ghost enum EntryView {
    Stream,
    Sized(u64),
    Fault(Seq<char>),
}

impl DeepView for Entry {
    type V = EntryView;

    open spec fn deep_view(&self) -> EntryView {
        match self {
            Entry::Stream => EntryView::Stream,
            Entry::Sized(n) => EntryView::Sized(*n),
            Entry::Fault(s) => EntryView::Fault(s@),
        }
    }
}

/// The answer to an action.
#[derive(Debug, Clone, PartialEq, Eq)]
pub enum Answer {
    /// To [`Action::Run`], [`Action::CurrentDir`] and [`Action::DataDir`].
    Output(String),
    /// To any action that can fail: it did.
    Failed(CubeError),
    /// To an action that answers nothing.
    Ack,
    /// To a question.
    Flag(bool),
    /// To a change of files: what went wrong, if anything did.
    Done(Option<IoFault>),
    /// To [`Action::ReadDir`].
    Listed(Listing),
    /// To [`Action::ReadFile`] and [`Action::ReadStdin`].
    Text(Content),
    /// To [`Action::Stat`].
    Found(Entry),
    /// To [`Action::Clock`].
    Time(i64),
    /// To an action that finds a name that is always there.
    Name(String),
    /// To an action that finds a place that may be missing.
    Place(Option<String>),
    /// To [`Action::ParseConfig`].
    Config(CubeConfig),
    /// To a change of the registry, and to taking a lock.
    Saved,
    /// To [`Action::RunSetup`].
    Setup(SetupReport),
    /// To looking a repository up, and to [`Action::UpsertRepo`].
    Repo(Option<RepoRecord>),
    /// To [`Action::ListRepos`].
    Repos(Vec<RepoRecord>),
    /// To looking a workspace up or changing its lease.
    Workspace(Option<WorkspaceRecord>),
    /// To [`Action::ListWorkspaces`].
    Workspaces(Vec<WorkspaceRecord>),
    /// To [`Action::ExpireStaleLeases`].
    Expired(Vec<ExpiredLease>),
    /// To looking a change up, and to [`Action::InsertChange`].
    Change(Option<ChangeRecord>),
    /// To [`Action::ClearUnhealthy`].
    Cleared(bool),
    /// To [`Action::GetPoolNumber`].
    Number(Option<i64>),
}

#[verifier::ext_equal]
pub ghost enum AnswerView {
    Output(Seq<char>),
    Failed(CubeErrorView),
    Ack,
    Flag(bool),
    Done(Option<IoFaultView>),
    Listed(ListingView),
    Text(ContentView),
    Found(EntryView),
    Time(i64),
    Name(Seq<char>),
    Place(Option<Seq<char>>),
    Config(CubeConfigView),
    Saved,
    Setup(Seq<SetupStepView>),
    Repo(Option<RepoRecordView>),
    Repos(Seq<RepoRecordView>),
    Workspace(Option<WorkspaceRecordView>),
    Workspaces(Seq<WorkspaceRecordView>),
    Expired(Seq<ExpiredLeaseView>),
    Change(Option<ChangeRecordView>),
    Cleared(bool),
    Number(Option<i64>),
}

impl DeepView for Answer {
    type V = AnswerView;

    open spec fn deep_view(&self) -> AnswerView {
        match self {
            Answer::Output(x) => AnswerView::Output(x.deep_view()),
            Answer::Failed(x) => AnswerView::Failed(x.deep_view()),
            Answer::Ack => AnswerView::Ack,
            Answer::Flag(x) => AnswerView::Flag(x.deep_view()),
            Answer::Done(x) => AnswerView::Done(x.deep_view()),
            Answer::Listed(x) => AnswerView::Listed(x.deep_view()),
            Answer::Text(x) => AnswerView::Text(x.deep_view()),
            Answer::Found(x) => AnswerView::Found(x.deep_view()),
            Answer::Time(x) => AnswerView::Time(x.deep_view()),
            Answer::Name(x) => AnswerView::Name(x.deep_view()),
            Answer::Place(x) => AnswerView::Place(x.deep_view()),
            Answer::Config(x) => AnswerView::Config(x.deep_view()),
            Answer::Saved => AnswerView::Saved,
            Answer::Setup(x) => AnswerView::Setup(x.deep_view()),
            Answer::Repo(x) => AnswerView::Repo(x.deep_view()),
            Answer::Repos(x) => AnswerView::Repos(x.deep_view()),
            Answer::Workspace(x) => AnswerView::Workspace(x.deep_view()),
            Answer::Workspaces(x) => AnswerView::Workspaces(x.deep_view()),
            Answer::Expired(x) => AnswerView::Expired(x.deep_view()),
            Answer::Change(x) => AnswerView::Change(x.deep_view()),
            Answer::Cleared(x) => AnswerView::Cleared(x.deep_view()),
            Answer::Number(x) => AnswerView::Number(x.deep_view()),
        }
    }
}

/// What a procedure does with the answers it is given: it ends with a value or
/// with a failure and leaves some answers unused, or it asks for an action.
#[verifier::ext_equal]
pub ghost enum Flow<T> {
    Done(T, Seq<AnswerView>),
    Failed(CubeErrorView, Seq<AnswerView>),
    Asks(ActionView),
}

impl<A> Flow<A> {
    /// This, and where it ends with a value, what follows it.
    pub open spec fn and<B>(self, next: spec_fn(A, Seq<AnswerView>) -> Flow<B>) -> Flow<B> {
        match self {
            Flow::Done(a, t) => next(a, t),
            Flow::Failed(e, t) => Flow::Failed(e, t),
            Flow::Asks(x) => Flow::Asks(x),
        }
    }

    /// This, with more answers left behind those that are.
    pub open spec fn with_more(self, more: Seq<AnswerView>) -> Flow<A> {
        match self {
            Flow::Done(a, t) => Flow::Done(a, t + more),
            Flow::Failed(e, t) => Flow::Failed(e, t + more),
            Flow::Asks(x) => Flow::Asks(x),
        }
    }

    /// This, with a failure turned into another.
    pub open spec fn blame(self, f: spec_fn(CubeErrorView) -> CubeErrorView) -> Flow<A> {
        match self {
            Flow::Failed(e, t) => Flow::Failed(f(e), t),
            other => other,
        }
    }
}

/// Why a procedure stops short of a value.
#[derive(Debug, Clone, PartialEq, Eq)]
pub enum Stop {
    /// It needs this done first.
    Ask(Action),
    /// It failed.
    Fail(CubeError),
}

/// `r`, with the answers `rest` left, is what the flow says.
pub open spec fn follows<T: DeepView>(
    r: Result<T, Stop>,
    rest: Seq<AnswerView>,
    flow: Flow<T::V>,
) -> bool {
    match r {
        Ok(v) => flow == Flow::Done(v.deep_view(), rest),
        Err(Stop::Fail(e)) => flow == Flow::<T::V>::Failed(e.deep_view(), rest),
        Err(Stop::Ask(a)) => flow == Flow::<T::V>::Asks(a.deep_view()),
    }
}

/// The answers to what has been asked so far, in order, those used up already
/// taken off the front.
pub struct Tape {
    pub answers: VecDeque<Answer>,
}

impl View for Tape {
    type V = Seq<AnswerView>;

    open spec fn view(&self) -> Seq<AnswerView> {
        self.answers.deep_view()
    }
}

/// Asks for `a` and takes the answer, which may be a failure.
pub open spec fn ask_output(t: Seq<AnswerView>, a: ActionView) -> Flow<Seq<char>> {
    if t.len() > 0 {
        match t[0] {
            AnswerView::Output(x) => Flow::Done(x, t.drop_first()),
            AnswerView::Failed(e) => Flow::Failed(e, t.drop_first()),
            _ => Flow::Asks(a),
        }
    } else {
        Flow::Asks(a)
    }
}

/// Asks for `a` and takes the answer.
pub open spec fn ask_ack(t: Seq<AnswerView>, a: ActionView) -> Flow<()> {
    if t.len() > 0 {
        match t[0] {
            AnswerView::Ack => Flow::Done((), t.drop_first()),
            _ => Flow::Asks(a),
        }
    } else {
        Flow::Asks(a)
    }
}

/// Asks for `a` and takes the answer.
pub open spec fn ask_flag(t: Seq<AnswerView>, a: ActionView) -> Flow<bool> {
    if t.len() > 0 {
        match t[0] {
            AnswerView::Flag(x) => Flow::Done(x, t.drop_first()),
            _ => Flow::Asks(a),
        }
    } else {
        Flow::Asks(a)
    }
}

/// Asks for `a` and takes the answer.
pub open spec fn ask_done(t: Seq<AnswerView>, a: ActionView) -> Flow<Option<IoFaultView>> {
    if t.len() > 0 {
        match t[0] {
            AnswerView::Done(x) => Flow::Done(x, t.drop_first()),
            _ => Flow::Asks(a),
        }
    } else {
        Flow::Asks(a)
    }
}

/// Asks for `a` and takes the answer.
pub open spec fn ask_listed(t: Seq<AnswerView>, a: ActionView) -> Flow<ListingView> {
    if t.len() > 0 {
        match t[0] {
            AnswerView::Listed(x) => Flow::Done(x, t.drop_first()),
            _ => Flow::Asks(a),
        }
    } else {
        Flow::Asks(a)
    }
}

/// Asks for `a` and takes the answer.
pub open spec fn ask_text(t: Seq<AnswerView>, a: ActionView) -> Flow<ContentView> {
    if t.len() > 0 {
        match t[0] {
            AnswerView::Text(x) => Flow::Done(x, t.drop_first()),
            _ => Flow::Asks(a),
        }
    } else {
        Flow::Asks(a)
    }
}

/// Asks for `a` and takes the answer.
pub open spec fn ask_found(t: Seq<AnswerView>, a: ActionView) -> Flow<EntryView> {
    if t.len() > 0 {
        match t[0] {
            AnswerView::Found(x) => Flow::Done(x, t.drop_first()),
            _ => Flow::Asks(a),
        }
    } else {
        Flow::Asks(a)
    }
}

/// Asks for `a` and takes the answer, which may be a failure.
pub open spec fn ask_time(t: Seq<AnswerView>, a: ActionView) -> Flow<i64> {
    if t.len() > 0 {
        match t[0] {
            AnswerView::Time(x) => Flow::Done(x, t.drop_first()),
            AnswerView::Failed(e) => Flow::Failed(e, t.drop_first()),
            _ => Flow::Asks(a),
        }
    } else {
        Flow::Asks(a)
    }
}

/// Asks for `a` and takes the answer.
pub open spec fn ask_name(t: Seq<AnswerView>, a: ActionView) -> Flow<Seq<char>> {
    if t.len() > 0 {
        match t[0] {
            AnswerView::Name(x) => Flow::Done(x, t.drop_first()),
            _ => Flow::Asks(a),
        }
    } else {
        Flow::Asks(a)
    }
}

/// Asks for `a` and takes the answer.
pub open spec fn ask_place(t: Seq<AnswerView>, a: ActionView) -> Flow<Option<Seq<char>>> {
    if t.len() > 0 {
        match t[0] {
            AnswerView::Place(x) => Flow::Done(x, t.drop_first()),
            _ => Flow::Asks(a),
        }
    } else {
        Flow::Asks(a)
    }
}

/// Asks for `a` and takes the answer, which may be a failure.
pub open spec fn ask_config(t: Seq<AnswerView>, a: ActionView) -> Flow<CubeConfigView> {
    if t.len() > 0 {
        match t[0] {
            AnswerView::Config(x) => Flow::Done(x, t.drop_first()),
            AnswerView::Failed(e) => Flow::Failed(e, t.drop_first()),
            _ => Flow::Asks(a),
        }
    } else {
        Flow::Asks(a)
    }
}

/// Asks for `a` and takes the answer, which may be a failure.
pub open spec fn ask_saved(t: Seq<AnswerView>, a: ActionView) -> Flow<()> {
    if t.len() > 0 {
        match t[0] {
            AnswerView::Saved => Flow::Done((), t.drop_first()),
            AnswerView::Failed(e) => Flow::Failed(e, t.drop_first()),
            _ => Flow::Asks(a),
        }
    } else {
        Flow::Asks(a)
    }
}

/// Asks for `a` and takes the answer, which may be a failure.
pub open spec fn ask_setup(t: Seq<AnswerView>, a: ActionView) -> Flow<Seq<SetupStepView>> {
    if t.len() > 0 {
        match t[0] {
            AnswerView::Setup(x) => Flow::Done(x, t.drop_first()),
            AnswerView::Failed(e) => Flow::Failed(e, t.drop_first()),
            _ => Flow::Asks(a),
        }
    } else {
        Flow::Asks(a)
    }
}

/// Asks for `a` and takes the answer, which may be a failure.
pub open spec fn ask_repo(t: Seq<AnswerView>, a: ActionView) -> Flow<Option<RepoRecordView>> {
    if t.len() > 0 {
        match t[0] {
            AnswerView::Repo(x) => Flow::Done(x, t.drop_first()),
            AnswerView::Failed(e) => Flow::Failed(e, t.drop_first()),
            _ => Flow::Asks(a),
        }
    } else {
        Flow::Asks(a)
    }
}

/// Asks for `a` and takes the answer, which may be a failure.
pub open spec fn ask_repos(t: Seq<AnswerView>, a: ActionView) -> Flow<Seq<RepoRecordView>> {
    if t.len() > 0 {
        match t[0] {
            AnswerView::Repos(x) => Flow::Done(x, t.drop_first()),
            AnswerView::Failed(e) => Flow::Failed(e, t.drop_first()),
            _ => Flow::Asks(a),
        }
    } else {
        Flow::Asks(a)
    }
}

/// Asks for `a` and takes the answer, which may be a failure.
pub open spec fn ask_workspace(
    t: Seq<AnswerView>,
    a: ActionView,
) -> Flow<Option<WorkspaceRecordView>> {
    if t.len() > 0 {
        match t[0] {
            AnswerView::Workspace(x) => Flow::Done(x, t.drop_first()),
            AnswerView::Failed(e) => Flow::Failed(e, t.drop_first()),
            _ => Flow::Asks(a),
        }
    } else {
        Flow::Asks(a)
    }
}

/// Asks for `a` and takes the answer, which may be a failure.
pub open spec fn ask_workspaces(
    t: Seq<AnswerView>,
    a: ActionView,
) -> Flow<Seq<WorkspaceRecordView>> {
    if t.len() > 0 {
        match t[0] {
            AnswerView::Workspaces(x) => Flow::Done(x, t.drop_first()),
            AnswerView::Failed(e) => Flow::Failed(e, t.drop_first()),
            _ => Flow::Asks(a),
        }
    } else {
        Flow::Asks(a)
    }
}

/// Asks for `a` and takes the answer, which may be a failure.
pub open spec fn ask_expired(t: Seq<AnswerView>, a: ActionView) -> Flow<Seq<ExpiredLeaseView>> {
    if t.len() > 0 {
        match t[0] {
            AnswerView::Expired(x) => Flow::Done(x, t.drop_first()),
            AnswerView::Failed(e) => Flow::Failed(e, t.drop_first()),
            _ => Flow::Asks(a),
        }
    } else {
        Flow::Asks(a)
    }
}

/// Asks for `a` and takes the answer, which may be a failure.
pub open spec fn ask_change(t: Seq<AnswerView>, a: ActionView) -> Flow<Option<ChangeRecordView>> {
    if t.len() > 0 {
        match t[0] {
            AnswerView::Change(x) => Flow::Done(x, t.drop_first()),
            AnswerView::Failed(e) => Flow::Failed(e, t.drop_first()),
            _ => Flow::Asks(a),
        }
    } else {
        Flow::Asks(a)
    }
}

/// Asks for `a` and takes the answer, which may be a failure.
pub open spec fn ask_cleared(t: Seq<AnswerView>, a: ActionView) -> Flow<bool> {
    if t.len() > 0 {
        match t[0] {
            AnswerView::Cleared(x) => Flow::Done(x, t.drop_first()),
            AnswerView::Failed(e) => Flow::Failed(e, t.drop_first()),
            _ => Flow::Asks(a),
        }
    } else {
        Flow::Asks(a)
    }
}

/// Asks for `a` and takes the answer, which may be a failure.
pub open spec fn ask_number(t: Seq<AnswerView>, a: ActionView) -> Flow<Option<i64>> {
    if t.len() > 0 {
        match t[0] {
            AnswerView::Number(x) => Flow::Done(x, t.drop_first()),
            AnswerView::Failed(e) => Flow::Failed(e, t.drop_first()),
            _ => Flow::Asks(a),
        }
    } else {
        Flow::Asks(a)
    }
}

impl Tape {
    pub fn ask_output(&mut self, a: Action) -> (r: Result<String, Stop>)
        ensures
            follows(r, final(self)@, ask_output(old(self)@, a.deep_view())),
    {
        match self.answers.pop_front() {
            Some(Answer::Output(x)) => {
                assert(self@ =~= old(self)@.drop_first());
                Ok(x)
            },
            Some(Answer::Failed(e)) => {
                assert(self@ =~= old(self)@.drop_first());
                Err(Stop::Fail(e))
            },
            _ => Err(Stop::Ask(a)),
        }
    }

    pub fn ask_ack(&mut self, a: Action) -> (r: Result<(), Stop>)
        ensures
            follows(r, final(self)@, ask_ack(old(self)@, a.deep_view())),
    {
        match self.answers.pop_front() {
            Some(Answer::Ack) => {
                assert(self@ =~= old(self)@.drop_first());
                Ok(())
            },
            _ => Err(Stop::Ask(a)),
        }
    }

    pub fn ask_flag(&mut self, a: Action) -> (r: Result<bool, Stop>)
        ensures
            follows(r, final(self)@, ask_flag(old(self)@, a.deep_view())),
    {
        match self.answers.pop_front() {
            Some(Answer::Flag(x)) => {
                assert(self@ =~= old(self)@.drop_first());
                Ok(x)
            },
            _ => Err(Stop::Ask(a)),
        }
    }

    pub fn ask_done(&mut self, a: Action) -> (r: Result<Option<IoFault>, Stop>)
        ensures
            follows(r, final(self)@, ask_done(old(self)@, a.deep_view())),
    {
        match self.answers.pop_front() {
            Some(Answer::Done(x)) => {
                assert(self@ =~= old(self)@.drop_first());
                Ok(x)
            },
            _ => Err(Stop::Ask(a)),
        }
    }

    pub fn ask_listed(&mut self, a: Action) -> (r: Result<Listing, Stop>)
        ensures
            follows(r, final(self)@, ask_listed(old(self)@, a.deep_view())),
    {
        match self.answers.pop_front() {
            Some(Answer::Listed(x)) => {
                assert(self@ =~= old(self)@.drop_first());
                Ok(x)
            },
            _ => Err(Stop::Ask(a)),
        }
    }

    pub fn ask_text(&mut self, a: Action) -> (r: Result<Content, Stop>)
        ensures
            follows(r, final(self)@, ask_text(old(self)@, a.deep_view())),
    {
        match self.answers.pop_front() {
            Some(Answer::Text(x)) => {
                assert(self@ =~= old(self)@.drop_first());
                Ok(x)
            },
            _ => Err(Stop::Ask(a)),
        }
    }

    pub fn ask_found(&mut self, a: Action) -> (r: Result<Entry, Stop>)
        ensures
            follows(r, final(self)@, ask_found(old(self)@, a.deep_view())),
    {
        match self.answers.pop_front() {
            Some(Answer::Found(x)) => {
                assert(self@ =~= old(self)@.drop_first());
                Ok(x)
            },
            _ => Err(Stop::Ask(a)),
        }
    }

    pub fn ask_time(&mut self, a: Action) -> (r: Result<i64, Stop>)
        ensures
            follows(r, final(self)@, ask_time(old(self)@, a.deep_view())),
    {
        match self.answers.pop_front() {
            Some(Answer::Time(x)) => {
                assert(self@ =~= old(self)@.drop_first());
                Ok(x)
            },
            Some(Answer::Failed(e)) => {
                assert(self@ =~= old(self)@.drop_first());
                Err(Stop::Fail(e))
            },
            _ => Err(Stop::Ask(a)),
        }
    }

    pub fn ask_name(&mut self, a: Action) -> (r: Result<String, Stop>)
        ensures
            follows(r, final(self)@, ask_name(old(self)@, a.deep_view())),
    {
        match self.answers.pop_front() {
            Some(Answer::Name(x)) => {
                assert(self@ =~= old(self)@.drop_first());
                Ok(x)
            },
            _ => Err(Stop::Ask(a)),
        }
    }

    pub fn ask_place(&mut self, a: Action) -> (r: Result<Option<String>, Stop>)
        ensures
            follows(r, final(self)@, ask_place(old(self)@, a.deep_view())),
    {
        match self.answers.pop_front() {
            Some(Answer::Place(x)) => {
                assert(self@ =~= old(self)@.drop_first());
                Ok(x)
            },
            _ => Err(Stop::Ask(a)),
        }
    }

    pub fn ask_config(&mut self, a: Action) -> (r: Result<CubeConfig, Stop>)
        ensures
            follows(r, final(self)@, ask_config(old(self)@, a.deep_view())),
    {
        match self.answers.pop_front() {
            Some(Answer::Config(x)) => {
                assert(self@ =~= old(self)@.drop_first());
                Ok(x)
            },
            Some(Answer::Failed(e)) => {
                assert(self@ =~= old(self)@.drop_first());
                Err(Stop::Fail(e))
            },
            _ => Err(Stop::Ask(a)),
        }
    }

    pub fn ask_saved(&mut self, a: Action) -> (r: Result<(), Stop>)
        ensures
            follows(r, final(self)@, ask_saved(old(self)@, a.deep_view())),
    {
        match self.answers.pop_front() {
            Some(Answer::Saved) => {
                assert(self@ =~= old(self)@.drop_first());
                Ok(())
            },
            Some(Answer::Failed(e)) => {
                assert(self@ =~= old(self)@.drop_first());
                Err(Stop::Fail(e))
            },
            _ => Err(Stop::Ask(a)),
        }
    }

    pub fn ask_setup(&mut self, a: Action) -> (r: Result<SetupReport, Stop>)
        ensures
            follows(r, final(self)@, ask_setup(old(self)@, a.deep_view())),
    {
        match self.answers.pop_front() {
            Some(Answer::Setup(x)) => {
                assert(self@ =~= old(self)@.drop_first());
                Ok(x)
            },
            Some(Answer::Failed(e)) => {
                assert(self@ =~= old(self)@.drop_first());
                Err(Stop::Fail(e))
            },
            _ => Err(Stop::Ask(a)),
        }
    }

    pub fn ask_repo(&mut self, a: Action) -> (r: Result<Option<RepoRecord>, Stop>)
        ensures
            follows(r, final(self)@, ask_repo(old(self)@, a.deep_view())),
    {
        match self.answers.pop_front() {
            Some(Answer::Repo(x)) => {
                assert(self@ =~= old(self)@.drop_first());
                Ok(x)
            },
            Some(Answer::Failed(e)) => {
                assert(self@ =~= old(self)@.drop_first());
                Err(Stop::Fail(e))
            },
            _ => Err(Stop::Ask(a)),
        }
    }

    pub fn ask_repos(&mut self, a: Action) -> (r: Result<Vec<RepoRecord>, Stop>)
        ensures
            follows(r, final(self)@, ask_repos(old(self)@, a.deep_view())),
    {
        match self.answers.pop_front() {
            Some(Answer::Repos(x)) => {
                assert(self@ =~= old(self)@.drop_first());
                Ok(x)
            },
            Some(Answer::Failed(e)) => {
                assert(self@ =~= old(self)@.drop_first());
                Err(Stop::Fail(e))
            },
            _ => Err(Stop::Ask(a)),
        }
    }

    pub fn ask_workspace(&mut self, a: Action) -> (r: Result<Option<WorkspaceRecord>, Stop>)
        ensures
            follows(r, final(self)@, ask_workspace(old(self)@, a.deep_view())),
    {
        match self.answers.pop_front() {
            Some(Answer::Workspace(x)) => {
                assert(self@ =~= old(self)@.drop_first());
                Ok(x)
            },
            Some(Answer::Failed(e)) => {
                assert(self@ =~= old(self)@.drop_first());
                Err(Stop::Fail(e))
            },
            _ => Err(Stop::Ask(a)),
        }
    }

    pub fn ask_workspaces(&mut self, a: Action) -> (r: Result<Vec<WorkspaceRecord>, Stop>)
        ensures
            follows(r, final(self)@, ask_workspaces(old(self)@, a.deep_view())),
    {
        match self.answers.pop_front() {
            Some(Answer::Workspaces(x)) => {
                assert(self@ =~= old(self)@.drop_first());
                Ok(x)
            },
            Some(Answer::Failed(e)) => {
                assert(self@ =~= old(self)@.drop_first());
                Err(Stop::Fail(e))
            },
            _ => Err(Stop::Ask(a)),
        }
    }

    pub fn ask_expired(&mut self, a: Action) -> (r: Result<Vec<ExpiredLease>, Stop>)
        ensures
            follows(r, final(self)@, ask_expired(old(self)@, a.deep_view())),
    {
        match self.answers.pop_front() {
            Some(Answer::Expired(x)) => {
                assert(self@ =~= old(self)@.drop_first());
                Ok(x)
            },
            Some(Answer::Failed(e)) => {
                assert(self@ =~= old(self)@.drop_first());
                Err(Stop::Fail(e))
            },
            _ => Err(Stop::Ask(a)),
        }
    }

    pub fn ask_change(&mut self, a: Action) -> (r: Result<Option<ChangeRecord>, Stop>)
        ensures
            follows(r, final(self)@, ask_change(old(self)@, a.deep_view())),
    {
        match self.answers.pop_front() {
            Some(Answer::Change(x)) => {
                assert(self@ =~= old(self)@.drop_first());
                Ok(x)
            },
            Some(Answer::Failed(e)) => {
                assert(self@ =~= old(self)@.drop_first());
                Err(Stop::Fail(e))
            },
            _ => Err(Stop::Ask(a)),
        }
    }

    pub fn ask_cleared(&mut self, a: Action) -> (r: Result<bool, Stop>)
        ensures
            follows(r, final(self)@, ask_cleared(old(self)@, a.deep_view())),
    {
        match self.answers.pop_front() {
            Some(Answer::Cleared(x)) => {
                assert(self@ =~= old(self)@.drop_first());
                Ok(x)
            },
            Some(Answer::Failed(e)) => {
                assert(self@ =~= old(self)@.drop_first());
                Err(Stop::Fail(e))
            },
            _ => Err(Stop::Ask(a)),
        }
    }

    pub fn ask_number(&mut self, a: Action) -> (r: Result<Option<i64>, Stop>)
        ensures
            follows(r, final(self)@, ask_number(old(self)@, a.deep_view())),
    {
        match self.answers.pop_front() {
            Some(Answer::Number(x)) => {
                assert(self@ =~= old(self)@.drop_first());
                Ok(x)
            },
            Some(Answer::Failed(e)) => {
                assert(self@ =~= old(self)@.drop_first());
                Err(Stop::Fail(e))
            },
            _ => Err(Stop::Ask(a)),
        }
    }
}

} // verus!
