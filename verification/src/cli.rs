//! The commands of the tool and what they are given.

use vstd::prelude::*;

verus! {

/// What `change create` is given.
#[derive(Debug, Clone, PartialEq, Eq)]
pub struct ChangeCreateArgs {
    /// Absolute workspace path.
    pub workspace: Option<String>,
    /// Parent change id.
    pub parent: Option<String>,
    /// Change title.
    pub title: String,
}

#[verifier::ext_equal]
pub ghost struct ChangeCreateArgsView {
    pub workspace: Option<Seq<char>>,
    pub parent: Option<Seq<char>>,
    pub title: Seq<char>,
}

impl DeepView for ChangeCreateArgs {
    type V = ChangeCreateArgsView;

    open spec fn deep_view(&self) -> ChangeCreateArgsView {
        ChangeCreateArgsView {
            workspace: self.workspace.deep_view(),
            parent: self.parent.deep_view(),
            title: self.title@,
        }
    }
}

/// What `stack rebase` is given.
#[derive(Debug, Clone, PartialEq, Eq)]
pub struct StackRebaseArgs {
    /// Root change id for a linear stack rebase.
    pub root: Option<String>,
    /// Root change id for a subtree rebase.
    pub subtree: Option<String>,
    /// Target change id or integration branch.
    pub onto: String,
}

#[verifier::ext_equal]
pub ghost struct StackRebaseArgsView {
    pub root: Option<Seq<char>>,
    pub subtree: Option<Seq<char>>,
    pub onto: Seq<char>,
}

impl DeepView for StackRebaseArgs {
    type V = StackRebaseArgsView;

    open spec fn deep_view(&self) -> StackRebaseArgsView {
        StackRebaseArgsView {
            root: self.root.deep_view(),
            subtree: self.subtree.deep_view(),
            onto: self.onto@,
        }
    }
}

/// What `pr push` is given.
#[derive(Debug, Clone, PartialEq, Eq)]
pub struct PrPushArgs {
    /// The pull request to advance; inferred from the nearest `pr/<n>` bookmark where absent.
    pub pr: Option<u64>,
    /// The head branch to push; inferred from the bookmarks on the same commit where absent.
    pub branch: Option<String>,
    /// Force the push, provided that GitHub has not moved since the last fetch.
    pub force_with_lease: bool,
}

#[verifier::ext_equal]
pub ghost struct PrPushArgsView {
    pub pr: Option<u64>,
    pub branch: Option<Seq<char>>,
    pub force_with_lease: bool,
}

impl DeepView for PrPushArgs {
    type V = PrPushArgsView;

    open spec fn deep_view(&self) -> PrPushArgsView {
        PrPushArgsView {
            pr: self.pr,
            branch: self.branch.deep_view(),
            force_with_lease: self.force_with_lease,
        }
    }
}

/// What `pr ensure` is given.
#[derive(Debug, Clone, PartialEq, Eq)]
pub struct PrEnsureArgs {
    /// The branch to push; the first bookmark on the current commit where absent.
    pub branch: Option<String>,
    /// Title of the pull request.
    pub title: Option<String>,
    /// Body of the pull request.
    pub body: Option<String>,
    /// A file that holds the body.
    pub body_file: Option<String>,
    /// Open as a draft.
    pub draft: bool,
}

#[verifier::ext_equal]
pub ghost struct PrEnsureArgsView {
    pub branch: Option<Seq<char>>,
    pub title: Option<Seq<char>>,
    pub body: Option<Seq<char>>,
    pub body_file: Option<Seq<char>>,
    pub draft: bool,
}

impl DeepView for PrEnsureArgs {
    type V = PrEnsureArgsView;

    open spec fn deep_view(&self) -> PrEnsureArgsView {
        PrEnsureArgsView {
            branch: self.branch.deep_view(),
            title: self.title.deep_view(),
            body: self.body.deep_view(),
            body_file: self.body_file.deep_view(),
            draft: self.draft,
        }
    }
}

/// What `pr sync` is given.
#[derive(Debug, Clone, PartialEq, Eq)]
pub struct PrSyncArgs {
    /// Sync an entire stack from its root.
    pub root: Option<String>,
    /// Sync a single change.
    pub change: Option<String>,
}

#[verifier::ext_equal]
pub ghost struct PrSyncArgsView {
    pub root: Option<Seq<char>>,
    pub change: Option<Seq<char>>,
}

impl DeepView for PrSyncArgs {
    type V = PrSyncArgsView;

    open spec fn deep_view(&self) -> PrSyncArgsView {
        PrSyncArgsView {
            root: self.root.deep_view(),
            change: self.change.deep_view(),
        }
    }
}

/// What `pr merge` is given.
#[derive(Debug, Clone, PartialEq, Eq)]
pub struct PrMergeArgs {
    /// Merge a single change.
    pub change: Option<String>,
    /// Merge a ready stack from its root.
    pub stack: Option<String>,
}

#[verifier::ext_equal]
pub ghost struct PrMergeArgsView {
    pub change: Option<Seq<char>>,
    pub stack: Option<Seq<char>>,
}

impl DeepView for PrMergeArgs {
    type V = PrMergeArgsView;

    open spec fn deep_view(&self) -> PrMergeArgsView {
        PrMergeArgsView {
            change: self.change.deep_view(),
            stack: self.stack.deep_view(),
        }
    }
}

/// What `graph` is given.
#[derive(Debug, Clone, PartialEq, Eq)]
pub struct GraphArgs {
    /// Absolute workspace path to inspect.
    pub workspace: Option<String>,
}

#[verifier::ext_equal]
pub ghost struct GraphArgsView {
    pub workspace: Option<Seq<char>>,
}

impl DeepView for GraphArgs {
    type V = GraphArgsView;

    open spec fn deep_view(&self) -> GraphArgsView {
        GraphArgsView {
            workspace: self.workspace.deep_view(),
        }
    }
}

/// What `doctor` is given.
#[derive(Debug, Clone, PartialEq, Eq)]
pub struct DoctorArgs {
    /// Absolute workspace path to inspect.
    pub workspace: Option<String>,
}

#[verifier::ext_equal]
pub ghost struct DoctorArgsView {
    pub workspace: Option<Seq<char>>,
}

impl DeepView for DoctorArgs {
    type V = DoctorArgsView;

    open spec fn deep_view(&self) -> DoctorArgsView {
        DoctorArgsView {
            workspace: self.workspace.deep_view(),
        }
    }
}

/// Commands on repositories.
#[derive(Debug, Clone, PartialEq, Eq)]
pub enum RepoCommand {
    /// Resolve a repository from a name or an origin, and materialize it.
    Ensure { reponame: Option<String>, origin: Option<String> },
    /// Register a repository as given.
    Add {
        repo: String,
        origin: String,
        main_branch: String,
        workspace_root: String,
        workspace_prefix: String,
        source: Option<String>,
    },
    /// List the repositories.
    List,
    /// Show one repository.
    Info { repo: String },
    /// Remove a repository with its workspaces and changes.
    Remove { repo: String, force: bool, purge_workspaces: bool },
}

#[verifier::ext_equal]
pub ghost enum RepoCommandView {
    Ensure { reponame: Option<Seq<char>>, origin: Option<Seq<char>> },
    Add {
        repo: Seq<char>,
        origin: Seq<char>,
        main_branch: Seq<char>,
        workspace_root: Seq<char>,
        workspace_prefix: Seq<char>,
        source: Option<Seq<char>>,
    },
    List,
    Info { repo: Seq<char> },
    Remove { repo: Seq<char>, force: bool, purge_workspaces: bool },
}

impl DeepView for RepoCommand {
    type V = RepoCommandView;

    open spec fn deep_view(&self) -> RepoCommandView {
        match self {
            RepoCommand::Ensure { reponame, origin } => RepoCommandView::Ensure {
                reponame: reponame.deep_view(),
                origin: origin.deep_view(),
            },
            RepoCommand::Add {
                repo,
                origin,
                main_branch,
                workspace_root,
                workspace_prefix,
                source,
            } => RepoCommandView::Add {
                repo: repo@,
                origin: origin@,
                main_branch: main_branch@,
                workspace_root: workspace_root@,
                workspace_prefix: workspace_prefix@,
                source: source.deep_view(),
            },
            RepoCommand::List => RepoCommandView::List,
            RepoCommand::Info { repo } => RepoCommandView::Info {
                repo: repo@,
            },
            RepoCommand::Remove { repo, force, purge_workspaces } => RepoCommandView::Remove {
                repo: repo@,
                force: *force,
                purge_workspaces: *purge_workspaces,
            },
        }
    }
}

/// Commands on workspaces.
#[derive(Debug, Clone, PartialEq, Eq)]
pub enum WorkspaceCommand {
    /// Lease a workspace for one task.
    Lease {
        repo: String,
        task: String,
        prefer: Option<String>,
        allow_dirty: bool,
        resume_pr: Option<u64>,
    },
    /// Release a lease.
    Release {
        workspace: Option<String>,
        lease: Option<String>,
        repo: Option<String>,
        reason: Option<String>,
        keep_dirty: bool,
    },
    /// Move the expiry of a lease.
    Heartbeat { lease: String, ttl_seconds: Option<u64> },
    /// Release a lease without resetting the workspace.
    ForceRelease {
        workspace: Option<String>,
        lease: Option<String>,
        repo: Option<String>,
        reason: Option<String>,
    },
    /// Show a workspace.
    Status { workspace: String },
    /// Run the setup steps of a workspace.
    Setup { workspace: String },
    /// List workspaces.
    List { repo: Option<String>, state: Option<String>, holder: Option<String> },
    /// Forget bookmarks that have served their purpose.
    Gc { workspace: Option<String>, dry_run: bool },
    /// Rebase the branch of the current workspace.
    Rebase,
    /// Take a workspace out of the registry.
    Remove { workspace: String, repo: Option<String>, force: bool, expunge: bool },
}

#[verifier::ext_equal]
pub ghost enum WorkspaceCommandView {
    Lease {
        repo: Seq<char>,
        task: Seq<char>,
        prefer: Option<Seq<char>>,
        allow_dirty: bool,
        resume_pr: Option<u64>,
    },
    Release {
        workspace: Option<Seq<char>>,
        lease: Option<Seq<char>>,
        repo: Option<Seq<char>>,
        reason: Option<Seq<char>>,
        keep_dirty: bool,
    },
    Heartbeat { lease: Seq<char>, ttl_seconds: Option<u64> },
    ForceRelease {
        workspace: Option<Seq<char>>,
        lease: Option<Seq<char>>,
        repo: Option<Seq<char>>,
        reason: Option<Seq<char>>,
    },
    Status { workspace: Seq<char> },
    Setup { workspace: Seq<char> },
    List { repo: Option<Seq<char>>, state: Option<Seq<char>>, holder: Option<Seq<char>> },
    Gc { workspace: Option<Seq<char>>, dry_run: bool },
    Rebase,
    Remove { workspace: Seq<char>, repo: Option<Seq<char>>, force: bool, expunge: bool },
}

impl DeepView for WorkspaceCommand {
    type V = WorkspaceCommandView;

    open spec fn deep_view(&self) -> WorkspaceCommandView {
        match self {
            WorkspaceCommand::Lease {
                repo,
                task,
                prefer,
                allow_dirty,
                resume_pr,
            } => WorkspaceCommandView::Lease {
                repo: repo@,
                task: task@,
                prefer: prefer.deep_view(),
                allow_dirty: *allow_dirty,
                resume_pr: *resume_pr,
            },
            WorkspaceCommand::Release {
                workspace,
                lease,
                repo,
                reason,
                keep_dirty,
            } => WorkspaceCommandView::Release {
                workspace: workspace.deep_view(),
                lease: lease.deep_view(),
                repo: repo.deep_view(),
                reason: reason.deep_view(),
                keep_dirty: *keep_dirty,
            },
            WorkspaceCommand::Heartbeat { lease, ttl_seconds } => WorkspaceCommandView::Heartbeat {
                lease: lease@,
                ttl_seconds: *ttl_seconds,
            },
            WorkspaceCommand::ForceRelease {
                workspace,
                lease,
                repo,
                reason,
            } => WorkspaceCommandView::ForceRelease {
                workspace: workspace.deep_view(),
                lease: lease.deep_view(),
                repo: repo.deep_view(),
                reason: reason.deep_view(),
            },
            WorkspaceCommand::Status { workspace } => WorkspaceCommandView::Status {
                workspace: workspace@,
            },
            WorkspaceCommand::Setup { workspace } => WorkspaceCommandView::Setup {
                workspace: workspace@,
            },
            WorkspaceCommand::List { repo, state, holder } => WorkspaceCommandView::List {
                repo: repo.deep_view(),
                state: state.deep_view(),
                holder: holder.deep_view(),
            },
            WorkspaceCommand::Gc { workspace, dry_run } => WorkspaceCommandView::Gc {
                workspace: workspace.deep_view(),
                dry_run: *dry_run,
            },
            WorkspaceCommand::Rebase => WorkspaceCommandView::Rebase,
            WorkspaceCommand::Remove {
                workspace,
                repo,
                force,
                expunge,
            } => WorkspaceCommandView::Remove {
                workspace: workspace@,
                repo: repo.deep_view(),
                force: *force,
                expunge: *expunge,
            },
        }
    }
}

/// Commands on changes.
#[derive(Debug, Clone, PartialEq, Eq)]
pub enum ChangeCommand {
    /// Create a change.
    Create(ChangeCreateArgs),
    /// Move the working copy to a change.
    Checkout { change: String },
    /// Show a change.
    Info { change: String },
}

#[verifier::ext_equal]
pub ghost enum ChangeCommandView {
    Create(ChangeCreateArgsView),
    Checkout { change: Seq<char> },
    Info { change: Seq<char> },
}

impl DeepView for ChangeCommand {
    type V = ChangeCommandView;

    open spec fn deep_view(&self) -> ChangeCommandView {
        match self {
            ChangeCommand::Create(args) => ChangeCommandView::Create(args.deep_view()),
            ChangeCommand::Checkout { change } => ChangeCommandView::Checkout {
                change: change@,
            },
            ChangeCommand::Info { change } => ChangeCommandView::Info {
                change: change@,
            },
        }
    }
}

/// Commands on stacks.
#[derive(Debug, Clone, PartialEq, Eq)]
pub enum StackCommand {
    /// Rebase a stack or a subtree.
    Rebase(StackRebaseArgs),
}

#[verifier::ext_equal]
pub ghost enum StackCommandView {
    Rebase(StackRebaseArgsView),
}

impl DeepView for StackCommand {
    type V = StackCommandView;

    open spec fn deep_view(&self) -> StackCommandView {
        match self {
            StackCommand::Rebase(args) => StackCommandView::Rebase(args.deep_view()),
        }
    }
}

/// Commands on pull requests.
#[derive(Debug, Clone, PartialEq, Eq)]
pub enum PrCommand {
    /// Create a pull request for the current bookmark, or find the one there is.
    Ensure(PrEnsureArgs),
    /// Advance a pull request to the current commit.
    Push(PrPushArgs),
    /// Sync changes to pull requests.
    Sync(PrSyncArgs),
    /// Merge a pull request or a stack.
    Merge(PrMergeArgs),
}

#[verifier::ext_equal]
pub ghost enum PrCommandView {
    Ensure(PrEnsureArgsView),
    Push(PrPushArgsView),
    Sync(PrSyncArgsView),
    Merge(PrMergeArgsView),
}

impl DeepView for PrCommand {
    type V = PrCommandView;

    open spec fn deep_view(&self) -> PrCommandView {
        match self {
            PrCommand::Ensure(args) => PrCommandView::Ensure(args.deep_view()),
            PrCommand::Push(args) => PrCommandView::Push(args.deep_view()),
            PrCommand::Sync(args) => PrCommandView::Sync(args.deep_view()),
            PrCommand::Merge(args) => PrCommandView::Merge(args.deep_view()),
        }
    }
}

/// The commands.
#[derive(Debug, Clone, PartialEq, Eq)]
pub enum Command {
    Repo { command: RepoCommand },
    Workspace { command: WorkspaceCommand },
    Change { command: ChangeCommand },
    Stack { command: StackCommand },
    Pr { command: PrCommand },
    Graph(GraphArgs),
    Doctor(DoctorArgs),
}

#[verifier::ext_equal]
pub ghost enum CommandView {
    Repo { command: RepoCommandView },
    Workspace { command: WorkspaceCommandView },
    Change { command: ChangeCommandView },
    Stack { command: StackCommandView },
    Pr { command: PrCommandView },
    Graph(GraphArgsView),
    Doctor(DoctorArgsView),
}

impl DeepView for Command {
    type V = CommandView;

    open spec fn deep_view(&self) -> CommandView {
        match self {
            Command::Repo { command } => CommandView::Repo {
                command: command.deep_view(),
            },
            Command::Workspace { command } => CommandView::Workspace {
                command: command.deep_view(),
            },
            Command::Change { command } => CommandView::Change {
                command: command.deep_view(),
            },
            Command::Stack { command } => CommandView::Stack {
                command: command.deep_view(),
            },
            Command::Pr { command } => CommandView::Pr {
                command: command.deep_view(),
            },
            Command::Graph(args) => CommandView::Graph(args.deep_view()),
            Command::Doctor(args) => CommandView::Doctor(args.deep_view()),
        }
    }
}

/// A command line.
#[derive(Debug, Clone, PartialEq, Eq)]
pub struct Cli {
    /// Print the payload as JSON.
    pub json: bool,
    pub command: Command,
}

#[verifier::ext_equal]
pub ghost struct CliView {
    pub json: bool,
    pub command: CommandView,
}

impl DeepView for Cli {
    type V = CliView;

    open spec fn deep_view(&self) -> CliView {
        CliView { json: self.json, command: self.command.deep_view() }
    }
}

} // verus!
