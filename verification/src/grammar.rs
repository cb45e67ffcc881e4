//! The grammar of the command line.

use vstd::prelude::*;

use crate::app::is_consistent;
use crate::args::{rest_of, scan, scan_args, Given, GivenView, Shape, ShapeView};
use crate::cli::{
    ChangeCommand, ChangeCommandView, ChangeCreateArgs, ChangeCreateArgsView, Cli, CliView,
    Command, CommandView, DoctorArgs, DoctorArgsView, GraphArgs, GraphArgsView, PrCommand,
    PrCommandView, PrEnsureArgs, PrEnsureArgsView, PrMergeArgs, PrMergeArgsView, PrPushArgs,
    PrPushArgsView, PrSyncArgs, PrSyncArgsView, RepoCommand, RepoCommandView, StackCommand,
    StackCommandView, StackRebaseArgs, StackRebaseArgsView, WorkspaceCommand, WorkspaceCommandView,
};
use crate::text::{chain, list1, list2, list3, list4, same};

verus! {

fn no_names() -> (r: Vec<String>)
    ensures
        r.deep_view() == Seq::<Seq<char>>::empty(),
{
    let none: Vec<String> = Vec::new();
    assert(none.deep_view() =~= Seq::<Seq<char>>::empty());
    none
}

/// What the arguments of a command of the given shape give.
pub open spec fn given_for(
    args: Seq<Seq<char>>,
    flags: Seq<Seq<char>>,
    options: Seq<Seq<char>>,
    positionals: nat,
) -> Option<GivenView> {
    scan(args, ShapeView { flags, options, positionals }, GivenView::nothing())
}

fn take(
    args: &Vec<String>,
    start: usize,
    flags: Vec<String>,
    options: Vec<String>,
    positionals: usize,
) -> (r: Option<Given>)
    requires
        start <= args@.len(),
    ensures
        r.deep_view() == given_for(
            rest_of(args.deep_view(), start as int),
            flags.deep_view(),
            options.deep_view(),
            positionals as nat,
        ),
{
    let shape: Shape = Shape { flags, options, positionals };
    scan_args(args, start, &shape)
}

// ---------------------------------------------------------------------------
// The commands
// ---------------------------------------------------------------------------

/// `repo ensure`: a name or an origin, not both.
pub open spec fn spec_repo_ensure(args: Seq<Seq<char>>) -> Option<(bool, RepoCommandView)> {
    match given_for(args, seq!["--json"@], seq!["--origin"@], 1) {
        None => None,
        Some(g) => if ((g.first() is Some) != (g.value("--origin"@) is Some)) {
            Some(
                (
                    g.has("--json"@),
                    RepoCommandView::Ensure { reponame: g.first(), origin: g.value("--origin"@) },
                ),
            )
        } else {
            None
        },
    }
}

fn parse_repo_ensure(args: &Vec<String>, start: usize) -> (r: Option<(bool, RepoCommand)>)
    requires
        start <= args@.len(),
    ensures
        r.deep_view() == spec_repo_ensure(rest_of(args.deep_view(), start as int)),
{
    let g: Given = take(args, start, list1("--json"), list1("--origin"), 1)?;
    let reponame: Option<String> = g.first();
    let origin: Option<String> = g.value("--origin");
    if reponame.is_some() == origin.is_some() {
        return None;
    }
    Some((g.has("--json"), RepoCommand::Ensure { reponame, origin }))
}

/// `repo add`; the default branch is `main` where none is given.
pub open spec fn spec_repo_add(args: Seq<Seq<char>>) -> Option<(bool, RepoCommandView)> {
    match given_for(
        args,
        seq!["--json"@],
        seq![
            "--origin"@,
            "--main-branch"@,
            "--workspace-root"@,
            "--workspace-prefix"@,
        ] + seq!["--source"@],
        1,
    ) {
        None => None,
        Some(g) => if g.first() is Some
            && g.value("--origin"@) is Some
            && g.value("--workspace-root"@) is Some
            && g.value("--workspace-prefix"@) is Some {
            Some(
                (
                    g.has("--json"@),
                    RepoCommandView::Add {
                        repo: g.first()->0,
                        origin: g.value("--origin"@)->0,
                        main_branch: match g.value("--main-branch"@) {
                            Some(b) => b,
                            None => "main"@,
                        },
                        workspace_root: g.value("--workspace-root"@)->0,
                        workspace_prefix: g.value("--workspace-prefix"@)->0,
                        source: g.value("--source"@),
                    },
                ),
            )
        } else {
            None
        },
    }
}

fn parse_repo_add(args: &Vec<String>, start: usize) -> (r: Option<(bool, RepoCommand)>)
    requires
        start <= args@.len(),
    ensures
        r.deep_view() == spec_repo_add(rest_of(args.deep_view(), start as int)),
{
    let g: Given = take(
        args,
        start,
        list1("--json"),
        chain(
            list4("--origin", "--main-branch", "--workspace-root", "--workspace-prefix"),
            list1("--source"),
        ),
        1,
    )?;
    let repo: String = g.first()?;
    let origin: String = g.value("--origin")?;
    let main_branch: String = match g.value("--main-branch") {
        Some(b) => b,
        None => "main".to_string(),
    };
    let workspace_root: String = g.value("--workspace-root")?;
    let workspace_prefix: String = g.value("--workspace-prefix")?;
    let source: Option<String> = g.value("--source");
    Some(
        (
            g.has("--json"),
            RepoCommand::Add {
                repo,
                origin,
                main_branch,
                workspace_root,
                workspace_prefix,
                source,
            },
        ),
    )
}

/// `repo list`.
pub open spec fn spec_repo_list(args: Seq<Seq<char>>) -> Option<(bool, RepoCommandView)> {
    match given_for(args, seq!["--json"@], Seq::empty(), 0) {
        None => None,
        Some(g) => Some((g.has("--json"@), RepoCommandView::List)),
    }
}

fn parse_repo_list(args: &Vec<String>, start: usize) -> (r: Option<(bool, RepoCommand)>)
    requires
        start <= args@.len(),
    ensures
        r.deep_view() == spec_repo_list(rest_of(args.deep_view(), start as int)),
{
    let g: Given = take(args, start, list1("--json"), no_names(), 0)?;
    Some((g.has("--json"), RepoCommand::List))
}

/// `repo info`.
pub open spec fn spec_repo_info(args: Seq<Seq<char>>) -> Option<(bool, RepoCommandView)> {
    match given_for(args, seq!["--json"@], Seq::empty(), 1) {
        None => None,
        Some(g) => if g.first() is Some {
            Some((g.has("--json"@), RepoCommandView::Info { repo: g.first()->0 }))
        } else {
            None
        },
    }
}

fn parse_repo_info(args: &Vec<String>, start: usize) -> (r: Option<(bool, RepoCommand)>)
    requires
        start <= args@.len(),
    ensures
        r.deep_view() == spec_repo_info(rest_of(args.deep_view(), start as int)),
{
    let g: Given = take(args, start, list1("--json"), no_names(), 1)?;
    let repo: String = g.first()?;
    Some((g.has("--json"), RepoCommand::Info { repo }))
}

/// `repo remove`.
pub open spec fn spec_repo_remove(args: Seq<Seq<char>>) -> Option<(bool, RepoCommandView)> {
    match given_for(args, seq!["--json"@, "--force"@, "--purge-workspaces"@], Seq::empty(), 1) {
        None => None,
        Some(g) => if g.first() is Some {
            Some(
                (
                    g.has("--json"@),
                    RepoCommandView::Remove {
                        repo: g.first()->0,
                        force: g.has("--force"@),
                        purge_workspaces: g.has("--purge-workspaces"@),
                    },
                ),
            )
        } else {
            None
        },
    }
}

fn parse_repo_remove(args: &Vec<String>, start: usize) -> (r: Option<(bool, RepoCommand)>)
    requires
        start <= args@.len(),
    ensures
        r.deep_view() == spec_repo_remove(rest_of(args.deep_view(), start as int)),
{
    let g: Given = take(
        args,
        start,
        list3("--json", "--force", "--purge-workspaces"),
        no_names(),
        1,
    )?;
    let repo: String = g.first()?;
    let force: bool = g.has("--force");
    let purge_workspaces: bool = g.has("--purge-workspaces");
    Some((g.has("--json"), RepoCommand::Remove { repo, force, purge_workspaces }))
}

/// `workspace lease`: taking a workspace as it is needs its name, and excludes resuming a
/// pull request.
pub open spec fn spec_lease(args: Seq<Seq<char>>) -> Option<(bool, WorkspaceCommandView)> {
    match given_for(
        args,
        seq!["--json"@, "--allow-dirty"@],
        seq!["--task"@, "--prefer"@, "--resume-pr"@],
        1,
    ) {
        None => None,
        Some(g) => if g.first() is Some
            && g.value("--task"@) is Some
            && g.is_number("--resume-pr"@)
            && (g.has("--allow-dirty"@) ==> g.value("--prefer"@) is Some)
            && !(g.has("--allow-dirty"@) && g.value("--resume-pr"@) is Some) {
            Some(
                (
                    g.has("--json"@),
                    WorkspaceCommandView::Lease {
                        repo: g.first()->0,
                        task: g.value("--task"@)->0,
                        prefer: g.value("--prefer"@),
                        allow_dirty: g.has("--allow-dirty"@),
                        resume_pr: g.number("--resume-pr"@),
                    },
                ),
            )
        } else {
            None
        },
    }
}

fn parse_lease(args: &Vec<String>, start: usize) -> (r: Option<(bool, WorkspaceCommand)>)
    requires
        start <= args@.len(),
    ensures
        r.deep_view() == spec_lease(rest_of(args.deep_view(), start as int)),
{
    let g: Given = take(
        args,
        start,
        list2("--json", "--allow-dirty"),
        list3("--task", "--prefer", "--resume-pr"),
        1,
    )?;
    let repo: String = g.first()?;
    let task: String = g.value("--task")?;
    let prefer: Option<String> = g.value("--prefer");
    let allow_dirty: bool = g.has("--allow-dirty");
    let resume_pr: Option<u64> = match g.number("--resume-pr") {
        Ok(n) => n,
        Err(_) => {
            return None;
        },
    };
    if (allow_dirty && prefer.is_none()) || (allow_dirty && resume_pr.is_some()) {
        return None;
    }
    Some((g.has("--json"), WorkspaceCommand::Lease { repo, task, prefer, allow_dirty, resume_pr }))
}

/// `workspace release`: a workspace or a lease, not both.
pub open spec fn spec_release(args: Seq<Seq<char>>) -> Option<(bool, WorkspaceCommandView)> {
    match given_for(
        args,
        seq!["--json"@, "--keep-dirty"@],
        seq!["--lease"@, "--repo"@, "--reason"@],
        1,
    ) {
        None => None,
        Some(g) => if ((g.first() is Some) != (g.value("--lease"@) is Some)) {
            Some(
                (
                    g.has("--json"@),
                    WorkspaceCommandView::Release {
                        workspace: g.first(),
                        lease: g.value("--lease"@),
                        repo: g.value("--repo"@),
                        reason: g.value("--reason"@),
                        keep_dirty: g.has("--keep-dirty"@),
                    },
                ),
            )
        } else {
            None
        },
    }
}

fn parse_release(args: &Vec<String>, start: usize) -> (r: Option<(bool, WorkspaceCommand)>)
    requires
        start <= args@.len(),
    ensures
        r.deep_view() == spec_release(rest_of(args.deep_view(), start as int)),
{
    let g: Given = take(
        args,
        start,
        list2("--json", "--keep-dirty"),
        list3("--lease", "--repo", "--reason"),
        1,
    )?;
    let workspace: Option<String> = g.first();
    let lease: Option<String> = g.value("--lease");
    let repo: Option<String> = g.value("--repo");
    let reason: Option<String> = g.value("--reason");
    let keep_dirty: bool = g.has("--keep-dirty");
    if workspace.is_some() == lease.is_some() {
        return None;
    }
    Some(
        (g.has("--json"), WorkspaceCommand::Release { workspace, lease, repo, reason, keep_dirty }),
    )
}

/// `workspace heartbeat`.
pub open spec fn spec_heartbeat(args: Seq<Seq<char>>) -> Option<(bool, WorkspaceCommandView)> {
    match given_for(args, seq!["--json"@], seq!["--lease"@, "--ttl-seconds"@], 0) {
        None => None,
        Some(g) => if g.value("--lease"@) is Some && g.is_number("--ttl-seconds"@) {
            Some(
                (
                    g.has("--json"@),
                    WorkspaceCommandView::Heartbeat {
                        lease: g.value("--lease"@)->0,
                        ttl_seconds: g.number("--ttl-seconds"@),
                    },
                ),
            )
        } else {
            None
        },
    }
}

fn parse_heartbeat(args: &Vec<String>, start: usize) -> (r: Option<(bool, WorkspaceCommand)>)
    requires
        start <= args@.len(),
    ensures
        r.deep_view() == spec_heartbeat(rest_of(args.deep_view(), start as int)),
{
    let g: Given = take(args, start, list1("--json"), list2("--lease", "--ttl-seconds"), 0)?;
    let lease: String = g.value("--lease")?;
    let ttl_seconds: Option<u64> = match g.number("--ttl-seconds") {
        Ok(n) => n,
        Err(_) => {
            return None;
        },
    };
    Some((g.has("--json"), WorkspaceCommand::Heartbeat { lease, ttl_seconds }))
}

/// `workspace force-release`: a workspace or a lease, not both.
pub open spec fn spec_force_release(args: Seq<Seq<char>>) -> Option<(bool, WorkspaceCommandView)> {
    match given_for(args, seq!["--json"@], seq!["--lease"@, "--repo"@, "--reason"@], 1) {
        None => None,
        Some(g) => if ((g.first() is Some) != (g.value("--lease"@) is Some)) {
            Some(
                (
                    g.has("--json"@),
                    WorkspaceCommandView::ForceRelease {
                        workspace: g.first(),
                        lease: g.value("--lease"@),
                        repo: g.value("--repo"@),
                        reason: g.value("--reason"@),
                    },
                ),
            )
        } else {
            None
        },
    }
}

fn parse_force_release(args: &Vec<String>, start: usize) -> (r: Option<(bool, WorkspaceCommand)>)
    requires
        start <= args@.len(),
    ensures
        r.deep_view() == spec_force_release(rest_of(args.deep_view(), start as int)),
{
    let g: Given = take(args, start, list1("--json"), list3("--lease", "--repo", "--reason"), 1)?;
    let workspace: Option<String> = g.first();
    let lease: Option<String> = g.value("--lease");
    let repo: Option<String> = g.value("--repo");
    let reason: Option<String> = g.value("--reason");
    if workspace.is_some() == lease.is_some() {
        return None;
    }
    Some((g.has("--json"), WorkspaceCommand::ForceRelease { workspace, lease, repo, reason }))
}

/// `workspace status`.
pub open spec fn spec_status(args: Seq<Seq<char>>) -> Option<(bool, WorkspaceCommandView)> {
    match given_for(args, seq!["--json"@], seq!["--workspace"@], 0) {
        None => None,
        Some(g) => if g.value("--workspace"@) is Some {
            Some(
                (
                    g.has("--json"@),
                    WorkspaceCommandView::Status { workspace: g.value("--workspace"@)->0 },
                ),
            )
        } else {
            None
        },
    }
}

fn parse_status(args: &Vec<String>, start: usize) -> (r: Option<(bool, WorkspaceCommand)>)
    requires
        start <= args@.len(),
    ensures
        r.deep_view() == spec_status(rest_of(args.deep_view(), start as int)),
{
    let g: Given = take(args, start, list1("--json"), list1("--workspace"), 0)?;
    let workspace: String = g.value("--workspace")?;
    Some((g.has("--json"), WorkspaceCommand::Status { workspace }))
}

/// `workspace setup`.
pub open spec fn spec_setup(args: Seq<Seq<char>>) -> Option<(bool, WorkspaceCommandView)> {
    match given_for(args, seq!["--json"@], seq!["--workspace"@], 0) {
        None => None,
        Some(g) => if g.value("--workspace"@) is Some {
            Some(
                (
                    g.has("--json"@),
                    WorkspaceCommandView::Setup { workspace: g.value("--workspace"@)->0 },
                ),
            )
        } else {
            None
        },
    }
}

fn parse_setup(args: &Vec<String>, start: usize) -> (r: Option<(bool, WorkspaceCommand)>)
    requires
        start <= args@.len(),
    ensures
        r.deep_view() == spec_setup(rest_of(args.deep_view(), start as int)),
{
    let g: Given = take(args, start, list1("--json"), list1("--workspace"), 0)?;
    let workspace: String = g.value("--workspace")?;
    Some((g.has("--json"), WorkspaceCommand::Setup { workspace }))
}

/// `workspace list`.
pub open spec fn spec_workspace_list(args: Seq<Seq<char>>) -> Option<(bool, WorkspaceCommandView)> {
    match given_for(args, seq!["--json"@], seq!["--repo"@, "--state"@, "--holder"@], 0) {
        None => None,
        Some(g) => Some(
            (
                g.has("--json"@),
                WorkspaceCommandView::List {
                    repo: g.value("--repo"@),
                    state: g.value("--state"@),
                    holder: g.value("--holder"@),
                },
            ),
        ),
    }
}

fn parse_workspace_list(args: &Vec<String>, start: usize) -> (r: Option<(bool, WorkspaceCommand)>)
    requires
        start <= args@.len(),
    ensures
        r.deep_view() == spec_workspace_list(rest_of(args.deep_view(), start as int)),
{
    let g: Given = take(args, start, list1("--json"), list3("--repo", "--state", "--holder"), 0)?;
    let repo: Option<String> = g.value("--repo");
    let state: Option<String> = g.value("--state");
    let holder: Option<String> = g.value("--holder");
    Some((g.has("--json"), WorkspaceCommand::List { repo, state, holder }))
}

/// `workspace gc`.
pub open spec fn spec_gc(args: Seq<Seq<char>>) -> Option<(bool, WorkspaceCommandView)> {
    match given_for(args, seq!["--json"@, "--dry-run"@], seq!["--workspace"@], 0) {
        None => None,
        Some(g) => Some(
            (
                g.has("--json"@),
                WorkspaceCommandView::Gc {
                    workspace: g.value("--workspace"@),
                    dry_run: g.has("--dry-run"@),
                },
            ),
        ),
    }
}

fn parse_gc(args: &Vec<String>, start: usize) -> (r: Option<(bool, WorkspaceCommand)>)
    requires
        start <= args@.len(),
    ensures
        r.deep_view() == spec_gc(rest_of(args.deep_view(), start as int)),
{
    let g: Given = take(args, start, list2("--json", "--dry-run"), list1("--workspace"), 0)?;
    let workspace: Option<String> = g.value("--workspace");
    let dry_run: bool = g.has("--dry-run");
    Some((g.has("--json"), WorkspaceCommand::Gc { workspace, dry_run }))
}

/// `workspace rebase`.
pub open spec fn spec_workspace_rebase(
    args: Seq<Seq<char>>,
) -> Option<(bool, WorkspaceCommandView)> {
    match given_for(args, seq!["--json"@], Seq::empty(), 0) {
        None => None,
        Some(g) => Some((g.has("--json"@), WorkspaceCommandView::Rebase)),
    }
}

fn parse_workspace_rebase(args: &Vec<String>, start: usize) -> (r: Option<(bool, WorkspaceCommand)>)
    requires
        start <= args@.len(),
    ensures
        r.deep_view() == spec_workspace_rebase(rest_of(args.deep_view(), start as int)),
{
    let g: Given = take(args, start, list1("--json"), no_names(), 0)?;
    Some((g.has("--json"), WorkspaceCommand::Rebase))
}

/// `workspace remove`.
pub open spec fn spec_workspace_remove(
    args: Seq<Seq<char>>,
) -> Option<(bool, WorkspaceCommandView)> {
    match given_for(args, seq!["--json"@, "--force"@, "--expunge"@], seq!["--repo"@], 1) {
        None => None,
        Some(g) => if g.first() is Some {
            Some(
                (
                    g.has("--json"@),
                    WorkspaceCommandView::Remove {
                        workspace: g.first()->0,
                        repo: g.value("--repo"@),
                        force: g.has("--force"@),
                        expunge: g.has("--expunge"@),
                    },
                ),
            )
        } else {
            None
        },
    }
}

fn parse_workspace_remove(args: &Vec<String>, start: usize) -> (r: Option<(bool, WorkspaceCommand)>)
    requires
        start <= args@.len(),
    ensures
        r.deep_view() == spec_workspace_remove(rest_of(args.deep_view(), start as int)),
{
    let g: Given = take(args, start, list3("--json", "--force", "--expunge"), list1("--repo"), 1)?;
    let workspace: String = g.first()?;
    let repo: Option<String> = g.value("--repo");
    let force: bool = g.has("--force");
    let expunge: bool = g.has("--expunge");
    Some((g.has("--json"), WorkspaceCommand::Remove { workspace, repo, force, expunge }))
}

/// `change create`.
pub open spec fn spec_change_create(args: Seq<Seq<char>>) -> Option<(bool, ChangeCommandView)> {
    match given_for(args, seq!["--json"@], seq!["--workspace"@, "--parent"@, "--title"@], 0) {
        None => None,
        Some(g) => if g.value("--title"@) is Some {
            Some(
                (
                    g.has("--json"@),
                    ChangeCommandView::Create(
                        ChangeCreateArgsView {
                            workspace: g.value("--workspace"@),
                            parent: g.value("--parent"@),
                            title: g.value("--title"@)->0,
                        },
                    ),
                ),
            )
        } else {
            None
        },
    }
}

fn parse_change_create(args: &Vec<String>, start: usize) -> (r: Option<(bool, ChangeCommand)>)
    requires
        start <= args@.len(),
    ensures
        r.deep_view() == spec_change_create(rest_of(args.deep_view(), start as int)),
{
    let g: Given = take(
        args,
        start,
        list1("--json"),
        list3("--workspace", "--parent", "--title"),
        0,
    )?;
    let workspace: Option<String> = g.value("--workspace");
    let parent: Option<String> = g.value("--parent");
    let title: String = g.value("--title")?;
    Some((g.has("--json"), ChangeCommand::Create(ChangeCreateArgs { workspace, parent, title })))
}

/// `change checkout`.
pub open spec fn spec_change_checkout(args: Seq<Seq<char>>) -> Option<(bool, ChangeCommandView)> {
    match given_for(args, seq!["--json"@], seq!["--change"@], 0) {
        None => None,
        Some(g) => if g.value("--change"@) is Some {
            Some(
                (g.has("--json"@), ChangeCommandView::Checkout { change: g.value("--change"@)->0 }),
            )
        } else {
            None
        },
    }
}

fn parse_change_checkout(args: &Vec<String>, start: usize) -> (r: Option<(bool, ChangeCommand)>)
    requires
        start <= args@.len(),
    ensures
        r.deep_view() == spec_change_checkout(rest_of(args.deep_view(), start as int)),
{
    let g: Given = take(args, start, list1("--json"), list1("--change"), 0)?;
    let change: String = g.value("--change")?;
    Some((g.has("--json"), ChangeCommand::Checkout { change }))
}

/// `change info`.
pub open spec fn spec_change_info(args: Seq<Seq<char>>) -> Option<(bool, ChangeCommandView)> {
    match given_for(args, seq!["--json"@], seq!["--change"@], 0) {
        None => None,
        Some(g) => if g.value("--change"@) is Some {
            Some((g.has("--json"@), ChangeCommandView::Info { change: g.value("--change"@)->0 }))
        } else {
            None
        },
    }
}

fn parse_change_info(args: &Vec<String>, start: usize) -> (r: Option<(bool, ChangeCommand)>)
    requires
        start <= args@.len(),
    ensures
        r.deep_view() == spec_change_info(rest_of(args.deep_view(), start as int)),
{
    let g: Given = take(args, start, list1("--json"), list1("--change"), 0)?;
    let change: String = g.value("--change")?;
    Some((g.has("--json"), ChangeCommand::Info { change }))
}

/// `stack rebase`: a root or a subtree, not both.
pub open spec fn spec_stack_rebase(args: Seq<Seq<char>>) -> Option<(bool, StackCommandView)> {
    match given_for(args, seq!["--json"@], seq!["--root"@, "--subtree"@, "--onto"@], 0) {
        None => None,
        Some(g) => if g.value("--onto"@) is Some
            && !(g.value("--root"@) is Some && g.value("--subtree"@) is Some) {
            Some(
                (
                    g.has("--json"@),
                    StackCommandView::Rebase(
                        StackRebaseArgsView {
                            root: g.value("--root"@),
                            subtree: g.value("--subtree"@),
                            onto: g.value("--onto"@)->0,
                        },
                    ),
                ),
            )
        } else {
            None
        },
    }
}

fn parse_stack_rebase(args: &Vec<String>, start: usize) -> (r: Option<(bool, StackCommand)>)
    requires
        start <= args@.len(),
    ensures
        r.deep_view() == spec_stack_rebase(rest_of(args.deep_view(), start as int)),
{
    let g: Given = take(args, start, list1("--json"), list3("--root", "--subtree", "--onto"), 0)?;
    let root: Option<String> = g.value("--root");
    let subtree: Option<String> = g.value("--subtree");
    let onto: String = g.value("--onto")?;
    if root.is_some() && subtree.is_some() {
        return None;
    }
    Some((g.has("--json"), StackCommand::Rebase(StackRebaseArgs { root, subtree, onto })))
}

/// `pr ensure`: the body as text or as a file, not both.
pub open spec fn spec_pr_ensure(args: Seq<Seq<char>>) -> Option<(bool, PrCommandView)> {
    match given_for(
        args,
        seq!["--json"@, "--draft"@],
        seq!["--branch"@, "--title"@, "--body"@, "--body-file"@],
        0,
    ) {
        None => None,
        Some(g) => if !(g.value("--body"@) is Some && g.value("--body-file"@) is Some) {
            Some(
                (
                    g.has("--json"@),
                    PrCommandView::Ensure(
                        PrEnsureArgsView {
                            branch: g.value("--branch"@),
                            title: g.value("--title"@),
                            body: g.value("--body"@),
                            body_file: g.value("--body-file"@),
                            draft: g.has("--draft"@),
                        },
                    ),
                ),
            )
        } else {
            None
        },
    }
}

fn parse_pr_ensure(args: &Vec<String>, start: usize) -> (r: Option<(bool, PrCommand)>)
    requires
        start <= args@.len(),
    ensures
        r.deep_view() == spec_pr_ensure(rest_of(args.deep_view(), start as int)),
{
    let g: Given = take(
        args,
        start,
        list2("--json", "--draft"),
        list4("--branch", "--title", "--body", "--body-file"),
        0,
    )?;
    let branch: Option<String> = g.value("--branch");
    let title: Option<String> = g.value("--title");
    let body: Option<String> = g.value("--body");
    let body_file: Option<String> = g.value("--body-file");
    let draft: bool = g.has("--draft");
    if body.is_some() && body_file.is_some() {
        return None;
    }
    Some(
        (
            g.has("--json"),
            PrCommand::Ensure(PrEnsureArgs { branch, title, body, body_file, draft }),
        ),
    )
}

/// `pr push`.
pub open spec fn spec_pr_push(args: Seq<Seq<char>>) -> Option<(bool, PrCommandView)> {
    match given_for(args, seq!["--json"@, "--force-with-lease"@], seq!["--pr"@, "--branch"@], 0) {
        None => None,
        Some(g) => if g.is_number("--pr"@) {
            Some(
                (
                    g.has("--json"@),
                    PrCommandView::Push(
                        PrPushArgsView {
                            pr: g.number("--pr"@),
                            branch: g.value("--branch"@),
                            force_with_lease: g.has("--force-with-lease"@),
                        },
                    ),
                ),
            )
        } else {
            None
        },
    }
}

fn parse_pr_push(args: &Vec<String>, start: usize) -> (r: Option<(bool, PrCommand)>)
    requires
        start <= args@.len(),
    ensures
        r.deep_view() == spec_pr_push(rest_of(args.deep_view(), start as int)),
{
    let g: Given = take(
        args,
        start,
        list2("--json", "--force-with-lease"),
        list2("--pr", "--branch"),
        0,
    )?;
    let pr: Option<u64> = match g.number("--pr") {
        Ok(n) => n,
        Err(_) => {
            return None;
        },
    };
    let branch: Option<String> = g.value("--branch");
    let force_with_lease: bool = g.has("--force-with-lease");
    Some((g.has("--json"), PrCommand::Push(PrPushArgs { pr, branch, force_with_lease })))
}

/// `pr sync`: a root or a change, not both.
pub open spec fn spec_pr_sync(args: Seq<Seq<char>>) -> Option<(bool, PrCommandView)> {
    match given_for(args, seq!["--json"@], seq!["--root"@, "--change"@], 0) {
        None => None,
        Some(g) => if !(g.value("--root"@) is Some && g.value("--change"@) is Some) {
            Some(
                (
                    g.has("--json"@),
                    PrCommandView::Sync(
                        PrSyncArgsView { root: g.value("--root"@), change: g.value("--change"@) },
                    ),
                ),
            )
        } else {
            None
        },
    }
}

fn parse_pr_sync(args: &Vec<String>, start: usize) -> (r: Option<(bool, PrCommand)>)
    requires
        start <= args@.len(),
    ensures
        r.deep_view() == spec_pr_sync(rest_of(args.deep_view(), start as int)),
{
    let g: Given = take(args, start, list1("--json"), list2("--root", "--change"), 0)?;
    let root: Option<String> = g.value("--root");
    let change: Option<String> = g.value("--change");
    if root.is_some() && change.is_some() {
        return None;
    }
    Some((g.has("--json"), PrCommand::Sync(PrSyncArgs { root, change })))
}

/// `pr merge`: a change or a stack, not both.
pub open spec fn spec_pr_merge(args: Seq<Seq<char>>) -> Option<(bool, PrCommandView)> {
    match given_for(args, seq!["--json"@], seq!["--change"@, "--stack"@], 0) {
        None => None,
        Some(g) => if !(g.value("--change"@) is Some && g.value("--stack"@) is Some) {
            Some(
                (
                    g.has("--json"@),
                    PrCommandView::Merge(
                        PrMergeArgsView {
                            change: g.value("--change"@),
                            stack: g.value("--stack"@),
                        },
                    ),
                ),
            )
        } else {
            None
        },
    }
}

fn parse_pr_merge(args: &Vec<String>, start: usize) -> (r: Option<(bool, PrCommand)>)
    requires
        start <= args@.len(),
    ensures
        r.deep_view() == spec_pr_merge(rest_of(args.deep_view(), start as int)),
{
    let g: Given = take(args, start, list1("--json"), list2("--change", "--stack"), 0)?;
    let change: Option<String> = g.value("--change");
    let stack: Option<String> = g.value("--stack");
    if change.is_some() && stack.is_some() {
        return None;
    }
    Some((g.has("--json"), PrCommand::Merge(PrMergeArgs { change, stack })))
}

/// `graph`.
pub open spec fn spec_graph(args: Seq<Seq<char>>) -> Option<(bool, CommandView)> {
    match given_for(args, seq!["--json"@], seq!["--workspace"@], 0) {
        None => None,
        Some(g) => Some(
            (
                g.has("--json"@),
                CommandView::Graph(GraphArgsView { workspace: g.value("--workspace"@) }),
            ),
        ),
    }
}

fn parse_graph(args: &Vec<String>, start: usize) -> (r: Option<(bool, Command)>)
    requires
        start <= args@.len(),
    ensures
        r.deep_view() == spec_graph(rest_of(args.deep_view(), start as int)),
{
    let g: Given = take(args, start, list1("--json"), list1("--workspace"), 0)?;
    let workspace: Option<String> = g.value("--workspace");
    Some((g.has("--json"), Command::Graph(GraphArgs { workspace })))
}

/// `doctor`.
pub open spec fn spec_doctor(args: Seq<Seq<char>>) -> Option<(bool, CommandView)> {
    match given_for(args, seq!["--json"@], seq!["--workspace"@], 0) {
        None => None,
        Some(g) => Some(
            (
                g.has("--json"@),
                CommandView::Doctor(DoctorArgsView { workspace: g.value("--workspace"@) }),
            ),
        ),
    }
}

fn parse_doctor(args: &Vec<String>, start: usize) -> (r: Option<(bool, Command)>)
    requires
        start <= args@.len(),
    ensures
        r.deep_view() == spec_doctor(rest_of(args.deep_view(), start as int)),
{
    let g: Given = take(args, start, list1("--json"), list1("--workspace"), 0)?;
    let workspace: Option<String> = g.value("--workspace");
    Some((g.has("--json"), Command::Doctor(DoctorArgs { workspace })))
}

// ---------------------------------------------------------------------------
// Groups of commands
// ---------------------------------------------------------------------------

/// Whether the arguments begin with `--json`.
pub open spec fn json_first(args: Seq<Seq<char>>) -> bool {
    args.len() > 0 && args[0] == "--json"@
}

/// The arguments behind a `--json` in front.
pub open spec fn past_json(args: Seq<Seq<char>>) -> Seq<Seq<char>> {
    if json_first(args) {
        args.drop_first()
    } else {
        args
    }
}

/// Steps over a `--json` in front.
fn step_json(args: &Vec<String>, start: usize) -> (r: (bool, usize))
    requires
        start <= args@.len(),
    ensures
        r.0 == json_first(rest_of(args.deep_view(), start as int)),
        start <= r.1 <= args@.len(),
        rest_of(args.deep_view(), r.1 as int) == past_json(
            rest_of(args.deep_view(), start as int),
        ),
{
    let ghost rest = rest_of(args.deep_view(), start as int);
    if start < args.len() {
        assert(rest[0] == args@[start as int]@);
        if same(args[start].as_str(), "--json") {
            assert(rest.drop_first() =~= rest_of(args.deep_view(), start + 1));
            return (true, start + 1);
        }
    }
    (false, start)
}

/// A command of `repo`, named first.
pub open spec fn spec_repo(args: Seq<Seq<char>>) -> Option<(bool, RepoCommandView)> {
    if args.len() == 0 {
        None
    } else {
        let rest = args.drop_first();
        if args[0] == "ensure"@ {
            spec_repo_ensure(rest)
        } else if args[0] == "add"@ {
            spec_repo_add(rest)
        } else if args[0] == "list"@ {
            spec_repo_list(rest)
        } else if args[0] == "info"@ {
            spec_repo_info(rest)
        } else if args[0] == "remove"@ {
            spec_repo_remove(rest)
        } else {
            None
        }
    }
}

fn parse_repo(args: &Vec<String>, start: usize) -> (r: Option<(bool, RepoCommand)>)
    requires
        start <= args@.len(),
    ensures
        r.deep_view() == spec_repo(rest_of(args.deep_view(), start as int)),
{
    if start >= args.len() {
        return None;
    }
    proof {
        let all = rest_of(args.deep_view(), start as int);
        assert(all[0] == args@[start as int]@);
        assert(all.drop_first() =~= rest_of(args.deep_view(), start + 1));
    }
    let name: &str = args[start].as_str();
    if same(name, "ensure") {
        parse_repo_ensure(args, start + 1)
    } else if same(name, "add") {
        parse_repo_add(args, start + 1)
    } else if same(name, "list") {
        parse_repo_list(args, start + 1)
    } else if same(name, "info") {
        parse_repo_info(args, start + 1)
    } else if same(name, "remove") {
        parse_repo_remove(args, start + 1)
    } else {
        None
    }
}

/// A command of `workspace`, named first.
pub open spec fn spec_workspace(args: Seq<Seq<char>>) -> Option<(bool, WorkspaceCommandView)> {
    if args.len() == 0 {
        None
    } else {
        let rest = args.drop_first();
        if args[0] == "lease"@ {
            spec_lease(rest)
        } else if args[0] == "release"@ {
            spec_release(rest)
        } else if args[0] == "heartbeat"@ {
            spec_heartbeat(rest)
        } else if args[0] == "force-release"@ {
            spec_force_release(rest)
        } else if args[0] == "status"@ {
            spec_status(rest)
        } else if args[0] == "setup"@ {
            spec_setup(rest)
        } else if args[0] == "list"@ {
            spec_workspace_list(rest)
        } else if args[0] == "gc"@ {
            spec_gc(rest)
        } else if args[0] == "rebase"@ {
            spec_workspace_rebase(rest)
        } else if args[0] == "remove"@ {
            spec_workspace_remove(rest)
        } else {
            None
        }
    }
}

fn parse_workspace(args: &Vec<String>, start: usize) -> (r: Option<(bool, WorkspaceCommand)>)
    requires
        start <= args@.len(),
    ensures
        r.deep_view() == spec_workspace(rest_of(args.deep_view(), start as int)),
{
    if start >= args.len() {
        return None;
    }
    proof {
        let all = rest_of(args.deep_view(), start as int);
        assert(all[0] == args@[start as int]@);
        assert(all.drop_first() =~= rest_of(args.deep_view(), start + 1));
    }
    let name: &str = args[start].as_str();
    if same(name, "lease") {
        parse_lease(args, start + 1)
    } else if same(name, "release") {
        parse_release(args, start + 1)
    } else if same(name, "heartbeat") {
        parse_heartbeat(args, start + 1)
    } else if same(name, "force-release") {
        parse_force_release(args, start + 1)
    } else if same(name, "status") {
        parse_status(args, start + 1)
    } else if same(name, "setup") {
        parse_setup(args, start + 1)
    } else if same(name, "list") {
        parse_workspace_list(args, start + 1)
    } else if same(name, "gc") {
        parse_gc(args, start + 1)
    } else if same(name, "rebase") {
        parse_workspace_rebase(args, start + 1)
    } else if same(name, "remove") {
        parse_workspace_remove(args, start + 1)
    } else {
        None
    }
}

/// A command of `change`, named first.
pub open spec fn spec_change(args: Seq<Seq<char>>) -> Option<(bool, ChangeCommandView)> {
    if args.len() == 0 {
        None
    } else {
        let rest = args.drop_first();
        if args[0] == "create"@ {
            spec_change_create(rest)
        } else if args[0] == "checkout"@ {
            spec_change_checkout(rest)
        } else if args[0] == "info"@ {
            spec_change_info(rest)
        } else {
            None
        }
    }
}

fn parse_change(args: &Vec<String>, start: usize) -> (r: Option<(bool, ChangeCommand)>)
    requires
        start <= args@.len(),
    ensures
        r.deep_view() == spec_change(rest_of(args.deep_view(), start as int)),
{
    if start >= args.len() {
        return None;
    }
    proof {
        let all = rest_of(args.deep_view(), start as int);
        assert(all[0] == args@[start as int]@);
        assert(all.drop_first() =~= rest_of(args.deep_view(), start + 1));
    }
    let name: &str = args[start].as_str();
    if same(name, "create") {
        parse_change_create(args, start + 1)
    } else if same(name, "checkout") {
        parse_change_checkout(args, start + 1)
    } else if same(name, "info") {
        parse_change_info(args, start + 1)
    } else {
        None
    }
}

/// A command of `stack`, named first.
pub open spec fn spec_stack(args: Seq<Seq<char>>) -> Option<(bool, StackCommandView)> {
    if args.len() == 0 {
        None
    } else {
        let rest = args.drop_first();
        if args[0] == "rebase"@ {
            spec_stack_rebase(rest)
        } else {
            None
        }
    }
}

fn parse_stack(args: &Vec<String>, start: usize) -> (r: Option<(bool, StackCommand)>)
    requires
        start <= args@.len(),
    ensures
        r.deep_view() == spec_stack(rest_of(args.deep_view(), start as int)),
{
    if start >= args.len() {
        return None;
    }
    proof {
        let all = rest_of(args.deep_view(), start as int);
        assert(all[0] == args@[start as int]@);
        assert(all.drop_first() =~= rest_of(args.deep_view(), start + 1));
    }
    let name: &str = args[start].as_str();
    if same(name, "rebase") {
        parse_stack_rebase(args, start + 1)
    } else {
        None
    }
}

/// A command of `pr`, named first.
pub open spec fn spec_pr(args: Seq<Seq<char>>) -> Option<(bool, PrCommandView)> {
    if args.len() == 0 {
        None
    } else {
        let rest = args.drop_first();
        if args[0] == "ensure"@ {
            spec_pr_ensure(rest)
        } else if args[0] == "push"@ {
            spec_pr_push(rest)
        } else if args[0] == "sync"@ {
            spec_pr_sync(rest)
        } else if args[0] == "merge"@ {
            spec_pr_merge(rest)
        } else {
            None
        }
    }
}

fn parse_pr(args: &Vec<String>, start: usize) -> (r: Option<(bool, PrCommand)>)
    requires
        start <= args@.len(),
    ensures
        r.deep_view() == spec_pr(rest_of(args.deep_view(), start as int)),
{
    if start >= args.len() {
        return None;
    }
    proof {
        let all = rest_of(args.deep_view(), start as int);
        assert(all[0] == args@[start as int]@);
        assert(all.drop_first() =~= rest_of(args.deep_view(), start + 1));
    }
    let name: &str = args[start].as_str();
    if same(name, "ensure") {
        parse_pr_ensure(args, start + 1)
    } else if same(name, "push") {
        parse_pr_push(args, start + 1)
    } else if same(name, "sync") {
        parse_pr_sync(args, start + 1)
    } else if same(name, "merge") {
        parse_pr_merge(args, start + 1)
    } else {
        None
    }
}

// ---------------------------------------------------------------------------
// The whole
// ---------------------------------------------------------------------------

/// The command line of a command found behind `--json` flags.
pub open spec fn with_json(before: bool, found: Option<(bool, CommandView)>) -> Option<CliView> {
    match found {
        Some((json, command)) => Some(CliView { json: before || json, command }),
        None => None,
    }
}

/// The command of a group, with the group's own `--json` flag.
pub open spec fn spec_group(name: Seq<char>, args: Seq<Seq<char>>) -> Option<(bool, CommandView)> {
    let json = json_first(args);
    let rest = past_json(args);
    if name == "repo"@ {
        match spec_repo(rest) {
            Some((j, command)) => Some((json || j, CommandView::Repo { command })),
            None => None,
        }
    } else if name == "workspace"@ {
        match spec_workspace(rest) {
            Some((j, command)) => Some((json || j, CommandView::Workspace { command })),
            None => None,
        }
    } else if name == "change"@ {
        match spec_change(rest) {
            Some((j, command)) => Some((json || j, CommandView::Change { command })),
            None => None,
        }
    } else if name == "stack"@ {
        match spec_stack(rest) {
            Some((j, command)) => Some((json || j, CommandView::Stack { command })),
            None => None,
        }
    } else if name == "pr"@ {
        match spec_pr(rest) {
            Some((j, command)) => Some((json || j, CommandView::Pr { command })),
            None => None,
        }
    } else if name == "graph"@ {
        spec_graph(args)
    } else if name == "doctor"@ {
        spec_doctor(args)
    } else {
        None
    }
}

/// The command line that the arguments of the program stand for, the first of which
/// is the name of the program.
pub open spec fn spec_cli(args: Seq<Seq<char>>) -> Option<CliView> {
    if args.len() == 0 {
        None
    } else {
        let all = args.drop_first();
        let rest = past_json(all);
        if rest.len() == 0 {
            None
        } else {
            with_json(json_first(all), spec_group(rest[0], rest.drop_first()))
        }
    }
}

fn parse_group(args: &Vec<String>, name: &str, start: usize) -> (r: Option<(bool, Command)>)
    requires
        start <= args@.len(),
    ensures
        r.deep_view() == spec_group(name@, rest_of(args.deep_view(), start as int)),
{
    if same(name, "graph") {
        proof {
            distinct_names();
        }
        return parse_graph(args, start);
    }
    if same(name, "doctor") {
        proof {
            distinct_names();
        }
        return parse_doctor(args, start);
    }
    let step: (bool, usize) = step_json(args, start);
    if same(name, "repo") {
        let (j, command): (bool, RepoCommand) = parse_repo(args, step.1)?;
        Some((step.0 || j, Command::Repo { command }))
    } else if same(name, "workspace") {
        let (j, command): (bool, WorkspaceCommand) = parse_workspace(args, step.1)?;
        Some((step.0 || j, Command::Workspace { command }))
    } else if same(name, "change") {
        let (j, command): (bool, ChangeCommand) = parse_change(args, step.1)?;
        Some((step.0 || j, Command::Change { command }))
    } else if same(name, "stack") {
        let (j, command): (bool, StackCommand) = parse_stack(args, step.1)?;
        Some((step.0 || j, Command::Stack { command }))
    } else if same(name, "pr") {
        let (j, command): (bool, PrCommand) = parse_pr(args, step.1)?;
        Some((step.0 || j, Command::Pr { command }))
    } else {
        None
    }
}

/// The two commands without a group have names that no group has.
proof fn distinct_names()
    ensures
        "graph"@ != "repo"@,
        "graph"@ != "workspace"@,
        "graph"@ != "change"@,
        "graph"@ != "stack"@,
        "graph"@ != "pr"@,
        "doctor"@ != "repo"@,
        "doctor"@ != "workspace"@,
        "doctor"@ != "change"@,
        "doctor"@ != "stack"@,
        "doctor"@ != "pr"@,
        "doctor"@ != "graph"@,
{
    reveal_strlit("repo");
    reveal_strlit("workspace");
    reveal_strlit("change");
    reveal_strlit("stack");
    reveal_strlit("pr");
    reveal_strlit("graph");
    reveal_strlit("doctor");
    assert("graph"@[0] == 'g');
    assert("doctor"@[0] == 'd');
    assert("repo"@[0] == 'r');
    assert("workspace"@[0] == 'w');
    assert("change"@[0] == 'c');
    assert("stack"@[0] == 's');
    assert("pr"@[0] == 'p');
}

/// The arguments are no command line of the tool.
#[derive(Debug, Clone, Copy, PartialEq, Eq)]
pub struct UsageError;

impl Cli {
    /// Reads the arguments of the program, the first of which is its name. A command
    /// line that is read is one that can be run.
    pub fn try_parse_from(argv: &[&str]) -> (r: Result<Cli, UsageError>)
        ensures
            match r {
                Ok(cli) => spec_cli(Seq::new(argv@.len(), |i: int| argv@[i]@)) == Some(
                    cli.deep_view(),
                ) && is_consistent(cli.deep_view().command),
                Err(_) => spec_cli(Seq::new(argv@.len(), |i: int| argv@[i]@)) is None,
            },
    {
        let mut args: Vec<String> = Vec::new();
        let mut i: usize = 0;
        while i < argv.len()
            invariant
                i <= argv@.len(),
                args@.len() == i,
                forall|j: int| 0 <= j < i ==> #[trigger] args@[j]@ == argv@[j]@,
            decreases argv@.len() - i,
        {
            args.push(argv[i].to_string());
            i += 1;
        }
        let ghost all = args.deep_view();
        assert(all =~= Seq::new(argv@.len(), |i: int| argv@[i]@));
        if args.len() == 0 {
            return Err(UsageError);
        }
        assert(rest_of(all, 1) =~= all.drop_first());
        let step: (bool, usize) = step_json(&args, 1);
        let at: usize = step.1;
        if at >= args.len() {
            return Err(UsageError);
        }
        proof {
            let rest = rest_of(all, at as int);
            assert(rest[0] == args@[at as int]@);
            assert(rest.drop_first() =~= rest_of(all, at + 1));
        }
        match parse_group(&args, args[at].as_str(), at + 1) {
            Some((json, command)) => Ok(Cli { json: step.0 || json, command }),
            None => Err(UsageError),
        }
    }
}

} // verus!
