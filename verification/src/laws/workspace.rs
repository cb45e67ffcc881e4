//! Giving workspaces back and taking them out of the registry.

use vstd::prelude::*;

use crate::error::CubeErrorView;
use crate::flow::{ActionView, AnswerView, Flow};
use crate::laws::steps::{asks_in_turn, group_given, jj, named_op};
use crate::records::{
    RepoRecordView, WorkspaceListFilterView, WorkspaceRecordView, WorkspaceState,
};
use crate::report::RunResultView;
use crate::workspace::{
    flow_clean_for_release, flow_force_release, flow_gc, flow_release, flow_remove,
};

verus! {

/// The flow asks for no command.
pub open spec fn runs_nothing<T>(flow: Flow<T>) -> bool {
    !(flow matches Flow::Asks(ActionView::Run(_)))
}

/// A release that keeps the tree as it is runs nothing in it.
pub proof fn law_keeping_the_tree_runs_nothing(
    t: Seq<AnswerView>,
    workspace: Option<Seq<char>>,
    lease: Option<Seq<char>>,
    repo: Option<Seq<char>>,
    reason: Option<Seq<char>>,
)
    ensures
        runs_nothing(flow_release(t, workspace, lease, repo, reason, true)),
{
}

/// A release moves the default branch of the workspace's own repository to where the
/// remote has it, and starts a new commit on that branch: whatever the branch is called.
pub proof fn law_release_goes_back_to_the_branch_of_the_repo(
    w: WorkspaceRecordView,
    repo: RepoRecordView,
    o1: Seq<char>,
    o2: Seq<char>,
    o3: Seq<char>,
)
    ensures
        ({
            let path = w.workspace_path;
            let branch = repo.main_branch;
            let steps = seq![
                (ActionView::GetRepo(w.repo), AnswerView::Repo(Some(repo))),
                (named_op(path, "git"@, seq!["fetch"@]), AnswerView::Ack),
                (jj(path, seq!["git"@, "fetch"@]), AnswerView::Output(o1)),
                (
                    named_op(path, "bookmark-set"@, seq![branch, branch + "@origin"@]),
                    AnswerView::Ack,
                ),
                (
                    jj(
                        path,
                        seq![
                            "bookmark"@,
                            "set"@,
                            branch,
                            "-r"@,
                            branch + "@origin"@,
                            "--allow-backwards"@,
                        ],
                    ),
                    AnswerView::Output(o2),
                ),
                (named_op(path, "new"@, seq![branch]), AnswerView::Ack),
                (jj(path, seq!["new"@, branch]), AnswerView::Output(o3)),
            ];
            asks_in_turn(|t: Seq<AnswerView>| flow_clean_for_release(t, w, false), steps)
        }),
{
    broadcast use group_given;
    let branch = repo.main_branch;
    assert(seq!["bookmark"@, "set"@, branch] + seq![
        "-r"@,
        branch + "@origin"@,
        "--allow-backwards"@,
    ] =~= seq!["bookmark"@, "set"@, branch, "-r"@, branch + "@origin"@, "--allow-backwards"@]);
}

/// A cleanup first asks for the workspaces with the name that was given, or for all where
/// none was.
pub proof fn law_cleanup_lists_the_named_workspace(
    workspace: Option<Seq<char>>,
    dry_run: bool,
)
    ensures
        flow_gc(Seq::empty(), workspace, dry_run) == Flow::<RunResultView>::Asks(
            ActionView::ListWorkspaces(
                WorkspaceListFilterView {
                    repo: None,
                    workspace_id: workspace,
                    effective_state: None,
                    holder_pattern: None,
                },
            ),
        ),
{
}

/// A forced release runs nothing in the workspace.
pub proof fn law_forced_release_runs_nothing(
    t: Seq<AnswerView>,
    workspace: Option<Seq<char>>,
    lease: Option<Seq<char>>,
    repo: Option<Seq<char>>,
    reason: Option<Seq<char>>,
)
    ensures
        runs_nothing(flow_force_release(t, workspace, lease, repo, reason)),
{
}

/// A workspace that is leased is not taken out of the registry without force, and
/// nothing of it is deleted.
pub proof fn law_leased_workspaces_stay(
    w: WorkspaceRecordView,
    rest: Seq<AnswerView>,
    repo: Option<Seq<char>>,
    expunge: bool,
)
    requires
        w.state == WorkspaceState::Leased,
    ensures
        flow_remove(
            seq![AnswerView::Workspaces(seq![w]), AnswerView::Saved] + rest,
            w.workspace_id,
            repo,
            false,
            expunge,
        ) matches Flow::Failed(CubeErrorView::InvalidArgument(_), after) && after == rest,
{
    let t = seq![AnswerView::Workspaces(seq![w]), AnswerView::Saved] + rest;
    assert(t.drop_first()[0] == AnswerView::Saved);
    assert(t.drop_first().drop_first() =~= rest);
}

/// Unless it is to be expunged, nothing is deleted with a workspace but the directory
/// of its logs.
pub proof fn law_directories_stay_without_expunge(
    t: Seq<AnswerView>,
    id: Seq<char>,
    repo: Option<Seq<char>>,
    force: bool,
)
    ensures
        flow_remove(t, id, repo, force, false) matches Flow::Asks(ActionView::RemoveTree(path))
            ==> t.len() >= 4 && t[3] == AnswerView::Place(Some(path)),
{
}

} // verus!
