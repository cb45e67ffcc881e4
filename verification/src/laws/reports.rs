//! What the reports of the commands hold.

use vstd::prelude::*;

use crate::json::{
    JsonView, spec_change_json, spec_check_json, spec_checks_json, spec_gc_json, spec_gc_list_json,
    spec_reconciled_json, spec_repo_json, spec_repos_json, spec_resume_json, spec_row_json,
    spec_rows_json, spec_setup_json, spec_step_json, spec_steps_json, spec_texts,
    spec_workspace_json, spec_workspaces_json,
};
use crate::records::{
    ChangeRecordView, ReconcileReportView, ReconciledRowView, RepoRecordView, SetupStepView,
    StepStatusView, WorkspaceHealth, WorkspaceRecordView, WorkspaceState,
};
use crate::report::{HealthCheckView, PayloadView, PrResumeInfoView, WorkspaceGcResultView};

verus! {

/// An object with so many entries.
pub open spec fn is_object_of(json: JsonView, len: nat) -> bool {
    json matches JsonView::Object(entries) && entries.len() == len
}

/// An object that holds a value under a key.
pub open spec fn holds(json: JsonView, key: Seq<char>, value: JsonView) -> bool {
    json matches JsonView::Object(entries) && entries.contains((key, value))
}

/// A text, or nothing.
pub open spec fn text_or_null(text: Option<Seq<char>>) -> JsonView {
    match text {
        Some(s) => JsonView::Text(s),
        None => JsonView::Null,
    }
}

/// A time, or nothing.
pub open spec fn time_or_null(time: Option<i64>) -> JsonView {
    match time {
        Some(n) => JsonView::Int(n),
        None => JsonView::Null,
    }
}

/// The report of a repository gives each part of the record under its name.
pub proof fn law_repo_is_reported(repo: RepoRecordView)
    ensures
        is_object_of(spec_repo_json(repo), 7),
        holds(spec_repo_json(repo), "repo"@, JsonView::Text(repo.repo)),
        holds(spec_repo_json(repo), "origin"@, JsonView::Text(repo.origin)),
        holds(spec_repo_json(repo), "main_branch"@, JsonView::Text(repo.main_branch)),
        holds(spec_repo_json(repo), "workspace_root"@, JsonView::Text(repo.workspace_root)),
        holds(spec_repo_json(repo), "workspace_prefix"@, JsonView::Text(repo.workspace_prefix)),
        holds(spec_repo_json(repo), "source"@, text_or_null(repo.source)),
        holds(spec_repo_json(repo), "clone_command"@, text_or_null(repo.clone_command)),
{
    let entries = spec_repo_json(repo)->Object_0;
    assert(entries[0] == ("repo"@, JsonView::Text(repo.repo)));
    assert(entries[1] == ("origin"@, JsonView::Text(repo.origin)));
    assert(entries[2] == ("main_branch"@, JsonView::Text(repo.main_branch)));
    assert(entries[3] == ("workspace_root"@, JsonView::Text(repo.workspace_root)));
    assert(entries[4] == ("workspace_prefix"@, JsonView::Text(repo.workspace_prefix)));
    assert(entries[5] == ("source"@, text_or_null(repo.source)));
    assert(entries[6] == ("clone_command"@, text_or_null(repo.clone_command)));
}

/// The report of a workspace gives each part of the record under its name.
pub proof fn law_workspace_is_reported(w: WorkspaceRecordView)
    ensures
        is_object_of(spec_workspace_json(w), 13),
        holds(spec_workspace_json(w), "repo"@, JsonView::Text(w.repo)),
        holds(spec_workspace_json(w), "workspace_id"@, JsonView::Text(w.workspace_id)),
        holds(spec_workspace_json(w), "workspace_path"@, JsonView::Text(w.workspace_path)),
        holds(
            spec_workspace_json(w),
            "state"@,
            JsonView::Text(if w.state == WorkspaceState::Leased { "leased"@ } else { "free"@ }),
        ),
        holds(spec_workspace_json(w), "lease_id"@, text_or_null(w.lease_id)),
        holds(spec_workspace_json(w), "holder"@, text_or_null(w.holder)),
        holds(spec_workspace_json(w), "task"@, text_or_null(w.task)),
        holds(spec_workspace_json(w), "leased_at_epoch_s"@, time_or_null(w.leased_at_epoch_s)),
        holds(
            spec_workspace_json(w),
            "lease_expires_at_epoch_s"@,
            time_or_null(w.lease_expires_at_epoch_s),
        ),
        holds(spec_workspace_json(w), "head_commit"@, text_or_null(w.head_commit)),
        holds(
            spec_workspace_json(w),
            "health_status"@,
            match w.health_status {
                Some(WorkspaceHealth::Dirty) => JsonView::Text("dirty"@),
                Some(WorkspaceHealth::Conflicted) => JsonView::Text("conflicted"@),
                None => JsonView::Null,
            },
        ),
        holds(
            spec_workspace_json(w),
            "unhealthy_since_epoch_s"@,
            time_or_null(w.unhealthy_since_epoch_s),
        ),
        holds(spec_workspace_json(w), "last_release_reason"@, text_or_null(w.last_release_reason)),
{
    let entries = spec_workspace_json(w)->Object_0;
    assert(entries[0] == ("repo"@, JsonView::Text(w.repo)));
    assert(entries[1] == ("workspace_id"@, JsonView::Text(w.workspace_id)));
    assert(entries[2] == ("workspace_path"@, JsonView::Text(w.workspace_path)));
    assert(
        entries[3] == (
            "state"@, JsonView::Text(
                if w.state == WorkspaceState::Leased { "leased"@ } else { "free"@ },
            )
        )
    );
    assert(entries[4] == ("lease_id"@, text_or_null(w.lease_id)));
    assert(entries[5] == ("holder"@, text_or_null(w.holder)));
    assert(entries[6] == ("task"@, text_or_null(w.task)));
    assert(entries[7] == ("leased_at_epoch_s"@, time_or_null(w.leased_at_epoch_s)));
    assert(entries[8] == ("lease_expires_at_epoch_s"@, time_or_null(w.lease_expires_at_epoch_s)));
    assert(entries[9] == ("head_commit"@, text_or_null(w.head_commit)));
    assert(
        entries[10] == (
            "health_status"@, match w.health_status {
                Some(WorkspaceHealth::Dirty) => JsonView::Text("dirty"@),
                Some(WorkspaceHealth::Conflicted) => JsonView::Text("conflicted"@),
                None => JsonView::Null,
            }
        )
    );
    assert(entries[11] == ("unhealthy_since_epoch_s"@, time_or_null(w.unhealthy_since_epoch_s)));
    assert(entries[12] == ("last_release_reason"@, text_or_null(w.last_release_reason)));
}

/// The report of a change gives each part of the record under its name.
pub proof fn law_change_is_reported(change: ChangeRecordView)
    ensures
        is_object_of(spec_change_json(change), 8),
        holds(spec_change_json(change), "change_id"@, JsonView::Text(change.change_id)),
        holds(spec_change_json(change), "repo"@, JsonView::Text(change.repo)),
        holds(spec_change_json(change), "workspace_path"@, JsonView::Text(change.workspace_path)),
        holds(spec_change_json(change), "parent_change_id"@, text_or_null(change.parent_change_id)),
        holds(spec_change_json(change), "title"@, JsonView::Text(change.title)),
        holds(spec_change_json(change), "jj_change_id"@, JsonView::Text(change.jj_change_id)),
        holds(spec_change_json(change), "head_commit"@, JsonView::Text(change.head_commit)),
        holds(
            spec_change_json(change),
            "created_at_epoch_s"@,
            JsonView::Int(change.created_at_epoch_s),
        ),
{
    let entries = spec_change_json(change)->Object_0;
    assert(entries[0] == ("change_id"@, JsonView::Text(change.change_id)));
    assert(entries[1] == ("repo"@, JsonView::Text(change.repo)));
    assert(entries[2] == ("workspace_path"@, JsonView::Text(change.workspace_path)));
    assert(entries[3] == ("parent_change_id"@, text_or_null(change.parent_change_id)));
    assert(entries[4] == ("title"@, JsonView::Text(change.title)));
    assert(entries[5] == ("jj_change_id"@, JsonView::Text(change.jj_change_id)));
    assert(entries[6] == ("head_commit"@, JsonView::Text(change.head_commit)));
    assert(entries[7] == ("created_at_epoch_s"@, JsonView::Int(change.created_at_epoch_s)));
}

/// The report of a row without a directory gives its state and its lease.
pub proof fn law_missing_row_is_reported(row: ReconciledRowView)
    ensures
        is_object_of(spec_row_json(row), 7),
        holds(spec_row_json(row), "repo"@, JsonView::Text(row.repo)),
        holds(spec_row_json(row), "workspace_id"@, JsonView::Text(row.workspace_id)),
        holds(spec_row_json(row), "workspace_path"@, JsonView::Text(row.workspace_path)),
        holds(
            spec_row_json(row),
            "prior_state"@,
            JsonView::Text(
                if row.prior_state == WorkspaceState::Leased { "leased"@ } else { "free"@ },
            ),
        ),
        holds(spec_row_json(row), "lease_id"@, text_or_null(row.lease_id)),
        holds(spec_row_json(row), "holder"@, text_or_null(row.holder)),
        holds(
            spec_row_json(row),
            "lease_expires_at_epoch_s"@,
            time_or_null(row.lease_expires_at_epoch_s),
        ),
{
    let entries = spec_row_json(row)->Object_0;
    assert(entries[0] == ("repo"@, JsonView::Text(row.repo)));
    assert(entries[1] == ("workspace_id"@, JsonView::Text(row.workspace_id)));
    assert(entries[2] == ("workspace_path"@, JsonView::Text(row.workspace_path)));
    assert(
        entries[3] == (
            "prior_state"@, JsonView::Text(
                if row.prior_state == WorkspaceState::Leased { "leased"@ } else { "free"@ },
            )
        )
    );
    assert(entries[4] == ("lease_id"@, text_or_null(row.lease_id)));
    assert(entries[5] == ("holder"@, text_or_null(row.holder)));
    assert(entries[6] == ("lease_expires_at_epoch_s"@, time_or_null(row.lease_expires_at_epoch_s)));
}

/// A step of the setup that ran is reported as such.
pub proof fn law_step_that_ran_is_reported(id: Seq<char>)
    ensures
        is_object_of(spec_step_json(SetupStepView { id, status: StepStatusView::Ran }), 2),
        holds(
            spec_step_json(SetupStepView { id, status: StepStatusView::Ran }),
            "id"@,
            JsonView::Text(id),
        ),
        holds(
            spec_step_json(SetupStepView { id, status: StepStatusView::Ran }),
            "status"@,
            JsonView::Text("ran"@),
        ),
{
    let entries = spec_step_json(SetupStepView { id, status: StepStatusView::Ran })->Object_0;
    assert(entries[0] == ("id"@, JsonView::Text(id)));
    assert(entries[1] == ("status"@, JsonView::Text("ran"@)));
}

/// A step that was skipped is reported with the reason.
pub proof fn law_skipped_step_is_reported(id: Seq<char>, reason: Seq<char>)
    ensures
        is_object_of(
            spec_step_json(SetupStepView { id, status: StepStatusView::Skipped { reason } }),
            3,
        ),
        holds(
            spec_step_json(SetupStepView { id, status: StepStatusView::Skipped { reason } }),
            "id"@,
            JsonView::Text(id),
        ),
        holds(
            spec_step_json(SetupStepView { id, status: StepStatusView::Skipped { reason } }),
            "status"@,
            JsonView::Text("skipped"@),
        ),
        holds(
            spec_step_json(SetupStepView { id, status: StepStatusView::Skipped { reason } }),
            "reason"@,
            JsonView::Text(reason),
        ),
{
    let entries = spec_step_json(
        SetupStepView { id, status: StepStatusView::Skipped { reason } },
    )->Object_0;
    assert(entries[0] == ("id"@, JsonView::Text(id)));
    assert(entries[1] == ("status"@, JsonView::Text("skipped"@)));
    assert(entries[2] == ("reason"@, JsonView::Text(reason)));
}

/// A step that failed is reported with the error.
pub proof fn law_failed_step_is_reported(id: Seq<char>, error: Seq<char>)
    ensures
        is_object_of(
            spec_step_json(SetupStepView { id, status: StepStatusView::Failed { error } }),
            3,
        ),
        holds(
            spec_step_json(SetupStepView { id, status: StepStatusView::Failed { error } }),
            "id"@,
            JsonView::Text(id),
        ),
        holds(
            spec_step_json(SetupStepView { id, status: StepStatusView::Failed { error } }),
            "status"@,
            JsonView::Text("failed"@),
        ),
        holds(
            spec_step_json(SetupStepView { id, status: StepStatusView::Failed { error } }),
            "error"@,
            JsonView::Text(error),
        ),
{
    let entries = spec_step_json(
        SetupStepView { id, status: StepStatusView::Failed { error } },
    )->Object_0;
    assert(entries[0] == ("id"@, JsonView::Text(id)));
    assert(entries[1] == ("status"@, JsonView::Text("failed"@)));
    assert(entries[2] == ("error"@, JsonView::Text(error)));
}

/// A workspace without a directory is reported as passed over.
pub proof fn law_missing_check_is_reported(workspace_id: Seq<char>)
    ensures
        is_object_of(spec_check_json(HealthCheckView::Missing { workspace_id }), 3),
        holds(
            spec_check_json(HealthCheckView::Missing { workspace_id }),
            "workspace_id"@,
            JsonView::Text(workspace_id),
        ),
        holds(
            spec_check_json(HealthCheckView::Missing { workspace_id }),
            "skipped"@,
            JsonView::Flag(true),
        ),
        holds(
            spec_check_json(HealthCheckView::Missing { workspace_id }),
            "reason"@,
            JsonView::Text("directory_missing"@),
        ),
{
    let entries = spec_check_json(HealthCheckView::Missing { workspace_id })->Object_0;
    assert(entries[0] == ("workspace_id"@, JsonView::Text(workspace_id)));
    assert(entries[1] == ("skipped"@, JsonView::Flag(true)));
    assert(entries[2] == ("reason"@, JsonView::Text("directory_missing"@)));
}

/// A clean workspace is reported as taken.
pub proof fn law_clean_check_is_reported(workspace_id: Seq<char>)
    ensures
        is_object_of(spec_check_json(HealthCheckView::Clean { workspace_id }), 3),
        holds(
            spec_check_json(HealthCheckView::Clean { workspace_id }),
            "workspace_id"@,
            JsonView::Text(workspace_id),
        ),
        holds(
            spec_check_json(HealthCheckView::Clean { workspace_id }),
            "health"@,
            JsonView::Text("clean"@),
        ),
        holds(
            spec_check_json(HealthCheckView::Clean { workspace_id }),
            "skipped"@,
            JsonView::Flag(false),
        ),
{
    let entries = spec_check_json(HealthCheckView::Clean { workspace_id })->Object_0;
    assert(entries[0] == ("workspace_id"@, JsonView::Text(workspace_id)));
    assert(entries[1] == ("health"@, JsonView::Text("clean"@)));
    assert(entries[2] == ("skipped"@, JsonView::Flag(false)));
}

/// A workspace with conflicts is reported with its bookmarks.
pub proof fn law_conflicted_check_is_reported(
    workspace_id: Seq<char>,
    bookmarks: Seq<Seq<char>>,
    skipped: bool,
)
    ensures
        is_object_of(
            spec_check_json(HealthCheckView::Conflicted { workspace_id, bookmarks, skipped }),
            4,
        ),
        holds(
            spec_check_json(HealthCheckView::Conflicted { workspace_id, bookmarks, skipped }),
            "workspace_id"@,
            JsonView::Text(workspace_id),
        ),
        holds(
            spec_check_json(HealthCheckView::Conflicted { workspace_id, bookmarks, skipped }),
            "health"@,
            JsonView::Text("conflicted"@),
        ),
        holds(
            spec_check_json(HealthCheckView::Conflicted { workspace_id, bookmarks, skipped }),
            "bookmarks"@,
            spec_texts(bookmarks),
        ),
        holds(
            spec_check_json(HealthCheckView::Conflicted { workspace_id, bookmarks, skipped }),
            "skipped"@,
            JsonView::Flag(skipped),
        ),
{
    let entries = spec_check_json(
        HealthCheckView::Conflicted { workspace_id, bookmarks, skipped },
    )->Object_0;
    assert(entries[0] == ("workspace_id"@, JsonView::Text(workspace_id)));
    assert(entries[1] == ("health"@, JsonView::Text("conflicted"@)));
    assert(entries[2] == ("bookmarks"@, spec_texts(bookmarks)));
    assert(entries[3] == ("skipped"@, JsonView::Flag(skipped)));
}

/// A dirty workspace is reported as passed over.
pub proof fn law_dirty_check_is_reported(workspace_id: Seq<char>)
    ensures
        is_object_of(spec_check_json(HealthCheckView::Dirty { workspace_id }), 4),
        holds(
            spec_check_json(HealthCheckView::Dirty { workspace_id }),
            "workspace_id"@,
            JsonView::Text(workspace_id),
        ),
        holds(
            spec_check_json(HealthCheckView::Dirty { workspace_id }),
            "health"@,
            JsonView::Text("dirty"@),
        ),
        holds(
            spec_check_json(HealthCheckView::Dirty { workspace_id }),
            "skipped"@,
            JsonView::Flag(true),
        ),
        holds(
            spec_check_json(HealthCheckView::Dirty { workspace_id }),
            "reason"@,
            JsonView::Text("dirty_working_copy"@),
        ),
{
    let entries = spec_check_json(HealthCheckView::Dirty { workspace_id })->Object_0;
    assert(entries[0] == ("workspace_id"@, JsonView::Text(workspace_id)));
    assert(entries[1] == ("health"@, JsonView::Text("dirty"@)));
    assert(entries[2] == ("skipped"@, JsonView::Flag(true)));
    assert(entries[3] == ("reason"@, JsonView::Text("dirty_working_copy"@)));
}

/// A directory that holds no repository is reported as passed over.
pub proof fn law_husk_is_reported(workspace_id: Seq<char>, workspace_path: Seq<char>)
    ensures
        is_object_of(
            spec_check_json(HealthCheckView::BrokenEmpty { workspace_id, workspace_path }),
            7,
        ),
        holds(
            spec_check_json(HealthCheckView::BrokenEmpty { workspace_id, workspace_path }),
            "workspace_id"@,
            JsonView::Text(workspace_id),
        ),
        holds(
            spec_check_json(HealthCheckView::BrokenEmpty { workspace_id, workspace_path }),
            "workspace_path"@,
            JsonView::Text(workspace_path),
        ),
        holds(
            spec_check_json(HealthCheckView::BrokenEmpty { workspace_id, workspace_path }),
            "health"@,
            JsonView::Text("broken_empty"@),
        ),
        holds(
            spec_check_json(HealthCheckView::BrokenEmpty { workspace_id, workspace_path }),
            "has_git"@,
            JsonView::Flag(false),
        ),
        holds(
            spec_check_json(HealthCheckView::BrokenEmpty { workspace_id, workspace_path }),
            "has_jj"@,
            JsonView::Flag(false),
        ),
        holds(
            spec_check_json(HealthCheckView::BrokenEmpty { workspace_id, workspace_path }),
            "skipped"@,
            JsonView::Flag(true),
        ),
        holds(
            spec_check_json(HealthCheckView::BrokenEmpty { workspace_id, workspace_path }),
            "reason"@,
            JsonView::Text("neither_git_nor_jj"@),
        ),
{
    let entries = spec_check_json(
        HealthCheckView::BrokenEmpty { workspace_id, workspace_path },
    )->Object_0;
    assert(entries[0] == ("workspace_id"@, JsonView::Text(workspace_id)));
    assert(entries[1] == ("workspace_path"@, JsonView::Text(workspace_path)));
    assert(entries[2] == ("health"@, JsonView::Text("broken_empty"@)));
    assert(entries[3] == ("has_git"@, JsonView::Flag(false)));
    assert(entries[4] == ("has_jj"@, JsonView::Flag(false)));
    assert(entries[5] == ("skipped"@, JsonView::Flag(true)));
    assert(entries[6] == ("reason"@, JsonView::Text("neither_git_nor_jj"@)));
}

/// A workspace that was taken as it is is reported as such.
pub proof fn law_allowed_dirty_is_reported(workspace_id: Seq<char>)
    ensures
        is_object_of(spec_check_json(HealthCheckView::AllowedDirty { workspace_id }), 3),
        holds(
            spec_check_json(HealthCheckView::AllowedDirty { workspace_id }),
            "workspace_id"@,
            JsonView::Text(workspace_id),
        ),
        holds(
            spec_check_json(HealthCheckView::AllowedDirty { workspace_id }),
            "allow_dirty"@,
            JsonView::Flag(true),
        ),
        holds(
            spec_check_json(HealthCheckView::AllowedDirty { workspace_id }),
            "reset_skipped"@,
            JsonView::Flag(true),
        ),
{
    let entries = spec_check_json(HealthCheckView::AllowedDirty { workspace_id })->Object_0;
    assert(entries[0] == ("workspace_id"@, JsonView::Text(workspace_id)));
    assert(entries[1] == ("allow_dirty"@, JsonView::Flag(true)));
    assert(entries[2] == ("reset_skipped"@, JsonView::Flag(true)));
}

/// The cleanup of a workspace is reported with what was forgotten, or why nothing was.
pub proof fn law_cleanup_is_reported(result: WorkspaceGcResultView)
    ensures
        is_object_of(spec_gc_json(result), 5),
        holds(spec_gc_json(result), "workspace_id"@, JsonView::Text(result.workspace_id)),
        holds(spec_gc_json(result), "bookmarks_forgotten"@, spec_texts(result.bookmarks_forgotten)),
        holds(spec_gc_json(result), "skipped"@, JsonView::Flag(result.skipped_reason is Some)),
        holds(spec_gc_json(result), "skipped_reason"@, text_or_null(result.skipped_reason)),
        holds(spec_gc_json(result), "error"@, text_or_null(result.error)),
{
    let entries = spec_gc_json(result)->Object_0;
    assert(entries[0] == ("workspace_id"@, JsonView::Text(result.workspace_id)));
    assert(entries[1] == ("bookmarks_forgotten"@, spec_texts(result.bookmarks_forgotten)));
    assert(entries[2] == ("skipped"@, JsonView::Flag(result.skipped_reason is Some)));
    assert(entries[3] == ("skipped_reason"@, text_or_null(result.skipped_reason)));
    assert(entries[4] == ("error"@, text_or_null(result.error)));
}

/// A repository that was ensured is handed out with its name and its record.
pub proof fn law_ensured_repo_is_handed_out(repo: RepoRecordView)
    ensures
        is_object_of(PayloadView::RepoEnsured(repo).json(), 2),
        holds(PayloadView::RepoEnsured(repo).json(), "repo_id"@, JsonView::Text(repo.repo)),
        holds(PayloadView::RepoEnsured(repo).json(), "repo"@, spec_repo_json(repo)),
{
    let entries = PayloadView::RepoEnsured(repo).json()->Object_0;
    assert(entries[0] == ("repo_id"@, JsonView::Text(repo.repo)));
    assert(entries[1] == ("repo"@, spec_repo_json(repo)));
}

/// A repository is handed out as its record.
pub proof fn law_repo_is_handed_out(repo: RepoRecordView)
    ensures
        is_object_of(PayloadView::Repo(repo).json(), 1),
        holds(PayloadView::Repo(repo).json(), "repo"@, spec_repo_json(repo)),
{
    let entries = PayloadView::Repo(repo).json()->Object_0;
    assert(entries[0] == ("repo"@, spec_repo_json(repo)));
}

/// A lease is handed out with the workspace, its setup and the workspaces that were
/// looked at.
pub proof fn law_lease_is_handed_out(
    workspace: WorkspaceRecordView,
    setup: Seq<SetupStepView>,
    health_check: Seq<HealthCheckView>,
)
    ensures
        is_object_of(
            PayloadView::Lease { workspace, setup, health_check, resume_pr: None }.json(),
            3,
        ),
        holds(
            PayloadView::Lease { workspace, setup, health_check, resume_pr: None }.json(),
            "workspace"@,
            spec_workspace_json(workspace),
        ),
        holds(
            PayloadView::Lease { workspace, setup, health_check, resume_pr: None }.json(),
            "setup"@,
            spec_setup_json(setup),
        ),
        holds(
            PayloadView::Lease { workspace, setup, health_check, resume_pr: None }.json(),
            "health_check"@,
            spec_checks_json(health_check),
        ),
{
    let entries = PayloadView::Lease {
        workspace,
        setup,
        health_check,
        resume_pr: None,
    }.json()->Object_0;
    assert(entries[0] == ("workspace"@, spec_workspace_json(workspace)));
    assert(entries[1] == ("setup"@, spec_setup_json(setup)));
    assert(entries[2] == ("health_check"@, spec_checks_json(health_check)));
}

/// A lease on a pull request is handed out with that beside the rest.
pub proof fn law_resumed_lease_is_handed_out(
    workspace: WorkspaceRecordView,
    setup: Seq<SetupStepView>,
    health_check: Seq<HealthCheckView>,
    info: PrResumeInfoView,
)
    ensures
        is_object_of(
            PayloadView::Lease { workspace, setup, health_check, resume_pr: Some(info) }.json(),
            4,
        ),
        holds(
            PayloadView::Lease { workspace, setup, health_check, resume_pr: Some(info) }.json(),
            "workspace"@,
            spec_workspace_json(workspace),
        ),
        holds(
            PayloadView::Lease { workspace, setup, health_check, resume_pr: Some(info) }.json(),
            "setup"@,
            spec_setup_json(setup),
        ),
        holds(
            PayloadView::Lease { workspace, setup, health_check, resume_pr: Some(info) }.json(),
            "health_check"@,
            spec_checks_json(health_check),
        ),
        holds(
            PayloadView::Lease { workspace, setup, health_check, resume_pr: Some(info) }.json(),
            "resume_pr"@,
            spec_resume_json(info),
        ),
{
    let entries = PayloadView::Lease {
        workspace,
        setup,
        health_check,
        resume_pr: Some(info),
    }.json()->Object_0;
    assert(entries[0] == ("workspace"@, spec_workspace_json(workspace)));
    assert(entries[1] == ("setup"@, spec_setup_json(setup)));
    assert(entries[2] == ("health_check"@, spec_checks_json(health_check)));
    assert(entries[3] == ("resume_pr"@, spec_resume_json(info)));
}

/// The pull request of a lease is reported with its number and its branch.
pub proof fn law_resumed_pull_request_is_reported(info: PrResumeInfoView)
    ensures
        is_object_of(spec_resume_json(info), 2),
        holds(spec_resume_json(info), "pr_number"@, JsonView::Count(info.pr_number)),
        holds(spec_resume_json(info), "head_branch"@, JsonView::Text(info.head_branch)),
{
    let entries = spec_resume_json(info)->Object_0;
    assert(entries[0] == ("pr_number"@, JsonView::Count(info.pr_number)));
    assert(entries[1] == ("head_branch"@, JsonView::Text(info.head_branch)));
}

/// A workspace is handed out as its record.
pub proof fn law_workspace_is_handed_out(workspace: WorkspaceRecordView)
    ensures
        is_object_of(PayloadView::Workspace(workspace).json(), 1),
        holds(
            PayloadView::Workspace(workspace).json(),
            "workspace"@,
            spec_workspace_json(workspace),
        ),
{
    let entries = PayloadView::Workspace(workspace).json()->Object_0;
    assert(entries[0] == ("workspace"@, spec_workspace_json(workspace)));
}

/// The status of a workspace is handed out beside its record.
pub proof fn law_status_is_handed_out(workspace: WorkspaceRecordView, jj_status: Seq<char>)
    ensures
        is_object_of(PayloadView::Status { workspace, jj_status }.json(), 2),
        holds(
            PayloadView::Status { workspace, jj_status }.json(),
            "workspace"@,
            spec_workspace_json(workspace),
        ),
        holds(
            PayloadView::Status { workspace, jj_status }.json(),
            "jj_status"@,
            JsonView::Text(jj_status),
        ),
{
    let entries = PayloadView::Status { workspace, jj_status }.json()->Object_0;
    assert(entries[0] == ("workspace"@, spec_workspace_json(workspace)));
    assert(entries[1] == ("jj_status"@, JsonView::Text(jj_status)));
}

/// A setup is handed out beside the record of the workspace.
pub proof fn law_setup_is_handed_out(workspace: WorkspaceRecordView, setup: Seq<SetupStepView>)
    ensures
        is_object_of(PayloadView::Setup { workspace, setup }.json(), 2),
        holds(
            PayloadView::Setup { workspace, setup }.json(),
            "workspace"@,
            spec_workspace_json(workspace),
        ),
        holds(PayloadView::Setup { workspace, setup }.json(), "setup"@, spec_setup_json(setup)),
{
    let entries = PayloadView::Setup { workspace, setup }.json()->Object_0;
    assert(entries[0] == ("workspace"@, spec_workspace_json(workspace)));
    assert(entries[1] == ("setup"@, spec_setup_json(setup)));
}

/// A removal is handed out with whether it was forced and whether the directory went too.
pub proof fn law_removal_is_handed_out(workspace: WorkspaceRecordView, forced: bool, expunged: bool)
    ensures
        is_object_of(PayloadView::Removed { workspace, forced, expunged }.json(), 3),
        holds(
            PayloadView::Removed { workspace, forced, expunged }.json(),
            "workspace"@,
            spec_workspace_json(workspace),
        ),
        holds(
            PayloadView::Removed { workspace, forced, expunged }.json(),
            "forced"@,
            JsonView::Flag(forced),
        ),
        holds(
            PayloadView::Removed { workspace, forced, expunged }.json(),
            "expunged"@,
            JsonView::Flag(expunged),
        ),
{
    let entries = PayloadView::Removed { workspace, forced, expunged }.json()->Object_0;
    assert(entries[0] == ("workspace"@, spec_workspace_json(workspace)));
    assert(entries[1] == ("forced"@, JsonView::Flag(forced)));
    assert(entries[2] == ("expunged"@, JsonView::Flag(expunged)));
}

/// A change is handed out as its record.
pub proof fn law_change_is_handed_out(change: ChangeRecordView)
    ensures
        is_object_of(PayloadView::Change(change).json(), 1),
        holds(PayloadView::Change(change).json(), "change"@, spec_change_json(change)),
{
    let entries = PayloadView::Change(change).json()->Object_0;
    assert(entries[0] == ("change"@, spec_change_json(change)));
}

/// A pull request is handed out with whether it is new, where it is and which bookmark
/// stands for it.
pub proof fn law_pull_request_is_handed_out(
    created: bool,
    url: Seq<char>,
    number: Option<u64>,
    pr_bookmark: Option<Seq<char>>,
)
    ensures
        is_object_of(PayloadView::PrEnsured { created, url, number, pr_bookmark }.json(), 4),
        holds(
            PayloadView::PrEnsured { created, url, number, pr_bookmark }.json(),
            "action"@,
            JsonView::Text(if created { "created"@ } else { "exists"@ }),
        ),
        holds(
            PayloadView::PrEnsured { created, url, number, pr_bookmark }.json(),
            "url"@,
            JsonView::Text(url),
        ),
        holds(
            PayloadView::PrEnsured { created, url, number, pr_bookmark }.json(),
            "number"@,
            match number { Some(n) => JsonView::Count(n), None => JsonView::Null },
        ),
        holds(
            PayloadView::PrEnsured { created, url, number, pr_bookmark }.json(),
            "pr_bookmark"@,
            text_or_null(pr_bookmark),
        ),
{
    let entries = PayloadView::PrEnsured { created, url, number, pr_bookmark }.json()->Object_0;
    assert(entries[0] == ("action"@, JsonView::Text(if created { "created"@ } else { "exists"@ })));
    assert(entries[1] == ("url"@, JsonView::Text(url)));
    assert(
        entries[2] == (
            "number"@, match number { Some(n) => JsonView::Count(n), None => JsonView::Null }
        )
    );
    assert(entries[3] == ("pr_bookmark"@, text_or_null(pr_bookmark)));
}

/// A push is handed out with whether there was anything to push.
pub proof fn law_push_is_handed_out(pushed: bool, url: Seq<char>, number: u64)
    ensures
        is_object_of(PayloadView::PrPushed { pushed, url, number }.json(), 3),
        holds(
            PayloadView::PrPushed { pushed, url, number }.json(),
            "action"@,
            JsonView::Text(if pushed { "pushed"@ } else { "noop"@ }),
        ),
        holds(PayloadView::PrPushed { pushed, url, number }.json(), "url"@, JsonView::Text(url)),
        holds(
            PayloadView::PrPushed { pushed, url, number }.json(),
            "number"@,
            JsonView::Count(number),
        ),
{
    let entries = PayloadView::PrPushed { pushed, url, number }.json()->Object_0;
    assert(entries[0] == ("action"@, JsonView::Text(if pushed { "pushed"@ } else { "noop"@ })));
    assert(entries[1] == ("url"@, JsonView::Text(url)));
    assert(entries[2] == ("number"@, JsonView::Count(number)));
}

/// A listing is handed out with the rows that were brought in line.
pub proof fn law_listing_is_handed_out(
    workspaces: Seq<WorkspaceRecordView>,
    reconciled: ReconcileReportView,
)
    ensures
        is_object_of(PayloadView::Workspaces { workspaces, reconciled }.json(), 2),
        holds(
            PayloadView::Workspaces { workspaces, reconciled }.json(),
            "workspaces"@,
            spec_workspaces_json(workspaces),
        ),
        holds(
            PayloadView::Workspaces { workspaces, reconciled }.json(),
            "reconciled"@,
            spec_reconciled_json(reconciled),
        ),
{
    let entries = PayloadView::Workspaces { workspaces, reconciled }.json()->Object_0;
    assert(entries[0] == ("workspaces"@, spec_workspaces_json(workspaces)));
    assert(entries[1] == ("reconciled"@, spec_reconciled_json(reconciled)));
}

/// The rows that were brought in line are reported as removed or as held.
pub proof fn law_reconciling_is_reported(report: ReconcileReportView)
    ensures
        is_object_of(spec_reconciled_json(report), 2),
        holds(spec_reconciled_json(report), "removed"@, spec_rows_json(report.removed)),
        holds(spec_reconciled_json(report), "held"@, spec_rows_json(report.held)),
{
    let entries = spec_reconciled_json(report)->Object_0;
    assert(entries[0] == ("removed"@, spec_rows_json(report.removed)));
    assert(entries[1] == ("held"@, spec_rows_json(report.held)));
}

/// The repositories are handed out in a list.
pub proof fn law_repos_are_handed_out(repos: Seq<RepoRecordView>)
    ensures
        is_object_of(PayloadView::Repos(repos).json(), 1),
        holds(PayloadView::Repos(repos).json(), "repos"@, spec_repos_json(repos)),
{
    let entries = PayloadView::Repos(repos).json()->Object_0;
    assert(entries[0] == ("repos"@, spec_repos_json(repos)));
}

/// The cleanups are handed out in a list.
pub proof fn law_cleanups_are_handed_out(results: Seq<WorkspaceGcResultView>)
    ensures
        is_object_of(PayloadView::Gc(results).json(), 1),
        holds(PayloadView::Gc(results).json(), "results"@, spec_gc_list_json(results)),
{
    let entries = PayloadView::Gc(results).json()->Object_0;
    assert(entries[0] == ("results"@, spec_gc_list_json(results)));
}

/// A setup is reported as its steps.
pub proof fn law_setup_steps_are_reported(steps: Seq<SetupStepView>)
    ensures
        is_object_of(spec_setup_json(steps), 1),
        holds(spec_setup_json(steps), "steps"@, spec_steps_json(steps)),
{
    let entries = spec_setup_json(steps)->Object_0;
    assert(entries[0] == ("steps"@, spec_steps_json(steps)));
}

/// Of the texts, each is reported in its place.
pub proof fn law_texts_stand_in_order(items: Seq<Seq<char>>)
    ensures
        spec_texts(items) is List,
        spec_texts(items)->List_0.len() == items.len(),
        forall|i: int|
            0 <= i < items.len() ==> #[trigger] spec_texts(items)->List_0[i] == JsonView::Text(
                items[i],
            ),
{
}

/// Of the repositories, each is reported in its place.
pub proof fn law_repos_stand_in_order(items: Seq<RepoRecordView>)
    ensures
        spec_repos_json(items) is List,
        spec_repos_json(items)->List_0.len() == items.len(),
        forall|i: int|
            0 <= i < items.len() ==> #[trigger] spec_repos_json(items)->List_0[i] == spec_repo_json(
                items[i],
            ),
{
}

/// Of the workspaces, each is reported in its place.
pub proof fn law_workspaces_stand_in_order(items: Seq<WorkspaceRecordView>)
    ensures
        spec_workspaces_json(items) is List,
        spec_workspaces_json(items)->List_0.len() == items.len(),
        forall|i: int|
            0 <= i < items.len() ==> #[trigger] spec_workspaces_json(items)->List_0[i] == spec_workspace_json(
                items[i],
            ),
{
}

/// Of the rows, each is reported in its place.
pub proof fn law_rows_stand_in_order(items: Seq<ReconciledRowView>)
    ensures
        spec_rows_json(items) is List,
        spec_rows_json(items)->List_0.len() == items.len(),
        forall|i: int|
            0 <= i < items.len() ==> #[trigger] spec_rows_json(items)->List_0[i] == spec_row_json(
                items[i],
            ),
{
}

/// Of the steps, each is reported in its place.
pub proof fn law_steps_stand_in_order(items: Seq<SetupStepView>)
    ensures
        spec_steps_json(items) is List,
        spec_steps_json(items)->List_0.len() == items.len(),
        forall|i: int|
            0 <= i < items.len() ==> #[trigger] spec_steps_json(items)->List_0[i] == spec_step_json(
                items[i],
            ),
{
}

/// Of the workspaces that were looked at, each is reported in its place.
pub proof fn law_checks_stand_in_order(items: Seq<HealthCheckView>)
    ensures
        spec_checks_json(items) is List,
        spec_checks_json(items)->List_0.len() == items.len(),
        forall|i: int|
            0 <= i < items.len() ==> #[trigger] spec_checks_json(items)->List_0[i] == spec_check_json(
                items[i],
            ),
{
}

/// Of the cleanups, each is reported in its place.
pub proof fn law_cleanups_stand_in_order(items: Seq<WorkspaceGcResultView>)
    ensures
        spec_gc_list_json(items) is List,
        spec_gc_list_json(items)->List_0.len() == items.len(),
        forall|i: int|
            0 <= i < items.len() ==> #[trigger] spec_gc_list_json(items)->List_0[i] == spec_gc_json(
                items[i],
            ),
{
}

} // verus!
