//! What a command of the tool can fail with, the message it prints and the exit
//! code it ends with.

use vstd::prelude::*;

use crate::number::{signed, spec_signed};
use crate::split::{join, spec_join};
use crate::text::cat;

verus! {

/// Every way in which a command can fail. Causes that come from outside the
/// library (I/O, the metadata database, JSON) are carried as rendered text.
#[derive(Debug, Clone, PartialEq, Eq)]
pub enum CubeError {
    InvalidArgument(String),
    NotImplemented(String),
    RepoNotFound(String),
    NoAvailableWorkspace(String),
    WorkspaceNotFound(String),
    LeaseNotFound(String),
    ChangeNotFound(String),
    SetupStepFailed { step: String, error: String },
    Storage(String),
    WorkspaceDirCreate { path: String, source: String },
    WorkspaceDirRead { path: String, source: String },
    WorkspaceDirRemove { path: String, source: String },
    RepoSourceDirCreate { path: String, source: String },
    StateDbIo { path: String, source: String },
    AuditLogIo { path: String, source: String },
    LockIo { path: String, source: String },
    Io(String),
    CommandFailed { program: String, args: Vec<String>, status: Option<i32>, stderr: String },
    CommandTimedOut { program: String, args: Vec<String>, timeout_secs: u64 },
    Json(String),
    StaleRecoveryFailed { workspace_path: String, cause: String },
    /// A workspace came back from an expired lease with uncommitted work in it.
    /// Resetting it would destroy that work, so the lease is refused.
    LeaseExpiredWorkspaceDirty {
        workspace_path: String,
        prior_lease_id: String,
        prior_holder: String,
    },
}

/// A [`CubeError`] with its strings as sequences of characters.
#[verifier::ext_equal]
pub ghost enum CubeErrorView {
    InvalidArgument(Seq<char>),
    NotImplemented(Seq<char>),
    RepoNotFound(Seq<char>),
    NoAvailableWorkspace(Seq<char>),
    WorkspaceNotFound(Seq<char>),
    LeaseNotFound(Seq<char>),
    ChangeNotFound(Seq<char>),
    SetupStepFailed { step: Seq<char>, error: Seq<char> },
    Storage(Seq<char>),
    WorkspaceDirCreate { path: Seq<char>, source: Seq<char> },
    WorkspaceDirRead { path: Seq<char>, source: Seq<char> },
    WorkspaceDirRemove { path: Seq<char>, source: Seq<char> },
    RepoSourceDirCreate { path: Seq<char>, source: Seq<char> },
    StateDbIo { path: Seq<char>, source: Seq<char> },
    AuditLogIo { path: Seq<char>, source: Seq<char> },
    LockIo { path: Seq<char>, source: Seq<char> },
    Io(Seq<char>),
    CommandFailed {
        program: Seq<char>,
        args: Seq<Seq<char>>,
        status: Option<i32>,
        stderr: Seq<char>,
    },
    CommandTimedOut { program: Seq<char>, args: Seq<Seq<char>>, timeout_secs: u64 },
    Json(Seq<char>),
    StaleRecoveryFailed { workspace_path: Seq<char>, cause: Seq<char> },
    LeaseExpiredWorkspaceDirty {
        workspace_path: Seq<char>,
        prior_lease_id: Seq<char>,
        prior_holder: Seq<char>,
    },
}

impl DeepView for CubeError {
    type V = CubeErrorView;

    open spec fn deep_view(&self) -> CubeErrorView {
        match self {
            CubeError::InvalidArgument(s) => CubeErrorView::InvalidArgument(s@),
            CubeError::NotImplemented(s) => CubeErrorView::NotImplemented(s@),
            CubeError::RepoNotFound(s) => CubeErrorView::RepoNotFound(s@),
            CubeError::NoAvailableWorkspace(s) => CubeErrorView::NoAvailableWorkspace(s@),
            CubeError::WorkspaceNotFound(s) => CubeErrorView::WorkspaceNotFound(s@),
            CubeError::LeaseNotFound(s) => CubeErrorView::LeaseNotFound(s@),
            CubeError::ChangeNotFound(s) => CubeErrorView::ChangeNotFound(s@),
            CubeError::SetupStepFailed { step, error } => CubeErrorView::SetupStepFailed {
                step: step@,
                error: error@,
            },
            CubeError::Storage(s) => CubeErrorView::Storage(s@),
            CubeError::WorkspaceDirCreate { path, source } => CubeErrorView::WorkspaceDirCreate {
                path: path@,
                source: source@,
            },
            CubeError::WorkspaceDirRead { path, source } => CubeErrorView::WorkspaceDirRead {
                path: path@,
                source: source@,
            },
            CubeError::WorkspaceDirRemove { path, source } => CubeErrorView::WorkspaceDirRemove {
                path: path@,
                source: source@,
            },
            CubeError::RepoSourceDirCreate { path, source } => CubeErrorView::RepoSourceDirCreate {
                path: path@,
                source: source@,
            },
            CubeError::StateDbIo { path, source } => CubeErrorView::StateDbIo {
                path: path@,
                source: source@,
            },
            CubeError::AuditLogIo { path, source } => CubeErrorView::AuditLogIo {
                path: path@,
                source: source@,
            },
            CubeError::LockIo { path, source } => CubeErrorView::LockIo {
                path: path@,
                source: source@,
            },
            CubeError::Io(s) => CubeErrorView::Io(s@),
            CubeError::CommandFailed { program, args, status, stderr } => {
                CubeErrorView::CommandFailed {
                    program: program@,
                    args: args.deep_view(),
                    status: *status,
                    stderr: stderr@,
                }
            },
            CubeError::CommandTimedOut { program, args, timeout_secs } => {
                CubeErrorView::CommandTimedOut {
                    program: program@,
                    args: args.deep_view(),
                    timeout_secs: *timeout_secs,
                }
            },
            CubeError::Json(s) => CubeErrorView::Json(s@),
            CubeError::StaleRecoveryFailed { workspace_path, cause } => {
                CubeErrorView::StaleRecoveryFailed {
                    workspace_path: workspace_path@,
                    cause: cause@,
                }
            },
            CubeError::LeaseExpiredWorkspaceDirty {
                workspace_path,
                prior_lease_id,
                prior_holder,
            } => CubeErrorView::LeaseExpiredWorkspaceDirty {
                workspace_path: workspace_path@,
                prior_lease_id: prior_lease_id@,
                prior_holder: prior_holder@,
            },
        }
    }
}

/// The message of a failure of the form ``<what> `<path>`: <cause>``.
pub open spec fn path_message(
    what: Seq<char>,
    path: Seq<char>,
    cause: Seq<char>,
) -> Seq<char> {
    what + " `"@ + path + "`: "@ + cause
}

fn path_text(what: &str, path: &str, cause: &str) -> (r: String)
    ensures
        r@ == path_message(what@, path@, cause@),
{
    cat(cat(cat(cat(what.to_string(), " `"), path), "`: "), cause)
}

impl CubeErrorView {
    /// The exit code for the failure.
    pub open spec fn exit_code(self) -> u8 {
        match self {
            CubeErrorView::InvalidArgument(_) => 2,
            CubeErrorView::NotImplemented(_) => 2,
            CubeErrorView::RepoNotFound(_) => 3,
            CubeErrorView::NoAvailableWorkspace(_) => 4,
            CubeErrorView::WorkspaceNotFound(_) => 5,
            CubeErrorView::LeaseNotFound(_) => 5,
            CubeErrorView::ChangeNotFound(_) => 5,
            CubeErrorView::SetupStepFailed { .. } => 6,
            CubeErrorView::LeaseExpiredWorkspaceDirty { .. } => 7,
            _ => 1,
        }
    }

    /// The message for the failure.
    pub open spec fn message(self) -> Seq<char> {
        match self {
            CubeErrorView::InvalidArgument(s) => s,
            CubeErrorView::NotImplemented(s) => s,
            CubeErrorView::RepoNotFound(s) => "repo `"@ + s + "` is not configured"@,
            CubeErrorView::NoAvailableWorkspace(s) => {
                "no free workspace is available for repo `"@ + s + "`"@
            },
            CubeErrorView::WorkspaceNotFound(s) => "workspace `"@ + s + "` is not tracked"@,
            CubeErrorView::LeaseNotFound(s) => "lease `"@ + s + "` is not tracked"@,
            CubeErrorView::ChangeNotFound(s) => "change `"@ + s + "` is not tracked"@,
            CubeErrorView::SetupStepFailed { step, error } => {
                "setup step `"@ + step + "` failed: "@ + error
            },
            CubeErrorView::Storage(s) => "failed to access Cube metadata: "@ + s,
            CubeErrorView::WorkspaceDirCreate { path, source } => path_message(
                "failed to create workspace directory"@,
                path,
                source,
            ),
            CubeErrorView::WorkspaceDirRead { path, source } => path_message(
                "failed to read workspace directory"@,
                path,
                source,
            ),
            CubeErrorView::WorkspaceDirRemove { path, source } => path_message(
                "failed to remove workspace directory"@,
                path,
                source,
            ),
            CubeErrorView::RepoSourceDirCreate { path, source } => path_message(
                "failed to create repo source directory"@,
                path,
                source,
            ),
            CubeErrorView::StateDbIo { path, source } => path_message(
                "failed to open state database at"@,
                path,
                source,
            ),
            CubeErrorView::AuditLogIo { path, source } => path_message(
                "failed to write audit log entry at"@,
                path,
                source,
            ),
            CubeErrorView::LockIo { path, source } => path_message(
                "failed to acquire repo lock at"@,
                path,
                source,
            ),
            CubeErrorView::Io(s) => "I/O error: "@ + s,
            CubeErrorView::CommandFailed { program, args, status, stderr } => {
                "command `"@ + program + " "@ + spec_join(args, " "@) + "` failed"@ + (
                match status {
                    Some(code) => " with exit code "@ + spec_signed(code as int),
                    None => ""@,
                }) + (if stderr.len() == 0 {
                    ""@
                } else {
                    ": "@ + stderr
                })
            },
            CubeErrorView::CommandTimedOut { program, args, timeout_secs } => {
                "command `"@ + program + " "@ + spec_join(args, " "@) + "` timed out after "@
                    + spec_signed(timeout_secs as int) + "s"@
            },
            CubeErrorView::Json(s) => "failed to serialize output: "@ + s,
            CubeErrorView::StaleRecoveryFailed { workspace_path, cause } => {
                "workspace `"@ + workspace_path
                    + "` is stale and could not be auto-recovered: "@ + cause
            },
            CubeErrorView::LeaseExpiredWorkspaceDirty {
                workspace_path,
                prior_lease_id,
                prior_holder,
            } => "workspace `"@ + workspace_path
                + "` was reclaimed from an expired lease (prior holder: "@ + prior_holder
                + ", lease: "@ + prior_lease_id
                + ") but its working copy still has uncommitted work; refusing to destructively reset it. Use `cube workspace force-release --lease "@
                + prior_lease_id
                + "` to acknowledge data loss and re-attempt the lease."@,
        }
    }
}

fn wrapped(before: &str, s: &str, after: &str) -> (r: String)
    ensures
        r@ == before@ + s@ + after@,
{
    cat(cat(before.to_string(), s), after)
}

impl CubeError {
    /// The exit code the process ends with.
    pub fn exit_code(&self) -> (r: u8)
        ensures
            r == self.deep_view().exit_code(),
    {
        match self {
            CubeError::InvalidArgument(_) | CubeError::NotImplemented(_) => 2,
            CubeError::RepoNotFound(_) => 3,
            CubeError::NoAvailableWorkspace(_) => 4,
            CubeError::WorkspaceNotFound(_)
            | CubeError::LeaseNotFound(_)
            | CubeError::ChangeNotFound(_) => 5,
            CubeError::SetupStepFailed { .. } => 6,
            CubeError::LeaseExpiredWorkspaceDirty { .. } => 7,
            _ => 1,
        }
    }

    /// The message printed for the failure.
    pub fn message(&self) -> (r: String)
        ensures
            r@ == self.deep_view().message(),
    {
        match self {
            CubeError::InvalidArgument(s) => s.clone(),
            CubeError::NotImplemented(s) => s.clone(),
            CubeError::RepoNotFound(s) => wrapped("repo `", s, "` is not configured"),
            CubeError::NoAvailableWorkspace(s) => wrapped(
                "no free workspace is available for repo `",
                s,
                "`",
            ),
            CubeError::WorkspaceNotFound(s) => wrapped("workspace `", s, "` is not tracked"),
            CubeError::LeaseNotFound(s) => wrapped("lease `", s, "` is not tracked"),
            CubeError::ChangeNotFound(s) => wrapped("change `", s, "` is not tracked"),
            CubeError::SetupStepFailed { step, error } => cat(
                wrapped("setup step `", step, "` failed: "),
                error,
            ),
            CubeError::Storage(s) => cat("failed to access Cube metadata: ".to_string(), s),
            CubeError::WorkspaceDirCreate { path, source } => path_text(
                "failed to create workspace directory",
                path,
                source,
            ),
            CubeError::WorkspaceDirRead { path, source } => path_text(
                "failed to read workspace directory",
                path,
                source,
            ),
            CubeError::WorkspaceDirRemove { path, source } => path_text(
                "failed to remove workspace directory",
                path,
                source,
            ),
            CubeError::RepoSourceDirCreate { path, source } => path_text(
                "failed to create repo source directory",
                path,
                source,
            ),
            CubeError::StateDbIo { path, source } => path_text(
                "failed to open state database at",
                path,
                source,
            ),
            CubeError::AuditLogIo { path, source } => path_text(
                "failed to write audit log entry at",
                path,
                source,
            ),
            CubeError::LockIo { path, source } => path_text(
                "failed to acquire repo lock at",
                path,
                source,
            ),
            CubeError::Io(s) => cat("I/O error: ".to_string(), s),
            CubeError::CommandFailed { program, args, status, stderr } => {
                let code: String = match status {
                    Some(code) => cat(
                        " with exit code ".to_string(),
                        signed(*code as i64).as_str(),
                    ),
                    None => "".to_string(),
                };
                let cause: String = if stderr.as_str().is_empty() {
                    "".to_string()
                } else {
                    cat(": ".to_string(), stderr)
                };
                let line: String = join(args, " ");
                cat(
                    cat(
                        cat(cat(wrapped("command `", program, " "), line.as_str()), "` failed"),
                        code.as_str(),
                    ),
                    cause.as_str(),
                )
            },
            CubeError::CommandTimedOut { program, args, timeout_secs } => {
                let line: String = join(args, " ");
                let secs: String = crate::number::decimal(*timeout_secs);
                cat(
                    cat(
                        cat(
                            cat(wrapped("command `", program, " "), line.as_str()),
                            "` timed out after ",
                        ),
                        secs.as_str(),
                    ),
                    "s",
                )
            },
            CubeError::Json(s) => cat("failed to serialize output: ".to_string(), s),
            CubeError::StaleRecoveryFailed { workspace_path, cause } => cat(
                wrapped(
                    "workspace `",
                    workspace_path,
                    "` is stale and could not be auto-recovered: ",
                ),
                cause,
            ),
            CubeError::LeaseExpiredWorkspaceDirty {
                workspace_path,
                prior_lease_id,
                prior_holder,
            } => {
                let head: String = wrapped(
                    "workspace `",
                    workspace_path,
                    "` was reclaimed from an expired lease (prior holder: ",
                );
                let who: String = cat(cat(cat(head, prior_holder), ", lease: "), prior_lease_id);
                cat(
                    cat(
                        cat(
                            who,
                            ") but its working copy still has uncommitted work; refusing to destructively reset it. Use `cube workspace force-release --lease ",
                        ),
                        prior_lease_id,
                    ),
                    "` to acknowledge data loss and re-attempt the lease.",
                )
            },
        }
    }
}

} // verus!
