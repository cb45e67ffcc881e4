//! Running `jj` in a workspace, and recovering from the states it is known to get
//! stuck in.

use vstd::prelude::*;

use crate::command_runner::{
    command, copy_command, spec_command, CommandInvocation, CommandInvocationView,
};
use crate::error::{CubeError, CubeErrorView};
use crate::events::{AuditEvent, AuditEventView};
use crate::flow::{
    ask_ack, ask_flag, ask_output, follows, Action, ActionView, AnswerView, Flow, Stop, Tape,
};
use crate::paths::{path_join, spec_path_join};
use crate::text::{cat, contains, copy, list2, list3, same, spec_contains};

verus! {

/// The lowercase form of a text, by the Unicode rules that std follows.
pub uninterp spec fn lowercase(s: Seq<char>) -> Seq<char>;

/// `str::to_lowercase` of std: the lowercase form of the string, a function of its
/// characters alone.
pub assume_specification[ str::to_lowercase ](s: &str) -> (r: String)
    ensures
        r@ == lowercase(s@),
;

// ---------------------------------------------------------------------------
// Reading failures
// ---------------------------------------------------------------------------

/// What `jj` wrote on standard error, in lowercase, where the failure is that of
/// a `jj` command.
pub open spec fn jj_complaint(err: CubeErrorView) -> Option<Seq<char>> {
    match err {
        CubeErrorView::CommandFailed { program, stderr, .. } => if program == "jj"@ {
            Some(lowercase(stderr))
        } else {
            None
        },
        _ => None,
    }
}

pub fn complaint(err: &CubeError) -> (r: Option<String>)
    ensures
        r.deep_view() == jj_complaint(err.deep_view()),
{
    match err {
        CubeError::CommandFailed { program, stderr, .. } => {
            if same(program.as_str(), "jj") {
                Some(stderr.as_str().to_lowercase())
            } else {
                None
            }
        },
        _ => None,
    }
}

/// The directory holds no jj repository.
pub open spec fn says_no_repo(complaint: Seq<char>) -> bool {
    spec_contains(complaint, "there is no jj repo"@)
}

/// The audit event for a complaint that `jj workspace update-stale` can cure: a
/// stale working copy, or an operation log that has diverged.
pub open spec fn recovery_of(complaint: Seq<char>) -> Option<Seq<char>> {
    if spec_contains(complaint, "working copy is stale"@) {
        Some("workspace.stale_recovered"@)
    } else if spec_contains(complaint, "seems to be a sibling"@) {
        Some("workspace.op_diverged_recovered"@)
    } else {
        None
    }
}

/// The named remote bookmark does not exist.
pub open spec fn says_no_bookmark(complaint: Seq<char>) -> bool {
    spec_contains(complaint, "no such remote bookmark"@)
}

/// The revision to move to does not exist.
pub open spec fn says_unresolved(complaint: Seq<char>) -> bool {
    says_no_bookmark(complaint) || spec_contains(complaint, "doesn't exist"@)
}

pub open spec fn is_no_repo(err: CubeErrorView) -> bool {
    jj_complaint(err) is Some && says_no_repo(jj_complaint(err)->0)
}

pub open spec fn recovery(err: CubeErrorView) -> Option<Seq<char>> {
    match jj_complaint(err) {
        Some(c) => recovery_of(c),
        None => None,
    }
}

pub open spec fn is_no_bookmark(err: CubeErrorView) -> bool {
    jj_complaint(err) is Some && says_no_bookmark(jj_complaint(err)->0)
}

pub open spec fn is_unresolved(err: CubeErrorView) -> bool {
    jj_complaint(err) is Some && says_unresolved(jj_complaint(err)->0)
}

/// Whether the complaint says that the directory holds no jj repository.
pub fn no_repo_complaint(complaint: &str) -> (r: bool)
    ensures
        r == says_no_repo(complaint@),
{
    contains(complaint, "there is no jj repo")
}

/// The audit event for a complaint that `jj workspace update-stale` can cure.
pub fn stale_recovery_kind(complaint: &str) -> (r: Option<&'static str>)
    ensures
        r.deep_view() == recovery_of(complaint@),
{
    if contains(complaint, "working copy is stale") {
        Some("workspace.stale_recovered")
    } else if contains(complaint, "seems to be a sibling") {
        Some("workspace.op_diverged_recovered")
    } else {
        None
    }
}

/// Whether the complaint says that the remote bookmark does not exist.
pub fn no_bookmark_complaint(complaint: &str) -> (r: bool)
    ensures
        r == says_no_bookmark(complaint@),
{
    contains(complaint, "no such remote bookmark")
}

/// Whether the complaint says that the revision to move to does not exist.
pub fn unresolved_complaint(complaint: &str) -> (r: bool)
    ensures
        r == says_unresolved(complaint@),
{
    no_bookmark_complaint(complaint) || contains(complaint, "doesn't exist")
}

fn no_repo(err: &CubeError) -> (r: bool)
    ensures
        r == is_no_repo(err.deep_view()),
{
    match complaint(err) {
        Some(c) => no_repo_complaint(c.as_str()),
        None => false,
    }
}

/// Returns the audit event name where `jj workspace update-stale` can cure the
/// failure.
pub fn jj_update_stale_recovery_kind(err: &CubeError) -> (r: Option<&'static str>)
    ensures
        r.deep_view() == recovery(err.deep_view()),
{
    match complaint(err) {
        Some(c) => stale_recovery_kind(c.as_str()),
        None => None,
    }
}

/// Whether `jj bookmark track` failed because the remote bookmark does not exist.
pub fn is_no_such_remote_bookmark(err: &CubeError) -> (r: bool)
    ensures
        r == is_no_bookmark(err.deep_view()),
{
    match complaint(err) {
        Some(c) => no_bookmark_complaint(c.as_str()),
        None => false,
    }
}

/// Whether `jj` failed because the target of a fast-forward does not resolve.
pub fn is_unresolved_remote_target(err: &CubeError) -> (r: bool)
    ensures
        r == is_unresolved(err.deep_view()),
{
    match complaint(err) {
        Some(c) => unresolved_complaint(c.as_str()),
        None => false,
    }
}

// ---------------------------------------------------------------------------
// Running jj
// ---------------------------------------------------------------------------

/// `jj` with `args` in `cwd`.
pub open spec fn spec_jj(cwd: Seq<char>, args: Seq<Seq<char>>) -> CommandInvocationView {
    spec_command(cwd, "jj"@, args)
}

pub fn jj(cwd: &str, args: Vec<String>) -> (r: CommandInvocation)
    ensures
        r.deep_view() == spec_jj(cwd@, args.deep_view()),
{
    command(cwd, "jj", args)
}

/// The audit event for a recovery that let `inv` be tried again.
pub open spec fn recovered_event(kind: Seq<char>, inv: CommandInvocationView) -> AuditEventView {
    AuditEventView::named(kind).text("workspace_path"@, inv.cwd).text("program"@, inv.program).texts(
        "args"@,
        inv.args,
    )
}

fn recovered(kind: &str, inv: &CommandInvocation) -> (r: AuditEvent)
    ensures
        r.deep_view() == recovered_event(kind@, inv.deep_view()),
{
    AuditEvent::named(kind).text("workspace_path", inv.cwd.as_str()).text(
        "program",
        inv.program.as_str(),
    ).texts("args", &inv.args)
}

/// The failure for a directory with neither `.jj` nor `.git`.
pub open spec fn broken_empty_error(cwd: Seq<char>) -> CubeErrorView {
    CubeErrorView::NoAvailableWorkspace(
        "workspace at `"@ + cwd
            + "` has neither .jj/ nor .git/ (broken-empty): the workspace directory exists but no jj or git repository was found. Re-clone manually or `cube workspace force-release` and retry."@,
    )
}

/// The failure for a stale workspace that stayed so.
pub open spec fn stale_error(
    cwd: Seq<char>,
    what: Seq<char>,
    err: CubeErrorView,
) -> CubeErrorView {
    CubeErrorView::StaleRecoveryFailed { workspace_path: cwd, cause: what + err.message() }
}

/// Runs a `jj` command, and where it fails in a way that is known to be curable,
/// cures it and runs the command once more. Other failures pass through.
pub open spec fn flow_run_jj(t: Seq<AnswerView>, inv: CommandInvocationView) -> Flow<Seq<char>> {
    match ask_output(t, ActionView::Run(inv)) {
        Flow::Failed(err, t) => if is_no_repo(err) {
            ask_flag(t, ActionView::IsDir(spec_path_join(inv.cwd, ".git"@))).and(
                |git: bool, t: Seq<AnswerView>|
                    if git {
                        flow_colocate(t, inv, err)
                    } else {
                        ask_flag(t, ActionView::IsDir(spec_path_join(inv.cwd, ".jj"@))).and(
                            |jj: bool, t: Seq<AnswerView>|
                                if jj {
                                    flow_update_stale(t, inv, err)
                                } else {
                                    ask_flag(
                                        t,
                                        ActionView::IsDir(spec_path_join(inv.cwd, ".git"@)),
                                    ).and(
                                        |git: bool, t: Seq<AnswerView>|
                                            if git {
                                                flow_update_stale(t, inv, err)
                                            } else {
                                                Flow::Failed(broken_empty_error(inv.cwd), t)
                                            },
                                    )
                                },
                        )
                    },
            )
        } else {
            flow_update_stale(t, inv, err)
        },
        other => other,
    }
}

/// Lays a jj repository over the git repository and runs `inv` again; where
/// either fails, the failure is the first one.
pub open spec fn flow_colocate(
    t: Seq<AnswerView>,
    inv: CommandInvocationView,
    err: CubeErrorView,
) -> Flow<Seq<char>> {
    ask_ack(
        t,
        ActionView::Warn("cube: initialised jj on existing git workspace "@ + inv.cwd),
    ).and(
        |u: (), t: Seq<AnswerView>|
            ask_output(
                t,
                ActionView::Run(spec_jj(inv.cwd, seq!["git"@, "init"@, "--colocate"@])),
            ).blame(|e: CubeErrorView| err).and(
                |o: Seq<char>, t: Seq<AnswerView>|
                    ask_ack(
                        t,
                        ActionView::Audit(
                            recovered_event("workspace.jj_colocate_initialised"@, inv),
                        ),
                    ).and(
                        |u: (), t: Seq<AnswerView>|
                            ask_output(t, ActionView::Run(inv)).blame(|e: CubeErrorView| err),
                    ),
            ),
    )
}

/// Updates a stale workspace and runs `inv` again, where that can cure `err`.
pub open spec fn flow_update_stale(
    t: Seq<AnswerView>,
    inv: CommandInvocationView,
    err: CubeErrorView,
) -> Flow<Seq<char>> {
    match recovery(err) {
        None => Flow::Failed(err, t),
        Some(kind) => flow_note_diverged(t, inv, kind).and(
            |u: (), t: Seq<AnswerView>|
                ask_output(
                    t,
                    ActionView::Run(spec_jj(inv.cwd, seq!["workspace"@, "update-stale"@])),
                ).blame(
                    |e: CubeErrorView|
                        stale_error(inv.cwd, "jj workspace update-stale failed: "@, e),
                ).and(
                    |o: Seq<char>, t: Seq<AnswerView>|
                        ask_ack(t, ActionView::Audit(recovered_event(kind, inv))).and(
                            |u: (), t: Seq<AnswerView>|
                                ask_output(t, ActionView::Run(inv)).blame(
                                    |e: CubeErrorView|
                                        stale_error(
                                            inv.cwd,
                                            "retry after update-stale failed: "@,
                                            e,
                                        ),
                                ),
                        ),
                ),
        ),
    }
}

pub open spec fn flow_note_diverged(
    t: Seq<AnswerView>,
    inv: CommandInvocationView,
    kind: Seq<char>,
) -> Flow<()> {
    if kind == "workspace.op_diverged_recovered"@ {
        ask_ack(
            t,
            ActionView::Warn(
                "cube: jj op-log diverged on "@ + inv.cwd
                    + "; running `jj workspace update-stale` to recover"@,
            ),
        )
    } else {
        Flow::Done((), t)
    }
}

fn colocate(tape: &mut Tape, inv: &CommandInvocation, err: CubeError) -> (r: Result<String, Stop>)
    ensures
        follows(
            r,
            final(tape)@,
            flow_colocate(old(tape)@, inv.deep_view(), err.deep_view()),
        ),
{
    tape.ask_ack(
        Action::Warn(
            cat(
                "cube: initialised jj on existing git workspace ".to_string(),
                inv.cwd.as_str(),
            ),
        ),
    )?;
    match tape.ask_output(
        Action::Run(jj(inv.cwd.as_str(), list3("git", "init", "--colocate"))),
    ) {
        Ok(_) => {},
        Err(Stop::Fail(_)) => {
            return Err(Stop::Fail(err));
        },
        Err(stop) => {
            return Err(stop);
        },
    }
    tape.ask_ack(Action::Audit(recovered("workspace.jj_colocate_initialised", inv)))?;
    match tape.ask_output(Action::Run(copy_command(inv))) {
        Err(Stop::Fail(_)) => Err(Stop::Fail(err)),
        other => other,
    }
}

fn update_stale(tape: &mut Tape, inv: &CommandInvocation, err: CubeError) -> (r: Result<
    String,
    Stop,
>)
    ensures
        follows(
            r,
            final(tape)@,
            flow_update_stale(old(tape)@, inv.deep_view(), err.deep_view()),
        ),
{
    let kind: &str = match jj_update_stale_recovery_kind(&err) {
        Some(kind) => kind,
        None => {
            return Err(Stop::Fail(err));
        },
    };
    if same(kind, "workspace.op_diverged_recovered") {
        tape.ask_ack(
            Action::Warn(
                cat(
                    cat("cube: jj op-log diverged on ".to_string(), inv.cwd.as_str()),
                    "; running `jj workspace update-stale` to recover",
                ),
            ),
        )?;
    }
    match tape.ask_output(Action::Run(jj(inv.cwd.as_str(), list2("workspace", "update-stale")))) {
        Ok(_) => {},
        Err(Stop::Fail(e)) => {
            return Err(
                Stop::Fail(
                    CubeError::StaleRecoveryFailed {
                        workspace_path: copy(&inv.cwd),
                        cause: cat(
                            "jj workspace update-stale failed: ".to_string(),
                            e.message().as_str(),
                        ),
                    },
                ),
            );
        },
        Err(stop) => {
            return Err(stop);
        },
    }
    tape.ask_ack(Action::Audit(recovered(kind, inv)))?;
    match tape.ask_output(Action::Run(copy_command(inv))) {
        Err(Stop::Fail(e)) => Err(
            Stop::Fail(
                CubeError::StaleRecoveryFailed {
                    workspace_path: copy(&inv.cwd),
                    cause: cat(
                        "retry after update-stale failed: ".to_string(),
                        e.message().as_str(),
                    ),
                },
            ),
        ),
        other => other,
    }
}

pub fn run_jj(tape: &mut Tape, inv: &CommandInvocation) -> (r: Result<String, Stop>)
    ensures
        follows(r, final(tape)@, flow_run_jj(old(tape)@, inv.deep_view())),
{
    let err: CubeError = match tape.ask_output(Action::Run(copy_command(inv))) {
        Err(Stop::Fail(err)) => err,
        other => {
            return other;
        },
    };
    if no_repo(&err) {
        let git: bool = tape.ask_flag(Action::IsDir(path_join(inv.cwd.as_str(), ".git")))?;
        if git {
            return colocate(tape, inv, err);
        }
        let jj: bool = tape.ask_flag(Action::IsDir(path_join(inv.cwd.as_str(), ".jj")))?;
        if !jj {
            let git: bool = tape.ask_flag(Action::IsDir(path_join(inv.cwd.as_str(), ".git")))?;
            if !git {
                return Err(
                    Stop::Fail(
                        CubeError::NoAvailableWorkspace(
                            cat(
                                cat("workspace at `".to_string(), inv.cwd.as_str()),
                                "` has neither .jj/ nor .git/ (broken-empty): the workspace directory exists but no jj or git repository was found. Re-clone manually or `cube workspace force-release` and retry.",
                            ),
                        ),
                    ),
                );
            }
        }
    }
    update_stale(tape, inv, err)
}

} // verus!
