//! Running the setup steps of a workspace, and what is said of them.

use vstd::prelude::*;

use crate::error::{CubeError, CubeErrorView};
use crate::flow::{ask_setup, follows, Action, ActionView, AnswerView, Flow, Stop, Tape};
use crate::number::{decimal, spec_decimal};
use crate::records::{
    copy_workspace, first_failure, steps_ran, steps_skipped, SetupReport, SetupStepView,
    WorkspaceRecord, WorkspaceRecordView,
};
use crate::text::cat;

verus! {

/// How many steps ran and how many were skipped.
pub open spec fn counts(steps: Seq<SetupStepView>) -> Seq<char> {
    spec_decimal(steps_ran(steps)) + " ran, "@ + spec_decimal(
        steps_skipped(steps),
    ) + " skipped."@
}

fn counts_text(report: &SetupReport) -> (r: String)
    ensures
        r@ == counts(report.deep_view()),
{
    cat(
        cat(
            cat(decimal(report.ran_count() as u64), " ran, "),
            decimal(report.skipped_count() as u64).as_str(),
        ),
        " skipped.",
    )
}

/// The message of a lease, with the setup steps counted where there are any.
pub open spec fn spec_lease_message(head: Seq<char>, steps: Seq<SetupStepView>) -> Seq<char> {
    if steps.len() == 0 {
        head
    } else {
        head + " Setup: "@ + counts(steps)
    }
}

pub fn format_lease_message(head: String, report: &SetupReport) -> (r: String)
    ensures
        r@ == spec_lease_message(head@, report.deep_view()),
{
    if report.steps.len() == 0 {
        head
    } else {
        cat(cat(head, " Setup: "), counts_text(report).as_str())
    }
}

/// The message of a setup.
pub open spec fn spec_setup_message(
    workspace_id: Seq<char>,
    steps: Seq<SetupStepView>,
) -> Seq<char> {
    if steps.len() == 0 {
        "No setup steps are configured for "@ + workspace_id + "."@
    } else {
        "Setup complete for "@ + workspace_id + ": "@ + counts(steps)
    }
}

pub fn format_setup_message(workspace_id: &str, report: &SetupReport) -> (r: String)
    ensures
        r@ == spec_setup_message(workspace_id@, report.deep_view()),
{
    if report.steps.len() == 0 {
        cat(cat("No setup steps are configured for ".to_string(), workspace_id), ".")
    } else {
        cat(
            cat(cat("Setup complete for ".to_string(), workspace_id), ": "),
            counts_text(report).as_str(),
        )
    }
}

/// Runs the setup steps; the first that failed is an error.
pub open spec fn flow_setup(t: Seq<AnswerView>, workspace: WorkspaceRecordView) -> Flow<
    Seq<SetupStepView>,
> {
    ask_setup(t, ActionView::RunSetup(workspace)).and(
        |steps: Seq<SetupStepView>, t: Seq<AnswerView>|
            match first_failure(steps) {
                Some((step, error)) => Flow::Failed(
                    CubeErrorView::SetupStepFailed { step, error },
                    t,
                ),
                None => Flow::Done(steps, t),
            },
    )
}

pub fn run_setup_for_workspace(tape: &mut Tape, workspace: &WorkspaceRecord) -> (r: Result<
    SetupReport,
    Stop,
>)
    ensures
        follows(r, final(tape)@, flow_setup(old(tape)@, workspace.deep_view())),
{
    let report: SetupReport = tape.ask_setup(Action::RunSetup(copy_workspace(workspace)))?;
    match report.first_failure() {
        Some((step, error)) => Err(Stop::Fail(CubeError::SetupStepFailed { step, error })),
        None => Ok(report),
    }
}

} // verus!
