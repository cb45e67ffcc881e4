//! Running a command line.

use vstd::prelude::*;

use crate::change::{flow_change, run_change};
use crate::cli::{Cli, Command, CommandView, PrCommand, PrCommandView, StackCommand};
use crate::ensure::{flow_repo, run_repo};
use crate::error::{CubeError, CubeErrorView};
use crate::flow::{follows, Action, ActionView, Answer, AnswerView, Flow, Stop, Tape};
use crate::number::{decimal, spec_decimal};
use crate::outside::{is_uuid, random_uuid};
use crate::pr_ensure::{ensure_pr, flow_ensure_pr};
use crate::pr_push::{flow_pr_push, pr_push};
use crate::report::{RunResult, RunResultView};
use crate::text::{cat, copy};
use crate::workspace::{flow_workspace, run_workspace, well_formed};

verus! {

/// The failure for a command that is not there yet.
pub open spec fn missing(what: Seq<char>) -> CubeErrorView {
    CubeErrorView::NotImplemented(what + " is not implemented yet"@)
}

fn not_implemented(what: &str) -> (r: Result<RunResult, Stop>)
    ensures
        r matches Err(Stop::Fail(e)) && e.deep_view() == missing(what@),
{
    Err(Stop::Fail(CubeError::NotImplemented(cat(what.to_string(), " is not implemented yet"))))
}

/// The name of a command on stacks.
pub fn stack_command_name(command: &StackCommand) -> (r: &'static str)
    ensures
        r@ == "rebase"@,
{
    match command {
        StackCommand::Rebase(_) => "rebase",
    }
}

/// The name of a command on pull requests.
pub open spec fn spec_pr_command_name(command: PrCommandView) -> Seq<char> {
    match command {
        PrCommandView::Ensure(_) => "ensure"@,
        PrCommandView::Push(_) => "push"@,
        PrCommandView::Sync(_) => "sync"@,
        PrCommandView::Merge(_) => "merge"@,
    }
}

pub fn pr_command_name(command: &PrCommand) -> (r: &'static str)
    ensures
        r@ == spec_pr_command_name(command.deep_view()),
{
    match command {
        PrCommand::Ensure(_) => "ensure",
        PrCommand::Push(_) => "push",
        PrCommand::Sync(_) => "sync",
        PrCommand::Merge(_) => "merge",
    }
}

pub open spec fn flow_pr(t: Seq<AnswerView>, command: PrCommandView) -> Flow<RunResultView> {
    match command {
        PrCommandView::Ensure(args) => flow_ensure_pr(t, args),
        PrCommandView::Push(args) => flow_pr_push(t, args),
        other => Flow::Failed(
            missing("pr command `"@ + spec_pr_command_name(other) + "`"@),
            t,
        ),
    }
}

pub fn run_pr(tape: &mut Tape, command: PrCommand) -> (r: Result<RunResult, Stop>)
    ensures
        follows(r, final(tape)@, flow_pr(old(tape)@, command.deep_view())),
{
    match &command {
        PrCommand::Ensure(args) => ensure_pr(tape, args),
        PrCommand::Push(args) => pr_push(tape, args),
        other => not_implemented(
            cat(cat("pr command `".to_string(), pr_command_name(other)), "`").as_str(),
        ),
    }
}

/// What a command line does.
pub open spec fn flow_command(t: Seq<AnswerView>, command: CommandView) -> Flow<RunResultView> {
    match command {
        CommandView::Repo { command } => flow_repo(t, command),
        CommandView::Workspace { command } => flow_workspace(t, command),
        CommandView::Change { command } => flow_change(t, command),
        CommandView::Stack { command } => Flow::Failed(missing("stack command `rebase`"@), t),
        CommandView::Pr { command } => flow_pr(t, command),
        CommandView::Graph(_) => Flow::Failed(missing("graph command"@), t),
        CommandView::Doctor(_) => Flow::Failed(missing("doctor command"@), t),
    }
}

/// A command whose parts fit together.
pub open spec fn is_consistent(command: CommandView) -> bool {
    match command {
        CommandView::Workspace { command } => well_formed(command),
        _ => true,
    }
}

/// Runs a command line as far as the answers go. A command that takes a workspace as
/// it is must name it, which every command line that parses does.
pub fn run(cli: Cli, tape: &mut Tape) -> (r: Result<RunResult, Stop>)
    requires
        is_consistent(cli.deep_view().command),
    ensures
        follows(r, final(tape)@, flow_command(old(tape)@, cli.deep_view().command)),
{
    match cli.command {
        Command::Repo { command } => run_repo(tape, command),
        Command::Workspace { command } => run_workspace(tape, command),
        Command::Change { command } => run_change(tape, command),
        Command::Stack { command } => {
            let name: &str = stack_command_name(&command);
            let what: String = cat(cat("stack command `".to_string(), name), "`");
            proof {
                reveal_strlit("stack command `");
                reveal_strlit("rebase");
                reveal_strlit("`");
                reveal_strlit("stack command `rebase`");
                assert(what@ =~= "stack command `rebase`"@);
            }
            not_implemented(what.as_str())
        },
        Command::Pr { command } => run_pr(tape, command),
        Command::Graph(_) => not_implemented("graph command"),
        Command::Doctor(_) => not_implemented("doctor command"),
    }
}

/// The identity that leases are taken under.
pub open spec fn spec_holder(
    user: Option<Seq<char>>,
    host: Option<Seq<char>>,
    pid: u32,
) -> Seq<char> {
    (match user {
        Some(u) => u,
        None => "unknown"@,
    }) + "@"@ + (match host {
        Some(h) => h,
        None => "localhost"@,
    }) + ":"@ + spec_decimal(pid as nat)
}

/// `<user>@<host>:<process>`, from what the environment says.
pub fn holder_identity(user: &Option<String>, host: &Option<String>, pid: u32) -> (r: String)
    ensures
        r@ == spec_holder(user.deep_view(), host.deep_view(), pid),
{
    let u: String = match user {
        Some(u) => copy(u),
        None => "unknown".to_string(),
    };
    let h: String = match host {
        Some(h) => copy(h),
        None => "localhost".to_string(),
    };
    cat(cat(cat(cat(u, "@"), h.as_str()), ":"), decimal(pid as u64).as_str())
}

/// Answers the one action that needs nothing from outside the program: a fresh
/// identifier.
pub fn answer_fresh_id(action: &Action) -> (r: Option<Answer>)
    ensures
        r is Some <==> action.deep_view() == ActionView::FreshId,
        match r {
            Some(answer) => answer matches Answer::Name(id) && is_uuid(id@),
            None => true,
        },
{
    match action {
        Action::FreshId => Some(Answer::Name(random_uuid())),
        _ => None,
    }
}

} // verus!
