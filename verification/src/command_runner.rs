//! Subprocess invocations: what is run, the environment it runs in, how its end
//! is read, and how long to wait for it.

use vstd::prelude::*;

use crate::error::{CubeError, CubeErrorView};
use crate::text::{copy, copy_all, spec_trim, trim};

verus! {

/// A program to run, its arguments, and the directory to run it in.
#[derive(Debug, Clone, PartialEq, Eq)]
pub struct CommandInvocation {
    pub cwd: String,
    pub program: String,
    pub args: Vec<String>,
}

#[verifier::ext_equal]
pub ghost struct CommandInvocationView {
    pub cwd: Seq<char>,
    pub program: Seq<char>,
    pub args: Seq<Seq<char>>,
}

impl DeepView for CommandInvocation {
    type V = CommandInvocationView;

    open spec fn deep_view(&self) -> CommandInvocationView {
        CommandInvocationView {
            cwd: self.cwd@,
            program: self.program@,
            args: self.args.deep_view(),
        }
    }
}

/// An invocation of `program` with `args` in `cwd`.
pub open spec fn spec_command(
    cwd: Seq<char>,
    program: Seq<char>,
    args: Seq<Seq<char>>,
) -> CommandInvocationView {
    CommandInvocationView { cwd, program, args }
}

pub fn command(cwd: &str, program: &str, args: Vec<String>) -> (r: CommandInvocation)
    ensures
        r.deep_view() == spec_command(cwd@, program@, args.deep_view()),
{
    CommandInvocation { cwd: cwd.to_string(), program: program.to_string(), args }
}

/// A copy of an invocation.
pub fn copy_command(c: &CommandInvocation) -> (r: CommandInvocation)
    ensures
        r.deep_view() == c.deep_view(),
{
    CommandInvocation {
        cwd: copy(&c.cwd),
        program: copy(&c.program),
        args: copy_all(&c.args),
    }
}

/// Runs commands as real subprocesses.
pub struct RealCommandRunner;

impl RealCommandRunner {
    /// The invocation of `program` with `args` in `cwd`.
    pub fn invocation(cwd: &str, program: &str, args: &[&str]) -> (r: CommandInvocation)
        ensures
            r.cwd@ == cwd@,
            r.program@ == program@,
            r.args.deep_view() == Seq::new(args@.len(), |i: int| args@[i]@),
    {
        let mut list: Vec<String> = Vec::new();
        let mut i: usize = 0;
        while i < args.len()
            invariant
                i <= args@.len(),
                list@.len() == i,
                forall|j: int| 0 <= j < i ==> #[trigger] list@[j]@ == args@[j]@,
            decreases args@.len() - i,
        {
            list.push(args[i].to_string());
            i += 1;
        }
        assert(list.deep_view() =~= Seq::new(args@.len(), |i: int| args@[i]@));
        command(cwd, program, list)
    }
}

/// What a finished process means: its standard output without the whitespace
/// round it where it succeeded, and its exit code and standard error where not.
pub open spec fn outcome_of(
    invocation: CommandInvocationView,
    success: bool,
    status: Option<i32>,
    stdout: Seq<char>,
    stderr: Seq<char>,
) -> Result<Seq<char>, CubeErrorView> {
    if success {
        Ok(spec_trim(stdout))
    } else {
        Err(
            CubeErrorView::CommandFailed {
                program: invocation.program,
                args: invocation.args,
                status,
                stderr: spec_trim(stderr),
            },
        )
    }
}

/// Reads the end of a process.
pub fn command_outcome(
    invocation: &CommandInvocation,
    success: bool,
    status: Option<i32>,
    stdout: &str,
    stderr: &str,
) -> (r: Result<String, CubeError>)
    ensures
        match r {
            Ok(text) => outcome_of(invocation.deep_view(), success, status, stdout@, stderr@)
                == Ok::<Seq<char>, CubeErrorView>(text@),
            Err(error) => outcome_of(invocation.deep_view(), success, status, stdout@, stderr@)
                == Err::<Seq<char>, CubeErrorView>(error.deep_view()),
        },
{
    if success {
        Ok(trim(stdout))
    } else {
        Err(
            CubeError::CommandFailed {
                program: copy(&invocation.program),
                args: copy_all(&invocation.args),
                status,
                stderr: trim(stderr),
            },
        )
    }
}

/// The environment variables set for a subprocess: no colour where the output
/// is not a terminal, ssh connections that fail in seconds unless an ssh command
/// is already set, and never a credential prompt.
pub open spec fn environment_of(stdout_is_terminal: bool, has_ssh_command: bool) -> Seq<
    (Seq<char>, Seq<char>),
> {
    (if stdout_is_terminal {
        Seq::empty()
    } else {
        seq![("NO_COLOR"@, "1"@)]
    }) + (if has_ssh_command {
        Seq::empty()
    } else {
        seq![
            (
                "GIT_SSH_COMMAND"@,
                "ssh -o ConnectTimeout=10 -o ServerAliveInterval=5 -o ServerAliveCountMax=3"@,
            ),
        ]
    }) + seq![("GIT_TERMINAL_PROMPT"@, "0"@)]
}

/// The environment variables to set for a subprocess.
pub fn environment(stdout_is_terminal: bool, has_ssh_command: bool) -> (r: Vec<(String, String)>)
    ensures
        r.deep_view() == environment_of(stdout_is_terminal, has_ssh_command),
{
    let mut out: Vec<(String, String)> = Vec::new();
    if !stdout_is_terminal {
        out.push(("NO_COLOR".to_string(), "1".to_string()));
    }
    if !has_ssh_command {
        out.push(
            (
                "GIT_SSH_COMMAND".to_string(),
                "ssh -o ConnectTimeout=10 -o ServerAliveInterval=5 -o ServerAliveCountMax=3".to_string(),
            ),
        );
    }
    out.push(("GIT_TERMINAL_PROMPT".to_string(), "0".to_string()));
    assert(out.deep_view() =~= environment_of(stdout_is_terminal, has_ssh_command));
    out
}

/// The longest pause between two looks at a running process, in milliseconds.
pub const MAX_WAIT_MS: u64 = 50;

/// What to do with a process under a time limit.
#[derive(Debug, Clone, Copy, PartialEq, Eq, Structural)]
pub enum Watch {
    /// It has ended: read its output.
    Finished,
    /// The limit has passed: kill it and give up.
    Kill,
    /// Sleep for `sleep_ms`, then look again, waiting `next_ms` the next time.
    Sleep { sleep_ms: u64, next_ms: u64 },
}

/// Decides on a process under a time limit: the pause doubles from one look to
/// the next, up to [`MAX_WAIT_MS`], and a process that has ended is never killed.
pub fn watch(ended: bool, past_deadline: bool, wait_ms: u64) -> (r: Watch)
    ensures
        r == if ended {
            Watch::Finished
        } else if past_deadline {
            Watch::Kill
        } else if 2 * wait_ms <= MAX_WAIT_MS {
            Watch::Sleep { sleep_ms: wait_ms, next_ms: (2 * wait_ms) as u64 }
        } else {
            Watch::Sleep { sleep_ms: wait_ms, next_ms: MAX_WAIT_MS }
        },
{
    if ended {
        Watch::Finished
    } else if past_deadline {
        Watch::Kill
    } else if wait_ms <= MAX_WAIT_MS / 2 {
        Watch::Sleep { sleep_ms: wait_ms, next_ms: 2 * wait_ms }
    } else {
        Watch::Sleep { sleep_ms: wait_ms, next_ms: MAX_WAIT_MS }
    }
}

/// The failure reported for a process that was killed at its time limit.
pub fn timed_out(invocation: &CommandInvocation, timeout_secs: u64) -> (r: CubeError)
    ensures
        r.deep_view() == (CubeErrorView::CommandTimedOut {
            program: invocation.program@,
            args: invocation.args.deep_view(),
            timeout_secs,
        }),
{
    CubeError::CommandTimedOut {
        program: copy(&invocation.program),
        args: copy_all(&invocation.args),
        timeout_secs,
    }
}

} // verus!
