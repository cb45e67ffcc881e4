//! What commands are handed, and what is said of them.

use vstd::prelude::*;

use crate::app::spec_holder;
use crate::change::flow_insert_change;
use crate::cli::{CommandView, PrCommandView, RepoCommandView, WorkspaceCommandView};
use crate::command_runner::{environment_of, outcome_of, CommandInvocationView};
use crate::config::spec_config_dir;
use crate::ensure::{flow_add, new_record, RepoEnsureDefaultsView};
use crate::error::CubeErrorView;
use crate::flow::{AnswerView, Flow};
use crate::git::{github_in, github_on_line};
use crate::grammar::spec_cli;
use crate::lease::flow_finish_lease;
use crate::number::{spec_decimal, spec_signed};
use crate::paths::spec_path_join;
use crate::pr_ensure::create_args;
use crate::records::{
    steps_ran, steps_skipped, ChangeRecordView, RepoRecordView, SetupStepView, WorkspaceRecordView,
};
use crate::render::{spec_abbreviate, spec_pad_right};
use crate::report::{
    HealthCheckView, PayloadView, PrResumeInfoView, RunResultView, SpanView, Style,
    WorkspaceGcResultView,
};
use crate::text::spec_trim;
use crate::workspace::{
    flow_force_release, flow_gc, flow_heartbeat, flow_release, flow_remove, flow_set_up,
    total_forgotten,
};

verus! {

// ---------------------------------------------------------------------------
// Command lines
// ---------------------------------------------------------------------------

/// One of the two, and not both.
pub open spec fn just_one<A, B>(a: Option<A>, b: Option<B>) -> bool {
    a is Some <==> b is None
}

/// A command that gives what belongs together, and nothing that excludes another.
pub open spec fn fits(command: CommandView) -> bool {
    match command {
        CommandView::Repo { command: RepoCommandView::Ensure { reponame, origin } } => just_one(
            reponame,
            origin,
        ),
        CommandView::Workspace {
            command: WorkspaceCommandView::Lease { prefer, allow_dirty, resume_pr, .. },
        } => allow_dirty ==> prefer is Some && resume_pr is None,
        CommandView::Workspace {
            command: WorkspaceCommandView::Release { workspace, lease, .. },
        } => just_one(workspace, lease),
        CommandView::Workspace {
            command: WorkspaceCommandView::ForceRelease { workspace, lease, .. },
        } => just_one(workspace, lease),
        CommandView::Pr { command: PrCommandView::Ensure(args) } => args.body is None
            || args.body_file is None,
        CommandView::Pr { command: PrCommandView::Sync(args) } => args.root is None
            || args.change is None,
        CommandView::Pr { command: PrCommandView::Merge(args) } => args.change is None
            || args.stack is None,
        _ => true,
    }
}

/// Whatever the arguments are, a command line that is read as a command gives what
/// belongs together: a repository is ensured by name or by origin, a workspace is released
/// by name or by lease, a workspace that is taken as it is is named and resumes nothing.
pub proof fn law_commands_that_are_read_fit(args: Seq<Seq<char>>)
    ensures
        spec_cli(args) matches Some(cli) ==> fits(cli.command),
{
}

// ---------------------------------------------------------------------------
// Arguments and environment
// ---------------------------------------------------------------------------

/// `gh pr create` is handed `--draft` just where a draft was asked for.
pub proof fn law_draft_just_where_asked(
    slug: Seq<char>,
    branch: Seq<char>,
    title: Option<Seq<char>>,
    body: Option<Seq<char>>,
    body_file: Option<Seq<char>>,
    draft: bool,
)
    requires
        slug != "--draft"@,
        branch != "--draft"@,
        title != Some("--draft"@),
        body != Some("--draft"@),
        body_file != Some("--draft"@),
    ensures
        create_args(slug, branch, title, body, body_file, draft).contains("--draft"@) <==> draft,
{
    reveal_strlit("pr");
    reveal_strlit("create");
    reveal_strlit("-R");
    reveal_strlit("--head");
    reveal_strlit("--base");
    reveal_strlit("main");
    reveal_strlit("--title");
    reveal_strlit("--body");
    reveal_strlit("--body-file");
    reveal_strlit("--draft");
    let args = create_args(slug, branch, title, body, body_file, draft);
    assert("--title"@[2] == 't');
    assert("--draft"@[2] == 'd');
    if draft {
        assert(args.last() == "--draft"@);
    } else if args.contains("--draft"@) {
        let i = choose|i: int| 0 <= i < args.len() && args[i] == "--draft"@;
        assert(args[i].len() == 7);
    }
}

/// A program is told not to use colours just where nobody looks, to give up on a dead
/// connection where `ssh` was not set otherwise, and never to ask for a password.
pub proof fn law_programs_never_wait_for_anyone(stdout_is_terminal: bool, has_ssh_command: bool)
    ensures
        ({
            let env = environment_of(stdout_is_terminal, has_ssh_command);
            let ssh = "ssh -o ConnectTimeout=10 -o ServerAliveInterval=5 -o ServerAliveCountMax=3"@;
            &&& env.contains(("GIT_TERMINAL_PROMPT"@, "0"@))
            &&& env.contains(("NO_COLOR"@, "1"@)) <==> !stdout_is_terminal
            &&& env.contains(("GIT_SSH_COMMAND"@, ssh)) <==> !has_ssh_command
            &&& env.len() == 1 + (if stdout_is_terminal { 0int } else { 1 }) + (if has_ssh_command {
                0int
            } else {
                1
            })
        }),
{
    let env = environment_of(stdout_is_terminal, has_ssh_command);
    let ssh = "ssh -o ConnectTimeout=10 -o ServerAliveInterval=5 -o ServerAliveCountMax=3"@;
    reveal_strlit("GIT_TERMINAL_PROMPT");
    reveal_strlit("NO_COLOR");
    reveal_strlit("GIT_SSH_COMMAND");
    assert(env.last() == ("GIT_TERMINAL_PROMPT"@, "0"@));
    assert(env[0] == if !stdout_is_terminal {
        ("NO_COLOR"@, "1"@)
    } else if !has_ssh_command {
        ("GIT_SSH_COMMAND"@, ssh)
    } else {
        ("GIT_TERMINAL_PROMPT"@, "0"@)
    });
    if !stdout_is_terminal && !has_ssh_command {
        assert(env[1] == ("GIT_SSH_COMMAND"@, ssh));
    }
    if env.contains(("NO_COLOR"@, "1"@)) {
        let i = choose|i: int| 0 <= i < env.len() && env[i] == ("NO_COLOR"@, "1"@);
        assert(env[i].0.len() == 8);
    }
    if env.contains(("GIT_SSH_COMMAND"@, ssh)) {
        let i = choose|i: int| 0 <= i < env.len() && env[i] == ("GIT_SSH_COMMAND"@, ssh);
        assert(env[i].0.len() == 15);
    }
}

/// A program that succeeds gives what it printed, and one that fails what it complained
/// of, both without the white space around them.
pub proof fn law_outcome_of_a_program(
    program: Seq<char>,
    args: Seq<Seq<char>>,
    cwd: Seq<char>,
    status: Option<i32>,
    stdout: Seq<char>,
    stderr: Seq<char>,
)
    ensures
        ({
            let run = CommandInvocationView { cwd, program, args };
            &&& outcome_of(run, true, status, stdout, stderr) == Ok::<Seq<char>, CubeErrorView>(
                spec_trim(stdout),
            )
            &&& outcome_of(run, false, status, stdout, stderr) == Err::<Seq<char>, CubeErrorView>(
                CubeErrorView::CommandFailed { program, args, status, stderr: spec_trim(stderr) },
            )
        }),
{
}

/// A lease is held by the user on the host, in the process.
pub proof fn law_holder_names_user_host_and_process(user: Seq<char>, host: Seq<char>, pid: u32)
    ensures
        spec_holder(Some(user), Some(host), pid) == user + "@"@ + host + ":"@ + spec_decimal(
            pid as nat,
        ),
        spec_holder(None, Some(host), pid) == spec_holder(Some("unknown"@), Some(host), pid),
        spec_holder(Some(user), None, pid) == spec_holder(Some(user), Some("localhost"@), pid),
        spec_holder(None, None, pid) == spec_holder(Some("unknown"@), Some("localhost"@), pid),
{
}

/// The configuration is where the user set it, else under the usual place for
/// configurations, else under the home.
pub proof fn law_configuration_is_found(
    own: Seq<char>,
    usual: Seq<char>,
    home: Seq<char>,
    any: Option<Seq<char>>,
    other: Option<Seq<char>>,
)
    ensures
        spec_config_dir(Some(own), any, other) == Some(own),
        spec_config_dir(None, Some(usual), any) == Some(spec_path_join(usual, "cube"@)),
        spec_config_dir(None, None, Some(home)) == Some(
            spec_path_join(spec_path_join(home, ".config"@), "cube"@),
        ),
        spec_config_dir(None, None, None) is None,
{
}

/// A name below a directory stands behind it, with one slash between them; an absolute
/// path stands for itself.
pub proof fn law_paths_are_joined_by_a_slash(base: Seq<char>, part: Seq<char>)
    ensures
        part.len() > 0 && part[0] == '/' ==> spec_path_join(base, part) == part,
        base.len() > 0 && base.last() != '/' && (part.len() == 0 || part[0] != '/')
            ==> spec_path_join(base, part) == base.push('/') + part,
        base.len() > 0 && base.last() == '/' && (part.len() == 0 || part[0] != '/')
            ==> spec_path_join(base, part) == base + part,
        base.len() == 0 ==> spec_path_join(base, part) == part,
{
    reveal_strlit("/");
    assert(base + "/"@ + part =~= base.push('/') + part);
    assert(base.len() == 0 ==> base + part =~= part);
}

/// A repository that is new stands under its own name, on `main`, and its workspaces and
/// its clone are named after it.
pub proof fn law_new_repo_is_named_after_its_id(
    id: Seq<char>,
    origin: Seq<char>,
    clone_command: Option<Seq<char>>,
    repo_root: Seq<char>,
    workspace_root: Seq<char>,
)
    ensures
        ({
            let record = new_record(
                id,
                origin,
                clone_command,
                RepoEnsureDefaultsView { repo_root, workspace_root },
            );
            &&& record.repo == id
            &&& record.origin == origin
            &&& record.clone_command == clone_command
            &&& record.main_branch == "main"@
            &&& record.workspace_root == workspace_root
            &&& record.workspace_prefix == id + "-agent-"@
            &&& record.source == Some(spec_path_join(repo_root, id))
        }),
{
}

/// Of the remotes, the first that is on GitHub is taken.
pub proof fn law_first_github_remote_is_taken(lines: Seq<Seq<char>>, i: int)
    requires
        0 <= i < lines.len(),
        github_on_line(lines[i]) is Some,
        forall|j: int| 0 <= j < i ==> github_on_line(#[trigger] lines[j]) is None,
    ensures
        github_in(lines) == github_on_line(lines[i]),
    decreases i,
{
    if i > 0 {
        let rest = lines.drop_first();
        assert(github_on_line(lines[0]) is None);
        assert forall|j: int| 0 <= j < i - 1 implies github_on_line(#[trigger] rest[j]) is None by {
            assert(rest[j] == lines[j + 1]);
        }
        law_first_github_remote_is_taken(rest, i - 1);
    }
}

// ---------------------------------------------------------------------------
// Counts and columns
// ---------------------------------------------------------------------------

/// Each step that ran, and each that was skipped, is counted once.
pub proof fn law_steps_are_counted(steps: Seq<SetupStepView>, step: SetupStepView)
    ensures
        steps_ran(Seq::empty()) == 0,
        steps_skipped(Seq::empty()) == 0,
        steps_ran(steps.push(step)) == steps_ran(steps) + (if step.status is Ran { 1nat } else { 0
        }),
        steps_skipped(steps.push(step)) == steps_skipped(steps) + (if step.status is Skipped {
            1nat
        } else {
            0
        }),
{
    assert(steps.push(step).drop_last() =~= steps);
}

/// Each bookmark that was forgotten is counted once.
pub proof fn law_forgotten_bookmarks_are_counted(
    results: Seq<WorkspaceGcResultView>,
    result: WorkspaceGcResultView,
)
    ensures
        total_forgotten(Seq::empty()) == 0,
        total_forgotten(results.push(result)) == total_forgotten(results)
            + result.bookmarks_forgotten.len(),
{
    assert(results.push(result).drop_last() =~= results);
}

/// A text in a column is the text with spaces behind it, as wide as the column or as it
/// is.
pub proof fn law_columns_are_filled_with_spaces(s: Seq<char>, width: nat)
    ensures
        spec_pad_right(s, width).len() == if s.len() < width {
            width
        } else {
            s.len()
        },
        spec_pad_right(s, width).subrange(0, s.len() as int) == s,
        forall|i: int|
            s.len() <= i < spec_pad_right(s, width).len() ==> spec_pad_right(s, width)[i] == ' ',
    decreases width - s.len(),
{
    let padded = spec_pad_right(s, width);
    if s.len() < width {
        let next = s.push(' ');
        law_columns_are_filled_with_spaces(next, width);
        assert(padded.subrange(0, s.len() as int) =~= s) by {
            assert forall|i: int| 0 <= i < s.len() implies padded[i] == s[i] by {
                assert(padded.subrange(0, next.len() as int)[i] == next[i]);
            }
        }
        assert(padded[s.len() as int] == ' ') by {
            assert(padded.subrange(0, next.len() as int)[s.len() as int] == ' ');
        }
    } else {
        assert(padded.subrange(0, s.len() as int) =~= s);
    }
}

/// The home in front of a path is written as a tilde, where the path goes on behind a
/// slash or ends there.
pub proof fn law_home_is_a_tilde(home: Seq<char>, rest: Seq<char>)
    requires
        home.len() > 0,
    ensures
        spec_abbreviate(home, Some(home)) == "~"@,
        rest.len() > 0 && rest[0] == '/' ==> spec_abbreviate(home + rest, Some(home)) == "~"@
            + rest,
        rest.len() > 0 && rest[0] != '/' ==> spec_abbreviate(home + rest, Some(home)) == home
            + rest,
        spec_abbreviate(rest, None) == rest,
{
    reveal_strlit("/");
    let path = home + rest;
    assert(path.subrange(0, home.len() as int) =~= home);
    assert(path.subrange(home.len() as int, path.len() as int) =~= rest);
    if rest.len() > 0 {
        assert(path.len() > home.len());
        assert(rest.subrange(0, 1)[0] == rest[0]);
        if rest[0] == '/' {
            assert(rest.subrange(0, 1) =~= "/"@);
        }
    }
}

// ---------------------------------------------------------------------------
// Messages
// ---------------------------------------------------------------------------

/// A procedure that ends with a result says the line.
pub open spec fn says(flow: Flow<RunResultView>, line: spec_fn(PayloadView) -> Seq<char>) -> bool {
    flow matches Flow::Done(r, rest) ==> r.message == seq![
        SpanView { style: Style::Plain, text: line(r.payload) },
    ]
}

/// The message of a release names the workspace, and tells where its tree was kept.
pub proof fn law_release_says_what_was_released(
    t: Seq<AnswerView>,
    workspace: Option<Seq<char>>,
    lease: Option<Seq<char>>,
    repo: Option<Seq<char>>,
    reason: Option<Seq<char>>,
    keep_dirty: bool,
)
    ensures
        says(
            flow_release(t, workspace, lease, repo, reason, keep_dirty),
            |payload: PayloadView|
                "Released "@ + payload->Workspace_0.workspace_id + (if keep_dirty {
                    " (kept dirty)."@
                } else {
                    "."@
                }),
        ),
{
}

/// The message of a forced release names the workspace.
pub proof fn law_forced_release_says_what_was_released(
    t: Seq<AnswerView>,
    workspace: Option<Seq<char>>,
    lease: Option<Seq<char>>,
    repo: Option<Seq<char>>,
    reason: Option<Seq<char>>,
)
    ensures
        says(
            flow_force_release(t, workspace, lease, repo, reason),
            |payload: PayloadView|
                "Force-released "@ + payload->Workspace_0.workspace_id
                    + " (workspace not reset)."@,
        ),
{
}

/// The message of a heartbeat names the lease, when it runs out now and in how many
/// seconds that is: as many as were asked for, or half an hour.
pub proof fn law_heartbeat_says_when_the_lease_runs_out(
    t: Seq<AnswerView>,
    lease: Seq<char>,
    ttl_seconds: Option<u64>,
)
    requires
        ttl_seconds matches Some(s) ==> s <= i64::MAX,
    ensures
        ({
            let ttl = match ttl_seconds {
                Some(s) => s as int,
                None => 1800,
            };
            flow_heartbeat(t, lease, ttl_seconds) matches Flow::Done(r, _) ==> t.len() > 0
                && t[0] is Time && r.message == seq![
                SpanView {
                    style: Style::Plain,
                    text: "Heartbeat lease "@ + lease + "; new expiry "@ + spec_signed(
                        if t[0]->Time_0 + ttl > i64::MAX {
                            i64::MAX as int
                        } else {
                            t[0]->Time_0 + ttl
                        },
                    ) + " (in "@ + spec_signed(ttl) + "s)."@,
                },
            ]
        }),
{
}

/// The message of a removal names the workspace, and tells whether its directory is still
/// there.
pub proof fn law_removal_says_where_the_directory_is(
    t: Seq<AnswerView>,
    id: Seq<char>,
    repo: Option<Seq<char>>,
    force: bool,
    expunge: bool,
)
    ensures
        says(
            flow_remove(t, id, repo, force, expunge),
            |payload: PayloadView|
                {
                    let w = payload->Removed_workspace;
                    if expunge {
                        "Removed "@ + w.repo + "/"@ + w.workspace_id
                            + " from the registry and deleted workspace directory at "@
                            + w.workspace_path + "."@
                    } else {
                        "Removed "@ + w.repo + "/"@ + w.workspace_id
                            + " from the registry (workspace directory left intact at "@
                            + w.workspace_path + ")."@
                    }
                },
        ),
{
}

/// The message of a setup counts the steps, where there are any.
pub proof fn law_setup_says_how_many_steps_ran(t: Seq<AnswerView>, path: Seq<char>)
    ensures
        says(
            flow_set_up(t, path),
            |payload: PayloadView|
                {
                    let id = payload->Setup_workspace.workspace_id;
                    let steps = payload->Setup_setup;
                    if steps.len() == 0 {
                        "No setup steps are configured for "@ + id + "."@
                    } else {
                        "Setup complete for "@ + id + ": "@ + (spec_decimal(steps_ran(steps))
                            + " ran, "@ + spec_decimal(steps_skipped(steps)) + " skipped."@)
                    }
                },
        ),
{
}

/// The message of a cleanup counts the workspaces and the bookmarks.
pub proof fn law_cleanup_says_how_many_bookmarks_went(
    t: Seq<AnswerView>,
    id: Option<Seq<char>>,
    dry_run: bool,
)
    ensures
        says(
            flow_gc(t, id, dry_run),
            |payload: PayloadView|
                {
                    let results = payload->Gc_0;
                    spec_decimal(results.len()) + " workspace(s): "@ + spec_decimal(
                        total_forgotten(results),
                    ) + (if dry_run {
                        " bookmark(s) would be forgotten (dry-run)."@
                    } else {
                        " bookmark(s) forgotten."@
                    })
                },
        ),
{
}

/// The message of a lease goes on with its setup, where there is one.
pub proof fn law_lease_says_how_many_steps_ran(
    t: Seq<AnswerView>,
    head: Seq<char>,
    w: WorkspaceRecordView,
    checks: Seq<HealthCheckView>,
    resume: Option<PrResumeInfoView>,
)
    ensures
        says(
            flow_finish_lease(t, head, w, checks, resume),
            |payload: PayloadView|
                {
                    let steps = payload->Lease_setup;
                    if steps.len() == 0 {
                        head
                    } else {
                        head + " Setup: "@ + (spec_decimal(steps_ran(steps)) + " ran, "@
                            + spec_decimal(steps_skipped(steps)) + " skipped."@)
                    }
                },
        ),
{
}

/// A new change and a new repository are named.
pub proof fn law_new_records_are_named(
    t: Seq<AnswerView>,
    change: ChangeRecordView,
    repo: RepoRecordView,
)
    ensures
        says(
            flow_insert_change(t, change),
            |payload: PayloadView| "Created change `"@ + payload->Change_0.change_id + "`."@,
        ),
        says(
            flow_add(t, repo),
            |payload: PayloadView| "Registered repo `"@ + payload->Repo_0.repo + "`."@,
        ),
{
}

} // verus!
