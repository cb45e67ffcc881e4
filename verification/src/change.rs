//! The commands on changes.

use vstd::prelude::*;

use crate::cli::{ChangeCommand, ChangeCommandView, ChangeCreateArgs, ChangeCreateArgsView};
use crate::error::{CubeError, CubeErrorView};
use crate::flow::{
    ask_change, ask_name, ask_place, ask_saved, ask_time, follows, Action, ActionView, AnswerView,
    Flow, Stop, Tape,
};
use crate::jj::{flow_run_jj, jj, run_jj, spec_jj};
use crate::records::{ChangeRecord, ChangeRecordView, WorkspaceRecord, WorkspaceRecordView};
use crate::render::{human_change_detail, spec_change_detail};
use crate::report::{spec_result, Payload, PayloadView, RunResult, RunResultView, Span};
use crate::reset::{
    current_change_identity, flow_current_change, ChangeIdentity, ChangeIdentityView,
};
use crate::text::{cat, copy, copy_opt, from_chars, list3, list4, to_chars};
use crate::workspace::{flow_known_workspace, known_workspace};

verus! {

/// The change with this id, or the failure that there is none.
pub open spec fn flow_known_change(t: Seq<AnswerView>, id: Seq<char>) -> Flow<ChangeRecordView> {
    ask_change(t, ActionView::GetChange(id)).and(
        |found: Option<ChangeRecordView>, t: Seq<AnswerView>|
            match found {
                Some(c) => Flow::Done(c, t),
                None => Flow::Failed(CubeErrorView::ChangeNotFound(id), t),
            },
    )
}

fn known_change(tape: &mut Tape, id: &str) -> (r: Result<ChangeRecord, Stop>)
    ensures
        follows(r, final(tape)@, flow_known_change(old(tape)@, id@)),
{
    match tape.ask_change(Action::GetChange(id.to_string()))? {
        Some(c) => Ok(c),
        None => Err(Stop::Fail(CubeError::ChangeNotFound(id.to_string()))),
    }
}

/// `s` without its hyphens.
pub open spec fn without_hyphens(s: Seq<char>) -> Seq<char>
    decreases s.len(),
{
    if s.len() == 0 {
        Seq::empty()
    } else if s.last() == '-' {
        without_hyphens(s.drop_last())
    } else {
        without_hyphens(s.drop_last()).push(s.last())
    }
}

/// The id of a new change, from a fresh identifier.
pub open spec fn spec_change_id(fresh: Seq<char>) -> Seq<char> {
    "chg_"@ + without_hyphens(fresh)
}

pub fn change_id(fresh: &str) -> (r: String)
    ensures
        r@ == spec_change_id(fresh@),
{
    let v: Vec<char> = to_chars(fresh);
    let mut out: Vec<char> = Vec::new();
    let mut i: usize = 0;
    while i < v.len()
        invariant
            i <= v@.len(),
            v@ == fresh@,
            out@ == without_hyphens(fresh@.subrange(0, i as int)),
        decreases v@.len() - i,
    {
        proof {
            assert(fresh@.subrange(0, i + 1).last() == v@[i as int]);
            assert(fresh@.subrange(0, i + 1).drop_last() =~= fresh@.subrange(0, i as int));
        }
        if v[i] != '-' {
            out.push(v[i]);
        }
        i += 1;
    }
    assert(fresh@.subrange(0, i as int) =~= fresh@);
    cat("chg_".to_string(), from_chars(out.as_slice()).as_str())
}

/// A new change, with what `jj` says of the working-copy commit.
pub open spec fn flow_describe_change(
    t: Seq<AnswerView>,
    repo: Seq<char>,
    path: Seq<char>,
    parent: Option<Seq<char>>,
    title: Seq<char>,
) -> Flow<ChangeRecordView> {
    flow_current_change(t, path).and(
        |identity: ChangeIdentityView, t: Seq<AnswerView>|
            ask_name(t, ActionView::FreshId).and(
                |fresh: Seq<char>, t: Seq<AnswerView>|
                    ask_time(t, ActionView::Clock).and(
                        |now: i64, t: Seq<AnswerView>|
                            Flow::Done(
                                ChangeRecordView {
                                    change_id: spec_change_id(fresh),
                                    repo,
                                    workspace_path: path,
                                    parent_change_id: parent,
                                    title,
                                    jj_change_id: identity.jj_change_id,
                                    head_commit: identity.head_commit,
                                    created_at_epoch_s: now,
                                },
                                t,
                            ),
                    ),
            ),
    )
}

/// Stores a new change.
pub open spec fn flow_insert_change(t: Seq<AnswerView>, change: ChangeRecordView) -> Flow<
    RunResultView,
> {
    ask_change(t, ActionView::InsertChange(change)).and(
        |stored: Option<ChangeRecordView>, t: Seq<AnswerView>|
            {
                let c = match stored {
                    Some(c) => c,
                    None => change,
                };
                Flow::Done(
                    spec_result(
                        "Created change `"@ + c.change_id + "`."@,
                        PayloadView::Change(c),
                    ),
                    t,
                )
            },
    )
}

fn copy_change(c: &ChangeRecord) -> (r: ChangeRecord)
    ensures
        r.deep_view() == c.deep_view(),
{
    ChangeRecord {
        change_id: copy(&c.change_id),
        repo: copy(&c.repo),
        workspace_path: copy(&c.workspace_path),
        parent_change_id: copy_opt(&c.parent_change_id),
        title: copy(&c.title),
        jj_change_id: copy(&c.jj_change_id),
        head_commit: copy(&c.head_commit),
        created_at_epoch_s: c.created_at_epoch_s,
    }
}

fn describe_change(
    tape: &mut Tape,
    repo: String,
    path: String,
    parent: Option<String>,
    title: String,
) -> (r: Result<ChangeRecord, Stop>)
    ensures
        follows(
            r,
            final(tape)@,
            flow_describe_change(old(tape)@, repo@, path@, parent.deep_view(), title@),
        ),
{
    let identity: ChangeIdentity = current_change_identity(tape, path.as_str())?;
    let fresh: String = tape.ask_name(Action::FreshId)?;
    let now: i64 = tape.ask_time(Action::Clock)?;
    Ok(
        ChangeRecord {
            change_id: change_id(fresh.as_str()),
            repo,
            workspace_path: path,
            parent_change_id: parent,
            title,
            jj_change_id: identity.jj_change_id,
            head_commit: identity.head_commit,
            created_at_epoch_s: now,
        },
    )
}

fn insert_change(tape: &mut Tape, change: ChangeRecord) -> (r: Result<RunResult, Stop>)
    ensures
        follows(r, final(tape)@, flow_insert_change(old(tape)@, change.deep_view())),
{
    let stored: ChangeRecord = match tape.ask_change(Action::InsertChange(copy_change(&change)))? {
        Some(c) => c,
        None => change,
    };
    let message: String = cat(
        cat("Created change `".to_string(), stored.change_id.as_str()),
        "`.",
    );
    Ok(RunResult::new(message, Payload::Change(stored)))
}

/// Creates a change in a workspace: the working-copy commit gets the title.
pub open spec fn flow_create_in(t: Seq<AnswerView>, workspace: Seq<char>, title: Seq<char>) -> Flow<
    ChangeRecordView,
> {
    flow_known_workspace(t, workspace).and(
        |w: WorkspaceRecordView, t: Seq<AnswerView>|
            flow_run_jj(t, spec_jj(workspace, seq!["describe"@, "-m"@, title])).and(
                |o: Seq<char>, t: Seq<AnswerView>|
                    flow_describe_change(t, w.repo, workspace, None, title),
            ),
    )
}

/// Creates a change on top of another: a new commit gets the title.
pub open spec fn flow_create_on(t: Seq<AnswerView>, parent: Seq<char>, title: Seq<char>) -> Flow<
    ChangeRecordView,
> {
    flow_known_change(t, parent).and(
        |p: ChangeRecordView, t: Seq<AnswerView>|
            flow_known_change(t, p.change_id).and(
                |again: ChangeRecordView, t: Seq<AnswerView>|
                    flow_run_jj(
                        t,
                        spec_jj(p.workspace_path, seq!["new"@, again.jj_change_id, "-m"@, title]),
                    ).and(
                        |o: Seq<char>, t: Seq<AnswerView>|
                            flow_describe_change(
                                t,
                                p.repo,
                                p.workspace_path,
                                Some(p.change_id),
                                title,
                            ),
                    ),
            ),
    )
}

/// Starts a change, in a workspace or on top of another change, up to the record that
/// is to be stored.
pub open spec fn flow_new_change(t: Seq<AnswerView>, args: ChangeCreateArgsView) -> Flow<
    ChangeRecordView,
> {
    match (args.workspace, args.parent) {
        (Some(_), Some(_)) => Flow::Failed(
            CubeErrorView::InvalidArgument(
                "change create accepts either --workspace or --parent, not both"@,
            ),
            t,
        ),
        (None, None) => Flow::Failed(
            CubeErrorView::InvalidArgument("change create requires --workspace or --parent"@),
            t,
        ),
        (Some(workspace), None) => flow_create_in(t, workspace, args.title),
        (None, Some(parent)) => flow_create_on(t, parent, args.title),
    }
}

/// Creates a change and stores it.
pub open spec fn flow_create(t: Seq<AnswerView>, args: ChangeCreateArgsView) -> Flow<
    RunResultView,
> {
    flow_new_change(t, args).and(
        |change: ChangeRecordView, t: Seq<AnswerView>| flow_insert_change(t, change),
    )
}

fn new_change(tape: &mut Tape, args: ChangeCreateArgs) -> (r: Result<ChangeRecord, Stop>)
    ensures
        follows(r, final(tape)@, flow_new_change(old(tape)@, args.deep_view())),
{
    match (args.workspace, args.parent) {
        (Some(_), Some(_)) => Err(
            Stop::Fail(
                CubeError::InvalidArgument(
                    "change create accepts either --workspace or --parent, not both".to_string(),
                ),
            ),
        ),
        (None, None) => Err(
            Stop::Fail(
                CubeError::InvalidArgument(
                    "change create requires --workspace or --parent".to_string(),
                ),
            ),
        ),
        (Some(workspace), None) => {
            let w: WorkspaceRecord = known_workspace(tape, workspace.as_str())?;
            run_jj(
                tape,
                &jj(workspace.as_str(), list3("describe", "-m", args.title.as_str())),
            )?;
            describe_change(tape, w.repo, workspace, None, args.title)
        },
        (None, Some(parent)) => {
            let p: ChangeRecord = known_change(tape, parent.as_str())?;
            let again: ChangeRecord = known_change(tape, p.change_id.as_str())?;
            run_jj(
                tape,
                &jj(
                    p.workspace_path.as_str(),
                    list4("new", again.jj_change_id.as_str(), "-m", args.title.as_str()),
                ),
            )?;
            describe_change(tape, p.repo, p.workspace_path, Some(p.change_id), args.title)
        },
    }
}

/// Shows a change.
pub open spec fn flow_change_info(t: Seq<AnswerView>, id: Seq<char>) -> Flow<RunResultView> {
    flow_known_change(t, id).and(
        |c: ChangeRecordView, t: Seq<AnswerView>|
            ask_place(t, ActionView::HomeDir).and(
                |home: Option<Seq<char>>, t: Seq<AnswerView>|
                    Flow::Done(
                        RunResultView {
                            message: spec_change_detail(c, home),
                            payload: PayloadView::Change(c),
                        },
                        t,
                    ),
            ),
    )
}

pub open spec fn flow_change(t: Seq<AnswerView>, command: ChangeCommandView) -> Flow<
    RunResultView,
> {
    ask_saved(t, ActionView::OpenStore).and(
        |u: (), t: Seq<AnswerView>|
            match command {
                ChangeCommandView::Create(args) => flow_create(t, args),
                ChangeCommandView::Checkout { change } => Flow::Failed(
                    CubeErrorView::NotImplemented(
                        "change command `checkout` is not implemented yet for `"@ + change + "`"@,
                    ),
                    t,
                ),
                ChangeCommandView::Info { change } => flow_change_info(t, change),
            },
    )
}

pub fn run_change(tape: &mut Tape, command: ChangeCommand) -> (r: Result<RunResult, Stop>)
    ensures
        follows(r, final(tape)@, flow_change(old(tape)@, command.deep_view())),
{
    tape.ask_saved(Action::OpenStore)?;
    match command {
        ChangeCommand::Create(args) => {
            let change: ChangeRecord = new_change(tape, args)?;
            insert_change(tape, change)
        },
        ChangeCommand::Checkout { change } => Err(
            Stop::Fail(
                CubeError::NotImplemented(
                    cat(
                        cat(
                            "change command `checkout` is not implemented yet for `".to_string(),
                            change.as_str(),
                        ),
                        "`",
                    ),
                ),
            ),
        ),
        ChangeCommand::Info { change } => {
            let c: ChangeRecord = known_change(tape, change.as_str())?;
            let home: Option<String> = tape.ask_place(Action::HomeDir)?;
            let message: Vec<Span> = human_change_detail(&c, &home);
            Ok(RunResult { message, payload: Payload::Change(c) })
        },
    }
}

} // verus!
