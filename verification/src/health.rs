//! The health of a free workspace: what `jj status` says of it, and putting
//! conflicted bookmarks out of the way.

use vstd::prelude::*;

use crate::events::{AuditEvent, AuditEventView};
use crate::flow::{ask_ack, ask_flag, follows, Action, ActionView, AnswerView, Flow, Stop, Tape};
use crate::jj::{flow_run_jj, jj, run_jj, spec_jj};
use crate::paths::{path_join, spec_path_join};
use crate::split::{lines, spec_lines};
use crate::text::{
    append_to, contains, list2, list3, spec_contains, spec_starts, spec_trim, spec_trim_start,
    starts, trim, trim_start,
};

verus! {

/// What a look at a free workspace found.
#[derive(Debug, Clone, PartialEq, Eq)]
pub enum WorkspaceHealthOutcome {
    /// Ready to use as it is.
    Clean,
    /// The working copy is clean, but these bookmarks are conflicted.
    ConflictedBookmarks(Vec<String>),
    /// The working copy holds uncommitted changes.
    DirtyWorkingCopy,
    /// The directory holds neither a jj nor a git repository.
    BrokenEmpty,
}

#[verifier::ext_equal]
pub ghost enum WorkspaceHealthOutcomeView {
    Clean,
    ConflictedBookmarks(Seq<Seq<char>>),
    DirtyWorkingCopy,
    BrokenEmpty,
}

impl DeepView for WorkspaceHealthOutcome {
    type V = WorkspaceHealthOutcomeView;

    open spec fn deep_view(&self) -> WorkspaceHealthOutcomeView {
        match self {
            WorkspaceHealthOutcome::Clean => WorkspaceHealthOutcomeView::Clean,
            WorkspaceHealthOutcome::ConflictedBookmarks(v) => {
                WorkspaceHealthOutcomeView::ConflictedBookmarks(v.deep_view())
            },
            WorkspaceHealthOutcome::DirtyWorkingCopy => {
                WorkspaceHealthOutcomeView::DirtyWorkingCopy
            },
            WorkspaceHealthOutcome::BrokenEmpty => WorkspaceHealthOutcomeView::BrokenEmpty,
        }
    }
}

/// A line that opens the list of conflicted bookmarks.
pub open spec fn opens_conflicts(line: Seq<char>) -> bool {
    spec_contains(line, "These bookmarks have conflicts:"@)
}

/// The bookmarks named in the section on conflicts: the indented lines below its
/// heading, up to the advice on how to look at them, or to the first line that is blank
/// or not indented.
pub open spec fn conflicts_in(all: Seq<Seq<char>>, inside: bool) -> Seq<Seq<char>>
    decreases all.len(),
{
    if all.len() == 0 {
        Seq::empty()
    } else {
        let line = all[0];
        let rest = all.drop_first();
        if opens_conflicts(line) {
            conflicts_in(rest, true)
        } else if !inside {
            conflicts_in(rest, false)
        } else if spec_trim(line).len() == 0 || !spec_starts(line, " "@) || spec_starts(
            spec_trim(line),
            "Use `jj bookmark"@,
        ) {
            Seq::empty()
        } else {
            seq![spec_trim(line)] + conflicts_in(rest, true)
        }
    }
}

pub fn parse_conflicted_bookmarks_from_status(status: &str) -> (r: Vec<String>)
    ensures
        r.deep_view() == conflicts_in(spec_lines(status@), false),
{
    let all: Vec<String> = lines(status);
    let mut out: Vec<String> = Vec::new();
    let ghost whole = all.deep_view();
    let mut inside: bool = false;
    let mut i: usize = 0;
    assert(whole.subrange(0, whole.len() as int) =~= whole);
    assert(out.deep_view() =~= Seq::<Seq<char>>::empty());
    assert(out.deep_view() + conflicts_in(whole, false) =~= conflicts_in(whole, false));
    while i < all.len()
        invariant
            i <= all@.len(),
            whole == all.deep_view(),
            out.deep_view() + conflicts_in(whole.subrange(i as int, whole.len() as int), inside)
                == conflicts_in(whole, false),
        decreases all@.len() - i,
    {
        let ghost rest = whole.subrange(i as int, whole.len() as int);
        let ghost before = out.deep_view();
        proof {
            assert(rest[0] == all@[i as int]@);
            assert(rest.drop_first() =~= whole.subrange(i + 1, whole.len() as int));
        }
        let line: &str = all[i].as_str();
        if contains(line, "These bookmarks have conflicts:") {
            inside = true;
        } else if inside {
            let name: String = trim(line);
            if name.as_str().is_empty() || !starts(line, " ") || starts(
                name.as_str(),
                "Use `jj bookmark",
            ) {
                assert(before + Seq::<Seq<char>>::empty() =~= before);
                return out;
            }
            append_to(&mut out, name);
            assert(out.deep_view() + conflicts_in(rest.drop_first(), true) =~= before
                + conflicts_in(rest, true));
        }
        i += 1;
    }
    assert(whole.subrange(i as int, whole.len() as int) =~= Seq::<Seq<char>>::empty());
    assert(out.deep_view() + Seq::<Seq<char>>::empty() =~= out.deep_view());
    out
}

/// A line that opens the list of changed files.
pub open spec fn opens_changes(line: Seq<char>) -> bool {
    spec_starts(spec_trim_start(line), "Working copy changes:"@)
}

/// What `jj status` says: uncommitted changes weigh more than conflicts.
pub open spec fn health_of(status: Seq<char>) -> WorkspaceHealthOutcomeView {
    if exists|i: int| 0 <= i < spec_lines(status).len() && opens_changes(spec_lines(status)[i]) {
        WorkspaceHealthOutcomeView::DirtyWorkingCopy
    } else if conflicts_in(spec_lines(status), false).len() > 0 {
        WorkspaceHealthOutcomeView::ConflictedBookmarks(conflicts_in(spec_lines(status), false))
    } else {
        WorkspaceHealthOutcomeView::Clean
    }
}

/// Reads the output of `jj status`.
pub fn parse_health(status: &str) -> (r: WorkspaceHealthOutcome)
    ensures
        r.deep_view() == health_of(status@),
{
    let all: Vec<String> = lines(status);
    let mut i: usize = 0;
    while i < all.len()
        invariant
            i <= all@.len(),
            all.deep_view() == spec_lines(status@),
            forall|j: int| 0 <= j < i ==> !opens_changes(#[trigger] spec_lines(status@)[j]),
        decreases all@.len() - i,
    {
        assert(all@[i as int]@ == spec_lines(status@)[i as int]);
        let line: String = trim_start(all[i].as_str());
        if starts(line.as_str(), "Working copy changes:") {
            assert(opens_changes(spec_lines(status@)[i as int]));
            return WorkspaceHealthOutcome::DirtyWorkingCopy;
        }
        i += 1;
    }
    let conflicted: Vec<String> = parse_conflicted_bookmarks_from_status(status);
    if conflicted.len() > 0 {
        WorkspaceHealthOutcome::ConflictedBookmarks(conflicted)
    } else {
        WorkspaceHealthOutcome::Clean
    }
}

/// Whether the directory holds neither a jj nor a git repository.
pub open spec fn flow_broken_empty(t: Seq<AnswerView>, path: Seq<char>) -> Flow<bool> {
    ask_flag(t, ActionView::IsDir(spec_path_join(path, ".jj"@))).and(
        |jj: bool, t: Seq<AnswerView>|
            if jj {
                Flow::Done(false, t)
            } else {
                ask_flag(t, ActionView::IsDir(spec_path_join(path, ".git"@))).and(
                    |git: bool, t: Seq<AnswerView>| Flow::Done(!git, t),
                )
            },
    )
}

pub fn broken_empty(tape: &mut Tape, path: &str) -> (r: Result<bool, Stop>)
    ensures
        follows(r, final(tape)@, flow_broken_empty(old(tape)@, path@)),
{
    let jj: bool = tape.ask_flag(Action::IsDir(path_join(path, ".jj")))?;
    if jj {
        return Ok(false);
    }
    let git: bool = tape.ask_flag(Action::IsDir(path_join(path, ".git")))?;
    Ok(!git)
}

/// Looks a free workspace over without changing it.
pub open spec fn flow_check_health(t: Seq<AnswerView>, path: Seq<char>) -> Flow<
    WorkspaceHealthOutcomeView,
> {
    flow_broken_empty(t, path).and(
        |broken: bool, t: Seq<AnswerView>|
            if broken {
                Flow::Done(WorkspaceHealthOutcomeView::BrokenEmpty, t)
            } else {
                flow_run_jj(t, spec_jj(path, seq!["status"@, "--no-pager"@])).and(
                    |status: Seq<char>, t: Seq<AnswerView>| Flow::Done(health_of(status), t),
                )
            },
    )
}

pub fn check_workspace_health(tape: &mut Tape, path: &str) -> (r: Result<
    WorkspaceHealthOutcome,
    Stop,
>)
    ensures
        follows(r, final(tape)@, flow_check_health(old(tape)@, path@)),
{
    let broken: bool = broken_empty(tape, path)?;
    if broken {
        return Ok(WorkspaceHealthOutcome::BrokenEmpty);
    }
    let status: String = run_jj(tape, &jj(path, list2("status", "--no-pager")))?;
    Ok(parse_health(status.as_str()))
}

/// Forgets the bookmarks one after the other, each with an audit event.
pub open spec fn flow_repair(
    t: Seq<AnswerView>,
    path: Seq<char>,
    bookmarks: Seq<Seq<char>>,
) -> Flow<()>
    decreases bookmarks.len(),
{
    if bookmarks.len() == 0 {
        Flow::Done((), t)
    } else {
        ask_ack(
            t,
            ActionView::Audit(
                AuditEventView::named("workspace.bookmark_forgotten"@).text(
                    "workspace_path"@,
                    path,
                ).text("bookmark"@, bookmarks[0]),
            ),
        ).and(
            |u: (), t: Seq<AnswerView>|
                flow_run_jj(t, spec_jj(path, seq!["bookmark"@, "forget"@, bookmarks[0]])).and(
                    |o: Seq<char>, t: Seq<AnswerView>|
                        flow_repair(t, path, bookmarks.drop_first()),
                ),
        )
    }
}

pub fn repair_conflicted_bookmarks(tape: &mut Tape, path: &str, bookmarks: &Vec<String>) -> (r:
    Result<(), Stop>)
    ensures
        follows(r, final(tape)@, flow_repair(old(tape)@, path@, bookmarks.deep_view())),
{
    let ghost whole = bookmarks.deep_view();
    let ghost flow = flow_repair(tape@, path@, whole);
    let mut i: usize = 0;
    assert(whole.subrange(0, whole.len() as int) =~= whole);
    while i < bookmarks.len()
        invariant
            i <= bookmarks@.len(),
            whole == bookmarks.deep_view(),
            flow_repair(tape@, path@, whole.subrange(i as int, whole.len() as int)) == flow,
            flow == flow_repair(old(tape)@, path@, bookmarks.deep_view()),
        decreases bookmarks@.len() - i,
    {
        let name: &str = bookmarks[i].as_str();
        let ghost rest = whole.subrange(i as int, whole.len() as int);
        proof {
            assert(rest[0] == name@);
            assert(rest.drop_first() =~= whole.subrange(i + 1, whole.len() as int));
        }
        tape.ask_ack(
            Action::Audit(
                AuditEvent::named("workspace.bookmark_forgotten").text("workspace_path", path).text(
                    "bookmark",
                    name,
                ),
            ),
        )?;
        run_jj(tape, &jj(path, list3("bookmark", "forget", name)))?;
        i += 1;
    }
    Ok(())
}

} // verus!
