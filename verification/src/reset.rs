//! Putting a workspace back on its default branch, without destroying work that
//! somebody may still need.

use vstd::prelude::*;

use crate::error::{CubeError, CubeErrorView};
use crate::events::{AuditEvent, AuditEventView};
use crate::flow::{ask_ack, follows, Action, ActionView, AnswerView, Flow, Stop, Tape};
use crate::jj::{flow_run_jj, is_unresolved, is_unresolved_remote_target, jj, run_jj, spec_jj};
use crate::records::{ExpiredLease, ExpiredLeaseView};
use crate::split::{lines, spec_lines, spec_split, split};
use crate::text::{
    cat, chain, copy, copy_opt, list1, list2, list3, list4, same, spec_trim, trim,
};

verus! {

// ---------------------------------------------------------------------------
// Where the working copy stands
// ---------------------------------------------------------------------------

/// The working-copy commit of a workspace, as far as is needed to tell a fresh
/// checkout of the default branch from work that somebody left.
#[derive(Debug, Clone, PartialEq, Eq)]
pub struct HeadStatus {
    pub head_change_id: String,
    pub head_is_empty: bool,
    pub head_parent_bookmarks: String,
    pub is_clean_on_main: bool,
}

#[verifier::ext_equal]
pub ghost struct HeadStatusView {
    pub head_change_id: Seq<char>,
    pub head_is_empty: bool,
    pub head_parent_bookmarks: Seq<char>,
    pub is_clean_on_main: bool,
}

impl DeepView for HeadStatus {
    type V = HeadStatusView;

    open spec fn deep_view(&self) -> HeadStatusView {
        HeadStatusView {
            head_change_id: self.head_change_id@,
            head_is_empty: self.head_is_empty,
            head_parent_bookmarks: self.head_parent_bookmarks@,
            is_clean_on_main: self.is_clean_on_main,
        }
    }
}

/// `true` in letters of either case.
pub open spec fn says_true(s: Seq<char>) -> bool {
    &&& s.len() == 4
    &&& s[0] == 't' || s[0] == 'T'
    &&& s[1] == 'r' || s[1] == 'R'
    &&& s[2] == 'u' || s[2] == 'U'
    &&& s[3] == 'e' || s[3] == 'E'
}

/// One of the names in `list` is `name`: the list separates parents by semicolons
/// and the bookmarks of one parent by commas.
pub open spec fn lists_bookmark(list: Seq<char>, name: Seq<char>) -> bool {
    exists|i: int, j: int|
        0 <= i < spec_split(list, ';').len() && 0 <= j < spec_split(
            spec_split(list, ';')[i],
            ',',
        ).len() && spec_trim(#[trigger] spec_split(spec_split(list, ';')[i], ',')[j]) == name
}

/// Reads change id, emptiness and parent bookmarks from tab-separated output; an
/// empty commit on top of the default branch is clean.
pub open spec fn head_status_of(output: Seq<char>, main_branch: Seq<char>) -> HeadStatusView {
    let fields = spec_split(spec_trim(output), '\t');
    let empty = fields.len() > 1 && says_true(fields[1]);
    let bookmarks = if fields.len() > 2 {
        fields[2]
    } else {
        ""@
    };
    HeadStatusView {
        head_change_id: fields[0],
        head_is_empty: empty,
        head_parent_bookmarks: bookmarks,
        is_clean_on_main: empty && lists_bookmark(bookmarks, main_branch),
    }
}

fn is_true(s: &str) -> (r: bool)
    ensures
        r == says_true(s@),
{
    s.unicode_len() == 4 && (s.get_char(0) == 't' || s.get_char(0) == 'T') && (s.get_char(1) == 'r'
        || s.get_char(1) == 'R') && (s.get_char(2) == 'u' || s.get_char(2) == 'U') && (s.get_char(3)
        == 'e' || s.get_char(3) == 'E')
}

fn has_bookmark(list: &str, name: &str) -> (r: bool)
    ensures
        r == lists_bookmark(list@, name@),
{
    let parents: Vec<String> = split(list, ';');
    let mut i: usize = 0;
    while i < parents.len()
        invariant
            i <= parents@.len(),
            parents.deep_view() == spec_split(list@, ';'),
            forall|a: int, b: int|
                0 <= a < i && 0 <= b < spec_split(spec_split(list@, ';')[a], ',').len()
                    ==> spec_trim(#[trigger] spec_split(spec_split(list@, ';')[a], ',')[b])
                    != name@,
        decreases parents@.len() - i,
    {
        let names: Vec<String> = split(parents[i].as_str(), ',');
        assert(parents@[i as int]@ == spec_split(list@, ';')[i as int]);
        let mut j: usize = 0;
        while j < names.len()
            invariant
                j <= names@.len(),
                names.deep_view() == spec_split(spec_split(list@, ';')[i as int], ','),
                forall|b: int|
                    0 <= b < j ==> spec_trim(
                        #[trigger] spec_split(spec_split(list@, ';')[i as int], ',')[b],
                    ) != name@,
            decreases names@.len() - j,
        {
            let one: String = trim(names[j].as_str());
            assert(names@[j as int]@ == names.deep_view()[j as int]);
            if same(one.as_str(), name) {
                return true;
            }
            j += 1;
        }
        i += 1;
    }
    false
}

proof fn lemma_split_nonempty(s: Seq<char>, c: char)
    ensures
        spec_split(s, c).len() > 0,
{
}

/// Reads what `jj log` printed of the working-copy commit.
pub fn parse_head_status(output: &str, main_branch: &str) -> (r: HeadStatus)
    ensures
        r.deep_view() == head_status_of(output@, main_branch@),
{
    let trimmed: String = trim(output);
    let fields: Vec<String> = split(trimmed.as_str(), '\t');
    proof {
        lemma_split_nonempty(trimmed@, '\t');
        assert(fields.deep_view()[0] == fields@[0]@);
        assert(fields@.len() > 1 ==> fields.deep_view()[1] == fields@[1]@);
        assert(fields@.len() > 2 ==> fields.deep_view()[2] == fields@[2]@);
    }
    let empty: bool = fields.len() > 1 && is_true(fields[1].as_str());
    let bookmarks: String = if fields.len() > 2 {
        copy(&fields[2])
    } else {
        "".to_string()
    };
    let clean: bool = empty && has_bookmark(bookmarks.as_str(), main_branch);
    HeadStatus {
        head_change_id: copy(&fields[0]),
        head_is_empty: empty,
        head_parent_bookmarks: bookmarks,
        is_clean_on_main: clean,
    }
}

/// Arguments of `jj log` for the working-copy commit, printed by `template`.
pub open spec fn spec_log_head(template: Seq<char>) -> Seq<Seq<char>> {
    seq!["log"@, "--no-graph"@, "-r"@, "@"@] + seq!["-T"@, template]
}

pub fn log_head(template: &str) -> (r: Vec<String>)
    ensures
        r.deep_view() == spec_log_head(template@),
{
    chain(list4("log", "--no-graph", "-r", "@"), list2("-T", template))
}

pub open spec fn flow_read_head_status(
    t: Seq<AnswerView>,
    path: Seq<char>,
    main_branch: Seq<char>,
) -> Flow<HeadStatusView> {
    flow_run_jj(
        t,
        spec_jj(
            path,
            spec_log_head(
                "change_id ++ \"\\t\" ++ empty ++ \"\\t\" ++ parents.map(|p| p.bookmarks().join(\",\")).join(\";\")"@,
            ),
        ),
    ).and(
        |output: Seq<char>, t: Seq<AnswerView>|
            Flow::Done(head_status_of(output, main_branch), t),
    )
}

pub fn read_head_status(tape: &mut Tape, path: &str, main_branch: &str) -> (r: Result<
    HeadStatus,
    Stop,
>)
    ensures
        follows(r, final(tape)@, flow_read_head_status(old(tape)@, path@, main_branch@)),
{
    let output: String = run_jj(
        tape,
        &jj(
            path,
            log_head(
                "change_id ++ \"\\t\" ++ empty ++ \"\\t\" ++ parents.map(|p| p.bookmarks().join(\",\")).join(\";\")",
            ),
        ),
    )?;
    Ok(parse_head_status(output.as_str(), main_branch))
}

/// The short id of the working-copy commit.
pub open spec fn flow_current_commit(t: Seq<AnswerView>, path: Seq<char>) -> Flow<Seq<char>> {
    flow_run_jj(t, spec_jj(path, spec_log_head("commit_id.short()"@)))
}

pub fn current_workspace_commit(tape: &mut Tape, path: &str) -> (r: Result<String, Stop>)
    ensures
        follows(r, final(tape)@, flow_current_commit(old(tape)@, path@)),
{
    run_jj(tape, &jj(path, log_head("commit_id.short()")))
}

/// A change and the commit it is at.
#[derive(Debug, Clone, PartialEq, Eq)]
pub struct ChangeIdentity {
    pub jj_change_id: String,
    pub head_commit: String,
}

#[verifier::ext_equal]
pub ghost struct ChangeIdentityView {
    pub jj_change_id: Seq<char>,
    pub head_commit: Seq<char>,
}

impl DeepView for ChangeIdentity {
    type V = ChangeIdentityView;

    open spec fn deep_view(&self) -> ChangeIdentityView {
        ChangeIdentityView { jj_change_id: self.jj_change_id@, head_commit: self.head_commit@ }
    }
}

/// The lines, without the whitespace round them and without those that hold
/// nothing else.
pub open spec fn filled_lines(all: Seq<Seq<char>>) -> Seq<Seq<char>>
    decreases all.len(),
{
    if all.len() == 0 {
        Seq::empty()
    } else {
        let line = spec_trim(all[0]);
        let rest = filled_lines(all.drop_first());
        if line.len() == 0 {
            rest
        } else {
            seq![line] + rest
        }
    }
}

/// The lines of `output` that hold more than whitespace, trimmed.
pub fn nonempty_lines(output: &str) -> (r: Vec<String>)
    ensures
        r.deep_view() == filled_lines(spec_lines(output@)),
{
    let all: Vec<String> = lines(output);
    let mut out: Vec<String> = Vec::new();
    let ghost whole = all.deep_view();
    let mut i: usize = 0;
    assert(whole.subrange(0, whole.len() as int) =~= whole);
    assert(out.deep_view() =~= Seq::<Seq<char>>::empty());
    assert(out.deep_view() + filled_lines(whole) =~= filled_lines(whole));
    while i < all.len()
        invariant
            i <= all@.len(),
            whole == all.deep_view(),
            out.deep_view() + filled_lines(whole.subrange(i as int, whole.len() as int))
                == filled_lines(whole),
        decreases all@.len() - i,
    {
        let ghost rest = whole.subrange(i as int, whole.len() as int);
        let ghost before = out.deep_view();
        let line: String = trim(all[i].as_str());
        proof {
            assert(rest[0] == all@[i as int]@);
            assert(rest.drop_first() =~= whole.subrange(i + 1, whole.len() as int));
        }
        if !line.as_str().is_empty() {
            crate::text::append_to(&mut out, line);
            assert(out.deep_view() + filled_lines(rest.drop_first()) =~= before + filled_lines(
                rest,
            ));
        }
        i += 1;
    }
    assert(whole.subrange(i as int, whole.len() as int) =~= Seq::<Seq<char>>::empty());
    assert(out.deep_view() + Seq::<Seq<char>>::empty() =~= out.deep_view());
    out
}

pub open spec fn flow_current_change(t: Seq<AnswerView>, path: Seq<char>) -> Flow<
    ChangeIdentityView,
> {
    flow_run_jj(
        t,
        spec_jj(path, spec_log_head("change_id ++ \"\\n\" ++ commit_id.short()"@)),
    ).and(
        |output: Seq<char>, t: Seq<AnswerView>|
            {
                let found = filled_lines(spec_lines(output));
                if found.len() == 0 {
                    Flow::Failed(
                        CubeErrorView::InvalidArgument(
                            "jj change query did not return a change id"@,
                        ),
                        t,
                    )
                } else if found.len() == 1 {
                    Flow::Failed(
                        CubeErrorView::InvalidArgument(
                            "jj change query did not return a head commit"@,
                        ),
                        t,
                    )
                } else {
                    Flow::Done(
                        ChangeIdentityView { jj_change_id: found[0], head_commit: found[1] },
                        t,
                    )
                }
            },
    )
}

pub fn current_change_identity(tape: &mut Tape, path: &str) -> (r: Result<ChangeIdentity, Stop>)
    ensures
        follows(r, final(tape)@, flow_current_change(old(tape)@, path@)),
{
    let output: String = run_jj(
        tape,
        &jj(path, log_head("change_id ++ \"\\n\" ++ commit_id.short()")),
    )?;
    let found: Vec<String> = nonempty_lines(output.as_str());
    if found.len() == 0 {
        return Err(
            Stop::Fail(
                CubeError::InvalidArgument(
                    "jj change query did not return a change id".to_string(),
                ),
            ),
        );
    }
    if found.len() == 1 {
        return Err(
            Stop::Fail(
                CubeError::InvalidArgument(
                    "jj change query did not return a head commit".to_string(),
                ),
            ),
        );
    }
    assert(found.deep_view()[0] == found@[0]@);
    assert(found.deep_view()[1] == found@[1]@);
    Ok(ChangeIdentity { jj_change_id: copy(&found[0]), head_commit: copy(&found[1]) })
}

// ---------------------------------------------------------------------------
// Resetting
// ---------------------------------------------------------------------------

/// The event recorded for each jj operation on a leased workspace.
pub open spec fn jj_op_event(
    path: Seq<char>,
    verb: Seq<char>,
    args: Seq<Seq<char>>,
    prior: Option<ExpiredLeaseView>,
) -> AuditEventView {
    AuditEventView::named("workspace.jj_op"@).text("workspace_path"@, path).text(
        "verb"@,
        verb,
    ).texts("args"@, args).maybe_text(
        "prior_expired_lease_id"@,
        match prior {
            Some(e) => Some(e.lease_id),
            None => None,
        },
    ).maybe_text(
        "prior_expired_holder"@,
        match prior {
            Some(e) => e.holder,
            None => None,
        },
    )
}

fn jj_op(path: &str, verb: &str, args: &Vec<String>, prior: &Option<ExpiredLease>) -> (r:
    AuditEvent)
    ensures
        r.deep_view() == jj_op_event(path@, verb@, args.deep_view(), prior.deep_view()),
{
    let lease: Option<String> = match prior {
        Some(e) => Some(copy(&e.lease_id)),
        None => None,
    };
    let holder: Option<String> = match prior {
        Some(e) => copy_opt(&e.holder),
        None => None,
    };
    AuditEvent::named("workspace.jj_op").text("workspace_path", path).text("verb", verb).texts(
        "args",
        args,
    ).maybe_text("prior_expired_lease_id", &lease).maybe_text("prior_expired_holder", &holder)
}

/// The event recorded when a reset is refused.
pub open spec fn refused_event(
    path: Seq<char>,
    main_branch: Seq<char>,
    head: HeadStatusView,
    prior: ExpiredLeaseView,
) -> AuditEventView {
    AuditEventView::named("workspace.reset_refused_dirty"@).text("workspace_path"@, path).text(
        "main_branch"@,
        main_branch,
    ).text("head_change_id"@, head.head_change_id).flag("head_is_empty"@, head.head_is_empty).text(
        "head_parent_bookmarks"@,
        head.head_parent_bookmarks,
    ).text("prior_lease_id"@, prior.lease_id).maybe_text("prior_holder"@, prior.holder).maybe_text(
        "prior_task"@,
        prior.task,
    )
}

/// The failure when a reset is refused.
pub open spec fn refused_error(path: Seq<char>, prior: ExpiredLeaseView) -> CubeErrorView {
    CubeErrorView::LeaseExpiredWorkspaceDirty {
        workspace_path: path,
        prior_lease_id: prior.lease_id,
        prior_holder: match prior.holder {
            Some(h) => h,
            None => "<unknown>"@,
        },
    }
}

/// Refuses to go on where the workspace was taken from an expired lease and does
/// not stand clean on its default branch.
pub open spec fn flow_guard(
    t: Seq<AnswerView>,
    path: Seq<char>,
    main_branch: Seq<char>,
    prior: Option<ExpiredLeaseView>,
) -> Flow<()> {
    match prior {
        None => Flow::Done((), t),
        Some(prior) => flow_read_head_status(t, path, main_branch).and(
            |head: HeadStatusView, t: Seq<AnswerView>|
                if head.is_clean_on_main {
                    Flow::Done((), t)
                } else {
                    ask_ack(t, ActionView::Audit(refused_event(path, main_branch, head, prior))).and(
                        |u: (), t: Seq<AnswerView>| Flow::Failed(refused_error(path, prior), t),
                    )
                },
        ),
    }
}

pub fn guard(tape: &mut Tape, path: &str, main_branch: &str, prior: &Option<ExpiredLease>) -> (r:
    Result<(), Stop>)
    ensures
        follows(
            r,
            final(tape)@,
            flow_guard(old(tape)@, path@, main_branch@, prior.deep_view()),
        ),
{
    let prior: &ExpiredLease = match prior {
        None => {
            return Ok(());
        },
        Some(prior) => prior,
    };
    let head: HeadStatus = read_head_status(tape, path, main_branch)?;
    if head.is_clean_on_main {
        return Ok(());
    }
    tape.ask_ack(
        Action::Audit(
            AuditEvent::named("workspace.reset_refused_dirty").text("workspace_path", path).text(
                "main_branch",
                main_branch,
            ).text("head_change_id", head.head_change_id.as_str()).flag(
                "head_is_empty",
                head.head_is_empty,
            ).text("head_parent_bookmarks", head.head_parent_bookmarks.as_str()).text(
                "prior_lease_id",
                prior.lease_id.as_str(),
            ).maybe_text("prior_holder", &prior.holder).maybe_text("prior_task", &prior.task),
        ),
    )?;
    Err(
        Stop::Fail(
            CubeError::LeaseExpiredWorkspaceDirty {
                workspace_path: path.to_string(),
                prior_lease_id: copy(&prior.lease_id),
                prior_holder: match &prior.holder {
                    Some(h) => copy(h),
                    None => "<unknown>".to_string(),
                },
            },
        ),
    )
}

/// The warning for a default branch without a counterpart on the remote.
pub open spec fn stuck_branch_warning(
    path: Seq<char>,
    main_branch: Seq<char>,
) -> Seq<char> {
    "warning: cube could not fast-forward `"@ + main_branch + "` to `"@ + (main_branch
        + "@origin"@) + "` in "@ + path
        + ": the remote-tracking bookmark did not resolve. Leaving local `"@ + main_branch
        + "` in place; check the repo's recorded default branch."@
}

/// Sets the local default branch to where the remote has it. A branch that the
/// remote does not have is left where it is, with a warning.
pub open spec fn flow_fast_forward(
    t: Seq<AnswerView>,
    path: Seq<char>,
    main_branch: Seq<char>,
    prior: Option<ExpiredLeaseView>,
) -> Flow<()> {
    let target = main_branch + "@origin"@;
    ask_ack(
        t,
        ActionView::Audit(
            jj_op_event(path, "bookmark-set"@, seq![main_branch, target], prior),
        ),
    ).and(
        |u: (), t: Seq<AnswerView>|
            match flow_run_jj(
                t,
                spec_jj(
                    path,
                    seq!["bookmark"@, "set"@, main_branch] + seq![
                        "-r"@,
                        target,
                        "--allow-backwards"@,
                    ],
                ),
            ) {
                Flow::Done(o, t) => Flow::Done((), t),
                Flow::Failed(e, t) => if is_unresolved(e) {
                    ask_ack(t, ActionView::Warn(stuck_branch_warning(path, main_branch)))
                } else {
                    Flow::Failed(e, t)
                },
                Flow::Asks(a) => Flow::Asks(a),
            },
    )
}

pub fn fast_forward_default_branch_to_origin(
    tape: &mut Tape,
    path: &str,
    main_branch: &str,
    prior: &Option<ExpiredLease>,
) -> (r: Result<(), Stop>)
    ensures
        follows(
            r,
            final(tape)@,
            flow_fast_forward(old(tape)@, path@, main_branch@, prior.deep_view()),
        ),
{
    let target: String = cat(main_branch.to_string(), "@origin");
    tape.ask_ack(
        Action::Audit(
            jj_op(path, "bookmark-set", &list2(main_branch, target.as_str()), prior),
        ),
    )?;
    let inv: crate::command_runner::CommandInvocation = jj(
        path,
        chain(
            list3("bookmark", "set", main_branch),
            list3("-r", target.as_str(), "--allow-backwards"),
        ),
    );
    match run_jj(tape, &inv) {
        Ok(_) => Ok(()),
        Err(Stop::Fail(e)) => {
            if is_unresolved_remote_target(&e) {
                let head: String = cat(
                    cat(
                        cat(
                            cat(
                                "warning: cube could not fast-forward `".to_string(),
                                main_branch,
                            ),
                            "` to `",
                        ),
                        target.as_str(),
                    ),
                    "` in ",
                );
                let text: String = cat(
                    cat(
                        cat(
                            cat(head, path),
                            ": the remote-tracking bookmark did not resolve. Leaving local `",
                        ),
                        main_branch,
                    ),
                    "` in place; check the repo's recorded default branch.",
                );
                tape.ask_ack(Action::Warn(text))
            } else {
                Err(Stop::Fail(e))
            }
        },
        Err(stop) => Err(stop),
    }
}

/// Notes the look at the working-copy commit in the audit log, where the guard is going
/// to look at it.
pub open spec fn flow_note_look(
    t: Seq<AnswerView>,
    path: Seq<char>,
    prior: Option<ExpiredLeaseView>,
) -> Flow<()> {
    match prior {
        None => Flow::Done((), t),
        Some(_) => ask_ack(
            t,
            ActionView::Audit(jj_op_event(path, "log"@, seq!["-r"@, "@"@], prior)),
        ),
    }
}

/// Fetches, refuses where the guard does, brings the default branch up to date
/// and starts a new commit on it. Each of these commands is noted in the audit log
/// before it is run.
pub open spec fn flow_reset(
    t: Seq<AnswerView>,
    path: Seq<char>,
    main_branch: Seq<char>,
    prior: Option<ExpiredLeaseView>,
) -> Flow<()> {
    ask_ack(t, ActionView::Audit(jj_op_event(path, "git"@, seq!["fetch"@], prior))).and(
        |u: (), t: Seq<AnswerView>|
            flow_run_jj(t, spec_jj(path, seq!["git"@, "fetch"@])).and(
                |o: Seq<char>, t: Seq<AnswerView>|
                    flow_note_look(t, path, prior).and(
                        |u: (), t: Seq<AnswerView>|
                            flow_guard(t, path, main_branch, prior).and(
                                |u: (), t: Seq<AnswerView>|
                                    flow_fast_forward(t, path, main_branch, prior).and(
                                        |u: (), t: Seq<AnswerView>|
                                            flow_new_on_main(t, path, main_branch, prior),
                                    ),
                            ),
                    ),
            ),
    )
}

/// Starts a new commit on the default branch.
pub open spec fn flow_new_on_main(
    t: Seq<AnswerView>,
    path: Seq<char>,
    main_branch: Seq<char>,
    prior: Option<ExpiredLeaseView>,
) -> Flow<()> {
    ask_ack(t, ActionView::Audit(jj_op_event(path, "new"@, seq![main_branch], prior))).and(
        |u: (), t: Seq<AnswerView>|
            flow_run_jj(t, spec_jj(path, seq!["new"@, main_branch])).and(
                |o: Seq<char>, t: Seq<AnswerView>| Flow::Done((), t),
            ),
    )
}

pub fn reset_workspace_guarded(
    tape: &mut Tape,
    path: &str,
    main_branch: &str,
    prior: &Option<ExpiredLease>,
) -> (r: Result<(), Stop>)
    ensures
        follows(
            r,
            final(tape)@,
            flow_reset(old(tape)@, path@, main_branch@, prior.deep_view()),
        ),
{
    tape.ask_ack(Action::Audit(jj_op(path, "git", &list1("fetch"), prior)))?;
    run_jj(tape, &jj(path, list2("git", "fetch")))?;
    if prior.is_some() {
        tape.ask_ack(Action::Audit(jj_op(path, "log", &list2("-r", "@"), prior)))?;
    }
    guard(tape, path, main_branch, prior)?;
    fast_forward_default_branch_to_origin(tape, path, main_branch, prior)?;
    tape.ask_ack(Action::Audit(jj_op(path, "new", &list1(main_branch), prior)))?;
    run_jj(tape, &jj(path, list2("new", main_branch)))?;
    Ok(())
}

/// Resets a workspace that no lease was taken back from.
pub fn reset_workspace(tape: &mut Tape, path: &str, main_branch: &str) -> (r: Result<(), Stop>)
    ensures
        follows(r, final(tape)@, flow_reset(old(tape)@, path@, main_branch@, None)),
{
    let none: Option<ExpiredLease> = None;
    reset_workspace_guarded(tape, path, main_branch, &none)
}

} // verus!
