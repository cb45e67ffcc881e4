//! Running `jj`, and resetting a workspace.

use vstd::prelude::*;

use crate::command_runner::CommandInvocationView;
use crate::error::CubeErrorView;
use crate::flow::{ask_ack, ask_flag, ask_output, ActionView, AnswerView, Flow};
use crate::jj::{
    flow_colocate, flow_note_diverged, flow_run_jj, flow_update_stale, is_no_repo, recovered_event,
    recovery, spec_jj, stale_error,
};
use crate::paths::spec_path_join;

verus! {

// ---------------------------------------------------------------------------
// Answers that are left
// ---------------------------------------------------------------------------

/// `rest` is what is left of `t` when some answers have been taken off the front.
pub open spec fn left_of(rest: Seq<AnswerView>, t: Seq<AnswerView>) -> bool {
    rest.len() <= t.len() && rest == t.subrange(t.len() - rest.len(), t.len() as int)
}

pub proof fn lemma_left_all(t: Seq<AnswerView>)
    ensures
        left_of(t, t),
{
    assert(t.subrange(0, t.len() as int) =~= t);
}

pub proof fn lemma_left_first(t: Seq<AnswerView>)
    requires
        t.len() > 0,
    ensures
        left_of(t.drop_first(), t),
{
    assert(t.subrange(1, t.len() as int) =~= t.drop_first());
}

pub proof fn lemma_left_on(a: Seq<AnswerView>, b: Seq<AnswerView>, c: Seq<AnswerView>)
    requires
        left_of(a, b),
        left_of(b, c),
    ensures
        left_of(a, c),
{
    assert(c.subrange(c.len() - a.len(), c.len() as int) =~= b.subrange(
        b.len() - a.len(),
        b.len() as int,
    ));
}

/// The answers that a flow leaves are some of those it was given.
pub open spec fn leaves_some<T>(flow: Flow<T>, t: Seq<AnswerView>) -> bool {
    match flow {
        Flow::Done(_, rest) => left_of(rest, t),
        Flow::Failed(_, rest) => left_of(rest, t),
        Flow::Asks(_) => true,
    }
}

/// An answer that is left was given.
pub proof fn lemma_left_contains(rest: Seq<AnswerView>, t: Seq<AnswerView>, a: AnswerView)
    requires
        left_of(rest, t),
        rest.contains(a),
    ensures
        t.contains(a),
{
    let i = choose|i: int| 0 <= i < rest.len() && rest[i] == a;
    assert(t[t.len() - rest.len() + i] == a);
}

pub proof fn lemma_output_left(t: Seq<AnswerView>, a: ActionView)
    ensures
        leaves_some(ask_output(t, a), t),
        match ask_output(t, a) {
            Flow::Done(o, rest) => t.contains(AnswerView::Output(o)) && t[0] == AnswerView::Output(o)
                && rest == t.drop_first(),
            Flow::Failed(e, rest) => t[0] == AnswerView::Failed(e) && rest == t.drop_first(),
            Flow::Asks(b) => a == b,
        },
{
    if t.len() > 0 {
        lemma_left_first(t);
        assert(t.contains(t[0]));
    }
}

pub proof fn lemma_ack_left(t: Seq<AnswerView>, a: ActionView)
    ensures
        leaves_some(ask_ack(t, a), t),
        ask_ack(t, a) matches Flow::Asks(b) ==> a == b,
        ask_ack(t, a) !is Failed,
{
    if t.len() > 0 {
        lemma_left_first(t);
    }
}

pub proof fn lemma_flag_left(t: Seq<AnswerView>, a: ActionView)
    ensures
        leaves_some(ask_flag(t, a), t),
        ask_flag(t, a) matches Flow::Asks(b) ==> a == b,
        ask_flag(t, a) !is Failed,
{
    if t.len() > 0 {
        lemma_left_first(t);
    }
}

// ---------------------------------------------------------------------------
// Running jj
// ---------------------------------------------------------------------------

/// `jj workspace update-stale` in a directory.
pub open spec fn update_stale_in(cwd: Seq<char>) -> CommandInvocationView {
    spec_jj(cwd, seq!["workspace"@, "update-stale"@])
}

/// `jj git init --colocate` in a directory.
pub open spec fn colocate_in(cwd: Seq<char>) -> CommandInvocationView {
    spec_jj(cwd, seq!["git"@, "init"@, "--colocate"@])
}

/// A command that running `inv` may come to run: itself, or one of the two that
/// cure its directory.
pub open spec fn may_run(inv: CommandInvocationView, c: CommandInvocationView) -> bool {
    c == inv || c == update_stale_in(inv.cwd) || c == colocate_in(inv.cwd)
}

/// An action that running `inv` may come to ask for.
pub open spec fn is_step_of(inv: CommandInvocationView, a: ActionView) -> bool {
    match a {
        ActionView::Run(c) => may_run(inv, c),
        ActionView::IsDir(_) => true,
        ActionView::Warn(_) => true,
        ActionView::Audit(_) => true,
        _ => false,
    }
}

proof fn lemma_colocate(t: Seq<AnswerView>, inv: CommandInvocationView, err: CubeErrorView)
    ensures
        leaves_some(flow_colocate(t, inv, err), t),
        flow_colocate(t, inv, err) matches Flow::Done(o, _) ==> t.contains(AnswerView::Output(o)),
        flow_colocate(t, inv, err) matches Flow::Asks(a) ==> is_step_of(inv, a),
        flow_colocate(t, inv, err) matches Flow::Failed(e, _) ==> e == err,
{
    let warned = ask_ack(
        t,
        ActionView::Warn("cube: initialised jj on existing git workspace "@ + inv.cwd),
    );
    lemma_ack_left(
        t,
        ActionView::Warn("cube: initialised jj on existing git workspace "@ + inv.cwd),
    );
    if let Flow::Done(_, t1) = warned {
        lemma_output_left(t1, ActionView::Run(colocate_in(inv.cwd)));
        match ask_output(t1, ActionView::Run(colocate_in(inv.cwd))) {
            Flow::Done(_, t2) => {
                lemma_left_on(t2, t1, t);
                let event = ActionView::Audit(
                    recovered_event("workspace.jj_colocate_initialised"@, inv),
                );
                lemma_ack_left(t2, event);
                if let Flow::Done(_, t3) = ask_ack(t2, event) {
                    lemma_left_on(t3, t2, t);
                    lemma_output_left(t3, ActionView::Run(inv));
                    match ask_output(t3, ActionView::Run(inv)) {
                        Flow::Done(o, t4) => {
                            lemma_left_on(t4, t3, t);
                            lemma_left_contains(t3, t, AnswerView::Output(o));
                        },
                        Flow::Failed(_, t4) => lemma_left_on(t4, t3, t),
                        Flow::Asks(_) => {},
                    }
                }
            },
            Flow::Failed(_, t2) => lemma_left_on(t2, t1, t),
            Flow::Asks(_) => {},
        }
    }
}

proof fn lemma_update_stale(t: Seq<AnswerView>, inv: CommandInvocationView, err: CubeErrorView)
    ensures
        leaves_some(flow_update_stale(t, inv, err), t),
        flow_update_stale(t, inv, err) matches Flow::Done(o, _) ==> t.contains(AnswerView::Output(o)),
        flow_update_stale(t, inv, err) matches Flow::Asks(a) ==> is_step_of(inv, a),
{
    lemma_left_all(t);
    if let Some(kind) = recovery(err) {
        let note = ActionView::Warn(
            "cube: jj op-log diverged on "@ + inv.cwd
                + "; running `jj workspace update-stale` to recover"@,
        );
        lemma_ack_left(t, note);
        if let Flow::Done(_, t1) = flow_note_diverged(t, inv, kind) {
            lemma_output_left(t1, ActionView::Run(update_stale_in(inv.cwd)));
            match ask_output(t1, ActionView::Run(update_stale_in(inv.cwd))) {
                Flow::Done(_, t2) => {
                    lemma_left_on(t2, t1, t);
                    let event = ActionView::Audit(recovered_event(kind, inv));
                    lemma_ack_left(t2, event);
                    if let Flow::Done(_, t3) = ask_ack(t2, event) {
                        lemma_left_on(t3, t2, t);
                        lemma_output_left(t3, ActionView::Run(inv));
                        match ask_output(t3, ActionView::Run(inv)) {
                            Flow::Done(o, t4) => {
                                lemma_left_on(t4, t3, t);
                                lemma_left_contains(t3, t, AnswerView::Output(o));
                            },
                            Flow::Failed(_, t4) => lemma_left_on(t4, t3, t),
                            Flow::Asks(_) => {},
                        }
                    }
                },
                Flow::Failed(_, t2) => lemma_left_on(t2, t1, t),
                Flow::Asks(_) => {},
            }
        }
    }
}

/// Running a command with `jj` asks for nothing but that command, one of the two
/// commands that cure its directory, a look at the directory, a warning or an audit
/// event. Its output is one of the answers it was given, and those it leaves are
/// some of them.
pub proof fn law_run_jj_asks_little(t: Seq<AnswerView>, inv: CommandInvocationView)
    ensures
        leaves_some(flow_run_jj(t, inv), t),
        flow_run_jj(t, inv) matches Flow::Done(o, _) ==> t.contains(AnswerView::Output(o)),
        flow_run_jj(t, inv) matches Flow::Asks(a) ==> is_step_of(inv, a),
{
    lemma_output_left(t, ActionView::Run(inv));
    if let Flow::Failed(err, t1) = ask_output(t, ActionView::Run(inv)) {
        let git = ActionView::IsDir(spec_path_join(inv.cwd, ".git"@));
        let jj = ActionView::IsDir(spec_path_join(inv.cwd, ".jj"@));
        lemma_update_stale(t1, inv, err);
        lemma_flag_left(t1, git);
        if let Flow::Done(there, t2) = ask_flag(t1, git) {
            lemma_left_on(t2, t1, t);
            lemma_colocate(t2, inv, err);
            lemma_flag_left(t2, jj);
            if let Flow::Done(_, t3) = ask_flag(t2, jj) {
                lemma_left_on(t3, t2, t);
                lemma_update_stale(t3, inv, err);
                lemma_flag_left(t3, git);
                if let Flow::Done(_, t4) = ask_flag(t3, git) {
                    lemma_left_on(t4, t3, t);
                    lemma_update_stale(t4, inv, err);
                    match flow_update_stale(t4, inv, err) {
                        Flow::Done(o, r) => {
                            lemma_left_on(r, t4, t);
                            lemma_left_contains(t4, t, AnswerView::Output(o));
                        },
                        Flow::Failed(_, r) => lemma_left_on(r, t4, t),
                        Flow::Asks(_) => {},
                    }
                }
                match flow_update_stale(t3, inv, err) {
                    Flow::Done(o, r) => {
                        lemma_left_on(r, t3, t);
                        lemma_left_contains(t3, t, AnswerView::Output(o));
                    },
                    Flow::Failed(_, r) => lemma_left_on(r, t3, t),
                    Flow::Asks(_) => {},
                }
            }
            match flow_colocate(t2, inv, err) {
                Flow::Done(o, r) => {
                    lemma_left_on(r, t2, t);
                    lemma_left_contains(t2, t, AnswerView::Output(o));
                },
                Flow::Failed(_, r) => lemma_left_on(r, t2, t),
                Flow::Asks(_) => {},
            }
        }
        match flow_update_stale(t1, inv, err) {
            Flow::Done(o, r) => {
                lemma_left_on(r, t1, t);
                lemma_left_contains(t1, t, AnswerView::Output(o));
            },
            Flow::Failed(_, r) => lemma_left_on(r, t1, t),
            Flow::Asks(_) => {},
        }
    }
}

/// A command that succeeds is run once, and its output is handed on.
pub proof fn law_run_jj_keeps_success(
    output: Seq<char>,
    rest: Seq<AnswerView>,
    inv: CommandInvocationView,
)
    ensures
        flow_run_jj(seq![AnswerView::Output(output)] + rest, inv) == Flow::Done(output, rest),
{
    let t = seq![AnswerView::Output(output)] + rest;
    assert(t.drop_first() =~= rest);
}

/// A failure that is neither a stale working copy, nor a diverged operation log, nor
/// a missing repository is handed on unchanged, and nothing else is run.
pub proof fn law_run_jj_keeps_other_failures(
    err: CubeErrorView,
    rest: Seq<AnswerView>,
    inv: CommandInvocationView,
)
    requires
        !is_no_repo(err),
        recovery(err) is None,
    ensures
        flow_run_jj(seq![AnswerView::Failed(err)] + rest, inv) == Flow::<Seq<char>>::Failed(
            err,
            rest,
        ),
{
    let t = seq![AnswerView::Failed(err)] + rest;
    assert(t.drop_first() =~= rest);
}

/// A failure of a program other than `jj` is handed on unchanged, whatever it says.
pub proof fn law_other_programs_are_not_cured(err: CubeErrorView)
    requires
        match err {
            CubeErrorView::CommandFailed { program, .. } => program != "jj"@,
            _ => true,
        },
    ensures
        !is_no_repo(err),
        recovery(err) is None,
{
}

/// The answers to bringing a stale workspace up to date and to running the command once
/// more: a diverged operation log is warned of first.
pub open spec fn cure_answers(
    kind: Seq<char>,
    cured: Seq<char>,
    retried: AnswerView,
) -> Seq<AnswerView> {
    if kind == "workspace.op_diverged_recovered"@ {
        seq![AnswerView::Ack, AnswerView::Output(cured), AnswerView::Ack, retried]
    } else {
        seq![AnswerView::Output(cured), AnswerView::Ack, retried]
    }
}

/// After a stale workspace has been brought up to date, the command is run once more
/// and no further: what comes back then is the end, either the output or a failure.
pub proof fn law_run_jj_retries_once(
    err: CubeErrorView,
    kind: Seq<char>,
    cured: Seq<char>,
    retried: AnswerView,
    rest: Seq<AnswerView>,
    inv: CommandInvocationView,
)
    requires
        !is_no_repo(err),
        recovery(err) == Some(kind),
        retried is Output || retried is Failed,
    ensures
        ({
            let t = seq![AnswerView::Failed(err)] + cure_answers(kind, cured, retried) + rest;
            match retried {
                AnswerView::Output(o) => flow_run_jj(t, inv) == Flow::Done(o, rest),
                AnswerView::Failed(again) => flow_run_jj(t, inv) == Flow::<Seq<char>>::Failed(
                    stale_error(inv.cwd, "retry after update-stale failed: "@, again),
                    rest,
                ),
                _ => false,
            }
        }),
{
    let cure = cure_answers(kind, cured, retried);
    let t = seq![AnswerView::Failed(err)] + cure + rest;
    assert(t[0] == AnswerView::Failed(err));
    assert(t.drop_first() =~= cure + rest);
    let u = if kind == "workspace.op_diverged_recovered"@ {
        assert(t.drop_first()[0] == AnswerView::Ack);
        t.drop_first().drop_first()
    } else {
        t.drop_first()
    };
    assert(u[0] == AnswerView::Output(cured));
    assert(u.drop_first()[0] == AnswerView::Ack);
    assert(u.drop_first().drop_first()[0] == retried);
    assert(u.drop_first().drop_first().drop_first() =~= rest);
}

/// Where there is a git repository but none of `jj`, one is laid over it and the
/// command is run once more and no further; a failure then is the first one.
pub proof fn law_run_jj_colocates_once(
    err: CubeErrorView,
    cured: Seq<char>,
    retried: AnswerView,
    rest: Seq<AnswerView>,
    inv: CommandInvocationView,
)
    requires
        is_no_repo(err),
        retried is Output || retried is Failed,
    ensures
        ({
            let t = seq![
                AnswerView::Failed(err),
                AnswerView::Flag(true),
                AnswerView::Ack,
                AnswerView::Output(cured),
                AnswerView::Ack,
                retried,
            ] + rest;
            match retried {
                AnswerView::Output(o) => flow_run_jj(t, inv) == Flow::Done(o, rest),
                _ => flow_run_jj(t, inv) == Flow::<Seq<char>>::Failed(err, rest),
            }
        }),
{
    let front = seq![
        AnswerView::Failed(err),
        AnswerView::Flag(true),
        AnswerView::Ack,
        AnswerView::Output(cured),
        AnswerView::Ack,
        retried,
    ];
    let t = front + rest;
    let t1 = t.drop_first();
    let t2 = t1.drop_first();
    let t3 = t2.drop_first();
    let t4 = t3.drop_first();
    let t5 = t4.drop_first();
    assert(t1[0] == AnswerView::Flag(true));
    assert(t2[0] == AnswerView::Ack);
    assert(t3[0] == AnswerView::Output(cured));
    assert(t4[0] == AnswerView::Ack);
    assert(t5[0] == retried);
    assert(t5.drop_first() =~= rest);
}

} // verus!
