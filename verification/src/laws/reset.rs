//! Work that somebody left in a workspace is not destroyed.

use vstd::prelude::*;

use crate::command_runner::CommandInvocationView;
use crate::flow::{ask_ack, ActionView, AnswerView, Flow};
use crate::jj::{flow_run_jj, spec_jj};
use crate::laws::jj::{
    law_run_jj_asks_little, leaves_some, left_of, lemma_ack_left, lemma_left_on, may_run,
};
use crate::records::ExpiredLeaseView;
use crate::reset::{
    flow_guard, flow_read_head_status, flow_reset, head_status_of, jj_op_event, refused_error,
    refused_event, spec_log_head,
};

verus! {

/// `jj new <revision>` in a workspace.
pub open spec fn new_on(path: Seq<char>, revision: Seq<char>) -> CommandInvocationView {
    spec_jj(path, seq!["new"@, revision])
}

/// Commands that begin with another word, or have another number of arguments, are
/// not `jj new`, and neither are the cures of a workspace.
pub proof fn lemma_not_new(
    path: Seq<char>,
    revision: Seq<char>,
    args: Seq<Seq<char>>,
    c: CommandInvocationView,
)
    requires
        may_run(spec_jj(path, args), c),
        args.len() != 2 || args[0] != "new"@,
    ensures
        c != new_on(path, revision),
{
    reveal_strlit("new");
    reveal_strlit("workspace");
    assert("new"@[0] == 'n');
    assert("workspace"@[0] == 'w');
    let new = seq!["new"@, revision];
    assert(new.len() == 2 && new[0] == "new"@);
    let stale = seq!["workspace"@, "update-stale"@];
    assert(stale[0] == "workspace"@);
    let init = seq!["git"@, "init"@, "--colocate"@];
    assert(init.len() == 3);
}

pub proof fn lemma_words()
    ensures
        "git"@ != "new"@,
        "bookmark"@ != "new"@,
{
    reveal_strlit("new");
    reveal_strlit("git");
    reveal_strlit("bookmark");
    assert("new"@[0] == 'n');
    assert("git"@[0] == 'g');
    assert("bookmark"@[0] == 'b');
}

/// The next answers are those to a look at the working-copy commit that found it to be
/// empty and on top of the default branch.
pub open spec fn sees_clean(t: Seq<AnswerView>, path: Seq<char>, main_branch: Seq<char>) -> bool {
    flow_read_head_status(t, path, main_branch) matches Flow::Done(head, _)
        && head.is_clean_on_main
}

/// The guard lets a workspace pass that was taken from an expired lease just where its
/// working-copy commit is seen to be empty and on top of the default branch. Until
/// then no new commit is started, and the answers that are left are some of those
/// that were given.
pub proof fn law_guard_lets_only_clean_pass(
    t: Seq<AnswerView>,
    path: Seq<char>,
    main_branch: Seq<char>,
    prior: ExpiredLeaseView,
    revision: Seq<char>,
)
    ensures
        leaves_some(flow_guard(t, path, main_branch, Some(prior)), t),
        flow_guard(t, path, main_branch, Some(prior)) is Done <==> sees_clean(
            t,
            path,
            main_branch,
        ),
        flow_guard(t, path, main_branch, Some(prior)) != Flow::<()>::Asks(
            ActionView::Run(new_on(path, revision)),
        ),
{
    let template =
        "change_id ++ \"\\t\" ++ empty ++ \"\\t\" ++ parents.map(|p| p.bookmarks().join(\",\")).join(\";\")"@;
    let inv = spec_jj(path, spec_log_head(template));
    law_run_jj_asks_little(t, inv);
    match flow_run_jj(t, inv) {
        Flow::Done(o, t1) => {
            let head = head_status_of(o, main_branch);
            if !head.is_clean_on_main {
                let event = ActionView::Audit(refused_event(path, main_branch, head, prior));
                lemma_ack_left(t1, event);
                if let Flow::Done(_, t2) = ask_ack(t1, event) {
                    lemma_left_on(t2, t1, t);
                }
            }
        },
        Flow::Failed(_, _) => {},
        Flow::Asks(a) => {
            if let ActionView::Run(c) = a {
                lemma_not_new(path, revision, spec_log_head(template), c);
            }
        },
    }
}

/// A workspace that was taken from an expired lease is put on a new commit only
/// after its working-copy commit was seen to be empty and on top of the default
/// branch.
pub proof fn law_reset_spares_work(
    t: Seq<AnswerView>,
    path: Seq<char>,
    main_branch: Seq<char>,
    prior: ExpiredLeaseView,
)
    ensures
        ({
            let reset = flow_reset(t, path, main_branch, Some(prior));
            reset is Done || reset == Flow::<()>::Asks(
                ActionView::Run(new_on(path, main_branch)),
            ) ==> exists|seen: Seq<AnswerView>| #[trigger]
                left_of(seen, t) && sees_clean(seen, path, main_branch)
        }),
{
    let event = ActionView::Audit(jj_op_event(path, "git"@, seq!["fetch"@], Some(prior)));
    lemma_ack_left(t, event);
    if let Flow::Done(_, t1) = ask_ack(t, event) {
        let fetch = seq!["git"@, "fetch"@];
        law_run_jj_asks_little(t1, spec_jj(path, fetch));
        match flow_run_jj(t1, spec_jj(path, fetch)) {
            Flow::Done(_, t2) => {
                lemma_left_on(t2, t1, t);
                let look = ActionView::Audit(
                    jj_op_event(path, "log"@, seq!["-r"@, "@"@], Some(prior)),
                );
                lemma_ack_left(t2, look);
                if let Flow::Done(_, t3) = ask_ack(t2, look) {
                    lemma_left_on(t3, t2, t);
                    law_guard_lets_only_clean_pass(t3, path, main_branch, prior, main_branch);
                }
            },
            Flow::Failed(_, _) => {},
            Flow::Asks(a) => {
                if let ActionView::Run(c) = a {
                    lemma_words();
                    lemma_not_new(path, main_branch, fetch, c);
                }
            },
        }
    }
}

/// Where the work of an expired lease's holder is found, the reset fails with the
/// failure that names that lease, and nothing is run in between but the look.
pub proof fn law_reset_refuses_dirty(
    fetched: Seq<char>,
    seen: Seq<char>,
    rest: Seq<AnswerView>,
    path: Seq<char>,
    main_branch: Seq<char>,
    prior: ExpiredLeaseView,
)
    requires
        !head_status_of(seen, main_branch).is_clean_on_main,
    ensures
        flow_reset(
            seq![
                AnswerView::Ack,
                AnswerView::Output(fetched),
                AnswerView::Ack,
                AnswerView::Output(seen),
                AnswerView::Ack,
            ] + rest,
            path,
            main_branch,
            Some(prior),
        ) == Flow::<()>::Failed(refused_error(path, prior), rest),
{
    let t = seq![
        AnswerView::Ack,
        AnswerView::Output(fetched),
        AnswerView::Ack,
        AnswerView::Output(seen),
        AnswerView::Ack,
    ] + rest;
    let t1 = t.drop_first();
    let t2 = t1.drop_first();
    let t3 = t2.drop_first();
    let t4 = t3.drop_first();
    assert(t1[0] == AnswerView::Output(fetched));
    assert(t2[0] == AnswerView::Ack);
    assert(t3[0] == AnswerView::Output(seen));
    assert(t4[0] == AnswerView::Ack);
    assert(t4.drop_first() =~= rest);
}

} // verus!
