//! Commands step by step: which actions a command asks for, in which order, and what it
//! hands back, for given answers.

use vstd::prelude::*;

use crate::app::flow_command;
use crate::cli::{
    ChangeCommandView, CommandView, PrCommandView, RepoCommandView, WorkspaceCommandView,
};
use crate::command_runner::CommandInvocationView;
use crate::error::CubeErrorView;
use crate::events::AuditEventView;
use crate::flow::{ActionView, AnswerView, Flow};
use crate::lease::TicketView;
use crate::records::{EffectiveState, WorkspaceListFilterView, WorkspaceRecordView};
use crate::report::PayloadView;
use crate::scan::{each_once, has_id, spec_ordered, with_id};

verus! {

/// An action, and the answer to it.
pub type Step = (ActionView, AnswerView);

/// The answers to the steps from `i` up to, and without, `k`, and more behind them.
pub open spec fn given(steps: Seq<Step>, i: int, k: int, more: Seq<AnswerView>) -> Seq<AnswerView> {
    Seq::new((k - i) as nat, |j: int| steps[i + j].1) + more
}

pub broadcast proof fn lemma_given_first(
    steps: Seq<Step>,
    i: int,
    k: int,
    more: Seq<AnswerView>,
)
    requires
        i < k,
    ensures
        #[trigger] given(steps, i, k, more).drop_first() == given(steps, i + 1, k, more),
{
    assert(given(steps, i, k, more).drop_first() =~= given(steps, i + 1, k, more));
}

pub broadcast proof fn lemma_given_none(steps: Seq<Step>, k: int, more: Seq<AnswerView>)
    ensures
        #[trigger] given(steps, k, k, more) == more,
{
    assert(given(steps, k, k, more) =~= more);
}

pub broadcast group group_given {
    lemma_given_first,
    lemma_given_none,
}

/// With the answers to the steps before it, a procedure asks for each of the steps.
pub open spec fn asks_in_turn<T>(
    procedure: spec_fn(Seq<AnswerView>) -> Flow<T>,
    steps: Seq<Step>,
) -> bool {
    forall|k: int|
        0 <= k < steps.len() ==> procedure(#[trigger] given(steps, 0, k, Seq::empty()))
            == Flow::<T>::Asks(steps[k].0)
}

/// All the answers to the steps, and more behind them.
pub open spec fn all_given(steps: Seq<Step>, more: Seq<AnswerView>) -> Seq<AnswerView> {
    given(steps, 0, steps.len() as int, more)
}

/// A procedure asks for each of the steps, and goes on like another from there.
pub open spec fn goes_on_as<T>(
    procedure: spec_fn(Seq<AnswerView>) -> Flow<T>,
    steps: Seq<Step>,
    other: spec_fn(Seq<AnswerView>) -> Flow<T>,
    more: Seq<AnswerView>,
) -> bool {
    asks_in_turn(procedure, steps) && procedure(all_given(steps, more)) == other(more)
}

/// A procedure asks for each of the steps, and ends with a value.
pub open spec fn ends_with<T>(
    procedure: spec_fn(Seq<AnswerView>) -> Flow<T>,
    steps: Seq<Step>,
    value: T,
    more: Seq<AnswerView>,
) -> bool {
    asks_in_turn(procedure, steps) && procedure(all_given(steps, more)) == Flow::Done(value, more)
}

/// A procedure asks for each of the steps, and fails.
pub open spec fn fails_with<T>(
    procedure: spec_fn(Seq<AnswerView>) -> Flow<T>,
    steps: Seq<Step>,
    error: CubeErrorView,
    more: Seq<AnswerView>,
) -> bool {
    asks_in_turn(procedure, steps) && procedure(all_given(steps, more)) == Flow::<T>::Failed(
        error,
        more,
    )
}

/// A command line asks for each of the steps, and hands back a payload.
pub open spec fn hands_back(
    command: CommandView,
    steps: Seq<Step>,
    payload: PayloadView,
    more: Seq<AnswerView>,
) -> bool {
    &&& asks_in_turn(|t: Seq<AnswerView>| flow_command(t, command), steps)
    &&& flow_command(all_given(steps, more), command) matches Flow::Done(r, rest) && rest == more
        && r.payload == payload
}

/// A command that is run.
pub open spec fn runs(cwd: Seq<char>, program: Seq<char>, args: Seq<Seq<char>>) -> ActionView {
    ActionView::Run(CommandInvocationView { cwd, program, args })
}

/// `jj` with the given arguments in a directory.
pub open spec fn jj(cwd: Seq<char>, args: Seq<Seq<char>>) -> ActionView {
    runs(cwd, "jj"@, args)
}

/// The workspaces of a repository, all of them or those that are free and sound.
pub open spec fn rows_of(repo: Option<Seq<char>>, state: Option<EffectiveState>) -> ActionView {
    ActionView::ListWorkspaces(
        WorkspaceListFilterView {
            repo,
            workspace_id: None,
            effective_state: state,
            holder_pattern: None,
        },
    )
}

/// The workspaces with an id, in a repository where one is given.
pub open spec fn rows_with(repo: Option<Seq<char>>, id: Option<Seq<char>>) -> ActionView {
    ActionView::ListWorkspaces(
        WorkspaceListFilterView {
            repo,
            workspace_id: id,
            effective_state: None,
            holder_pattern: None,
        },
    )
}

/// The command line for a workspace.
pub open spec fn on_workspace(command: WorkspaceCommandView) -> CommandView {
    CommandView::Workspace { command }
}

/// The command line for a repository.
pub open spec fn on_repo(command: RepoCommandView) -> CommandView {
    CommandView::Repo { command }
}

/// The command line for a change.
pub open spec fn on_change(command: ChangeCommandView) -> CommandView {
    CommandView::Change { command }
}

/// The command line for a pull request.
pub open spec fn on_pr(command: PrCommandView) -> CommandView {
    CommandView::Pr { command }
}

/// `gh` with the given arguments in a directory.
pub open spec fn gh(cwd: Seq<char>, args: Seq<Seq<char>>) -> ActionView {
    runs(cwd, "gh"@, args)
}

/// `jj` operations are noted in the audit log under this name.
pub open spec fn named_op(path: Seq<char>, verb: Seq<char>, args: Seq<Seq<char>>) -> ActionView {
    ActionView::Audit(
        AuditEventView::named("workspace.jj_op"@).text("workspace_path"@, path).text(
            "verb"@,
            verb,
        ).texts("args"@, args),
    )
}

/// The claim of a workspace: under the name, task and time of the lease, and for half an
/// hour from then.
pub open spec fn claim(ticket: TicketView, id: Seq<char>) -> ActionView {
    ActionView::ClaimWorkspace {
        repo: ticket.repo,
        workspace_id: id,
        holder: ticket.holder,
        task: ticket.task,
        lease_id: ticket.lease_id,
        leased_at_epoch_s: ticket.now_epoch_s,
        expires_at_epoch_s: Some((ticket.now_epoch_s + 1800) as i64),
    }
}

/// A name that begins with `pr/`.
pub open spec fn is_reserved(name: Seq<char>) -> bool {
    name.len() >= 3 && name[0] == 'p' && name[1] == 'r' && name[2] == '/'
}

/// One free workspace is all there is to try.
pub proof fn lemma_one_free(w: WorkspaceRecordView)
    ensures
        spec_ordered(seq![w], None) == seq![w],
        seq![w].drop_first() == Seq::<WorkspaceRecordView>::empty(),
{
    reveal_with_fuel(each_once, 3);
    assert(seq![w].drop_last() =~= Seq::<WorkspaceRecordView>::empty());
    assert(seq![w].drop_first() =~= Seq::<WorkspaceRecordView>::empty());
    assert(spec_ordered(seq![w], None) =~= seq![w]);
}

/// Two free workspaces are tried in the order in which they are listed, or the preferred
/// one first.
pub proof fn lemma_two_free(a: WorkspaceRecordView, b: WorkspaceRecordView)
    requires
        a.workspace_id != b.workspace_id,
    ensures
        spec_ordered(seq![a, b], None) == seq![a, b],
        spec_ordered(seq![a, b], Some(b.workspace_id)) == seq![b, a],
        seq![a, b].drop_first() == seq![b],
        seq![b, a].drop_first() == seq![a],
        seq![b].drop_first() == Seq::<WorkspaceRecordView>::empty(),
{
    let none = Seq::<WorkspaceRecordView>::empty();
    let free = seq![a, b];
    reveal_with_fuel(each_once, 4);
    reveal_with_fuel(with_id, 4);
    assert(free.drop_last() =~= seq![a]);
    assert(seq![a].drop_last() =~= none);
    assert(free.drop_first() =~= seq![b]);
    assert(seq![b, a].drop_first() =~= seq![a]);
    assert(seq![b].drop_first() =~= none);
    assert(each_once(none, seq![a]) =~= seq![a]) by {
        assert(!has_id(none, a.workspace_id));
    }
    assert(!has_id(seq![a], b.workspace_id));
    assert(spec_ordered(free, None) =~= seq![a, b]);
    assert(with_id(free, b.workspace_id) =~= seq![b]);
    assert(!has_id(seq![b], a.workspace_id));
    assert(each_once(seq![b], seq![a]) =~= seq![b, a]);
    assert(seq![b, a][0].workspace_id == b.workspace_id);
    assert(has_id(seq![b, a], b.workspace_id));
    assert(spec_ordered(free, Some(b.workspace_id)) =~= seq![b, a]);
}

} // verus!
