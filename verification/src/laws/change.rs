//! Changes: what is shown is what was stored.

use vstd::prelude::*;

use crate::change::{flow_change, flow_new_change};
use crate::cli::{ChangeCommandView, ChangeCreateArgsView};
use crate::flow::{ActionView, AnswerView, Flow};
use crate::records::ChangeRecordView;
use crate::render::spec_change_detail;
use crate::report::{PayloadView, RunResultView};

verus! {

/// The registry answers the insertion of a change with the change that it was given,
/// or without one.
pub open spec fn keeps_what_is_inserted(t: Seq<AnswerView>, args: ChangeCreateArgsView) -> bool {
    flow_new_change(t.drop_first(), args) matches Flow::Done(change, rest) ==> rest.len() > 0 && (
    rest[0] == AnswerView::Change(Some(change)) || rest[0] == AnswerView::Change(None))
}

/// A change that was created carries the title and the parent that it was given.
pub proof fn law_new_change_is_as_asked(
    t: Seq<AnswerView>,
    args: ChangeCreateArgsView,
    change: ChangeRecordView,
    rest: Seq<AnswerView>,
)
    requires
        flow_new_change(t, args) == Flow::Done(change, rest),
    ensures
        change.title == args.title,
        args.workspace matches Some(path) ==> change.workspace_path == path
            && change.parent_change_id is None,
        args.workspace is None ==> change.parent_change_id is Some,
{
}

/// Showing a change that was created hands back the payload of its creation, with the
/// title that was given, where the registry keeps what is inserted and answers the
/// lookup with it.
pub proof fn law_change_info_gives_back_what_was_created(
    t: Seq<AnswerView>,
    args: ChangeCreateArgsView,
    created: RunResultView,
    rest: Seq<AnswerView>,
    home: Option<Seq<char>>,
    more: Seq<AnswerView>,
)
    requires
        flow_change(t, ChangeCommandView::Create(args)) == Flow::Done(created, rest),
        keeps_what_is_inserted(t, args),
    ensures
        created.payload matches PayloadView::Change(stored) && stored.title == args.title
            && flow_change(
            seq![AnswerView::Saved, AnswerView::Change(Some(stored)), AnswerView::Place(home)]
                + more,
            ChangeCommandView::Info { change: stored.change_id },
        ) == Flow::Done(
            RunResultView {
                message: spec_change_detail(stored, home),
                payload: created.payload,
            },
            more,
        ),
{
    let u = t.drop_first();
    if let Flow::Done(change, after) = flow_new_change(u, args) {
        law_new_change_is_as_asked(u, args, change, after);
        let shown = seq![
            AnswerView::Saved,
            AnswerView::Change(Some(change)),
            AnswerView::Place(home),
        ] + more;
        assert(shown.drop_first()[0] == AnswerView::Change(Some(change)));
        assert(shown.drop_first().drop_first()[0] == AnswerView::Place(home));
        assert(shown.drop_first().drop_first().drop_first() =~= more);
    }
}

/// Showing a change runs nothing, and looks up no change but the one that is named.
pub proof fn law_change_info_runs_nothing(t: Seq<AnswerView>, id: Seq<char>)
    ensures
        match flow_change(t, ChangeCommandView::Info { change: id }) {
            Flow::Asks(ActionView::Run(_)) => false,
            Flow::Asks(ActionView::GetChange(other)) => other == id,
            _ => true,
        },
{
}

} // verus!
