//! Cleaning up: what is forgotten, and what is left alone.

use vstd::prelude::*;

use crate::command_runner::CommandInvocationView;
use crate::flow::{
    ask_done, ask_flag, ask_listed, ask_output, ask_place, ask_saved, ask_time, ask_workspaces,
    ActionView, AnswerView, DirEntryView, Flow, ListingView,
};
use crate::gc::{
    bookmark_query, flow_closed_among, flow_closed_bookmarks, flow_fetch_if, flow_forget,
    flow_gc_bookmarks, picked, picks, state_query, Pick,
};
use crate::git::spec_github_remote;
use crate::jj::{flow_run_jj, spec_jj};
use crate::laws::jj::{law_run_jj_asks_little, lemma_output_left};
use crate::paths::spec_path_join;
use crate::pool_gc::{
    entry_name, flow_gc_aged, flow_gc_aged_all, flow_gc_aged_one, flow_gc_bookmarks_all,
    flow_gc_logs, flow_gc_rest, flow_max_age, flow_pool_gc, flow_remove_logs, flow_trigger_gc,
    gc_due, is_registered, spec_minus, warn, AUTO_GC_INTERVAL_SECS,
};
use crate::pr::spec_gh;
use crate::records::{spec_filter, WorkspaceRecordView, WorkspaceState};
use crate::split::spec_words;
use crate::text::spec_strip_prefix;

verus! {

/// The bookmarks picked from a listing are distinct, each is in the listing, and each
/// is of the kind that is looked for; and every such bookmark of the listing is
/// picked.
pub proof fn law_picked_bookmarks(names: Seq<Seq<char>>, pick: Pick)
    ensures
        picked(names, pick).no_duplicates(),
        forall|name: Seq<char>| #[trigger]
            picked(names, pick).contains(name) <==> names.contains(name) && picks(pick, name),
    decreases names.len(),
{
    if names.len() > 0 {
        let before = picked(names.drop_last(), pick);
        let after = picked(names, pick);
        let last = names.last();
        law_picked_bookmarks(names.drop_last(), pick);
        assert forall|name: Seq<char>| #[trigger]
            after.contains(name) <==> names.contains(name) && picks(pick, name) by {
            if after.contains(name) {
                let i = choose|i: int| 0 <= i < after.len() && after[i] == name;
                if i < before.len() {
                    assert(before[i] == name);
                    assert(before.contains(name));
                    let j = choose|j: int|
                        0 <= j < names.drop_last().len() && names.drop_last()[j] == name;
                    assert(names[j] == name);
                } else {
                    assert(names[names.len() - 1] == name);
                }
            }
            if names.contains(name) && picks(pick, name) {
                let j = choose|j: int| 0 <= j < names.len() && names[j] == name;
                if j < names.len() - 1 {
                    assert(names.drop_last()[j] == name);
                    assert(names.drop_last().contains(name));
                    assert(before.contains(name));
                    let i = choose|i: int| 0 <= i < before.len() && before[i] == name;
                    assert(after[i] == name);
                } else if before.contains(last) {
                    let i = choose|i: int| 0 <= i < before.len() && before[i] == name;
                    assert(after[i] == name);
                } else {
                    assert(after[after.len() - 1] == name);
                }
            }
        }
    }
}

/// A command that forgets bookmarks.
pub open spec fn forgets(c: CommandInvocationView) -> bool {
    c.args.len() > 1 && c.args[0] == "bookmark"@ && c.args[1] == "forget"@
}

/// The flow does not ask to forget bookmarks.
pub open spec fn forgets_nothing<T>(flow: Flow<T>) -> bool {
    match flow {
        Flow::Asks(ActionView::Run(c)) => !forgets(c),
        _ => true,
    }
}

proof fn lemma_words()
    ensures
        "git"@ != "bookmark"@,
        "log"@ != "bookmark"@,
        "workspace"@ != "bookmark"@,
        "pr"@ != "bookmark"@,
{
    reveal_strlit("git");
    reveal_strlit("log");
    reveal_strlit("workspace");
    reveal_strlit("pr");
    reveal_strlit("bookmark");
    assert("git"@[0] == 'g');
    assert("log"@[0] == 'l');
    assert("workspace"@[0] == 'w');
    assert("pr"@[0] == 'p');
    assert("bookmark"@[0] == 'b');
}

proof fn lemma_jj_forgets_nothing(t: Seq<AnswerView>, path: Seq<char>, args: Seq<Seq<char>>)
    requires
        args.len() > 0,
        args[0] != "bookmark"@,
    ensures
        forgets_nothing(flow_run_jj(t, spec_jj(path, args))),
{
    lemma_words();
    law_run_jj_asks_little(t, spec_jj(path, args));
    assert(seq!["workspace"@, "update-stale"@][0] == "workspace"@);
    assert(seq!["git"@, "init"@, "--colocate"@][0] == "git"@);
}

proof fn lemma_closed_among(
    t: Seq<AnswerView>,
    path: Seq<char>,
    slug: Seq<char>,
    names: Seq<Seq<char>>,
    found: Seq<Seq<char>>,
)
    ensures
        forgets_nothing(flow_closed_among(t, path, slug, names, found)),
    decreases names.len(),
{
    if names.len() > 0 {
        match spec_strip_prefix(names[0], "pr/"@) {
            None => lemma_closed_among(t, path, slug, names.drop_first(), found),
            Some(number) => {
                lemma_words();
                let inv = spec_gh(path, state_query(number, slug));
                assert(inv.args[0] == "pr"@);
                lemma_output_left(t, ActionView::Run(inv));
                match ask_output(t, ActionView::Run(inv)) {
                    Flow::Done(state, t1) => {
                        lemma_closed_among(t1, path, slug, names.drop_first(), found);
                        lemma_closed_among(
                            t1,
                            path,
                            slug,
                            names.drop_first(),
                            found.push(names[0]),
                        );
                    },
                    Flow::Failed(_, t1) => lemma_closed_among(
                        t1,
                        path,
                        slug,
                        names.drop_first(),
                        found,
                    ),
                    Flow::Asks(_) => {},
                }
            },
        }
    }
}

proof fn lemma_closed_bookmarks(t: Seq<AnswerView>, path: Seq<char>)
    ensures
        forgets_nothing(flow_closed_bookmarks(t, path)),
        flow_closed_bookmarks(t, path) !is Failed,
{
    lemma_words();
    let list = spec_jj(path, seq!["git"@, "remote"@, "list"@]);
    assert(list.args[0] == "git"@);
    lemma_output_left(t, ActionView::Run(list));
    if let Flow::Done(remotes, t1) = ask_output(t, ActionView::Run(list)) {
        if let Some(github) = spec_github_remote(remotes) {
            let query = bookmark_query("bookmarks(glob:\"pr/*\")"@);
            assert(query[0] == "log"@);
            lemma_jj_forgets_nothing(t1, path, query);
            if let Flow::Done(output, t2) = flow_run_jj(t1, spec_jj(path, query)) {
                let names = picked(spec_words(output), Pick::Pr);
                lemma_closed_among(t2, path, github.1, names, Seq::empty());
                lemma_closed_among_ends(t2, path, github.1, names, Seq::empty());
            }
        }
    }
}

proof fn lemma_closed_among_ends(
    t: Seq<AnswerView>,
    path: Seq<char>,
    slug: Seq<char>,
    names: Seq<Seq<char>>,
    found: Seq<Seq<char>>,
)
    ensures
        flow_closed_among(t, path, slug, names, found) !is Failed,
    decreases names.len(),
{
    if names.len() > 0 {
        match spec_strip_prefix(names[0], "pr/"@) {
            None => lemma_closed_among_ends(t, path, slug, names.drop_first(), found),
            Some(number) => match ask_output(
                t,
                ActionView::Run(spec_gh(path, state_query(number, slug))),
            ) {
                Flow::Done(state, t1) => {
                    lemma_closed_among_ends(t1, path, slug, names.drop_first(), found);
                    lemma_closed_among_ends(
                        t1,
                        path,
                        slug,
                        names.drop_first(),
                        found.push(names[0]),
                    );
                },
                Flow::Failed(_, t1) => lemma_closed_among_ends(
                    t1,
                    path,
                    slug,
                    names.drop_first(),
                    found,
                ),
                Flow::Asks(_) => {},
            },
        }
    }
}

/// Looking for the bookmarks of closed pull requests never fails.
pub proof fn law_closed_bookmarks_never_fail(t: Seq<AnswerView>, path: Seq<char>)
    ensures
        flow_closed_bookmarks(t, path) !is Failed,
{
    lemma_closed_bookmarks(t, path);
}

/// A dry run forgets nothing.
pub proof fn law_dry_run_forgets_nothing(t: Seq<AnswerView>, path: Seq<char>, fetch: bool)
    ensures
        forgets_nothing(flow_gc_bookmarks(t, path, fetch, true)),
{
    lemma_words();
    lemma_jj_forgets_nothing(t, path, seq!["git"@, "fetch"@]);
    if let Flow::Done(_, t1) = flow_fetch_if(t, path, fetch) {
        let query = bookmark_query("bookmarks(glob:\"boss/exec_*\") & ::main"@);
        assert(query[0] == "log"@);
        lemma_jj_forgets_nothing(t1, path, query);
        if let Flow::Done(output, t2) = flow_run_jj(t1, spec_jj(path, query)) {
            lemma_closed_bookmarks(t2, path);
        }
    }
}

/// A dry run that comes to its end names what a real run given the same answers goes
/// on to forget.
pub proof fn law_dry_run_names_what_would_go(
    t: Seq<AnswerView>,
    path: Seq<char>,
    fetch: bool,
    names: Seq<Seq<char>>,
    rest: Seq<AnswerView>,
)
    requires
        flow_gc_bookmarks(t, path, fetch, true) == Flow::Done(names, rest),
    ensures
        flow_gc_bookmarks(t, path, fetch, false) == flow_forget(rest, path, names, false),
{
}

// ---------------------------------------------------------------------------
// Workspaces that have been unhealthy for long
// ---------------------------------------------------------------------------

/// The cleanup asks for nothing on a workspace that is leased, healthy, or has been
/// unhealthy for no longer than the given age.
pub proof fn law_gc_leaves_others_alone(
    t: Seq<AnswerView>,
    now: i64,
    max_age_secs: i64,
    record: WorkspaceRecordView,
)
    requires
        record.state == WorkspaceState::Leased || record.health_status is None
            || record.unhealthy_since_epoch_s is None || now - record.unhealthy_since_epoch_s->0
            <= max_age_secs,
    ensures
        flow_gc_aged_one(t, now, spec_minus(now, max_age_secs), record) == Flow::Done((), t),
{
}

/// The cleanup of one workspace never fails, so that one never keeps the others from
/// being cleaned up.
pub proof fn law_gc_of_one_never_fails(
    t: Seq<AnswerView>,
    now: i64,
    threshold: i64,
    record: WorkspaceRecordView,
)
    ensures
        flow_gc_aged_one(t, now, threshold, record) !is Failed,
{
}

proof fn lemma_bookmarks_of_all(t: Seq<AnswerView>, records: Seq<WorkspaceRecordView>)
    ensures
        flow_gc_bookmarks_all(t, records) !is Failed,
    decreases records.len(),
{
    if records.len() > 0 {
        let rest = records.drop_first();
        let path = records[0].workspace_path;
        if records[0].state == WorkspaceState::Leased {
            lemma_bookmarks_of_all(t, rest);
        } else if let Flow::Done(there, t1) = ask_flag(t, ActionView::IsDir(path)) {
            if !there {
                lemma_bookmarks_of_all(t1, rest);
            } else {
                match flow_gc_bookmarks(t1, path, true, false) {
                    Flow::Done(_, t2) => lemma_bookmarks_of_all(t2, rest),
                    Flow::Failed(e, t2) => {
                        let text = "cube: auto gc: "@ + records[0].workspace_id + ": "@
                            + e.message();
                        if let Flow::Done(_, t3) = warn(t2, text) {
                            lemma_bookmarks_of_all(t3, rest);
                        }
                    },
                    Flow::Asks(_) => {},
                }
            }
        }
    }
}

proof fn lemma_aged_all(
    t: Seq<AnswerView>,
    now: i64,
    threshold: i64,
    records: Seq<WorkspaceRecordView>,
)
    ensures
        flow_gc_aged_all(t, now, threshold, records) !is Failed,
    decreases records.len(),
{
    if records.len() > 0 {
        law_gc_of_one_never_fails(t, now, threshold, records[0]);
        if let Flow::Done(_, t1) = flow_gc_aged_one(t, now, threshold, records[0]) {
            lemma_aged_all(t1, now, threshold, records.drop_first());
        }
    }
}

proof fn lemma_logs(
    t: Seq<AnswerView>,
    dir: Seq<char>,
    entries: Seq<DirEntryView>,
    records: Seq<WorkspaceRecordView>,
)
    ensures
        flow_remove_logs(t, dir, entries, records) !is Failed,
    decreases entries.len(),
{
    if entries.len() > 0 {
        let rest = entries.drop_first();
        match entry_name(entries[0]) {
            Some(name) if !is_registered(records, name) => {
                let path = spec_path_join(dir, name);
                if let Flow::Done(fault, t1) = ask_done(t, ActionView::RemoveTree(path)) {
                    match fault {
                        None => lemma_logs(t1, dir, rest, records),
                        Some(f) => {
                            let text = "cube: workspace logs gc: failed to remove "@ + path
                                + ": "@ + f.text;
                            if let Flow::Done(_, t2) = warn(t1, text) {
                                lemma_logs(t2, dir, rest, records);
                            }
                        },
                    }
                }
            },
            _ => lemma_logs(t, dir, rest, records),
        }
    }
}

proof fn lemma_all_logs(t: Seq<AnswerView>)
    ensures
        flow_gc_logs(t) !is Failed,
{
    if let Flow::Done(Some(dir), t1) = ask_place(t, ActionView::LogsDir) {
        if let Flow::Done(true, t2) = ask_flag(t1, ActionView::Exists(dir)) {
            if let Flow::Done(ListingView::Entries(entries), t3) = ask_listed(
                t2,
                ActionView::ReadDir(dir),
            ) {
                if let Flow::Done(records, t4) = ask_workspaces(
                    t3,
                    ActionView::ListWorkspaces(spec_filter(None, None)),
                ) {
                    lemma_logs(t4, dir, entries, records);
                }
            }
        }
    }
}

proof fn lemma_rest(t: Seq<AnswerView>, max_age_secs: i64)
    ensures
        flow_gc_rest(t, max_age_secs) !is Failed,
{
    let all = ActionView::ListWorkspaces(spec_filter(None, None));
    match ask_time(t, ActionView::Clock) {
        Flow::Done(now, t1) => {
            if let Flow::Done(found, t2) = ask_workspaces(t1, all) {
                lemma_aged_all(t2, now, spec_minus(now, max_age_secs), found);
            }
            if let Flow::Done(_, t3) = flow_gc_aged(t1, now, max_age_secs) {
                lemma_all_logs(t3);
            }
        },
        Flow::Failed(_, t1) => lemma_all_logs(t1),
        Flow::Asks(_) => {},
    }
}

/// Nothing that goes wrong in the pool-wide cleanup is a failure of it.
pub proof fn law_pool_gc_never_fails(t: Seq<AnswerView>)
    ensures
        flow_pool_gc(t) !is Failed,
{
    let all = ActionView::ListWorkspaces(spec_filter(None, None));
    if let Flow::Done(_, t1) = ask_saved(t, ActionView::OpenStore) {
        if let Flow::Done(records, t2) = ask_workspaces(t1, all) {
            lemma_bookmarks_of_all(t2, records);
            if let Flow::Done(_, t3) = flow_gc_bookmarks_all(t2, records) {
                if let Flow::Done(max_age_secs, t4) = flow_max_age(t3) {
                    lemma_rest(t4, max_age_secs);
                }
            }
        }
    }
}

/// The cleanup is started only after the time was kept, so that another lease at the
/// same time does not start it again.
pub proof fn law_gc_is_noted_first(t: Seq<AnswerView>, now: i64)
    ensures
        flow_trigger_gc(t, now) == Flow::<()>::Asks(ActionView::SpawnPoolGc) ==> t.len() >= 2
            && t[1] == AnswerView::Saved,
        flow_trigger_gc(t, now) matches Flow::Asks(ActionView::SetPoolNumber { key, value })
            ==> key == "last_pool_gc_at"@ && value == now,
{
}

/// Once the cleanup has been noted, it is not due again for a day.
pub proof fn law_gc_at_most_once_a_day(noted: i64, now: i64)
    requires
        now < noted + AUTO_GC_INTERVAL_SECS,
    ensures
        !gc_due(Some(noted), now),
{
}

} // verus!
