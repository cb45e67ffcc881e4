//! The pool-wide cleanup that runs in the background.

use vstd::prelude::*;

use crate::config::{flow_load_config, load_config, UnhealthyGc};
use crate::events::{AuditEvent, AuditEventView};
use crate::flow::{
    ask_ack, ask_cleared, ask_done, ask_flag, ask_listed, ask_number, ask_place, ask_repo,
    ask_saved, ask_time, ask_workspaces, follows, Action, ActionView, AnswerView, DirEntry,
    DirEntryView, DirName, DirNameView, Flow, IoFaultView, Listing, ListingView, Stop, Tape,
};
use crate::gc::{flow_gc_bookmarks, gc_workspace_bookmarks};
use crate::number::{signed, spec_signed};
use crate::paths::{path_join, spec_path_join};
use crate::records::{
    filter, health_name, spec_filter, WorkspaceRecord, WorkspaceRecordView, WorkspaceState,
};
use crate::reset::{flow_reset, reset_workspace};
use crate::text::{cat, copy, same};

verus! {

/// The cleanup runs at most once in this many seconds.
pub const AUTO_GC_INTERVAL_SECS: i64 = 86400;

/// The difference of two times, kept within the range of a time.
pub open spec fn spec_minus(a: i64, b: i64) -> i64 {
    if a - b > i64::MAX {
        i64::MAX
    } else if a - b < i64::MIN {
        i64::MIN
    } else {
        (a - b) as i64
    }
}

/// The sum of two times, kept within the range of a time.
pub open spec fn spec_plus(a: i64, b: i64) -> i64 {
    if a + b > i64::MAX {
        i64::MAX
    } else if a + b < i64::MIN {
        i64::MIN
    } else {
        (a + b) as i64
    }
}

pub fn minus(a: i64, b: i64) -> (r: i64)
    ensures
        r == spec_minus(a, b),
{
    if b < 0 && a > i64::MAX + b {
        i64::MAX
    } else if b > 0 && a < i64::MIN + b {
        i64::MIN
    } else {
        a - b
    }
}

pub fn plus(a: i64, b: i64) -> (r: i64)
    ensures
        r == spec_plus(a, b),
{
    if b > 0 && a > i64::MAX - b {
        i64::MAX
    } else if b < 0 && a < i64::MIN - b {
        i64::MIN
    } else {
        a + b
    }
}

pub open spec fn warn(t: Seq<AnswerView>, text: Seq<char>) -> Flow<()> {
    ask_ack(t, ActionView::Warn(text))
}

/// Whether the cleanup is due: it never ran, or not for a day.
pub open spec fn gc_due(last: Option<i64>, now: i64) -> bool {
    match last {
        None => true,
        Some(last) => now - last >= AUTO_GC_INTERVAL_SECS,
    }
}

/// Starts the cleanup where it is due, and notes the time before it does.
pub open spec fn flow_trigger_gc(t: Seq<AnswerView>, now: i64) -> Flow<()> {
    ask_number(t, ActionView::GetPoolNumber("last_pool_gc_at"@)).and(
        |last: Option<i64>, t: Seq<AnswerView>|
            if gc_due(last, now) {
                ask_saved(
                    t,
                    ActionView::SetPoolNumber { key: "last_pool_gc_at"@, value: now },
                ).and(|u: (), t: Seq<AnswerView>| ask_ack(t, ActionView::SpawnPoolGc))
            } else {
                Flow::Done((), t)
            },
    )
}

pub fn maybe_trigger_pool_gc(tape: &mut Tape, now: i64) -> (r: Result<(), Stop>)
    ensures
        follows(r, final(tape)@, flow_trigger_gc(old(tape)@, now)),
{
    let last: Option<i64> = tape.ask_number(Action::GetPoolNumber("last_pool_gc_at".to_string()))?;
    let due: bool = match last {
        None => true,
        Some(last) => minus(now, last) >= AUTO_GC_INTERVAL_SECS,
    };
    if !due {
        return Ok(());
    }
    tape.ask_saved(
        Action::SetPoolNumber { key: "last_pool_gc_at".to_string(), value: now },
    )?;
    tape.ask_ack(Action::SpawnPoolGc)
}

// ---------------------------------------------------------------------------
// Workspaces that have been unhealthy for long
// ---------------------------------------------------------------------------

/// A free workspace that has been unhealthy since before the threshold.
pub open spec fn is_aged(record: WorkspaceRecordView, threshold: i64) -> bool {
    &&& record.state == WorkspaceState::Free
    &&& record.health_status is Some
    &&& record.unhealthy_since_epoch_s is Some
    &&& record.unhealthy_since_epoch_s->0 < threshold
}

pub fn aged(record: &WorkspaceRecord, threshold: i64) -> (r: bool)
    ensures
        r == is_aged(record.deep_view(), threshold),
{
    match (record.state, record.health_status, record.unhealthy_since_epoch_s) {
        (WorkspaceState::Free, Some(_), Some(since)) => since < threshold,
        _ => false,
    }
}

/// How the lines that the cleanup of workspaces prints begin.
pub open spec fn aged_line(id: Seq<char>, rest: Seq<char>) -> Seq<char> {
    "cube: unhealthy gc: "@ + id + rest
}

fn line(id: &str, rest: &str) -> (r: String)
    ensures
        r@ == aged_line(id@, rest@),
{
    cat(cat("cube: unhealthy gc: ".to_string(), id), rest)
}

/// Whether the workspace is still free by what the registry says now.
pub open spec fn flow_still_free(t: Seq<AnswerView>, record: WorkspaceRecordView) -> Flow<bool> {
    match ask_workspaces(
        t,
        ActionView::ListWorkspaces(spec_filter(Some(record.repo), Some(record.workspace_id))),
    ) {
        Flow::Done(found, t) => Flow::Done(
            found.len() > 0 && found.last().state == WorkspaceState::Free,
            t,
        ),
        Flow::Failed(_, t) => Flow::Done(false, t),
        Flow::Asks(a) => Flow::Asks(a),
    }
}

fn still_free(tape: &mut Tape, record: &WorkspaceRecord) -> (r: Result<bool, Stop>)
    ensures
        follows(r, final(tape)@, flow_still_free(old(tape)@, record.deep_view())),
{
    match tape.ask_workspaces(
        Action::ListWorkspaces(
            filter(Some(copy(&record.repo)), Some(copy(&record.workspace_id))),
        ),
    ) {
        Ok(found) => {
            let n: usize = found.len();
            if n == 0 {
                return Ok(false);
            }
            assert(found.deep_view().last() == found@[n - 1].deep_view());
            Ok(
                match found[n - 1].state {
                    WorkspaceState::Free => true,
                    WorkspaceState::Leased => false,
                },
            )
        },
        Err(Stop::Fail(_)) => Ok(false),
        Err(stop) => Err(stop),
    }
}

/// The default branch of the repository, where it is registered.
pub open spec fn flow_main_branch(t: Seq<AnswerView>, repo: Seq<char>) -> Flow<Option<Seq<char>>> {
    match ask_repo(t, ActionView::GetRepo(repo)) {
        Flow::Done(Some(record), t) => Flow::Done(Some(record.main_branch), t),
        Flow::Done(None, t) => Flow::Done(None, t),
        Flow::Failed(_, t) => Flow::Done(None, t),
        Flow::Asks(a) => Flow::Asks(a),
    }
}

fn main_branch(tape: &mut Tape, repo: &str) -> (r: Result<Option<String>, Stop>)
    ensures
        follows(r, final(tape)@, flow_main_branch(old(tape)@, repo@)),
{
    match tape.ask_repo(Action::GetRepo(repo.to_string())) {
        Ok(Some(record)) => Ok(Some(record.main_branch)),
        Ok(None) => Ok(None),
        Err(Stop::Fail(_)) => Ok(None),
        Err(stop) => Err(stop),
    }
}

/// The event for a workspace that was reset after being unhealthy for long.
pub open spec fn aged_event(record: WorkspaceRecordView, since: i64, age: i64) -> AuditEventView {
    AuditEventView::named("workspace.unhealthy_gc_reset"@).text(
        "workspace_id"@,
        record.workspace_id,
    ).text("repo"@, record.repo).text("prior_health"@, health_name(record.health_status->0)).maybe_text(
        "prior_holder"@,
        record.holder,
    ).maybe_text("prior_task"@, record.task).number("unhealthy_since_epoch_s"@, since).number(
        "age_secs"@,
        age,
    )
}

/// Records that the workspace was reset.
pub open spec fn flow_note_reset(
    t: Seq<AnswerView>,
    now: i64,
    record: WorkspaceRecordView,
) -> Flow<()> {
    let since = record.unhealthy_since_epoch_s->0;
    let age = spec_minus(now, since);
    ask_ack(t, ActionView::Audit(aged_event(record, since, age))).and(
        |u: (), t: Seq<AnswerView>|
            warn(
                t,
                "cube: unhealthy gc: reset "@ + record.workspace_id + " (was "@ + health_name(
                    record.health_status->0,
                ) + " for "@ + spec_signed(age as int) + "s)"@,
            ),
    )
}

fn note_reset(tape: &mut Tape, now: i64, record: &WorkspaceRecord) -> (r: Result<(), Stop>)
    requires
        record.health_status is Some,
        record.unhealthy_since_epoch_s is Some,
    ensures
        follows(r, final(tape)@, flow_note_reset(old(tape)@, now, record.deep_view())),
{
    if let (Some(health), Some(since)) = (record.health_status, record.unhealthy_since_epoch_s) {
        let age: i64 = minus(now, since);
        tape.ask_ack(
            Action::Audit(
                AuditEvent::named("workspace.unhealthy_gc_reset").text(
                    "workspace_id",
                    record.workspace_id.as_str(),
                ).text("repo", record.repo.as_str()).text("prior_health", health.as_str()).maybe_text(
                    "prior_holder",
                    &record.holder,
                ).maybe_text("prior_task", &record.task).number("unhealthy_since_epoch_s", since).number(
                    "age_secs",
                    age,
                ),
            ),
        )?;
        let head: String = cat(
            cat("cube: unhealthy gc: reset ".to_string(), record.workspace_id.as_str()),
            " (was ",
        );
        let text: String = cat(
            cat(cat(cat(head, health.as_str()), " for "), signed(age).as_str()),
            "s)",
        );
        return tape.ask_ack(Action::Warn(text));
    }
    Ok(())
}

/// Marks the workspace healthy after its reset.
pub open spec fn flow_mark_reset(
    t: Seq<AnswerView>,
    now: i64,
    record: WorkspaceRecordView,
) -> Flow<()> {
    match ask_cleared(
        t,
        ActionView::ClearUnhealthy { repo: record.repo, workspace_id: record.workspace_id },
    ) {
        Flow::Done(true, t) => flow_note_reset(t, now, record),
        Flow::Done(false, t) => warn(
            t,
            aged_line(record.workspace_id, ": claimed between reset and store update"@),
        ),
        Flow::Failed(e, t) => warn(
            t,
            aged_line(record.workspace_id, ": failed to clear store state: "@ + e.message()),
        ),
        Flow::Asks(a) => Flow::Asks(a),
    }
}

fn mark_reset(tape: &mut Tape, now: i64, record: &WorkspaceRecord) -> (r: Result<(), Stop>)
    requires
        record.health_status is Some,
        record.unhealthy_since_epoch_s is Some,
    ensures
        follows(r, final(tape)@, flow_mark_reset(old(tape)@, now, record.deep_view())),
{
    let id: &str = record.workspace_id.as_str();
    match tape.ask_cleared(
        Action::ClearUnhealthy {
            repo: copy(&record.repo),
            workspace_id: copy(&record.workspace_id),
        },
    ) {
        Ok(true) => note_reset(tape, now, record),
        Ok(false) => tape.ask_ack(
            Action::Warn(line(id, ": claimed between reset and store update")),
        ),
        Err(Stop::Fail(e)) => tape.ask_ack(
            Action::Warn(
                line(
                    id,
                    cat(
                        ": failed to clear store state: ".to_string(),
                        e.message().as_str(),
                    ).as_str(),
                ),
            ),
        ),
        Err(stop) => Err(stop),
    }
}

/// Resets one workspace, where it is aged, still there and still free.
pub open spec fn flow_gc_aged_one(
    t: Seq<AnswerView>,
    now: i64,
    threshold: i64,
    record: WorkspaceRecordView,
) -> Flow<()> {
    if !is_aged(record, threshold) {
        Flow::Done((), t)
    } else {
        ask_flag(t, ActionView::IsDir(record.workspace_path)).and(
            |there: bool, t: Seq<AnswerView>|
                if !there {
                    Flow::Done((), t)
                } else {
                    flow_still_free(t, record).and(
                        |free: bool, t: Seq<AnswerView>|
                            if !free {
                                warn(
                                    t,
                                    aged_line(
                                        record.workspace_id,
                                        " was claimed mid-pass, skipping"@,
                                    ),
                                )
                            } else {
                                flow_main_branch(t, record.repo).and(
                                    |main: Option<Seq<char>>, t: Seq<AnswerView>|
                                        match main {
                                            None => warn(
                                                t,
                                                aged_line(
                                                    record.workspace_id,
                                                    ": repo "@ + record.repo
                                                        + " not found, skipping"@,
                                                ),
                                            ),
                                            Some(main) => match flow_reset(
                                                t,
                                                record.workspace_path,
                                                main,
                                                None,
                                            ) {
                                                Flow::Done(_, t) => flow_mark_reset(
                                                    t,
                                                    now,
                                                    record,
                                                ),
                                                Flow::Failed(e, t) => warn(
                                                    t,
                                                    aged_line(
                                                        record.workspace_id,
                                                        ": reset failed: "@ + e.message(),
                                                    ),
                                                ),
                                                Flow::Asks(a) => Flow::Asks(a),
                                            },
                                        },
                                )
                            },
                    )
                },
        )
    }
}

fn gc_aged_one(tape: &mut Tape, now: i64, threshold: i64, record: &WorkspaceRecord) -> (r: Result<
    (),
    Stop,
>)
    ensures
        follows(
            r,
            final(tape)@,
            flow_gc_aged_one(old(tape)@, now, threshold, record.deep_view()),
        ),
{
    if !aged(record, threshold) {
        return Ok(());
    }
    let id: &str = record.workspace_id.as_str();
    let there: bool = tape.ask_flag(Action::IsDir(copy(&record.workspace_path)))?;
    if !there {
        return Ok(());
    }
    let free: bool = still_free(tape, record)?;
    if !free {
        return tape.ask_ack(Action::Warn(line(id, " was claimed mid-pass, skipping")));
    }
    let main: String = match main_branch(tape, record.repo.as_str())? {
        Some(main) => main,
        None => {
            let rest: String = cat(
                cat(": repo ".to_string(), record.repo.as_str()),
                " not found, skipping",
            );
            return tape.ask_ack(Action::Warn(line(id, rest.as_str())));
        },
    };
    match reset_workspace(tape, record.workspace_path.as_str(), main.as_str()) {
        Ok(_) => mark_reset(tape, now, record),
        Err(Stop::Fail(e)) => {
            let rest: String = cat(": reset failed: ".to_string(), e.message().as_str());
            tape.ask_ack(Action::Warn(line(id, rest.as_str())))
        },
        Err(stop) => Err(stop),
    }
}

pub open spec fn flow_gc_aged_all(
    t: Seq<AnswerView>,
    now: i64,
    threshold: i64,
    records: Seq<WorkspaceRecordView>,
) -> Flow<()>
    decreases records.len(),
{
    if records.len() == 0 {
        Flow::Done((), t)
    } else {
        flow_gc_aged_one(t, now, threshold, records[0]).and(
            |u: (), t: Seq<AnswerView>|
                flow_gc_aged_all(t, now, threshold, records.drop_first()),
        )
    }
}

/// Resets the free workspaces that have been unhealthy for longer than `max_age_secs`.
pub open spec fn flow_gc_aged(t: Seq<AnswerView>, now: i64, max_age_secs: i64) -> Flow<()> {
    match ask_workspaces(t, ActionView::ListWorkspaces(spec_filter(None, None))) {
        Flow::Done(records, t) => flow_gc_aged_all(t, now, spec_minus(now, max_age_secs), records),
        Flow::Failed(e, t) => warn(
            t,
            "cube: unhealthy gc: failed to list workspaces: "@ + e.message(),
        ),
        Flow::Asks(a) => Flow::Asks(a),
    }
}

pub fn gc_aged_unhealthy_workspaces(tape: &mut Tape, now: i64, max_age_secs: i64) -> (r: Result<
    (),
    Stop,
>)
    ensures
        follows(r, final(tape)@, flow_gc_aged(old(tape)@, now, max_age_secs)),
{
    let records: Vec<WorkspaceRecord> = match tape.ask_workspaces(
        Action::ListWorkspaces(filter(None, None)),
    ) {
        Ok(records) => records,
        Err(Stop::Fail(e)) => {
            return tape.ask_ack(
                Action::Warn(
                    cat(
                        "cube: unhealthy gc: failed to list workspaces: ".to_string(),
                        e.message().as_str(),
                    ),
                ),
            );
        },
        Err(stop) => {
            return Err(stop);
        },
    };
    let threshold: i64 = minus(now, max_age_secs);
    let ghost whole = records.deep_view();
    let ghost flow = flow_gc_aged_all(tape@, now, threshold, whole);
    let mut i: usize = 0;
    assert(whole.subrange(0, whole.len() as int) =~= whole);
    while i < records.len()
        invariant
            i <= records@.len(),
            whole == records.deep_view(),
            flow == flow_gc_aged(old(tape)@, now, max_age_secs),
            flow == flow_gc_aged_all(
                tape@,
                now,
                threshold,
                whole.subrange(i as int, whole.len() as int),
            ),
        decreases records@.len() - i,
    {
        let ghost rest = whole.subrange(i as int, whole.len() as int);
        proof {
            assert(rest[0] == records@[i as int].deep_view());
            assert(rest.drop_first() =~= whole.subrange(i + 1, whole.len() as int));
        }
        gc_aged_one(tape, now, threshold, &records[i])?;
        i += 1;
    }
    Ok(())
}

// ---------------------------------------------------------------------------
// Logs
// ---------------------------------------------------------------------------

/// The name as text, where it is Unicode.
pub open spec fn unicode_name(name: DirNameView) -> Option<Seq<char>> {
    if name.is_unicode {
        Some(name.text)
    } else {
        None
    }
}

/// The name of an entry, where it has one that is Unicode.
pub open spec fn entry_name(entry: DirEntryView) -> Option<Seq<char>> {
    match entry {
        DirEntryView::Named { name, .. } => unicode_name(name),
        DirEntryView::Untyped { name, .. } => unicode_name(name),
        DirEntryView::Unreadable { .. } => None,
    }
}

fn name_of(entry: &DirEntry) -> (r: Option<String>)
    ensures
        r.deep_view() == entry_name(entry.deep_view()),
{
    let name: &DirName = match entry {
        DirEntry::Named { name, .. } => name,
        DirEntry::Untyped { name, .. } => name,
        DirEntry::Unreadable { .. } => {
            return None;
        },
    };
    if name.is_unicode {
        Some(copy(&name.text))
    } else {
        None
    }
}

/// A workspace of this name is registered.
pub open spec fn is_registered(records: Seq<WorkspaceRecordView>, id: Seq<char>) -> bool {
    exists|i: int| 0 <= i < records.len() && (#[trigger] records[i]).workspace_id == id
}

fn registered(records: &Vec<WorkspaceRecord>, id: &str) -> (r: bool)
    ensures
        r == is_registered(records.deep_view(), id@),
{
    let mut i: usize = 0;
    while i < records.len()
        invariant
            i <= records@.len(),
            forall|j: int| 0 <= j < i ==> (#[trigger] records.deep_view()[j]).workspace_id != id@,
        decreases records@.len() - i,
    {
        assert(records.deep_view()[i as int] == records@[i as int].deep_view());
        if same(records[i].workspace_id.as_str(), id) {
            return true;
        }
        i += 1;
    }
    false
}

/// Removes the log directories of workspaces that are not registered.
pub open spec fn flow_remove_logs(
    t: Seq<AnswerView>,
    dir: Seq<char>,
    entries: Seq<DirEntryView>,
    records: Seq<WorkspaceRecordView>,
) -> Flow<()>
    decreases entries.len(),
{
    if entries.len() == 0 {
        Flow::Done((), t)
    } else {
        match entry_name(entries[0]) {
            Some(name) if !is_registered(records, name) => ask_done(
                t,
                ActionView::RemoveTree(spec_path_join(dir, name)),
            ).and(
                |fault: Option<IoFaultView>, t: Seq<AnswerView>|
                    match fault {
                        None => flow_remove_logs(t, dir, entries.drop_first(), records),
                        Some(f) => warn(
                            t,
                            "cube: workspace logs gc: failed to remove "@ + spec_path_join(
                                dir,
                                name,
                            ) + ": "@ + f.text,
                        ).and(
                            |u: (), t: Seq<AnswerView>|
                                flow_remove_logs(t, dir, entries.drop_first(), records),
                        ),
                    },
            ),
            _ => flow_remove_logs(t, dir, entries.drop_first(), records),
        }
    }
}

fn remove_logs(
    tape: &mut Tape,
    dir: &str,
    entries: &Vec<DirEntry>,
    records: &Vec<WorkspaceRecord>,
) -> (r: Result<(), Stop>)
    ensures
        follows(
            r,
            final(tape)@,
            flow_remove_logs(old(tape)@, dir@, entries.deep_view(), records.deep_view()),
        ),
{
    let ghost whole = entries.deep_view();
    let ghost flow = flow_remove_logs(tape@, dir@, whole, records.deep_view());
    let mut i: usize = 0;
    assert(whole.subrange(0, whole.len() as int) =~= whole);
    while i < entries.len()
        invariant
            i <= entries@.len(),
            whole == entries.deep_view(),
            flow == flow_remove_logs(
                old(tape)@,
                dir@,
                entries.deep_view(),
                records.deep_view(),
            ),
            flow == flow_remove_logs(
                tape@,
                dir@,
                whole.subrange(i as int, whole.len() as int),
                records.deep_view(),
            ),
        decreases entries@.len() - i,
    {
        let ghost rest = whole.subrange(i as int, whole.len() as int);
        proof {
            assert(rest[0] == entries@[i as int].deep_view());
            assert(rest.drop_first() =~= whole.subrange(i + 1, whole.len() as int));
        }
        if let Some(name) = name_of(&entries[i]) {
            if !registered(records, name.as_str()) {
                let path: String = path_join(dir, name.as_str());
                match tape.ask_done(Action::RemoveTree(copy(&path)))? {
                    None => {},
                    Some(f) => {
                        let head: String = cat(
                            "cube: workspace logs gc: failed to remove ".to_string(),
                            path.as_str(),
                        );
                        tape.ask_ack(Action::Warn(cat(cat(head, ": "), f.text.as_str())))?;
                    },
                }
            }
        }
        i += 1;
    }
    Ok(())
}

/// Removes what workspaces that are gone have left in the log directory.
pub open spec fn flow_gc_logs(t: Seq<AnswerView>) -> Flow<()> {
    ask_place(t, ActionView::LogsDir).and(
        |dir: Option<Seq<char>>, t: Seq<AnswerView>|
            match dir {
                None => Flow::Done((), t),
                Some(dir) => ask_flag(t, ActionView::Exists(dir)).and(
                    |there: bool, t: Seq<AnswerView>|
                        if !there {
                            Flow::Done((), t)
                        } else {
                            ask_listed(t, ActionView::ReadDir(dir)).and(
                                |listing: ListingView, t: Seq<AnswerView>|
                                    match listing {
                                        ListingView::Failed(cause) => warn(
                                            t,
                                            "cube: workspace logs gc: failed to read "@ + dir
                                                + ": "@ + cause,
                                        ),
                                        ListingView::Entries(entries) => match ask_workspaces(
                                            t,
                                            ActionView::ListWorkspaces(spec_filter(None, None)),
                                        ) {
                                            Flow::Done(records, t) => flow_remove_logs(
                                                t,
                                                dir,
                                                entries,
                                                records,
                                            ),
                                            Flow::Failed(e, t) => warn(
                                                t,
                                                "cube: workspace logs gc: failed to list workspaces: "@
                                                    + e.message(),
                                            ),
                                            Flow::Asks(a) => Flow::Asks(a),
                                        },
                                    },
                            )
                        },
                ),
            },
    )
}

pub fn gc_stale_workspace_logs(tape: &mut Tape) -> (r: Result<(), Stop>)
    ensures
        follows(r, final(tape)@, flow_gc_logs(old(tape)@)),
{
    let dir: String = match tape.ask_place(Action::LogsDir)? {
        Some(dir) => dir,
        None => {
            return Ok(());
        },
    };
    let there: bool = tape.ask_flag(Action::Exists(copy(&dir)))?;
    if !there {
        return Ok(());
    }
    let entries: Vec<DirEntry> = match tape.ask_listed(Action::ReadDir(copy(&dir)))? {
        Listing::Entries(entries) => entries,
        Listing::Failed(cause) => {
            let head: String = cat(
                "cube: workspace logs gc: failed to read ".to_string(),
                dir.as_str(),
            );
            return tape.ask_ack(Action::Warn(cat(cat(head, ": "), cause.as_str())));
        },
    };
    match tape.ask_workspaces(Action::ListWorkspaces(filter(None, None))) {
        Ok(records) => remove_logs(tape, dir.as_str(), &entries, &records),
        Err(Stop::Fail(e)) => tape.ask_ack(
            Action::Warn(
                cat(
                    "cube: workspace logs gc: failed to list workspaces: ".to_string(),
                    e.message().as_str(),
                ),
            ),
        ),
        Err(stop) => Err(stop),
    }
}

// ---------------------------------------------------------------------------
// The whole
// ---------------------------------------------------------------------------

/// Cleans up the bookmarks of the free workspaces that are there.
pub open spec fn flow_gc_bookmarks_all(
    t: Seq<AnswerView>,
    records: Seq<WorkspaceRecordView>,
) -> Flow<()>
    decreases records.len(),
{
    if records.len() == 0 {
        Flow::Done((), t)
    } else if records[0].state == WorkspaceState::Leased {
        flow_gc_bookmarks_all(t, records.drop_first())
    } else {
        ask_flag(t, ActionView::IsDir(records[0].workspace_path)).and(
            |there: bool, t: Seq<AnswerView>|
                if !there {
                    flow_gc_bookmarks_all(t, records.drop_first())
                } else {
                    match flow_gc_bookmarks(t, records[0].workspace_path, true, false) {
                        Flow::Done(_, t) => flow_gc_bookmarks_all(t, records.drop_first()),
                        Flow::Failed(e, t) => warn(
                            t,
                            "cube: auto gc: "@ + records[0].workspace_id + ": "@ + e.message(),
                        ).and(
                            |u: (), t: Seq<AnswerView>|
                                flow_gc_bookmarks_all(t, records.drop_first()),
                        ),
                        Flow::Asks(a) => Flow::Asks(a),
                    }
                },
        )
    }
}

fn gc_bookmarks_all(tape: &mut Tape, records: &Vec<WorkspaceRecord>) -> (r: Result<(), Stop>)
    ensures
        follows(r, final(tape)@, flow_gc_bookmarks_all(old(tape)@, records.deep_view())),
{
    let ghost whole = records.deep_view();
    let ghost flow = flow_gc_bookmarks_all(tape@, whole);
    let mut i: usize = 0;
    assert(whole.subrange(0, whole.len() as int) =~= whole);
    while i < records.len()
        invariant
            i <= records@.len(),
            whole == records.deep_view(),
            flow == flow_gc_bookmarks_all(old(tape)@, records.deep_view()),
            flow == flow_gc_bookmarks_all(
                tape@,
                whole.subrange(i as int, whole.len() as int),
            ),
        decreases records@.len() - i,
    {
        let ghost rest = whole.subrange(i as int, whole.len() as int);
        proof {
            assert(rest[0] == records@[i as int].deep_view());
            assert(rest.drop_first() =~= whole.subrange(i + 1, whole.len() as int));
        }
        let record: &WorkspaceRecord = &records[i];
        let free: bool = match record.state {
            WorkspaceState::Free => true,
            WorkspaceState::Leased => false,
        };
        if free {
            let there: bool = tape.ask_flag(Action::IsDir(copy(&record.workspace_path)))?;
            if there {
                match gc_workspace_bookmarks(tape, record.workspace_path.as_str(), true, false) {
                    Ok(_) => {},
                    Err(Stop::Fail(e)) => {
                        let head: String = cat(
                            "cube: auto gc: ".to_string(),
                            record.workspace_id.as_str(),
                        );
                        tape.ask_ack(
                            Action::Warn(cat(cat(head, ": "), e.message().as_str())),
                        )?;
                    },
                    Err(stop) => {
                        return Err(stop);
                    },
                }
            }
        }
        i += 1;
    }
    Ok(())
}

/// Cleans up after the bookmarks: workspaces that have been unhealthy for long,
/// where the time is known, then logs.
pub open spec fn flow_gc_rest(t: Seq<AnswerView>, max_age_secs: i64) -> Flow<()> {
    match ask_time(t, ActionView::Clock) {
        Flow::Done(now, t) => flow_gc_aged(t, now, max_age_secs).and(
            |u: (), t: Seq<AnswerView>| flow_gc_logs(t),
        ),
        Flow::Failed(_, t) => flow_gc_logs(t),
        Flow::Asks(a) => Flow::Asks(a),
    }
}

/// The age that the user configuration gives for the cleanup of workspaces, or the
/// usual one where the configuration cannot be loaded.
pub open spec fn flow_max_age(t: Seq<AnswerView>) -> Flow<i64> {
    match flow_load_config(t) {
        Flow::Done(config, t) => Flow::Done(config.unhealthy_gc.spec_max_age_secs(), t),
        Flow::Failed(_, t) => Flow::Done(UnhealthyGc::usual().spec_max_age_secs(), t),
        Flow::Asks(a) => Flow::Asks(a),
    }
}

fn max_age(tape: &mut Tape) -> (r: Result<i64, Stop>)
    ensures
        follows(r, final(tape)@, flow_max_age(old(tape)@)),
{
    match load_config(tape) {
        Ok(config) => Ok(config.unhealthy_gc.max_age_secs()),
        Err(Stop::Fail(_)) => Ok(UnhealthyGc::default().max_age_secs()),
        Err(stop) => Err(stop),
    }
}

/// The pool-wide cleanup. Nothing that goes wrong in it is an error.
pub open spec fn flow_pool_gc(t: Seq<AnswerView>) -> Flow<()> {
    match ask_saved(t, ActionView::OpenStore) {
        Flow::Asks(a) => Flow::Asks(a),
        Flow::Failed(_, t) => warn(t, "cube: auto gc: failed to open store"@),
        Flow::Done(_, t) => match ask_workspaces(
            t,
            ActionView::ListWorkspaces(spec_filter(None, None)),
        ) {
            Flow::Asks(a) => Flow::Asks(a),
            Flow::Failed(e, t) => warn(
                t,
                "cube: auto gc: failed to list workspaces: "@ + e.message(),
            ),
            Flow::Done(records, t) => flow_gc_bookmarks_all(t, records).and(
                |u: (), t: Seq<AnswerView>|
                    flow_max_age(t).and(
                        |max_age_secs: i64, t: Seq<AnswerView>| flow_gc_rest(t, max_age_secs),
                    ),
            ),
        },
    }
}

pub fn run_pool_gc_background(tape: &mut Tape) -> (r: Result<(), Stop>)
    ensures
        follows(r, final(tape)@, flow_pool_gc(old(tape)@)),
{
    match tape.ask_saved(Action::OpenStore) {
        Ok(_) => {},
        Err(Stop::Fail(_)) => {
            return tape.ask_ack(
                Action::Warn("cube: auto gc: failed to open store".to_string()),
            );
        },
        Err(stop) => {
            return Err(stop);
        },
    }
    let records: Vec<WorkspaceRecord> = match tape.ask_workspaces(
        Action::ListWorkspaces(filter(None, None)),
    ) {
        Ok(records) => records,
        Err(Stop::Fail(e)) => {
            return tape.ask_ack(
                Action::Warn(
                    cat(
                        "cube: auto gc: failed to list workspaces: ".to_string(),
                        e.message().as_str(),
                    ),
                ),
            );
        },
        Err(stop) => {
            return Err(stop);
        },
    };
    gc_bookmarks_all(tape, &records)?;
    let max_age_secs: i64 = max_age(tape)?;
    match tape.ask_time(Action::Clock) {
        Ok(now) => {
            gc_aged_unhealthy_workspaces(tape, now, max_age_secs)?;
        },
        Err(Stop::Fail(_)) => {},
        Err(stop) => {
            return Err(stop);
        },
    }
    gc_stale_workspace_logs(tape)
}

} // verus!
