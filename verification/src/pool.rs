//! The pool of workspaces of a repository: finding its directories, growing it,
//! and bringing the registry in line with the disk.

use vstd::prelude::*;

use crate::error::{CubeError, CubeErrorView};
use crate::events::{AuditEvent, AuditEventView};
use crate::flow::{
    ask_ack, ask_done, ask_flag, ask_listed, ask_output, ask_repos, ask_saved, ask_workspace,
    follows, Action, ActionView, AnswerView, DirEntry, DirEntryView, Flow, IoFaultView, Listing,
    ListingView, Stop, Tape,
};
use crate::jj::{is_no_bookmark, is_no_such_remote_bookmark, jj, spec_jj};
use crate::number::{decimal, pad, parse_unsigned, spec_decimal, spec_pad, spec_parse};
use crate::order::{insert_candidate, sorted_candidates};
use crate::paths::{path_join, spec_path_join, spec_under, under};
use crate::pool_gc::warn;
use crate::records::{
    RepoRecord, RepoRecordView, WorkspaceCandidate, WorkspaceCandidateView, WorkspaceRecord,
    WorkspaceRecordView,
};
use crate::split::{join, spec_join};
use crate::text::{
    append_to, cat, chain, copy, holds, list2, list3, spec_starts, spec_strip_prefix, starts,
    strip_prefix,
};

verus! {

// ---------------------------------------------------------------------------
// Discovery
// ---------------------------------------------------------------------------

/// The directories of the pool among the entries, in the order of their names
/// behind `found`; an entry that cannot be read is an error.
pub open spec fn candidates_among(
    root: Seq<char>,
    prefix: Seq<char>,
    entries: Seq<DirEntryView>,
    found: Seq<WorkspaceCandidateView>,
) -> Result<Seq<WorkspaceCandidateView>, CubeErrorView>
    decreases entries.len(),
{
    if entries.len() == 0 {
        Ok(found)
    } else {
        match entries[0] {
            DirEntryView::Unreadable { cause } => Err(
                CubeErrorView::WorkspaceDirRead { path: root, source: cause },
            ),
            DirEntryView::Untyped { name, cause } => Err(
                CubeErrorView::WorkspaceDirRead {
                    path: spec_path_join(root, name.text),
                    source: cause,
                },
            ),
            DirEntryView::Named { name, is_dir } => candidates_among(
                root,
                prefix,
                entries.drop_first(),
                if is_dir && spec_starts(name.text, prefix) {
                    found.push(
                        WorkspaceCandidateView {
                            workspace_id: name.text,
                            workspace_path: spec_path_join(root, name.text),
                        },
                    )
                } else {
                    found
                },
            ),
        }
    }
}

/// The workspaces that a listing of the pool's directory shows, in the order of
/// their ids.
pub open spec fn candidates_in(
    root: Seq<char>,
    prefix: Seq<char>,
    entries: Seq<DirEntryView>,
) -> Result<Seq<WorkspaceCandidateView>, CubeErrorView> {
    match candidates_among(root, prefix, entries, Seq::empty()) {
        Ok(found) => Ok(sorted_candidates(found)),
        Err(e) => Err(e),
    }
}

/// Reads a listing of the pool's directory.
pub fn read_candidates(root: &str, prefix: &str, entries: &Vec<DirEntry>) -> (r: Result<
    Vec<WorkspaceCandidate>,
    CubeError,
>)
    ensures
        match r {
            Ok(v) => candidates_in(root@, prefix@, entries.deep_view()) == Ok::<
                Seq<WorkspaceCandidateView>,
                CubeErrorView,
            >(v.deep_view()),
            Err(e) => candidates_in(root@, prefix@, entries.deep_view()) == Err::<
                Seq<WorkspaceCandidateView>,
                CubeErrorView,
            >(e.deep_view()),
        },
{
    let ghost whole = entries.deep_view();
    let ghost result = candidates_among(root@, prefix@, whole, Seq::empty());
    let ghost mut found: Seq<WorkspaceCandidateView> = Seq::empty();
    let mut out: Vec<WorkspaceCandidate> = Vec::new();
    let mut i: usize = 0;
    assert(whole.subrange(0, whole.len() as int) =~= whole);
    assert(out.deep_view() =~= sorted_candidates(found));
    while i < entries.len()
        invariant
            i <= entries@.len(),
            whole == entries.deep_view(),
            out.deep_view() == sorted_candidates(found),
            result == candidates_among(
                root@,
                prefix@,
                whole.subrange(i as int, whole.len() as int),
                found,
            ),
        decreases entries@.len() - i,
    {
        proof {
            let rest = whole.subrange(i as int, whole.len() as int);
            assert(rest[0] == entries@[i as int].deep_view());
            assert(rest.drop_first() =~= whole.subrange(i + 1, whole.len() as int));
        }
        match &entries[i] {
            DirEntry::Unreadable { cause } => {
                return Err(
                    CubeError::WorkspaceDirRead { path: root.to_string(), source: copy(cause) },
                );
            },
            DirEntry::Untyped { name, cause } => {
                return Err(
                    CubeError::WorkspaceDirRead {
                        path: path_join(root, name.text.as_str()),
                        source: copy(cause),
                    },
                );
            },
            DirEntry::Named { name, is_dir } => {
                if *is_dir && starts(name.text.as_str(), prefix) {
                    let one: WorkspaceCandidate = WorkspaceCandidate {
                        workspace_id: copy(&name.text),
                        workspace_path: path_join(root, name.text.as_str()),
                    };
                    proof {
                        let more = found.push(one.deep_view());
                        assert(more.drop_last() =~= found);
                        found = more;
                    }
                    insert_candidate(&mut out, one);
                }
            },
        }
        i += 1;
    }
    Ok(out)
}

/// Looks for the workspaces of the repository on disk; a pool whose directory is
/// not there has none.
pub open spec fn flow_discover(t: Seq<AnswerView>, repo: RepoRecordView) -> Flow<
    Seq<WorkspaceCandidateView>,
> {
    ask_flag(t, ActionView::IsDir(repo.workspace_root)).and(
        |there: bool, t: Seq<AnswerView>|
            if !there {
                Flow::Done(Seq::empty(), t)
            } else {
                ask_listed(t, ActionView::ReadDir(repo.workspace_root)).and(
                    |listing: ListingView, t: Seq<AnswerView>|
                        match listing {
                            ListingView::Failed(cause) => Flow::Failed(
                                CubeErrorView::WorkspaceDirRead {
                                    path: repo.workspace_root,
                                    source: cause,
                                },
                                t,
                            ),
                            ListingView::Entries(entries) => match candidates_in(
                                repo.workspace_root,
                                repo.workspace_prefix,
                                entries,
                            ) {
                                Ok(found) => Flow::Done(found, t),
                                Err(e) => Flow::Failed(e, t),
                            },
                        },
                )
            },
    )
}

pub fn discover_workspaces(tape: &mut Tape, repo: &RepoRecord) -> (r: Result<
    Vec<WorkspaceCandidate>,
    Stop,
>)
    ensures
        follows(r, final(tape)@, flow_discover(old(tape)@, repo.deep_view())),
{
    let there: bool = tape.ask_flag(Action::IsDir(copy(&repo.workspace_root)))?;
    if !there {
        let none: Vec<WorkspaceCandidate> = Vec::new();
        assert(none.deep_view() =~= Seq::<WorkspaceCandidateView>::empty());
        return Ok(none);
    }
    match tape.ask_listed(Action::ReadDir(copy(&repo.workspace_root)))? {
        Listing::Failed(cause) => Err(
            Stop::Fail(
                CubeError::WorkspaceDirRead { path: copy(&repo.workspace_root), source: cause },
            ),
        ),
        Listing::Entries(entries) => match read_candidates(
            repo.workspace_root.as_str(),
            repo.workspace_prefix.as_str(),
            &entries,
        ) {
            Ok(found) => Ok(found),
            Err(e) => Err(Stop::Fail(e)),
        },
    }
}

/// The registered workspace at the path, where its directory is there; a row
/// without its directory is forgotten.
pub open spec fn flow_lookup(t: Seq<AnswerView>, path: Seq<char>) -> Flow<
    Option<WorkspaceRecordView>,
> {
    ask_workspace(t, ActionView::WorkspaceByPath(path)).and(
        |found: Option<WorkspaceRecordView>, t: Seq<AnswerView>|
            match found {
                None => Flow::Done(None, t),
                Some(record) => ask_flag(t, ActionView::IsDir(record.workspace_path)).and(
                    |there: bool, t: Seq<AnswerView>|
                        if there {
                            Flow::Done(Some(record), t)
                        } else {
                            ask_saved(
                                t,
                                ActionView::ForgetWorkspace {
                                    repo: record.repo,
                                    workspace_id: record.workspace_id,
                                },
                            ).and(|u: (), t: Seq<AnswerView>| Flow::Done(None, t))
                        },
                ),
            },
    )
}

fn lookup(tape: &mut Tape, path: &str) -> (r: Result<Option<WorkspaceRecord>, Stop>)
    ensures
        follows(r, final(tape)@, flow_lookup(old(tape)@, path@)),
{
    match tape.ask_workspace(Action::WorkspaceByPath(path.to_string()))? {
        None => Ok(None),
        Some(record) => {
            let there: bool = tape.ask_flag(Action::IsDir(copy(&record.workspace_path)))?;
            if there {
                return Ok(Some(record));
            }
            tape.ask_saved(
                Action::ForgetWorkspace { repo: record.repo, workspace_id: record.workspace_id },
            )?;
            Ok(None)
        },
    }
}

/// Brings the pools that the path could lie in up to date.
pub open spec fn flow_sync_around(
    t: Seq<AnswerView>,
    path: Seq<char>,
    repos: Seq<RepoRecordView>,
) -> Flow<()>
    decreases repos.len(),
{
    if repos.len() == 0 {
        Flow::Done((), t)
    } else if !spec_under(path, repos[0].workspace_root) {
        flow_sync_around(t, path, repos.drop_first())
    } else {
        flow_discover(t, repos[0]).and(
            |candidates: Seq<WorkspaceCandidateView>, t: Seq<AnswerView>|
                ask_saved(
                    t,
                    ActionView::SyncWorkspaces { repo: repos[0].repo, candidates },
                ).and(
                    |u: (), t: Seq<AnswerView>| flow_sync_around(t, path, repos.drop_first()),
                ),
        )
    }
}

fn sync_around(tape: &mut Tape, path: &str, repos: &Vec<RepoRecord>) -> (r: Result<(), Stop>)
    ensures
        follows(r, final(tape)@, flow_sync_around(old(tape)@, path@, repos.deep_view())),
{
    let ghost whole = repos.deep_view();
    let ghost flow = flow_sync_around(tape@, path@, whole);
    let mut i: usize = 0;
    assert(whole.subrange(0, whole.len() as int) =~= whole);
    while i < repos.len()
        invariant
            i <= repos@.len(),
            whole == repos.deep_view(),
            flow == flow_sync_around(old(tape)@, path@, repos.deep_view()),
            flow == flow_sync_around(
                tape@,
                path@,
                whole.subrange(i as int, whole.len() as int),
            ),
        decreases repos@.len() - i,
    {
        proof {
            let rest = whole.subrange(i as int, whole.len() as int);
            assert(rest[0] == repos@[i as int].deep_view());
            assert(rest.drop_first() =~= whole.subrange(i + 1, whole.len() as int));
        }
        if under(path, repos[i].workspace_root.as_str()) {
            let candidates: Vec<WorkspaceCandidate> = discover_workspaces(tape, &repos[i])?;
            tape.ask_saved(
                Action::SyncWorkspaces { repo: copy(&repos[i].repo), candidates },
            )?;
        }
        i += 1;
    }
    Ok(())
}

/// The registered workspace at the path. Where it is not known, the pools that the
/// path could lie in are brought up to date and it is looked up once more.
pub open spec fn flow_find_workspace(t: Seq<AnswerView>, path: Seq<char>) -> Flow<
    Option<WorkspaceRecordView>,
> {
    flow_lookup(t, path).and(
        |found: Option<WorkspaceRecordView>, t: Seq<AnswerView>|
            if found is Some {
                Flow::Done(found, t)
            } else {
                ask_repos(t, ActionView::ListRepos).and(
                    |repos: Seq<RepoRecordView>, t: Seq<AnswerView>|
                        flow_sync_around(t, path, repos).and(
                            |u: (), t: Seq<AnswerView>| flow_lookup(t, path),
                        ),
                )
            },
    )
}

pub fn find_workspace_record(tape: &mut Tape, path: &str) -> (r: Result<
    Option<WorkspaceRecord>,
    Stop,
>)
    ensures
        follows(r, final(tape)@, flow_find_workspace(old(tape)@, path@)),
{
    let found: Option<WorkspaceRecord> = lookup(tape, path)?;
    if found.is_some() {
        return Ok(found);
    }
    let repos: Vec<RepoRecord> = tape.ask_repos(Action::ListRepos)?;
    sync_around(tape, path, &repos)?;
    lookup(tape, path)
}

// ---------------------------------------------------------------------------
// Growth
// ---------------------------------------------------------------------------

/// The number of a workspace: what its id has behind the prefix.
pub open spec fn id_number(prefix: Seq<char>, id: Seq<char>) -> Option<nat> {
    match spec_strip_prefix(id, prefix) {
        Some(suffix) => spec_parse(suffix, u32::MAX as nat),
        None => None,
    }
}

/// The number after the highest that is in use; the first is one.
pub open spec fn next_number(prefix: Seq<char>, existing: Seq<Seq<char>>) -> nat
    decreases existing.len(),
{
    if existing.len() == 0 {
        1
    } else {
        let n = next_number(prefix, existing.drop_last());
        match id_number(prefix, existing.last()) {
            Some(m) if m + 1 > n => m + 1,
            _ => n,
        }
    }
}

/// The id of the next workspace: the prefix and the next number, in three digits
/// at least.
pub open spec fn spec_next_id(prefix: Seq<char>, existing: Seq<Seq<char>>) -> Seq<char> {
    prefix + spec_pad(spec_decimal(next_number(prefix, existing)), 3)
}

pub fn next_workspace_id(prefix: &str, existing: &[String]) -> (r: String)
    ensures
        r@ == spec_next_id(prefix@, existing.deep_view()),
{
    let ghost all = existing.deep_view();
    let mut next: u64 = 1;
    let mut i: usize = 0;
    while i < existing.len()
        invariant
            i <= existing@.len(),
            all == existing.deep_view(),
            1 <= next <= u32::MAX + 1,
            next == next_number(prefix@, all.subrange(0, i as int)),
        decreases existing@.len() - i,
    {
        proof {
            assert(all.subrange(0, i + 1).last() == existing@[i as int]@);
            assert(all.subrange(0, i + 1).drop_last() =~= all.subrange(0, i as int));
        }
        if let Some(suffix) = strip_prefix(existing[i].as_str(), prefix) {
            if let Some(n) = parse_unsigned(suffix.as_str(), u32::MAX as u64) {
                if n + 1 > next {
                    next = n + 1;
                }
            }
        }
        i += 1;
    }
    assert(all.subrange(0, i as int) =~= all);
    cat(prefix.to_string(), pad(decimal(next), 3).as_str())
}

/// The candidates' ids.
pub open spec fn ids_of(all: Seq<WorkspaceCandidateView>) -> Seq<Seq<char>> {
    Seq::new(all.len(), |i: int| all[i].workspace_id)
}

fn ids(all: &Vec<WorkspaceCandidate>) -> (r: Vec<String>)
    ensures
        r.deep_view() == ids_of(all.deep_view()),
{
    let mut out: Vec<String> = Vec::new();
    let mut i: usize = 0;
    while i < all.len()
        invariant
            i <= all@.len(),
            out@.len() == i,
            forall|j: int| 0 <= j < i ==> #[trigger] out@[j]@ == all@[j].workspace_id@,
        decreases all@.len() - i,
    {
        out.push(copy(&all[i].workspace_id));
        i += 1;
    }
    assert(out.deep_view() =~= ids_of(all.deep_view()));
    out
}

/// The branches that are tracked in a fresh clone: the two customary names of a
/// default branch, and the one given.
pub open spec fn tracked_branches(default: Option<Seq<char>>) -> Seq<Seq<char>> {
    let usual = seq!["main"@, "master"@];
    match default {
        Some(branch) if !usual.contains(branch) => usual.push(branch),
        _ => usual,
    }
}

/// Tracks each of the branches that the remote has, and tells whether it has any.
pub open spec fn flow_track_each(
    t: Seq<AnswerView>,
    path: Seq<char>,
    branches: Seq<Seq<char>>,
    any: bool,
) -> Flow<bool>
    decreases branches.len(),
{
    if branches.len() == 0 {
        Flow::Done(any, t)
    } else {
        match ask_output(
            t,
            ActionView::Run(
                spec_jj(path, seq!["bookmark"@, "track"@, branches[0] + "@origin"@]),
            ),
        ) {
            Flow::Done(_, t) => flow_track_each(t, path, branches.drop_first(), true),
            Flow::Failed(e, t) => if is_no_bookmark(e) {
                flow_track_each(t, path, branches.drop_first(), any)
            } else {
                Flow::Failed(e, t)
            },
            Flow::Asks(a) => Flow::Asks(a),
        }
    }
}

/// The branches as they are named in a failure.
pub open spec fn quoted(branches: Seq<Seq<char>>) -> Seq<Seq<char>> {
    Seq::new(branches.len(), |i: int| "`"@ + branches[i] + "@origin`"@)
}

/// The failure for a clone without any of the branches.
pub open spec fn untracked_error(path: Seq<char>, branches: Seq<Seq<char>>) -> CubeErrorView {
    CubeErrorView::SetupStepFailed {
        step: "track_remote_bookmarks"@,
        error: "fresh clone at `"@ + path + "` has none of "@ + spec_join(quoted(branches), ", "@)
            + "; cube cannot promote a default branch to local tracking"@,
    }
}

/// Makes the default branches of a fresh clone local, and fails where it has none.
pub open spec fn flow_track(
    t: Seq<AnswerView>,
    path: Seq<char>,
    default: Option<Seq<char>>,
) -> Flow<()> {
    let branches = tracked_branches(default);
    flow_track_each(t, path, branches, false).and(
        |any: bool, t: Seq<AnswerView>|
            if any {
                Flow::Done((), t)
            } else {
                Flow::Failed(untracked_error(path, branches), t)
            },
    )
}

fn branches_to_track(default: &Option<String>) -> (r: Vec<String>)
    ensures
        r.deep_view() == tracked_branches(default.deep_view()),
{
    let mut out: Vec<String> = list2("main", "master");
    if let Some(branch) = default {
        if !holds(&out, branch.as_str()) {
            append_to(&mut out, copy(branch));
        }
    }
    out
}

fn quote_all(branches: &Vec<String>) -> (r: Vec<String>)
    ensures
        r.deep_view() == quoted(branches.deep_view()),
{
    let mut out: Vec<String> = Vec::new();
    let mut i: usize = 0;
    while i < branches.len()
        invariant
            i <= branches@.len(),
            out@.len() == i,
            forall|j: int|
                0 <= j < i ==> #[trigger] out@[j]@ == "`"@ + branches@[j]@ + "@origin`"@,
        decreases branches@.len() - i,
    {
        out.push(cat(cat("`".to_string(), branches[i].as_str()), "@origin`"));
        i += 1;
    }
    assert(out.deep_view() =~= quoted(branches.deep_view()));
    out
}

pub fn track_remote_bookmarks(tape: &mut Tape, path: &str, default: &Option<String>) -> (r: Result<
    (),
    Stop,
>)
    ensures
        follows(r, final(tape)@, flow_track(old(tape)@, path@, default.deep_view())),
{
    let branches: Vec<String> = branches_to_track(default);
    let ghost whole = branches.deep_view();
    let ghost flow = flow_track_each(tape@, path@, whole, false);
    let mut any: bool = false;
    let mut i: usize = 0;
    assert(whole.subrange(0, whole.len() as int) =~= whole);
    while i < branches.len()
        invariant
            i <= branches@.len(),
            whole == branches.deep_view(),
            whole == tracked_branches(default.deep_view()),
            flow == flow_track_each(old(tape)@, path@, whole, false),
            flow == flow_track_each(
                tape@,
                path@,
                whole.subrange(i as int, whole.len() as int),
                any,
            ),
        decreases branches@.len() - i,
    {
        let branch: &str = branches[i].as_str();
        proof {
            let rest = whole.subrange(i as int, whole.len() as int);
            assert(rest[0] == branch@);
            assert(rest.drop_first() =~= whole.subrange(i + 1, whole.len() as int));
        }
        let remote: String = cat(branch.to_string(), "@origin");
        match tape.ask_output(
            Action::Run(jj(path, list3("bookmark", "track", remote.as_str()))),
        ) {
            Ok(_) => {
                any = true;
            },
            Err(Stop::Fail(e)) => {
                if !is_no_such_remote_bookmark(&e) {
                    return Err(Stop::Fail(e));
                }
            },
            Err(stop) => {
                return Err(stop);
            },
        }
        i += 1;
    }
    if any {
        return Ok(());
    }
    let names: String = join(&quote_all(&branches), ", ");
    let error: String = cat(
        cat(
            cat(cat("fresh clone at `".to_string(), path), "` has none of "),
            names.as_str(),
        ),
        "; cube cannot promote a default branch to local tracking",
    );
    Err(
        Stop::Fail(
            CubeError::SetupStepFailed { step: "track_remote_bookmarks".to_string(), error },
        ),
    )
}

/// Removes what an earlier attempt left in the staging directory.
pub open spec fn flow_clear(t: Seq<AnswerView>, staging: Seq<char>) -> Flow<()> {
    ask_flag(t, ActionView::Exists(staging)).and(
        |there: bool, t: Seq<AnswerView>|
            if !there {
                Flow::Done((), t)
            } else {
                ask_done(t, ActionView::RemoveTree(staging)).and(
                    |fault: Option<IoFaultView>, t: Seq<AnswerView>|
                        match fault {
                            None => Flow::Done((), t),
                            Some(f) => Flow::Failed(
                                CubeErrorView::WorkspaceDirRemove {
                                    path: staging,
                                    source: f.text,
                                },
                                t,
                            ),
                        },
                )
            },
    )
}

fn clear(tape: &mut Tape, staging: &str) -> (r: Result<(), Stop>)
    ensures
        follows(r, final(tape)@, flow_clear(old(tape)@, staging@)),
{
    let there: bool = tape.ask_flag(Action::Exists(staging.to_string()))?;
    if !there {
        return Ok(());
    }
    match tape.ask_done(Action::RemoveTree(staging.to_string()))? {
        None => Ok(()),
        Some(f) => Err(
            Stop::Fail(
                CubeError::WorkspaceDirRemove { path: staging.to_string(), source: f.text },
            ),
        ),
    }
}

/// Creates a workspace directory, or fails for the repository's pool.
pub open spec fn flow_create_root(t: Seq<AnswerView>, root: Seq<char>) -> Flow<()> {
    ask_done(t, ActionView::CreateDirs(root)).and(
        |fault: Option<IoFaultView>, t: Seq<AnswerView>|
            match fault {
                None => Flow::Done((), t),
                Some(f) => Flow::Failed(
                    CubeErrorView::WorkspaceDirCreate { path: root, source: f.text },
                    t,
                ),
            },
    )
}

pub fn create_root(tape: &mut Tape, root: &str) -> (r: Result<(), Stop>)
    ensures
        follows(r, final(tape)@, flow_create_root(old(tape)@, root@)),
{
    match tape.ask_done(Action::CreateDirs(root.to_string()))? {
        None => Ok(()),
        Some(f) => Err(
            Stop::Fail(CubeError::WorkspaceDirCreate { path: root.to_string(), source: f.text }),
        ),
    }
}

/// Where to clone from: the local copy of the repository where there is one, and
/// its origin otherwise.
pub open spec fn flow_clone_source(t: Seq<AnswerView>, repo: RepoRecordView) -> Flow<Seq<char>> {
    match repo.source {
        None => Flow::Done(repo.origin, t),
        Some(source) => ask_flag(t, ActionView::Exists(source)).and(
            |there: bool, t: Seq<AnswerView>|
                Flow::Done(
                    if there {
                        source
                    } else {
                        repo.origin
                    },
                    t,
                ),
        ),
    }
}

fn clone_source(tape: &mut Tape, repo: &RepoRecord) -> (r: Result<String, Stop>)
    ensures
        follows(r, final(tape)@, flow_clone_source(old(tape)@, repo.deep_view())),
{
    match &repo.source {
        None => Ok(copy(&repo.origin)),
        Some(source) => {
            let there: bool = tape.ask_flag(Action::Exists(copy(source)))?;
            if there {
                Ok(copy(source))
            } else {
                Ok(copy(&repo.origin))
            }
        },
    }
}

/// The directory that a workspace is cloned into before it gets its name.
pub open spec fn staging_path(root: Seq<char>, id: Seq<char>) -> Seq<char> {
    spec_path_join(root, ".incoming-"@ + id)
}

/// Grows the pool by one: clones into a staging directory, and gives it its name
/// only once it is complete.
pub open spec fn flow_auto_create(
    t: Seq<AnswerView>,
    repo: RepoRecordView,
    existing: Seq<WorkspaceCandidateView>,
) -> Flow<WorkspaceCandidateView> {
    let root = repo.workspace_root;
    let id = spec_next_id(repo.workspace_prefix, ids_of(existing));
    let path = spec_path_join(root, id);
    let staging = staging_path(root, id);
    flow_create_root(t, root).and(
        |u: (), t: Seq<AnswerView>|
            flow_clear(t, staging).and(
                |u: (), t: Seq<AnswerView>|
                    flow_clone_source(t, repo).and(
                        |source: Seq<char>, t: Seq<AnswerView>|
                            ask_output(
                                t,
                                ActionView::Run(
                                    spec_jj(
                                        root,
                                        seq!["git"@, "clone"@, "--colocate"@] + seq![
                                            source,
                                            staging,
                                        ],
                                    ),
                                ),
                            ).and(
                                |o: Seq<char>, t: Seq<AnswerView>|
                                    flow_track(t, staging, Some(repo.main_branch)).and(
                                        |u: (), t: Seq<AnswerView>|
                                            flow_publish(t, staging, id, path),
                                    ),
                            ),
                    ),
            ),
    )
}

pub open spec fn flow_publish(
    t: Seq<AnswerView>,
    staging: Seq<char>,
    id: Seq<char>,
    path: Seq<char>,
) -> Flow<WorkspaceCandidateView> {
    ask_done(t, ActionView::Rename { from: staging, to: path }).and(
        |fault: Option<IoFaultView>, t: Seq<AnswerView>|
            match fault {
                None => Flow::Done(
                    WorkspaceCandidateView { workspace_id: id, workspace_path: path },
                    t,
                ),
                Some(f) => Flow::Failed(
                    CubeErrorView::WorkspaceDirCreate { path, source: f.text },
                    t,
                ),
            },
    )
}

pub fn auto_create_workspace(
    tape: &mut Tape,
    repo: &RepoRecord,
    existing: &Vec<WorkspaceCandidate>,
) -> (r: Result<WorkspaceCandidate, Stop>)
    ensures
        follows(
            r,
            final(tape)@,
            flow_auto_create(old(tape)@, repo.deep_view(), existing.deep_view()),
        ),
{
    let root: &str = repo.workspace_root.as_str();
    let id: String = next_workspace_id(
        repo.workspace_prefix.as_str(),
        ids(existing).as_slice(),
    );
    let path: String = path_join(root, id.as_str());
    let hidden: String = cat(".incoming-".to_string(), id.as_str());
    let staging: String = path_join(root, hidden.as_str());
    create_root(tape, root)?;
    clear(tape, staging.as_str())?;
    let source: String = clone_source(tape, repo)?;
    tape.ask_output(
        Action::Run(
            jj(
                root,
                chain(
                    list3("git", "clone", "--colocate"),
                    list2(source.as_str(), staging.as_str()),
                ),
            ),
        ),
    )?;
    let main: Option<String> = Some(copy(&repo.main_branch));
    track_remote_bookmarks(tape, staging.as_str(), &main)?;
    match tape.ask_done(Action::Rename { from: staging, to: copy(&path) })? {
        None => Ok(WorkspaceCandidate { workspace_id: id, workspace_path: path }),
        Some(f) => Err(Stop::Fail(CubeError::WorkspaceDirCreate { path, source: f.text })),
    }
}

/// The warning for a workspace that held neither a jj nor a git repository.
pub open spec fn husk_warning(repo: Seq<char>, id: Seq<char>, path: Seq<char>) -> Seq<char> {
    "warning: cube workspace `"@ + repo + "/"@ + id
        + "` had neither .git/ nor .jj/ (broken-empty) at "@ + path
        + "; removing the husk and provisioning a fresh workspace"@
}

/// Removes a workspace directory that holds no repository, and its row.
pub open spec fn flow_gc_husk(
    t: Seq<AnswerView>,
    repo: Seq<char>,
    id: Seq<char>,
    path: Seq<char>,
) -> Flow<()> {
    flow_clear(t, path).and(
        |u: (), t: Seq<AnswerView>|
            ask_saved(t, ActionView::ForgetWorkspace { repo, workspace_id: id }).and(
                |u: (), t: Seq<AnswerView>|
                    warn(t, husk_warning(repo, id, path)).and(
                        |u: (), t: Seq<AnswerView>|
                            ask_ack(
                                t,
                                ActionView::Audit(
                                    AuditEventView::named("workspace.broken_empty_gc"@).text(
                                        "repo"@,
                                        repo,
                                    ).text("workspace_id"@, id).text("workspace_path"@, path),
                                ),
                            ),
                    ),
            ),
    )
}

pub fn gc_broken_empty_workspace(tape: &mut Tape, repo: &str, id: &str, path: &str) -> (r: Result<
    (),
    Stop,
>)
    ensures
        follows(r, final(tape)@, flow_gc_husk(old(tape)@, repo@, id@, path@)),
{
    clear(tape, path)?;
    tape.ask_saved(
        Action::ForgetWorkspace { repo: repo.to_string(), workspace_id: id.to_string() },
    )?;
    let head: String = cat(
        cat(
            cat(cat("warning: cube workspace `".to_string(), repo), "/"),
            id,
        ),
        "` had neither .git/ nor .jj/ (broken-empty) at ",
    );
    tape.ask_ack(
        Action::Warn(
            cat(cat(head, path), "; removing the husk and provisioning a fresh workspace"),
        ),
    )?;
    tape.ask_ack(
        Action::Audit(
            AuditEvent::named("workspace.broken_empty_gc").text("repo", repo).text(
                "workspace_id",
                id,
            ).text("workspace_path", path),
        ),
    )
}

} // verus!
