//! Ensuring a repository: finding it by origin or name, or registering it.

use vstd::prelude::*;

use crate::cli::{RepoCommand, RepoCommandView};
use crate::config::{
    flow_load_config, load_config, CubeConfig, CubeConfigView, RepoResolver, RepoResolverView,
};
use crate::error::{CubeError, CubeErrorView};
use crate::flow::{
    ask_output, ask_place, ask_repo, ask_repos, ask_saved, follows, Action, ActionView,
    AnswerView, Flow, Stop, Tape,
};
use crate::git::{
    is_owner_name_slug, locate, origin_path_matches_slug, origin_urls_equivalent,
    parse_org_name_shape, same_origin, spec_is_slug, without_git,
};
use crate::jj::lowercase;
use crate::lease::{flow_known_repo, known_repo};
use crate::paths::{path_join, spec_path_join};
use crate::pool::{create_root, flow_create_root};
use crate::pool_gc::warn;
use crate::records::{RepoRecord, RepoRecordView};
use crate::render::{format_repo_list, human_repo_detail, spec_repo_detail, spec_repo_list};
use crate::repo::{
    flow_materialize, materialize_repo_source_if_missing, no_id_error, normalize_origin,
    repo_id_from_origin, spec_repo_id,
};
use crate::report::{spec_result, Payload, PayloadView, RunResult, RunResultView, Span};
use crate::split::{join, spec_join, spec_split};
use crate::text::{cat, contains, copy, copy_opt, same, spec_contains, spec_trim, trim};

verus! {

/// Where new repositories and their workspaces go.
#[derive(Debug, Clone, PartialEq, Eq)]
pub struct RepoEnsureDefaults {
    pub repo_root: String,
    pub workspace_root: String,
}

#[verifier::ext_equal]
pub ghost struct RepoEnsureDefaultsView {
    pub repo_root: Seq<char>,
    pub workspace_root: Seq<char>,
}

impl DeepView for RepoEnsureDefaults {
    type V = RepoEnsureDefaultsView;

    open spec fn deep_view(&self) -> RepoEnsureDefaultsView {
        RepoEnsureDefaultsView {
            repo_root: self.repo_root@,
            workspace_root: self.workspace_root@,
        }
    }
}

/// `repos` and `workspaces` in the data directory.
pub open spec fn defaults_in(data: Seq<char>) -> RepoEnsureDefaultsView {
    RepoEnsureDefaultsView {
        repo_root: spec_path_join(data, "repos"@),
        workspace_root: spec_path_join(data, "workspaces"@),
    }
}

pub fn default_repo_ensure_defaults(data: &str) -> (r: RepoEnsureDefaults)
    ensures
        r.deep_view() == defaults_in(data@),
{
    RepoEnsureDefaults {
        repo_root: path_join(data, "repos"),
        workspace_root: path_join(data, "workspaces"),
    }
}

/// The record of a repository that is new.
pub open spec fn new_record(
    id: Seq<char>,
    origin: Seq<char>,
    clone_command: Option<Seq<char>>,
    defaults: RepoEnsureDefaultsView,
) -> RepoRecordView {
    RepoRecordView {
        repo: id,
        origin,
        main_branch: "main"@,
        workspace_root: defaults.workspace_root,
        workspace_prefix: id + "-agent-"@,
        source: Some(spec_path_join(defaults.repo_root, id)),
        clone_command,
    }
}

/// The origin is one that an already registered repository may be ensured with: an
/// equivalent URL, or the `owner/name` slug of its path.
pub open spec fn is_acceptable(registered: Seq<char>, origin: Seq<char>) -> bool {
    same_origin(registered, origin) || (spec_is_slug(origin) && locate(registered).path
        == without_git(origin))
}

pub fn acceptable(registered: &str, origin: &str) -> (r: bool)
    ensures
        r == is_acceptable(registered@, origin@),
{
    origin_urls_equivalent(registered, origin) || (is_owner_name_slug(origin)
        && origin_path_matches_slug(registered, origin))
}

/// Sees to it that a registered repository is there, and hands it back as it is.
pub open spec fn flow_reuse(t: Seq<AnswerView>, record: RepoRecordView) -> Flow<RepoRecordView> {
    flow_create_root(t, record.workspace_root).and(
        |u: (), t: Seq<AnswerView>|
            flow_materialize(t, record).and(
                |b: Option<Seq<char>>, t: Seq<AnswerView>| Flow::Done(record, t),
            ),
    )
}

fn reuse(tape: &mut Tape, record: RepoRecord) -> (r: Result<RepoRecord, Stop>)
    ensures
        follows(r, final(tape)@, flow_reuse(old(tape)@, record.deep_view())),
{
    create_root(tape, record.workspace_root.as_str())?;
    materialize_repo_source_if_missing(tape, &record)?;
    Ok(record)
}

/// The failure for an id that another origin has.
pub open spec fn taken_error(existing: RepoRecordView, origin: Seq<char>) -> CubeErrorView {
    CubeErrorView::InvalidArgument(
        "repo `"@ + existing.repo + "` is already configured for origin `"@ + existing.origin
            + "`; cannot ensure `"@ + origin + "`"@,
    )
}

/// Stores the record and hands back what the registry holds.
pub open spec fn flow_upsert(t: Seq<AnswerView>, record: RepoRecordView) -> Flow<RepoRecordView> {
    ask_repo(t, ActionView::UpsertRepo(record)).and(
        |stored: Option<RepoRecordView>, t: Seq<AnswerView>|
            match stored {
                Some(r) => Flow::Done(r, t),
                None => Flow::Done(record, t),
            },
    )
}

fn copy_repo(r: &RepoRecord) -> (c: RepoRecord)
    ensures
        c.deep_view() == r.deep_view(),
{
    RepoRecord {
        repo: copy(&r.repo),
        origin: copy(&r.origin),
        main_branch: copy(&r.main_branch),
        workspace_root: copy(&r.workspace_root),
        workspace_prefix: copy(&r.workspace_prefix),
        source: copy_opt(&r.source),
        clone_command: copy_opt(&r.clone_command),
    }
}

fn upsert(tape: &mut Tape, record: RepoRecord) -> (r: Result<RepoRecord, Stop>)
    ensures
        follows(r, final(tape)@, flow_upsert(old(tape)@, record.deep_view())),
{
    match tape.ask_repo(Action::UpsertRepo(copy_repo(&record)))? {
        Some(r) => Ok(r),
        None => Ok(record),
    }
}

/// Clones a new repository and registers it under the default branch that was
/// found.
pub open spec fn flow_register(t: Seq<AnswerView>, record: RepoRecordView) -> Flow<RepoRecordView> {
    flow_create_root(t, record.workspace_root).and(
        |u: (), t: Seq<AnswerView>|
            flow_materialize(t, record).and(
                |branch: Option<Seq<char>>, t: Seq<AnswerView>|
                    match branch {
                        None => flow_upsert(t, record),
                        Some(b) => flow_note_branch(t, record, b).and(
                            |u: (), t: Seq<AnswerView>|
                                flow_upsert(t, RepoRecordView { main_branch: b, ..record }),
                        ),
                    },
            ),
    )
}

pub open spec fn flow_note_branch(
    t: Seq<AnswerView>,
    record: RepoRecordView,
    branch: Seq<char>,
) -> Flow<()> {
    if branch != record.main_branch {
        warn(
            t,
            "cube: detected default branch `"@ + branch + "` for repo `"@ + record.repo + "`"@,
        )
    } else {
        Flow::Done((), t)
    }
}

fn register(tape: &mut Tape, record: RepoRecord) -> (r: Result<RepoRecord, Stop>)
    ensures
        follows(r, final(tape)@, flow_register(old(tape)@, record.deep_view())),
{
    create_root(tape, record.workspace_root.as_str())?;
    let mut record: RepoRecord = record;
    match materialize_repo_source_if_missing(tape, &record)? {
        None => {},
        Some(branch) => {
            if !same(branch.as_str(), record.main_branch.as_str()) {
                let head: String = cat(
                    cat("cube: detected default branch `".to_string(), branch.as_str()),
                    "` for repo `",
                );
                tape.ask_ack(Action::Warn(cat(cat(head, record.repo.as_str()), "`")))?;
            }
            record.main_branch = branch;
        },
    }
    upsert(tape, record)
}

/// Ensures a repository whose origin is known. One that is registered under the
/// origin or under the id is used as it is.
pub open spec fn flow_ensure_core(
    t: Seq<AnswerView>,
    id: Seq<char>,
    origin: Seq<char>,
    clone_command: Option<Seq<char>>,
    defaults: RepoEnsureDefaultsView,
) -> Flow<RepoRecordView> {
    ask_repo(t, ActionView::GetRepoByOrigin(origin)).and(
        |found: Option<RepoRecordView>, t: Seq<AnswerView>|
            match found {
                Some(record) => flow_reuse(t, record),
                None => ask_repo(t, ActionView::GetRepo(id)).and(
                    |found: Option<RepoRecordView>, t: Seq<AnswerView>|
                        match found {
                            Some(existing) => if is_acceptable(existing.origin, origin) {
                                flow_reuse(t, existing)
                            } else {
                                Flow::Failed(taken_error(existing, origin), t)
                            },
                            None => flow_register(
                                t,
                                new_record(id, origin, clone_command, defaults),
                            ),
                        },
                ),
            },
    )
}

pub fn ensure_repo_core(
    tape: &mut Tape,
    id: &str,
    origin: &str,
    clone_command: Option<String>,
    defaults: &RepoEnsureDefaults,
) -> (r: Result<RepoRecord, Stop>)
    ensures
        follows(
            r,
            final(tape)@,
            flow_ensure_core(
                old(tape)@,
                id@,
                origin@,
                clone_command.deep_view(),
                defaults.deep_view(),
            ),
        ),
{
    if let Some(record) = tape.ask_repo(Action::GetRepoByOrigin(origin.to_string()))? {
        return reuse(tape, record);
    }
    if let Some(existing) = tape.ask_repo(Action::GetRepo(id.to_string()))? {
        if !acceptable(existing.origin.as_str(), origin) {
            let head: String = cat(
                cat(
                    cat(
                        cat("repo `".to_string(), existing.repo.as_str()),
                        "` is already configured for origin `",
                    ),
                    existing.origin.as_str(),
                ),
                "`; cannot ensure `",
            );
            return Err(Stop::Fail(CubeError::InvalidArgument(cat(cat(head, origin), "`"))));
        }
        return reuse(tape, existing);
    }
    register(
        tape,
        RepoRecord {
            repo: id.to_string(),
            origin: origin.to_string(),
            main_branch: "main".to_string(),
            workspace_root: copy(&defaults.workspace_root),
            workspace_prefix: cat(id.to_string(), "-agent-"),
            source: Some(path_join(defaults.repo_root.as_str(), id)),
            clone_command,
        },
    )
}

// ---------------------------------------------------------------------------
// By name
// ---------------------------------------------------------------------------

/// The complaint of a clone that the remote does not exist.
pub open spec fn says_missing(complaint: Seq<char>) -> bool {
    spec_contains(complaint, "not found"@) || spec_contains(complaint, "does not exist"@)
        || spec_contains(complaint, "could not read from remote repository"@)
}

pub fn missing_remote_complaint(complaint: &str) -> (r: bool)
    ensures
        r == says_missing(complaint@),
{
    contains(complaint, "not found") || contains(complaint, "does not exist") || contains(
        complaint,
        "could not read from remote repository",
    )
}

/// The failure of a clone from GitHub, with advice where the remote seems to be
/// missing. Other failures stay as they are.
pub open spec fn fallback_error(err: CubeErrorView, org: Seq<char>, repo: Seq<char>) -> CubeErrorView {
    match err {
        CubeErrorView::CommandFailed { stderr, .. } => if says_missing(lowercase(stderr)) {
            CubeErrorView::InvalidArgument(
                "fell back to GitHub `"@ + org + "/"@ + repo
                    + "` — remote not found; if this is an internal repo you may need a resolver. Add a `[[repo-resolvers]]` entry to your cube config so `"@
                    + repo + "` resolves to the right origin."@,
            )
        } else {
            err
        },
        other => other,
    }
}

pub fn github_fallback_error(err: CubeError, org: &str, repo: &str) -> (r: CubeError)
    ensures
        r.deep_view() == fallback_error(err.deep_view(), org@, repo@),
{
    let missing: bool = match &err {
        CubeError::CommandFailed { stderr, .. } => missing_remote_complaint(
            stderr.as_str().to_lowercase().as_str(),
        ),
        _ => false,
    };
    if missing {
        let head: String = cat(
            cat(cat(cat("fell back to GitHub `".to_string(), org), "/"), repo),
            "` — remote not found; if this is an internal repo you may need a resolver. Add a `[[repo-resolvers]]` entry to your cube config so `",
        );
        CubeError::InvalidArgument(cat(cat(head, repo), "` resolves to the right origin."))
    } else {
        err
    }
}

/// The first resolver that yields an origin for the name: the origin, and its clone
/// command where it has one.
pub open spec fn first_resolved(resolvers: Seq<RepoResolverView>, name: Seq<char>) -> Option<
    (Seq<char>, Option<Seq<char>>),
>
    decreases resolvers.len(),
{
    if resolvers.len() == 0 {
        None
    } else {
        match resolvers[0].origin(name) {
            Some(origin) => Some((origin, resolvers[0].clone(name))),
            None => first_resolved(resolvers.drop_first(), name),
        }
    }
}

pub fn resolve_by_config(resolvers: &Vec<RepoResolver>, name: &str) -> (r: Option<
    (String, Option<String>),
>)
    ensures
        r.deep_view() == first_resolved(resolvers.deep_view(), name@),
{
    let ghost whole = resolvers.deep_view();
    let mut i: usize = 0;
    assert(whole.subrange(0, whole.len() as int) =~= whole);
    while i < resolvers.len()
        invariant
            i <= resolvers@.len(),
            whole == resolvers.deep_view(),
            first_resolved(whole, name@) == first_resolved(
                whole.subrange(i as int, whole.len() as int),
                name@,
            ),
        decreases resolvers@.len() - i,
    {
        proof {
            let rest = whole.subrange(i as int, whole.len() as int);
            assert(rest[0] == resolvers@[i as int].deep_view());
            assert(rest.drop_first() =~= whole.subrange(i + 1, whole.len() as int));
        }
        if let Some(origin) = resolvers[i].resolve_origin(name) {
            let clone: Option<String> = resolvers[i].resolve_clone_command(name);
            return Some((origin, clone));
        }
        i += 1;
    }
    None
}

/// What is said of a resolver that yields nothing.
pub open spec fn resolver_note(r: RepoResolverView) -> Seq<char> {
    "resolver `"@ + r.name + "`: pattern `"@ + r.origin_pattern + "` produced no URL"@
}

/// What is said of the resolvers when none yields anything.
pub open spec fn resolvers_note(resolvers: Seq<RepoResolverView>) -> Seq<char> {
    if resolvers.len() == 0 {
        "no `repo-resolvers` are configured"@
    } else {
        spec_join(Seq::new(resolvers.len(), |i: int| resolver_note(resolvers[i])), "; "@)
    }
}

fn notes_text(resolvers: &Vec<RepoResolver>) -> (r: String)
    ensures
        r@ == resolvers_note(resolvers.deep_view()),
{
    if resolvers.len() == 0 {
        return "no `repo-resolvers` are configured".to_string();
    }
    let ghost all = resolvers.deep_view();
    let mut notes: Vec<String> = Vec::new();
    let mut i: usize = 0;
    while i < resolvers.len()
        invariant
            i <= resolvers@.len(),
            all == resolvers.deep_view(),
            notes@.len() == i,
            forall|j: int| 0 <= j < i ==> #[trigger] notes@[j]@ == resolver_note(all[j]),
        decreases resolvers@.len() - i,
    {
        let head: String = cat(
            cat("resolver `".to_string(), resolvers[i].name.as_str()),
            "`: pattern `",
        );
        notes.push(
            cat(cat(head, resolvers[i].origin_pattern.as_str()), "` produced no URL"),
        );
        i += 1;
    }
    assert(notes.deep_view() =~= Seq::new(all.len(), |i: int| resolver_note(all[i])));
    join(&notes, "; ")
}

/// The failure for a name that nothing resolves.
pub open spec fn unresolved_error(name: Seq<char>, resolvers: Seq<RepoResolverView>) -> CubeErrorView {
    CubeErrorView::InvalidArgument(
        "could not resolve repo `"@ + name
            + "`:\n  1. registered slug: no repo with slug `"@ + name
            + "` exists\n  2. resolvers: "@ + resolvers_note(resolvers)
            + "\n  3. GitHub `<org>/<name>` fallback: `"@ + name
            + "` is not in `<org>/<name>` shape"@,
    )
}

fn unresolved(name: &str, resolvers: &Vec<RepoResolver>) -> (r: CubeError)
    ensures
        r.deep_view() == unresolved_error(name@, resolvers.deep_view()),
{
    let a: String = cat(
        cat(
            cat(
                cat("could not resolve repo `".to_string(), name),
                "`:\n  1. registered slug: no repo with slug `",
            ),
            name,
        ),
        "` exists\n  2. resolvers: ",
    );
    let b: String = cat(
        cat(a, notes_text(resolvers).as_str()),
        "\n  3. GitHub `<org>/<name>` fallback: `",
    );
    CubeError::InvalidArgument(cat(cat(b, name), "` is not in `<org>/<name>` shape"))
}

/// The origin of a repository on GitHub.
pub open spec fn github_origin(org: Seq<char>, repo: Seq<char>) -> Seq<char> {
    "git@github.com:"@ + org + "/"@ + repo + ".git"@
}

/// Ensures a repository from GitHub.
pub open spec fn flow_from_github(
    t: Seq<AnswerView>,
    org: Seq<char>,
    repo: Seq<char>,
    defaults: RepoEnsureDefaultsView,
) -> Flow<RepoRecordView> {
    let origin = github_origin(org, repo);
    if spec_repo_id(origin).len() == 0 {
        Flow::Failed(no_id_error(origin), t)
    } else {
        flow_ensure_core(t, spec_repo_id(origin), origin, None, defaults).blame(
            |e: CubeErrorView| fallback_error(e, org, repo),
        )
    }
}

fn from_github(tape: &mut Tape, org: &str, repo: &str, defaults: &RepoEnsureDefaults) -> (r: Result<
    RepoRecord,
    Stop,
>)
    ensures
        follows(
            r,
            final(tape)@,
            flow_from_github(old(tape)@, org@, repo@, defaults.deep_view()),
        ),
{
    let origin: String = cat(
        cat(cat(cat("git@github.com:".to_string(), org), "/"), repo),
        ".git",
    );
    let id: String = match repo_id_from_origin(origin.as_str()) {
        Ok(id) => id,
        Err(e) => {
            return Err(Stop::Fail(e));
        },
    };
    match ensure_repo_core(tape, id.as_str(), origin.as_str(), None, defaults) {
        Err(Stop::Fail(e)) => Err(Stop::Fail(github_fallback_error(e, org, repo))),
        other => other,
    }
}

/// Ensures a repository by name: one registered under it, else what the first
/// resolver yields, else a repository on GitHub where the name is of the form
/// `<org>/<name>`.
pub open spec fn flow_ensure_by_name(
    t: Seq<AnswerView>,
    given: Seq<char>,
    defaults: RepoEnsureDefaultsView,
    resolvers: Seq<RepoResolverView>,
) -> Flow<RepoRecordView> {
    let name = spec_trim(given);
    if name.len() == 0 {
        Flow::Failed(CubeErrorView::InvalidArgument("repo name must not be empty"@), t)
    } else {
        ask_repo(t, ActionView::GetRepo(name)).and(
            |found: Option<RepoRecordView>, t: Seq<AnswerView>|
                match found {
                    Some(existing) => flow_reuse(t, existing),
                    None => match first_resolved(resolvers, name) {
                        Some((origin, clone)) => flow_ensure_core(t, name, origin, clone, defaults),
                        None => if spec_is_slug(name) {
                            flow_from_github(
                                t,
                                spec_split(name, '/')[0],
                                spec_split(name, '/')[1],
                                defaults,
                            )
                        } else {
                            Flow::Failed(unresolved_error(name, resolvers), t)
                        },
                    },
                },
        )
    }
}

pub fn ensure_repo_by_name(
    tape: &mut Tape,
    given: &str,
    defaults: &RepoEnsureDefaults,
    config: &CubeConfig,
) -> (r: Result<RepoRecord, Stop>)
    ensures
        follows(
            r,
            final(tape)@,
            flow_ensure_by_name(
                old(tape)@,
                given@,
                defaults.deep_view(),
                config.repo_resolvers.deep_view(),
            ),
        ),
{
    let name: String = trim(given);
    if name.as_str().is_empty() {
        return Err(
            Stop::Fail(CubeError::InvalidArgument("repo name must not be empty".to_string())),
        );
    }
    if let Some(existing) = tape.ask_repo(Action::GetRepo(copy(&name)))? {
        return reuse(tape, existing);
    }
    if let Some((origin, clone)) = resolve_by_config(&config.repo_resolvers, name.as_str()) {
        return ensure_repo_core(tape, name.as_str(), origin.as_str(), clone, defaults);
    }
    if let Some((org, repo)) = parse_org_name_shape(name.as_str()) {
        return from_github(tape, org.as_str(), repo.as_str(), defaults);
    }
    Err(Stop::Fail(unresolved(name.as_str(), &config.repo_resolvers)))
}

// ---------------------------------------------------------------------------
// The commands
// ---------------------------------------------------------------------------

/// Ensures a repository by origin.
pub open spec fn flow_ensure_by_origin(
    t: Seq<AnswerView>,
    given: Seq<char>,
    defaults: RepoEnsureDefaultsView,
) -> Flow<RepoRecordView> {
    let origin = spec_trim(given);
    if origin.len() == 0 {
        Flow::Failed(CubeErrorView::InvalidArgument("origin must not be empty"@), t)
    } else if spec_repo_id(origin).len() == 0 {
        Flow::Failed(no_id_error(origin), t)
    } else {
        flow_ensure_core(t, spec_repo_id(origin), origin, None, defaults)
    }
}

fn ensure_by_origin(tape: &mut Tape, given: &str, defaults: &RepoEnsureDefaults) -> (r: Result<
    RepoRecord,
    Stop,
>)
    ensures
        follows(
            r,
            final(tape)@,
            flow_ensure_by_origin(old(tape)@, given@, defaults.deep_view()),
        ),
{
    let origin: String = match normalize_origin(given) {
        Ok(origin) => origin,
        Err(e) => {
            return Err(Stop::Fail(e));
        },
    };
    let id: String = match repo_id_from_origin(origin.as_str()) {
        Ok(id) => id,
        Err(e) => {
            return Err(Stop::Fail(e));
        },
    };
    ensure_repo_core(tape, id.as_str(), origin.as_str(), None, defaults)
}

/// Ensures the repository that the command names.
pub open spec fn flow_ensure(
    t: Seq<AnswerView>,
    reponame: Option<Seq<char>>,
    origin: Option<Seq<char>>,
) -> Flow<RunResultView> {
    ask_output(t, ActionView::DataDir).and(
        |data: Seq<char>, t: Seq<AnswerView>|
            flow_load_config(t).and(
                |config: CubeConfigView, t: Seq<AnswerView>|
                    (match (reponame, origin) {
                        (_, Some(origin)) => flow_ensure_by_origin(t, origin, defaults_in(data)),
                        (Some(name), None) => flow_ensure_by_name(
                            t,
                            name,
                            defaults_in(data),
                            config.repo_resolvers,
                        ),
                        (None, None) => Flow::Failed(
                            CubeErrorView::InvalidArgument(
                                "repo ensure requires a <reponame> or --origin <url>"@,
                            ),
                            t,
                        ),
                    }).and(
                        |record: RepoRecordView, t: Seq<AnswerView>|
                            Flow::Done(
                                spec_result(
                                    "Ensured repo `"@ + record.repo + "`."@,
                                    PayloadView::RepoEnsured(record),
                                ),
                                t,
                            ),
                    ),
            ),
    )
}

fn ensure(tape: &mut Tape, reponame: &Option<String>, origin: &Option<String>) -> (r: Result<
    RunResult,
    Stop,
>)
    ensures
        follows(
            r,
            final(tape)@,
            flow_ensure(old(tape)@, reponame.deep_view(), origin.deep_view()),
        ),
{
    let data: String = tape.ask_output(Action::DataDir)?;
    let defaults: RepoEnsureDefaults = default_repo_ensure_defaults(data.as_str());
    let config: CubeConfig = load_config(tape)?;
    let record: RepoRecord = match (reponame, origin) {
        (_, Some(origin)) => ensure_by_origin(tape, origin.as_str(), &defaults)?,
        (Some(name), None) => ensure_repo_by_name(tape, name.as_str(), &defaults, &config)?,
        (None, None) => {
            return Err(
                Stop::Fail(
                    CubeError::InvalidArgument(
                        "repo ensure requires a <reponame> or --origin <url>".to_string(),
                    ),
                ),
            );
        },
    };
    let message: String = cat(
        cat("Ensured repo `".to_string(), record.repo.as_str()),
        "`.",
    );
    Ok(RunResult::new(message, Payload::RepoEnsured(record)))
}

/// Registers a repository as given.
pub open spec fn flow_add(t: Seq<AnswerView>, record: RepoRecordView) -> Flow<RunResultView> {
    flow_upsert(t, record).and(
        |record: RepoRecordView, t: Seq<AnswerView>|
            Flow::Done(
                spec_result(
                    "Registered repo `"@ + record.repo + "`."@,
                    PayloadView::Repo(record),
                ),
                t,
            ),
    )
}

pub open spec fn flow_list_repos(t: Seq<AnswerView>) -> Flow<RunResultView> {
    ask_repos(t, ActionView::ListRepos).and(
        |repos: Seq<RepoRecordView>, t: Seq<AnswerView>|
            ask_place(t, ActionView::HomeDir).and(
                |home: Option<Seq<char>>, t: Seq<AnswerView>|
                    Flow::Done(
                        RunResultView {
                            message: spec_repo_list(repos, home),
                            payload: PayloadView::Repos(repos),
                        },
                        t,
                    ),
            ),
    )
}

pub open spec fn flow_repo_info(t: Seq<AnswerView>, repo: Seq<char>) -> Flow<RunResultView> {
    flow_known_repo(t, repo).and(
        |record: RepoRecordView, t: Seq<AnswerView>|
            ask_place(t, ActionView::HomeDir).and(
                |home: Option<Seq<char>>, t: Seq<AnswerView>|
                    Flow::Done(
                        RunResultView {
                            message: spec_repo_detail(record, home),
                            payload: PayloadView::Repo(record),
                        },
                        t,
                    ),
            ),
    )
}

pub open spec fn flow_repo(t: Seq<AnswerView>, command: RepoCommandView) -> Flow<RunResultView> {
    ask_saved(t, ActionView::OpenStore).and(
        |u: (), t: Seq<AnswerView>|
            match command {
                RepoCommandView::Ensure { reponame, origin } => flow_ensure(t, reponame, origin),
                RepoCommandView::Add {
                    repo,
                    origin,
                    main_branch,
                    workspace_root,
                    workspace_prefix,
                    source,
                } => flow_add(
                    t,
                    RepoRecordView {
                        repo,
                        origin,
                        main_branch,
                        workspace_root,
                        workspace_prefix,
                        source,
                        clone_command: None,
                    },
                ),
                RepoCommandView::List => flow_list_repos(t),
                RepoCommandView::Info { repo } => flow_repo_info(t, repo),
                RepoCommandView::Remove { .. } => Flow::Failed(
                    CubeErrorView::NotImplemented("repo command `remove` is not implemented yet"@),
                    t,
                ),
            },
    )
}

pub fn run_repo(tape: &mut Tape, command: RepoCommand) -> (r: Result<RunResult, Stop>)
    ensures
        follows(r, final(tape)@, flow_repo(old(tape)@, command.deep_view())),
{
    tape.ask_saved(Action::OpenStore)?;
    match command {
        RepoCommand::Ensure { reponame, origin } => ensure(tape, &reponame, &origin),
        RepoCommand::Add {
            repo,
            origin,
            main_branch,
            workspace_root,
            workspace_prefix,
            source,
        } => {
            let record: RepoRecord = upsert(
                tape,
                RepoRecord {
                    repo,
                    origin,
                    main_branch,
                    workspace_root,
                    workspace_prefix,
                    source,
                    clone_command: None,
                },
            )?;
            let message: String = cat(
                cat("Registered repo `".to_string(), record.repo.as_str()),
                "`.",
            );
            Ok(RunResult::new(message, Payload::Repo(record)))
        },
        RepoCommand::List => {
            let repos: Vec<RepoRecord> = tape.ask_repos(Action::ListRepos)?;
            let home: Option<String> = tape.ask_place(Action::HomeDir)?;
            let message: Vec<Span> = format_repo_list(&repos, &home);
            Ok(RunResult { message, payload: Payload::Repos(repos) })
        },
        RepoCommand::Info { repo } => {
            let record: RepoRecord = known_repo(tape, repo.as_str())?;
            let home: Option<String> = tape.ask_place(Action::HomeDir)?;
            let message: Vec<Span> = human_repo_detail(&record, &home);
            Ok(RunResult { message, payload: Payload::Repo(record) })
        },
        RepoCommand::Remove { .. } => Err(
            Stop::Fail(
                CubeError::NotImplemented(
                    "repo command `remove` is not implemented yet".to_string(),
                ),
            ),
        ),
    }
}

} // verus!
