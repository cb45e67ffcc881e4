//! JSON trees, and the tree that a payload is written as.

use vstd::prelude::*;

use crate::outside::{json_of, json_parsed, json_parsed_list, json_tree, json_value, json_values};
use crate::records::{
    health_name, state_name, ChangeRecord, ChangeRecordView, ReconcileReport, ReconcileReportView,
    ReconciledRow, ReconciledRowView, RepoRecord, RepoRecordView, SetupReport, SetupStep,
    SetupStepView, StepStatus, StepStatusView, WorkspaceHealth, WorkspaceRecord,
    WorkspaceRecordView,
};
use crate::report::{
    HealthCheck, HealthCheckView, Payload, PayloadView, PrResumeInfo, PrResumeInfoView,
    WorkspaceGcResult, WorkspaceGcResultView,
};
use crate::text::{copy, same};

verus! {

// ---------------------------------------------------------------------------
// Trees
// ---------------------------------------------------------------------------

/// A JSON value; the keys of an object stand in the order they were given.
#[derive(Debug, PartialEq, Eq)]
pub enum Json {
    Null,
    Flag(bool),
    Int(i64),
    Count(u64),
    /// A number that is not whole, as it is written.
    Real(String),
    Text(String),
    List(Vec<Json>),
    Object(Vec<(String, Json)>),
}

#[verifier::ext_equal]
pub ghost enum JsonView {
    Null,
    Flag(bool),
    Int(i64),
    Count(u64),
    Real(Seq<char>),
    Text(Seq<char>),
    List(Seq<JsonView>),
    Object(Seq<(Seq<char>, JsonView)>),
}

impl Json {
    /// The tree that this value stands for.
    pub open spec fn tree(self) -> JsonView
        decreases self,
    {
        match self {
            Json::Null => JsonView::Null,
            Json::Flag(b) => JsonView::Flag(b),
            Json::Int(n) => JsonView::Int(n),
            Json::Count(n) => JsonView::Count(n),
            Json::Real(s) => JsonView::Real(s@),
            Json::Text(s) => JsonView::Text(s@),
            Json::List(v) => JsonView::List(
                Seq::new(
                    v@.len(),
                    |i: int|
                        if 0 <= i < v@.len() {
                            v@[i].tree()
                        } else {
                            JsonView::Null
                        },
                ),
            ),
            Json::Object(v) => JsonView::Object(
                Seq::new(
                    v@.len(),
                    |i: int|
                        if 0 <= i < v@.len() {
                            (v@[i].0@, v@[i].1.tree())
                        } else {
                            (Seq::empty(), JsonView::Null)
                        },
                ),
            ),
        }
    }
}

// ---------------------------------------------------------------------------
// Reading
// ---------------------------------------------------------------------------

/// The first value under a key.
pub open spec fn value_under(entries: Seq<(Seq<char>, JsonView)>, key: Seq<char>) -> Option<
    JsonView,
>
    decreases entries.len(),
{
    if entries.len() == 0 {
        None
    } else if entries[0].0 == key {
        Some(entries[0].1)
    } else {
        value_under(entries.drop_first(), key)
    }
}

impl JsonView {
    /// The value under a key of an object; anything else has none.
    pub open spec fn get(self, key: Seq<char>) -> Option<JsonView> {
        match self {
            JsonView::Object(entries) => value_under(entries, key),
            _ => None,
        }
    }

    /// The text under a key of an object, where there is a text.
    pub open spec fn text_at(self, key: Seq<char>) -> Option<Seq<char>> {
        match self.get(key) {
            Some(JsonView::Text(s)) => Some(s),
            _ => None,
        }
    }

    /// The number under a key of an object, where there is a whole number that is not
    /// negative.
    pub open spec fn count_at(self, key: Seq<char>) -> Option<u64> {
        match self.get(key) {
            Some(JsonView::Count(n)) => Some(n),
            _ => None,
        }
    }
}

impl Json {
    /// The value under a key of an object; anything else has none.
    pub fn get(&self, key: &str) -> (r: Option<&Json>)
        ensures
            match r {
                Some(v) => self.tree().get(key@) == Some(v.tree()),
                None => self.tree().get(key@) is None,
            },
    {
        match self {
            Json::Object(entries) => {
                let ghost all = self.tree()->Object_0;
                let mut i: usize = 0;
                assert(all.subrange(0, all.len() as int) =~= all);
                while i < entries.len()
                    invariant
                        i <= entries@.len(),
                        all.len() == entries@.len(),
                        value_under(all, key@) == value_under(
                            all.subrange(i as int, all.len() as int),
                            key@,
                        ),
                        forall|j: int|
                            0 <= j < all.len() ==> #[trigger] all[j] == (
                                entries@[j].0@,
                                entries@[j].1.tree(),
                            ),
                    decreases entries@.len() - i,
                {
                    let ghost rest = all.subrange(i as int, all.len() as int);
                    assert(rest[0] == all[i as int]);
                    assert(rest.drop_first() =~= all.subrange(i + 1, all.len() as int));
                    if same(entries[i].0.as_str(), key) {
                        return Some(&entries[i].1);
                    }
                    i += 1;
                }
                None
            },
            _ => None,
        }
    }

    /// The text under a key of an object, where there is a text.
    pub fn text_at(&self, key: &str) -> (r: Option<String>)
        ensures
            r.deep_view() == self.tree().text_at(key@),
    {
        match self.get(key) {
            Some(Json::Text(s)) => Some(copy(s)),
            _ => None,
        }
    }

    /// The number under a key of an object, where there is a whole number that is not
    /// negative.
    pub fn count_at(&self, key: &str) -> (r: Option<u64>)
        ensures
            r == self.tree().count_at(key@),
    {
        match self.get(key) {
            Some(Json::Count(n)) => Some(*n),
            _ => None,
        }
    }
}

/// Parses a JSON text.
pub fn parse_json(text: &str) -> (r: Result<Json, String>)
    ensures
        match r {
            Ok(v) => json_parsed(text@) == Ok::<JsonView, Seq<char>>(v.tree()),
            Err(e) => json_parsed(text@) == Err::<JsonView, Seq<char>>(e@),
        },
{
    match json_value(text) {
        Ok(v) => Ok(json_of(&v)),
        Err(e) => Err(e),
    }
}

/// Parses a JSON text that stands for an array.
pub fn parse_json_list(text: &str) -> (r: Result<Vec<Json>, String>)
    ensures
        match r {
            Ok(v) => json_parsed_list(text@) == Ok::<Seq<JsonView>, Seq<char>>(trees(v@)),
            Err(e) => json_parsed_list(text@) == Err::<Seq<JsonView>, Seq<char>>(e@),
        },
{
    let values: Vec<serde_json::Value> = match json_values(text) {
        Ok(values) => values,
        Err(e) => {
            return Err(e);
        },
    };
    let mut out: Vec<Json> = Vec::new();
    let mut i: usize = 0;
    while i < values.len()
        invariant
            i <= values@.len(),
            out@.len() == i,
            forall|j: int| 0 <= j < i ==> #[trigger] out@[j].tree() == json_tree(values@[j]),
        decreases values@.len() - i,
    {
        out.push(json_of(&values[i]));
        i += 1;
    }
    assert(trees(out@) =~= values@.map_values(|x: serde_json::Value| json_tree(x)));
    Ok(out)
}

// ---------------------------------------------------------------------------
// Pieces
// ---------------------------------------------------------------------------

pub open spec fn spec_text(s: Seq<char>) -> JsonView {
    JsonView::Text(s)
}

fn text(s: &str) -> (r: Json)
    ensures
        r.tree() == spec_text(s@),
{
    Json::Text(s.to_string())
}

/// The text, or null where there is none.
pub open spec fn spec_maybe(s: Option<Seq<char>>) -> JsonView {
    match s {
        Some(s) => JsonView::Text(s),
        None => JsonView::Null,
    }
}

fn maybe(s: &Option<String>) -> (r: Json)
    ensures
        r.tree() == spec_maybe(s.deep_view()),
{
    match s {
        Some(s) => text(s.as_str()),
        None => Json::Null,
    }
}

/// The number, or null where there is none.
pub open spec fn spec_maybe_int(n: Option<i64>) -> JsonView {
    match n {
        Some(n) => JsonView::Int(n),
        None => JsonView::Null,
    }
}

fn maybe_int(n: Option<i64>) -> (r: Json)
    ensures
        r.tree() == spec_maybe_int(n),
{
    match n {
        Some(n) => Json::Int(n),
        None => Json::Null,
    }
}

/// The number, or null where there is none.
pub open spec fn spec_maybe_count(n: Option<u64>) -> JsonView {
    match n {
        Some(n) => JsonView::Count(n),
        None => JsonView::Null,
    }
}

fn maybe_count(n: Option<u64>) -> (r: Json)
    ensures
        r.tree() == spec_maybe_count(n),
{
    match n {
        Some(n) => Json::Count(n),
        None => Json::Null,
    }
}

/// An object under construction.
pub struct Fields {
    pub entries: Vec<(String, Json)>,
}

impl Fields {
    pub open spec fn entries(self) -> Seq<(Seq<char>, JsonView)> {
        Seq::new(self.entries@.len(), |i: int| (self.entries@[i].0@, self.entries@[i].1.tree()))
    }

    fn new() -> (r: Fields)
        ensures
            r.entries() == Seq::<(Seq<char>, JsonView)>::empty(),
    {
        let r: Fields = Fields { entries: Vec::new() };
        assert(r.entries() =~= Seq::<(Seq<char>, JsonView)>::empty());
        r
    }

    /// The object with one more entry behind the others.
    fn with(self, key: &str, value: Json) -> (r: Fields)
        ensures
            r.entries() == self.entries().push((key@, value.tree())),
    {
        let ghost before = self.entries();
        let mut entries: Vec<(String, Json)> = self.entries;
        entries.push((key.to_string(), value));
        let r: Fields = Fields { entries };
        assert(r.entries() =~= before.push((key@, value.tree())));
        r
    }

    fn object(self) -> (r: Json)
        ensures
            r.tree() == JsonView::Object(self.entries()),
    {
        let ghost entries = self.entries();
        let r: Json = Json::Object(self.entries);
        assert(r.tree()->Object_0 =~= entries);
        r
    }
}

/// The trees of a list's items.
pub open spec fn trees(items: Seq<Json>) -> Seq<JsonView> {
    Seq::new(items.len(), |i: int| items[i].tree())
}

fn list(items: Vec<Json>) -> (r: Json)
    ensures
        r.tree() == JsonView::List(trees(items@)),
{
    let r: Json = Json::List(items);
    assert(r.tree()->List_0 =~= trees(items@));
    r
}

// ---------------------------------------------------------------------------
// Records
// ---------------------------------------------------------------------------

/// The texts as a list.
pub open spec fn spec_texts(items: Seq<Seq<char>>) -> JsonView {
    JsonView::List(Seq::new(items.len(), |i: int| spec_text(items[i])))
}

fn texts(items: &Vec<String>) -> (r: Json)
    ensures
        r.tree() == spec_texts(items.deep_view()),
{
    let mut out: Vec<Json> = Vec::new();
    let mut i: usize = 0;
    while i < items.len()
        invariant
            i <= items@.len(),
            out@.len() == i,
            forall|j: int|
                0 <= j < i ==> #[trigger] out@[j].tree() == spec_text(
                    items.deep_view()[j],
                ),
        decreases items@.len() - i,
    {
        out.push(text(&items[i]));
        i += 1;
    }
    assert(trees(out@) =~= spec_texts(items.deep_view())->List_0);
    list(out)
}

/// A repository as an object.
pub open spec fn spec_repo_json(repo: RepoRecordView) -> JsonView {
    JsonView::Object(
        seq![
            ("repo"@, spec_text(repo.repo)),
            ("origin"@, spec_text(repo.origin)),
            ("main_branch"@, spec_text(repo.main_branch)),
            ("workspace_root"@, spec_text(repo.workspace_root)),
            ("workspace_prefix"@, spec_text(repo.workspace_prefix)),
            ("source"@, spec_maybe(repo.source)),
            ("clone_command"@, spec_maybe(repo.clone_command)),
        ],
    )
}

fn repo_json(repo: &RepoRecord) -> (r: Json)
    ensures
        r.tree() == spec_repo_json(repo.deep_view()),
{
    let r: Json = Fields::new()
        .with("repo", text(repo.repo.as_str()))
        .with("origin", text(repo.origin.as_str()))
        .with("main_branch", text(repo.main_branch.as_str()))
        .with("workspace_root", text(repo.workspace_root.as_str()))
        .with("workspace_prefix", text(repo.workspace_prefix.as_str()))
        .with("source", maybe(&repo.source))
        .with("clone_command", maybe(&repo.clone_command))
        .object();
    assert(r.tree()->Object_0 =~= spec_repo_json(repo.deep_view())->Object_0);
    r
}

/// Repositories as a list.
pub open spec fn spec_repos_json(items: Seq<RepoRecordView>) -> JsonView {
    JsonView::List(Seq::new(items.len(), |i: int| spec_repo_json(items[i])))
}

fn repos_json(items: &Vec<RepoRecord>) -> (r: Json)
    ensures
        r.tree() == spec_repos_json(items.deep_view()),
{
    let mut out: Vec<Json> = Vec::new();
    let mut i: usize = 0;
    while i < items.len()
        invariant
            i <= items@.len(),
            out@.len() == i,
            forall|j: int|
                0 <= j < i ==> #[trigger] out@[j].tree() == spec_repo_json(
                    items.deep_view()[j],
                ),
        decreases items@.len() - i,
    {
        out.push(repo_json(&items[i]));
        i += 1;
    }
    assert(trees(out@) =~= spec_repos_json(items.deep_view())->List_0);
    list(out)
}

/// A health mark, or null where there is none.
pub open spec fn spec_health_json(health: Option<WorkspaceHealth>) -> JsonView {
    match health {
        Some(health) => spec_text(health_name(health)),
        None => JsonView::Null,
    }
}

fn health_json(health: Option<WorkspaceHealth>) -> (r: Json)
    ensures
        r.tree() == spec_health_json(health),
{
    match health {
        Some(health) => text(health.as_str()),
        None => Json::Null,
    }
}

/// A workspace as an object.
pub open spec fn spec_workspace_json(workspace: WorkspaceRecordView) -> JsonView {
    JsonView::Object(
        seq![
            ("repo"@, spec_text(workspace.repo)),
            ("workspace_id"@, spec_text(workspace.workspace_id)),
            ("workspace_path"@, spec_text(workspace.workspace_path)),
            ("state"@, spec_text(state_name(workspace.state))),
            ("lease_id"@, spec_maybe(workspace.lease_id)),
            ("holder"@, spec_maybe(workspace.holder)),
            ("task"@, spec_maybe(workspace.task)),
            ("leased_at_epoch_s"@, spec_maybe_int(workspace.leased_at_epoch_s)),
            ("lease_expires_at_epoch_s"@, spec_maybe_int(workspace.lease_expires_at_epoch_s)),
            ("head_commit"@, spec_maybe(workspace.head_commit)),
            ("health_status"@, spec_health_json(workspace.health_status)),
            ("unhealthy_since_epoch_s"@, spec_maybe_int(workspace.unhealthy_since_epoch_s)),
            ("last_release_reason"@, spec_maybe(workspace.last_release_reason)),
        ],
    )
}

fn workspace_json(workspace: &WorkspaceRecord) -> (r: Json)
    ensures
        r.tree() == spec_workspace_json(workspace.deep_view()),
{
    let r: Json = Fields::new()
        .with("repo", text(workspace.repo.as_str()))
        .with("workspace_id", text(workspace.workspace_id.as_str()))
        .with("workspace_path", text(workspace.workspace_path.as_str()))
        .with("state", text(workspace.state.as_str()))
        .with("lease_id", maybe(&workspace.lease_id))
        .with("holder", maybe(&workspace.holder))
        .with("task", maybe(&workspace.task))
        .with("leased_at_epoch_s", maybe_int(workspace.leased_at_epoch_s))
        .with("lease_expires_at_epoch_s", maybe_int(workspace.lease_expires_at_epoch_s))
        .with("head_commit", maybe(&workspace.head_commit))
        .with("health_status", health_json(workspace.health_status))
        .with("unhealthy_since_epoch_s", maybe_int(workspace.unhealthy_since_epoch_s))
        .with("last_release_reason", maybe(&workspace.last_release_reason))
        .object();
    assert(r.tree()->Object_0 =~= spec_workspace_json(workspace.deep_view())->Object_0);
    r
}

/// Workspaces as a list.
pub open spec fn spec_workspaces_json(items: Seq<WorkspaceRecordView>) -> JsonView {
    JsonView::List(Seq::new(items.len(), |i: int| spec_workspace_json(items[i])))
}

fn workspaces_json(items: &Vec<WorkspaceRecord>) -> (r: Json)
    ensures
        r.tree() == spec_workspaces_json(items.deep_view()),
{
    let mut out: Vec<Json> = Vec::new();
    let mut i: usize = 0;
    while i < items.len()
        invariant
            i <= items@.len(),
            out@.len() == i,
            forall|j: int|
                0 <= j < i ==> #[trigger] out@[j].tree() == spec_workspace_json(
                    items.deep_view()[j],
                ),
        decreases items@.len() - i,
    {
        out.push(workspace_json(&items[i]));
        i += 1;
    }
    assert(trees(out@) =~= spec_workspaces_json(items.deep_view())->List_0);
    list(out)
}

/// A row that was reconciled, as an object.
pub open spec fn spec_row_json(row: ReconciledRowView) -> JsonView {
    JsonView::Object(
        seq![
            ("repo"@, spec_text(row.repo)),
            ("workspace_id"@, spec_text(row.workspace_id)),
            ("workspace_path"@, spec_text(row.workspace_path)),
            ("prior_state"@, spec_text(state_name(row.prior_state))),
            ("lease_id"@, spec_maybe(row.lease_id)),
            ("holder"@, spec_maybe(row.holder)),
            ("lease_expires_at_epoch_s"@, spec_maybe_int(row.lease_expires_at_epoch_s)),
        ],
    )
}

fn row_json(row: &ReconciledRow) -> (r: Json)
    ensures
        r.tree() == spec_row_json(row.deep_view()),
{
    let r: Json = Fields::new()
        .with("repo", text(row.repo.as_str()))
        .with("workspace_id", text(row.workspace_id.as_str()))
        .with("workspace_path", text(row.workspace_path.as_str()))
        .with("prior_state", text(row.prior_state.as_str()))
        .with("lease_id", maybe(&row.lease_id))
        .with("holder", maybe(&row.holder))
        .with("lease_expires_at_epoch_s", maybe_int(row.lease_expires_at_epoch_s))
        .object();
    assert(r.tree()->Object_0 =~= spec_row_json(row.deep_view())->Object_0);
    r
}

/// Reconciled rows as a list.
pub open spec fn spec_rows_json(items: Seq<ReconciledRowView>) -> JsonView {
    JsonView::List(Seq::new(items.len(), |i: int| spec_row_json(items[i])))
}

fn rows_json(items: &Vec<ReconciledRow>) -> (r: Json)
    ensures
        r.tree() == spec_rows_json(items.deep_view()),
{
    let mut out: Vec<Json> = Vec::new();
    let mut i: usize = 0;
    while i < items.len()
        invariant
            i <= items@.len(),
            out@.len() == i,
            forall|j: int|
                0 <= j < i ==> #[trigger] out@[j].tree() == spec_row_json(
                    items.deep_view()[j],
                ),
        decreases items@.len() - i,
    {
        out.push(row_json(&items[i]));
        i += 1;
    }
    assert(trees(out@) =~= spec_rows_json(items.deep_view())->List_0);
    list(out)
}

/// What reconciling did, as an object.
pub open spec fn spec_reconciled_json(report: ReconcileReportView) -> JsonView {
    JsonView::Object(
        seq![
            ("removed"@, spec_rows_json(report.removed)),
            ("held"@, spec_rows_json(report.held)),
        ],
    )
}

fn reconciled_json(report: &ReconcileReport) -> (r: Json)
    ensures
        r.tree() == spec_reconciled_json(report.deep_view()),
{
    let r: Json = Fields::new()
        .with("removed", rows_json(&report.removed))
        .with("held", rows_json(&report.held))
        .object();
    assert(r.tree()->Object_0 =~= spec_reconciled_json(report.deep_view())->Object_0);
    r
}

/// A setup step as an object.
pub open spec fn spec_step_json(step: SetupStepView) -> JsonView {
    match step.status {
        StepStatusView::Ran => JsonView::Object(
            seq![("id"@, spec_text(step.id)), ("status"@, spec_text("ran"@))],
        ),
        StepStatusView::Skipped { reason } => JsonView::Object(
            seq![
                ("id"@, spec_text(step.id)),
                ("status"@, spec_text("skipped"@)),
                ("reason"@, spec_text(reason)),
            ],
        ),
        StepStatusView::Failed { error } => JsonView::Object(
            seq![
                ("id"@, spec_text(step.id)),
                ("status"@, spec_text("failed"@)),
                ("error"@, spec_text(error)),
            ],
        ),
    }
}

fn step_json(step: &SetupStep) -> (r: Json)
    ensures
        r.tree() == spec_step_json(step.deep_view()),
{
    let head: Fields = Fields::new().with("id", text(step.id.as_str()));
    let r: Json = match &step.status {
        StepStatus::Ran => head.with("status", text("ran")).object(),
        StepStatus::Skipped { reason } => head
            .with("status", text("skipped"))
            .with("reason", text(reason.as_str()))
            .object(),
        StepStatus::Failed { error } => head
            .with("status", text("failed"))
            .with("error", text(error.as_str()))
            .object(),
    };
    assert(r.tree()->Object_0 =~= spec_step_json(step.deep_view())->Object_0);
    r
}

/// Setup steps as a list.
pub open spec fn spec_steps_json(items: Seq<SetupStepView>) -> JsonView {
    JsonView::List(Seq::new(items.len(), |i: int| spec_step_json(items[i])))
}

fn steps_json(items: &Vec<SetupStep>) -> (r: Json)
    ensures
        r.tree() == spec_steps_json(items.deep_view()),
{
    let mut out: Vec<Json> = Vec::new();
    let mut i: usize = 0;
    while i < items.len()
        invariant
            i <= items@.len(),
            out@.len() == i,
            forall|j: int|
                0 <= j < i ==> #[trigger] out@[j].tree() == spec_step_json(
                    items.deep_view()[j],
                ),
        decreases items@.len() - i,
    {
        out.push(step_json(&items[i]));
        i += 1;
    }
    assert(trees(out@) =~= spec_steps_json(items.deep_view())->List_0);
    list(out)
}

/// A setup report as an object.
pub open spec fn spec_setup_json(steps: Seq<SetupStepView>) -> JsonView {
    JsonView::Object(seq![("steps"@, spec_steps_json(steps))])
}

fn setup_json(report: &SetupReport) -> (r: Json)
    ensures
        r.tree() == spec_setup_json(report.deep_view()),
{
    let r: Json = Fields::new().with("steps", steps_json(&report.steps)).object();
    assert(r.tree()->Object_0 =~= spec_setup_json(report.deep_view())->Object_0);
    r
}

/// What a health check found, as an object.
pub open spec fn spec_check_json(check: HealthCheckView) -> JsonView {
    match check {
        HealthCheckView::Missing { workspace_id } => JsonView::Object(
            seq![
                ("workspace_id"@, spec_text(workspace_id)),
                ("skipped"@, JsonView::Flag(true)),
                ("reason"@, spec_text("directory_missing"@)),
            ],
        ),
        HealthCheckView::Clean { workspace_id } => JsonView::Object(
            seq![
                ("workspace_id"@, spec_text(workspace_id)),
                ("health"@, spec_text("clean"@)),
                ("skipped"@, JsonView::Flag(false)),
            ],
        ),
        HealthCheckView::Conflicted { workspace_id, bookmarks, skipped } => JsonView::Object(
            seq![
                ("workspace_id"@, spec_text(workspace_id)),
                ("health"@, spec_text("conflicted"@)),
                ("bookmarks"@, spec_texts(bookmarks)),
                ("skipped"@, JsonView::Flag(skipped)),
            ],
        ),
        HealthCheckView::Dirty { workspace_id } => JsonView::Object(
            seq![
                ("workspace_id"@, spec_text(workspace_id)),
                ("health"@, spec_text("dirty"@)),
                ("skipped"@, JsonView::Flag(true)),
                ("reason"@, spec_text("dirty_working_copy"@)),
            ],
        ),
        HealthCheckView::BrokenEmpty { workspace_id, workspace_path } => JsonView::Object(
            seq![
                ("workspace_id"@, spec_text(workspace_id)),
                ("workspace_path"@, spec_text(workspace_path)),
                ("health"@, spec_text("broken_empty"@)),
                ("has_git"@, JsonView::Flag(false)),
                ("has_jj"@, JsonView::Flag(false)),
                ("skipped"@, JsonView::Flag(true)),
                ("reason"@, spec_text("neither_git_nor_jj"@)),
            ],
        ),
        HealthCheckView::AllowedDirty { workspace_id } => JsonView::Object(
            seq![
                ("workspace_id"@, spec_text(workspace_id)),
                ("allow_dirty"@, JsonView::Flag(true)),
                ("reset_skipped"@, JsonView::Flag(true)),
            ],
        ),
    }
}

fn check_json(check: &HealthCheck) -> (r: Json)
    ensures
        r.tree() == spec_check_json(check.deep_view()),
{
    let r: Json = match check {
        HealthCheck::Missing { workspace_id } => Fields::new()
                .with("workspace_id", text(workspace_id.as_str()))
                .with("skipped", Json::Flag(true))
                .with("reason", text("directory_missing"))
                .object(),
        HealthCheck::Clean { workspace_id } => Fields::new()
                .with("workspace_id", text(workspace_id.as_str()))
                .with("health", text("clean"))
                .with("skipped", Json::Flag(false))
                .object(),
        HealthCheck::Conflicted { workspace_id, bookmarks, skipped } => Fields::new()
                .with("workspace_id", text(workspace_id.as_str()))
                .with("health", text("conflicted"))
                .with("bookmarks", texts(bookmarks))
                .with("skipped", Json::Flag(*skipped))
                .object(),
        HealthCheck::Dirty { workspace_id } => Fields::new()
                .with("workspace_id", text(workspace_id.as_str()))
                .with("health", text("dirty"))
                .with("skipped", Json::Flag(true))
                .with("reason", text("dirty_working_copy"))
                .object(),
        HealthCheck::BrokenEmpty { workspace_id, workspace_path } => Fields::new()
                .with("workspace_id", text(workspace_id.as_str()))
                .with("workspace_path", text(workspace_path.as_str()))
                .with("health", text("broken_empty"))
                .with("has_git", Json::Flag(false))
                .with("has_jj", Json::Flag(false))
                .with("skipped", Json::Flag(true))
                .with("reason", text("neither_git_nor_jj"))
                .object(),
        HealthCheck::AllowedDirty { workspace_id } => Fields::new()
                .with("workspace_id", text(workspace_id.as_str()))
                .with("allow_dirty", Json::Flag(true))
                .with("reset_skipped", Json::Flag(true))
                .object(),
    };
    assert(r.tree()->Object_0 =~= spec_check_json(check.deep_view())->Object_0);
    r
}

/// Health checks as a list.
pub open spec fn spec_checks_json(items: Seq<HealthCheckView>) -> JsonView {
    JsonView::List(Seq::new(items.len(), |i: int| spec_check_json(items[i])))
}

fn checks_json(items: &Vec<HealthCheck>) -> (r: Json)
    ensures
        r.tree() == spec_checks_json(items.deep_view()),
{
    let mut out: Vec<Json> = Vec::new();
    let mut i: usize = 0;
    while i < items.len()
        invariant
            i <= items@.len(),
            out@.len() == i,
            forall|j: int|
                0 <= j < i ==> #[trigger] out@[j].tree() == spec_check_json(
                    items.deep_view()[j],
                ),
        decreases items@.len() - i,
    {
        out.push(check_json(&items[i]));
        i += 1;
    }
    assert(trees(out@) =~= spec_checks_json(items.deep_view())->List_0);
    list(out)
}

/// A resumed pull request as an object.
pub open spec fn spec_resume_json(info: PrResumeInfoView) -> JsonView {
    JsonView::Object(
        seq![
            ("pr_number"@, JsonView::Count(info.pr_number)),
            ("head_branch"@, spec_text(info.head_branch)),
        ],
    )
}

fn resume_json(info: &PrResumeInfo) -> (r: Json)
    ensures
        r.tree() == spec_resume_json(info.deep_view()),
{
    let r: Json = Fields::new()
        .with("pr_number", Json::Count(info.pr_number))
        .with("head_branch", text(info.head_branch.as_str()))
        .object();
    assert(r.tree()->Object_0 =~= spec_resume_json(info.deep_view())->Object_0);
    r
}

/// What the cleanup of one workspace did, as an object.
pub open spec fn spec_gc_json(result: WorkspaceGcResultView) -> JsonView {
    JsonView::Object(
        seq![
            ("workspace_id"@, spec_text(result.workspace_id)),
            ("bookmarks_forgotten"@, spec_texts(result.bookmarks_forgotten)),
            ("skipped"@, JsonView::Flag(result.skipped_reason is Some)),
            ("skipped_reason"@, spec_maybe(result.skipped_reason)),
            ("error"@, spec_maybe(result.error)),
        ],
    )
}

fn gc_json(result: &WorkspaceGcResult) -> (r: Json)
    ensures
        r.tree() == spec_gc_json(result.deep_view()),
{
    let r: Json = Fields::new()
        .with("workspace_id", text(result.workspace_id.as_str()))
        .with("bookmarks_forgotten", texts(&result.bookmarks_forgotten))
        .with("skipped", Json::Flag(result.skipped_reason.is_some()))
        .with("skipped_reason", maybe(&result.skipped_reason))
        .with("error", maybe(&result.error))
        .object();
    assert(r.tree()->Object_0 =~= spec_gc_json(result.deep_view())->Object_0);
    r
}

/// What a cleanup did, as a list.
pub open spec fn spec_gc_list_json(items: Seq<WorkspaceGcResultView>) -> JsonView {
    JsonView::List(Seq::new(items.len(), |i: int| spec_gc_json(items[i])))
}

fn gc_list_json(items: &Vec<WorkspaceGcResult>) -> (r: Json)
    ensures
        r.tree() == spec_gc_list_json(items.deep_view()),
{
    let mut out: Vec<Json> = Vec::new();
    let mut i: usize = 0;
    while i < items.len()
        invariant
            i <= items@.len(),
            out@.len() == i,
            forall|j: int|
                0 <= j < i ==> #[trigger] out@[j].tree() == spec_gc_json(
                    items.deep_view()[j],
                ),
        decreases items@.len() - i,
    {
        out.push(gc_json(&items[i]));
        i += 1;
    }
    assert(trees(out@) =~= spec_gc_list_json(items.deep_view())->List_0);
    list(out)
}

/// A change as an object.
pub open spec fn spec_change_json(change: ChangeRecordView) -> JsonView {
    JsonView::Object(
        seq![
            ("change_id"@, spec_text(change.change_id)),
            ("repo"@, spec_text(change.repo)),
            ("workspace_path"@, spec_text(change.workspace_path)),
            ("parent_change_id"@, spec_maybe(change.parent_change_id)),
            ("title"@, spec_text(change.title)),
            ("jj_change_id"@, spec_text(change.jj_change_id)),
            ("head_commit"@, spec_text(change.head_commit)),
            ("created_at_epoch_s"@, JsonView::Int(change.created_at_epoch_s)),
        ],
    )
}

fn change_json(change: &ChangeRecord) -> (r: Json)
    ensures
        r.tree() == spec_change_json(change.deep_view()),
{
    let r: Json = Fields::new()
        .with("change_id", text(change.change_id.as_str()))
        .with("repo", text(change.repo.as_str()))
        .with("workspace_path", text(change.workspace_path.as_str()))
        .with("parent_change_id", maybe(&change.parent_change_id))
        .with("title", text(change.title.as_str()))
        .with("jj_change_id", text(change.jj_change_id.as_str()))
        .with("head_commit", text(change.head_commit.as_str()))
        .with("created_at_epoch_s", Json::Int(change.created_at_epoch_s))
        .object();
    assert(r.tree()->Object_0 =~= spec_change_json(change.deep_view())->Object_0);
    r
}

// ---------------------------------------------------------------------------
// Payloads
// ---------------------------------------------------------------------------

impl PayloadView {
    /// The tree that the payload is written as.
    pub open spec fn json(self) -> JsonView {
        match self {
            PayloadView::RepoEnsured(repo) => JsonView::Object(
                seq![
                    ("repo_id"@, spec_text(repo.repo)),
                    ("repo"@, spec_repo_json(repo)),
                ],
            ),
            PayloadView::Repo(repo) => JsonView::Object(
                seq![
                    ("repo"@, spec_repo_json(repo)),
                ],
            ),
            PayloadView::Repos(repos) => JsonView::Object(
                seq![
                    ("repos"@, spec_repos_json(repos)),
                ],
            ),
            PayloadView::Lease { workspace, setup, health_check, resume_pr } => {
                let fields = seq![
                    ("workspace"@, spec_workspace_json(workspace)),
                    ("setup"@, spec_setup_json(setup)),
                    ("health_check"@, spec_checks_json(health_check)),
                ];
                match resume_pr {
                    None => JsonView::Object(fields),
                    Some(info) => JsonView::Object(
                        fields.push(("resume_pr"@, spec_resume_json(info))),
                    ),
                }
            },
            PayloadView::Workspace(workspace) => JsonView::Object(
                seq![
                    ("workspace"@, spec_workspace_json(workspace)),
                ],
            ),
            PayloadView::Status { workspace, jj_status } => JsonView::Object(
                seq![
                    ("workspace"@, spec_workspace_json(workspace)),
                    ("jj_status"@, spec_text(jj_status)),
                ],
            ),
            PayloadView::Setup { workspace, setup } => JsonView::Object(
                seq![
                    ("workspace"@, spec_workspace_json(workspace)),
                    ("setup"@, spec_setup_json(setup)),
                ],
            ),
            PayloadView::Workspaces { workspaces, reconciled } => JsonView::Object(
                seq![
                    ("workspaces"@, spec_workspaces_json(workspaces)),
                    ("reconciled"@, spec_reconciled_json(reconciled)),
                ],
            ),
            PayloadView::Removed { workspace, forced, expunged } => JsonView::Object(
                seq![
                    ("workspace"@, spec_workspace_json(workspace)),
                    ("forced"@, JsonView::Flag(forced)),
                    ("expunged"@, JsonView::Flag(expunged)),
                ],
            ),
            PayloadView::Gc(results) => JsonView::Object(
                seq![
                    ("results"@, spec_gc_list_json(results)),
                ],
            ),
            PayloadView::Change(change) => JsonView::Object(
                seq![
                    ("change"@, spec_change_json(change)),
                ],
            ),
            PayloadView::PrEnsured { created, url, number, pr_bookmark } => JsonView::Object(
                seq![
                    ("action"@, spec_text(if created { "created"@ } else { "exists"@ })),
                    ("url"@, spec_text(url)),
                    ("number"@, spec_maybe_count(number)),
                    ("pr_bookmark"@, spec_maybe(pr_bookmark)),
                ],
            ),
            PayloadView::PrPushed { pushed, url, number } => JsonView::Object(
                seq![
                    ("action"@, spec_text(if pushed { "pushed"@ } else { "noop"@ })),
                    ("url"@, spec_text(url)),
                    ("number"@, JsonView::Count(number)),
                ],
            ),
        }
    }
}

impl Payload {
    pub fn json(&self) -> (r: Json)
        ensures
            r.tree() == self.deep_view().json(),
    {
        let r: Json = match self {
            Payload::RepoEnsured(repo) => Fields::new()
                    .with("repo_id", text(repo.repo.as_str()))
                    .with("repo", repo_json(repo))
                    .object(),
            Payload::Repo(repo) => Fields::new()
                    .with("repo", repo_json(repo))
                    .object(),
            Payload::Repos(repos) => Fields::new()
                    .with("repos", repos_json(repos))
                    .object(),
            Payload::Lease { workspace, setup, health_check, resume_pr } => {
                let fields: Fields = Fields::new()
                    .with("workspace", workspace_json(workspace))
                    .with("setup", setup_json(setup))
                    .with("health_check", checks_json(health_check));
                match resume_pr {
                    None => fields.object(),
                    Some(info) => fields.with("resume_pr", resume_json(info)).object(),
                }
            },
            Payload::Workspace(workspace) => Fields::new()
                    .with("workspace", workspace_json(workspace))
                    .object(),
            Payload::Status { workspace, jj_status } => Fields::new()
                    .with("workspace", workspace_json(workspace))
                    .with("jj_status", text(jj_status.as_str()))
                    .object(),
            Payload::Setup { workspace, setup } => Fields::new()
                    .with("workspace", workspace_json(workspace))
                    .with("setup", setup_json(setup))
                    .object(),
            Payload::Workspaces { workspaces, reconciled } => Fields::new()
                    .with("workspaces", workspaces_json(workspaces))
                    .with("reconciled", reconciled_json(reconciled))
                    .object(),
            Payload::Removed { workspace, forced, expunged } => Fields::new()
                    .with("workspace", workspace_json(workspace))
                    .with("forced", Json::Flag(*forced))
                    .with("expunged", Json::Flag(*expunged))
                    .object(),
            Payload::Gc(results) => Fields::new()
                    .with("results", gc_list_json(results))
                    .object(),
            Payload::Change(change) => Fields::new()
                    .with("change", change_json(change))
                    .object(),
            Payload::PrEnsured { created, url, number, pr_bookmark } => Fields::new()
                    .with("action", text(if *created { "created" } else { "exists" }))
                    .with("url", text(url.as_str()))
                    .with("number", maybe_count(*number))
                    .with("pr_bookmark", maybe(pr_bookmark))
                    .object(),
            Payload::PrPushed { pushed, url, number } => Fields::new()
                    .with("action", text(if *pushed { "pushed" } else { "noop" }))
                    .with("url", text(url.as_str()))
                    .with("number", Json::Count(*number))
                    .object(),
        };
        assert(r.tree()->Object_0 =~= self.deep_view().json()->Object_0);
        r
    }
}

} // verus!
