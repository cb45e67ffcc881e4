use std::cell::{Cell, RefCell};
use std::collections::{BTreeMap, BTreeSet, VecDeque};
use std::path::{Path, PathBuf};
use std::rc::Rc;

use cube::app::{answer_fresh_id, holder_identity, run};
use cube::audit::{stamp, week_file_name};
use cube::cli::{Cli, Command};
use cube::command_runner::{CommandInvocation, RealCommandRunner};
use cube::config::{load_config, CubeConfig, RepoResolver, UnhealthyGc};
use cube::ensure::RepoEnsureDefaults;
use cube::error::CubeError;
use cube::events::FieldValue;
use cube::flow::{
    Action, Answer, Content, DirEntry, DirName, Entry, IoFault, Listing, Stop, Tape,
};
use cube::json::Json;
use cube::records::{
    ChangeRecord, ExpiredLease, RepoRecord, SetupReport, SetupStep, StepStatus, WorkspaceCandidate,
    WorkspaceHealth, WorkspaceListFilter, WorkspaceRecord, WorkspaceState,
};
use cube::report::RunResult;
use cube::exclude::{
    ensure_boss_infra_excluded, render_boss_infra_exclude_block, upsert_managed_exclude,
};
use cube::jj::run_jj;
use cube::pool::next_workspace_id;
use cube::pool_gc::{gc_aged_unhealthy_workspaces, run_pool_gc_background};
use cube::pr::pr_number_from_url;
use cube::pr_ensure::{is_stdin_path, resolve_body_file};
use cube::repo::parse_symref_default_branch;
use serde_json::Value;

// ---------------------------------------------------------------------------
// A world in memory
// ---------------------------------------------------------------------------

const NOW: i64 = 1_777_557_930;
const CONFIG_DIR: &str = "/config";

fn unicode(name: &str) -> DirName {
    DirName { text: name.to_string(), is_unicode: true }
}

fn text(path: &Path) -> String {
    path.display().to_string()
}

/// Directories and files.
#[derive(Default)]
struct Disk {
    dirs: BTreeSet<String>,
    files: BTreeMap<String, String>,
    streams: BTreeSet<String>,
}

impl Disk {
    fn create_dirs(&mut self, path: &str) -> Result<(), String> {
        let mut at = String::new();
        for part in path.split('/').filter(|p| !p.is_empty()) {
            at.push('/');
            at.push_str(part);
            if self.files.contains_key(&at) {
                return Err("File exists".to_string());
            }
            self.dirs.insert(at.clone());
        }
        Ok(())
    }

    fn below(&self, path: &str, other: &str) -> bool {
        other == path || other.starts_with(&format!("{path}/"))
    }

    fn remove_tree(&mut self, path: &str) -> bool {
        let there = self.dirs.contains(path);
        let dirs: Vec<String> = self.dirs.iter().filter(|d| self.below(path, d)).cloned().collect();
        let files: Vec<String> = self.files.keys().filter(|f| self.below(path, f)).cloned().collect();
        for d in dirs {
            self.dirs.remove(&d);
        }
        for f in files {
            self.files.remove(&f);
        }
        there
    }

    fn rename(&mut self, from: &str, to: &str) -> bool {
        let there = self.dirs.contains(from);
        let dirs: Vec<String> = self.dirs.iter().filter(|d| self.below(from, d)).cloned().collect();
        let files: Vec<String> = self.files.keys().filter(|f| self.below(from, f)).cloned().collect();
        for d in dirs {
            self.dirs.remove(&d);
            self.dirs.insert(format!("{to}{}", &d[from.len()..]));
        }
        for f in files {
            let body = self.files.remove(&f).unwrap();
            self.files.insert(format!("{to}{}", &f[from.len()..]), body);
        }
        there
    }

    fn list(&self, path: &str) -> Vec<DirEntry> {
        let mut out = Vec::new();
        let prefix = format!("{path}/");
        for d in self.dirs.iter().rev() {
            if let Some(name) = d.strip_prefix(&prefix) {
                if !name.contains('/') {
                    out.push(DirEntry::Named { name: unicode(name), is_dir: true });
                }
            }
        }
        for f in self.files.keys() {
            if let Some(name) = f.strip_prefix(&prefix) {
                if !name.contains('/') {
                    out.push(DirEntry::Named { name: unicode(name), is_dir: false });
                }
            }
        }
        out
    }
}

/// The registry.
#[derive(Default)]
struct Rows {
    repos: Vec<RepoRecord>,
    workspaces: Vec<WorkspaceRecord>,
    changes: Vec<ChangeRecord>,
    numbers: BTreeMap<String, i64>,
}

#[derive(Clone, Default)]
struct Store {
    rows: Rc<RefCell<Rows>>,
}

fn glob(pattern: &str, s: &str) -> bool {
    match pattern.split_once('*') {
        None => pattern == s,
        Some((head, tail)) => match s.strip_prefix(head) {
            None => false,
            Some(rest) => (0..=rest.len()).any(|i| glob(tail, &rest[i..])),
        },
    }
}

impl Store {
    fn open_at(world: &World) -> Result<Store, CubeError> {
        Ok(world.store.clone())
    }

    fn upsert_repo(&self, record: &RepoRecord) -> Result<RepoRecord, CubeError> {
        let repos = &mut self.rows.borrow_mut().repos;
        repos.retain(|r| r.repo != record.repo);
        repos.push(record.clone());
        repos.sort_by(|a, b| a.repo.cmp(&b.repo));
        Ok(record.clone())
    }

    fn sync_workspaces(&self, repo: &str, candidates: &[WorkspaceCandidate]) -> Result<(), CubeError> {
        let rows = &mut self.rows.borrow_mut().workspaces;
        for c in candidates {
            let known = rows.iter_mut().find(|w| w.repo == repo && w.workspace_id == c.workspace_id);
            match known {
                Some(w) => w.workspace_path = c.workspace_path.clone(),
                None => rows.push(WorkspaceRecord {
                    repo: repo.to_string(),
                    workspace_id: c.workspace_id.clone(),
                    workspace_path: c.workspace_path.clone(),
                    state: WorkspaceState::Free,
                    lease_id: None,
                    holder: None,
                    task: None,
                    leased_at_epoch_s: None,
                    lease_expires_at_epoch_s: None,
                    head_commit: None,
                    health_status: None,
                    unhealthy_since_epoch_s: None,
                    last_release_reason: None,
                }),
            }
        }
        rows.sort_by(|a, b| (&a.repo, &a.workspace_id).cmp(&(&b.repo, &b.workspace_id)));
        Ok(())
    }

    fn list_workspaces_filtered(
        &self,
        filter: &WorkspaceListFilter,
    ) -> Result<Vec<WorkspaceRecord>, CubeError> {
        let rows = &self.rows.borrow().workspaces;
        Ok(rows
            .iter()
            .filter(|w| filter.repo.as_ref().map_or(true, |r| *r == w.repo))
            .filter(|w| filter.workspace_id.as_ref().map_or(true, |i| *i == w.workspace_id))
            .filter(|w| filter.effective_state.map_or(true, |s| w.effective_state() == s))
            .filter(|w| {
                filter.holder_pattern.as_ref().map_or(true, |p| {
                    w.holder.as_ref().map_or(false, |h| glob(p, h))
                })
            })
            .cloned()
            .collect())
    }

    fn get_workspace_by_path(&self, path: &Path) -> Result<Option<WorkspaceRecord>, CubeError> {
        let rows = &self.rows.borrow().workspaces;
        Ok(rows.iter().find(|w| w.workspace_path == text(path)).cloned())
    }

    fn get_workspace_by_lease(&self, lease: &str) -> Result<Option<WorkspaceRecord>, CubeError> {
        let rows = &self.rows.borrow().workspaces;
        Ok(rows.iter().find(|w| w.lease_id.as_deref() == Some(lease)).cloned())
    }

    fn update_workspace_health(
        &self,
        repo: &str,
        id: &str,
        health: WorkspaceHealth,
    ) -> Result<(), CubeError> {
        let rows = &mut self.rows.borrow_mut().workspaces;
        for w in rows.iter_mut().filter(|w| w.repo == repo && w.workspace_id == id) {
            if w.health_status.is_none() {
                w.unhealthy_since_epoch_s = Some(NOW);
            }
            w.health_status = Some(health);
        }
        Ok(())
    }

    fn get_pool_metadata_i(&self, key: &str) -> Result<Option<i64>, CubeError> {
        Ok(self.rows.borrow().numbers.get(key).copied())
    }

    fn set_pool_metadata_i(&self, key: &str, value: i64) -> Result<(), CubeError> {
        self.rows.borrow_mut().numbers.insert(key.to_string(), value);
        Ok(())
    }

    fn expire(&self, repo: &str, now: i64) -> Vec<ExpiredLease> {
        let rows = &mut self.rows.borrow_mut().workspaces;
        let mut out = Vec::new();
        for w in rows.iter_mut().filter(|w| w.repo == repo && w.state == WorkspaceState::Leased) {
            if w.lease_expires_at_epoch_s.map_or(false, |e| e <= now) {
                out.push(ExpiredLease {
                    workspace_id: w.workspace_id.clone(),
                    lease_id: w.lease_id.clone().unwrap_or_default(),
                    holder: w.holder.clone(),
                    task: w.task.clone(),
                    leased_at_epoch_s: w.leased_at_epoch_s,
                    lease_expires_at_epoch_s: w.lease_expires_at_epoch_s,
                });
                free(w);
            }
        }
        out
    }

    fn change_lease<F: FnOnce(&mut WorkspaceRecord)>(&self, lease: &str, f: F) -> Option<WorkspaceRecord> {
        let rows = &mut self.rows.borrow_mut().workspaces;
        let w = rows.iter_mut().find(|w| w.lease_id.as_deref() == Some(lease))?;
        f(w);
        Some(w.clone())
    }
}

fn free(w: &mut WorkspaceRecord) {
    w.state = WorkspaceState::Free;
    w.lease_id = None;
    w.holder = None;
    w.task = None;
    w.leased_at_epoch_s = None;
    w.lease_expires_at_epoch_s = None;
}

/// A setup step of the workspaces.
enum Step {
    Command(&'static str, &'static [&'static str]),
    Skip(&'static str),
}

/// Everything that a command can reach.
struct World {
    disk: RefCell<Disk>,
    store: Store,
    events: RefCell<Vec<Value>>,
    warnings: RefCell<Vec<String>>,
    locks: RefCell<Vec<String>>,
    cleanups: Cell<usize>,
    clock: Cell<i64>,
    stdin: RefCell<String>,
    data_dir: String,
    config: RefCell<CubeConfig>,
    setup: RefCell<Vec<(String, Step)>>,
}

impl World {
    fn at(root: &str) -> World {
        World {
            disk: RefCell::new(Disk::default()),
            store: Store::default(),
            events: RefCell::new(Vec::new()),
            warnings: RefCell::new(Vec::new()),
            locks: RefCell::new(Vec::new()),
            cleanups: Cell::new(0),
            clock: Cell::new(NOW),
            stdin: RefCell::new(String::new()),
            data_dir: root.to_string(),
            config: RefCell::new(CubeConfig::default()),
            setup: RefCell::new(Vec::new()),
        }
    }

    fn create_dir_all<P: AsRef<Path>>(&self, path: P) -> Result<(), String> {
        self.disk.borrow_mut().create_dirs(&text(path.as_ref()))
    }

    fn remove_dir_all<P: AsRef<Path>>(&self, path: P) -> Result<(), String> {
        match self.disk.borrow_mut().remove_tree(&text(path.as_ref())) {
            true => Ok(()),
            false => Err("not there".to_string()),
        }
    }

    fn write<P: AsRef<Path>>(&self, path: P, body: &str) -> Result<(), String> {
        self.disk.borrow_mut().files.insert(text(path.as_ref()), body.to_string());
        Ok(())
    }

    fn read_to_string<P: AsRef<Path>>(&self, path: P) -> Result<String, String> {
        let disk = self.disk.borrow();
        disk.files.get(&text(path.as_ref())).cloned().ok_or_else(|| "not there".to_string())
    }

    fn is_dir<P: AsRef<Path>>(&self, path: P) -> bool {
        self.disk.borrow().dirs.contains(&text(path.as_ref()))
    }

    fn is_there<P: AsRef<Path>>(&self, path: P) -> bool {
        let disk = self.disk.borrow();
        let path = text(path.as_ref());
        disk.dirs.contains(&path) || disk.files.contains_key(&path)
    }

    fn force_lease_expiry(&self, lease_id: &str, epoch_s: i64) {
        let updated = self
            .store
            .change_lease(lease_id, |w| w.lease_expires_at_epoch_s = Some(epoch_s));
        assert!(updated.is_some(), "expected exactly one row updated by force_lease_expiry");
    }

    fn audit_files(&self) -> Vec<String> {
        let mut names: Vec<String> = self
            .events
            .borrow()
            .iter()
            .map(|e| week_file_name(e["ts_epoch_s"].as_i64().unwrap()))
            .collect();
        names.dedup();
        names
    }

    fn audit_log(&self) -> String {
        let events = self.events.borrow();
        events.iter().map(|e| format!("{e}\n")).collect::<Vec<_>>().join("")
    }

    fn done(&self, worked: bool) -> Answer {
        if worked {
            Answer::Done(None)
        } else {
            Answer::Done(Some(IoFault { not_found: true, text: "No such file or directory".to_string() }))
        }
    }

    fn run_setup(&self, runner: &FakeRunner, workspace: &WorkspaceRecord) -> SetupReport {
        let mut report = SetupReport::empty();
        for (id, step) in self.setup.borrow().iter() {
            let status = match step {
                Step::Skip(reason) => StepStatus::Skipped { reason: reason.to_string() },
                Step::Command(program, args) => {
                    let inv = RealCommandRunner::invocation(&workspace.workspace_path, program, args);
                    match runner.run(self, &inv) {
                        Ok(_) => StepStatus::Ran,
                        Err(e) => StepStatus::Failed { error: e.message() },
                    }
                }
            };
            report.steps.push(SetupStep { id: id.clone(), status });
        }
        report
    }

    /// Performs an action.
    fn perform(&self, runner: &FakeRunner, action: Action) -> Answer {
        if let Some(answer) = answer_fresh_id(&action) {
            return answer;
        }
        let store = &self.store;
        match action {
            Action::Run(inv) => match runner.run(self, &inv) {
                Ok(out) => Answer::Output(out),
                Err(e) => Answer::Failed(e),
            },
            Action::Warn(line) => {
                self.warnings.borrow_mut().push(line);
                Answer::Ack
            }
            Action::Audit(event) => {
                self.events.borrow_mut().push(fields_json(stamp(event, self.clock.get())));
                Answer::Ack
            }
            Action::IsDir(p) => Answer::Flag(self.is_dir(&p)),
            Action::Exists(p) => Answer::Flag(self.is_there(&p)),
            Action::OnPath(p) => Answer::Flag(p == "true"),
            Action::CreateDirs(p) => match self.create_dir_all(&p) {
                Ok(()) => Answer::Done(None),
                Err(text) => Answer::Done(Some(IoFault { not_found: false, text })),
            },
            Action::RemoveTree(p) => {
                let worked = self.disk.borrow_mut().remove_tree(&p);
                self.done(worked)
            }
            Action::Rename { from, to } => {
                let worked = self.disk.borrow_mut().rename(&from, &to);
                self.done(worked)
            }
            Action::ReadDir(p) => Answer::Listed(Listing::Entries(self.disk.borrow().list(&p))),
            Action::ReadFile(p) => match self.read_to_string(&p) {
                Ok(body) => Answer::Text(Content::Text(body)),
                Err(text) => Answer::Text(Content::Fault(IoFault { not_found: true, text })),
            },
            Action::ReadStdin => Answer::Text(Content::Text(self.stdin.borrow().clone())),
            Action::WriteFile { path, text } => {
                self.disk.borrow_mut().files.insert(path, text);
                Answer::Done(None)
            }
            Action::RemoveFile(p) => {
                self.disk.borrow_mut().files.remove(&p);
                Answer::Ack
            }
            Action::Stat(p) => {
                let disk = self.disk.borrow();
                if disk.streams.contains(&p) {
                    Answer::Found(Entry::Stream)
                } else {
                    match disk.files.get(&p) {
                        Some(body) => Answer::Found(Entry::Sized(body.len() as u64)),
                        None => Answer::Found(Entry::Fault("No such file or directory".to_string())),
                    }
                }
            }
            Action::Clock => Answer::Time(self.clock.get()),
            Action::CurrentDir => Answer::Output(text(&current_dir())),
            Action::TempDir => Answer::Name("/tmp".to_string()),
            Action::DataDir => Answer::Output(self.data_dir.clone()),
            Action::HomeDir => Answer::Place(None),
            Action::LogsDir => Answer::Place(Some(format!("{}/workspace-logs", self.data_dir))),
            Action::WorkspaceLogs(id) => {
                Answer::Place(Some(format!("{}/workspace-logs/{id}", self.data_dir)))
            }
            Action::Holder => {
                let user = Some("tester".to_string());
                Answer::Name(holder_identity(&user, &None, 4711))
            }
            Action::FreshId => unreachable!(),
            Action::Variable(name) => {
                Answer::Place(Some(CONFIG_DIR.to_string()).filter(|_| name == "CUBE_CONFIG_DIR"))
            }
            Action::ParseConfig(_) => Answer::Config(self.config.borrow().clone()),
            Action::Lock(repo) => {
                self.locks.borrow_mut().push(repo);
                Answer::Saved
            }
            Action::Unlock => {
                self.locks.borrow_mut().pop();
                Answer::Ack
            }
            Action::SpawnPoolGc => {
                self.cleanups.set(self.cleanups.get() + 1);
                Answer::Ack
            }
            Action::RunSetup(workspace) => Answer::Setup(self.run_setup(runner, &workspace)),
            Action::OpenStore => Answer::Saved,
            Action::GetRepo(id) => {
                Answer::Repo(store.rows.borrow().repos.iter().find(|r| r.repo == id).cloned())
            }
            Action::GetRepoByOrigin(origin) => {
                Answer::Repo(store.rows.borrow().repos.iter().find(|r| r.origin == origin).cloned())
            }
            Action::UpsertRepo(record) => {
                Answer::Repo(Some(store.upsert_repo(&record).unwrap()))
            }
            Action::ListRepos => Answer::Repos(store.rows.borrow().repos.clone()),
            Action::SyncWorkspaces { repo, candidates } => {
                store.sync_workspaces(&repo, &candidates).unwrap();
                Answer::Saved
            }
            Action::ExpireStaleLeases { repo, now_epoch_s } => {
                Answer::Expired(store.expire(&repo, now_epoch_s))
            }
            Action::ListWorkspaces(filter) => {
                Answer::Workspaces(store.list_workspaces_filtered(&filter).unwrap())
            }
            Action::ClaimWorkspace {
                repo,
                workspace_id,
                holder,
                task,
                lease_id,
                leased_at_epoch_s,
                expires_at_epoch_s,
            } => {
                let rows = &mut store.rows.borrow_mut().workspaces;
                let found = rows.iter_mut().find(|w| {
                    w.repo == repo && w.workspace_id == workspace_id && w.state == WorkspaceState::Free
                });
                Answer::Workspace(found.map(|w| {
                    w.state = WorkspaceState::Leased;
                    w.lease_id = Some(lease_id);
                    w.holder = Some(holder);
                    w.task = Some(task);
                    w.leased_at_epoch_s = Some(leased_at_epoch_s);
                    w.lease_expires_at_epoch_s = expires_at_epoch_s;
                    w.health_status = None;
                    w.unhealthy_since_epoch_s = None;
                    w.clone()
                }))
            }
            Action::SetHeadCommit { lease_id, head_commit } => {
                store.change_lease(&lease_id, |w| w.head_commit = Some(head_commit));
                Answer::Saved
            }
            Action::SetHealth { repo, workspace_id, health } => {
                store.update_workspace_health(&repo, &workspace_id, health).unwrap();
                Answer::Saved
            }
            Action::ReleaseWorkspace { lease_id, reason } => {
                Answer::Workspace(store.change_lease(&lease_id, |w| {
                    free(w);
                    w.health_status = None;
                    w.unhealthy_since_epoch_s = None;
                    w.last_release_reason = reason;
                }))
            }
            Action::ForceRelease { lease_id, reason } => {
                Answer::Workspace(store.change_lease(&lease_id, |w| {
                    free(w);
                    w.last_release_reason = Some(reason);
                }))
            }
            Action::HeartbeatLease { lease_id, expires_at_epoch_s } => {
                Answer::Workspace(store.change_lease(&lease_id, |w| {
                    w.lease_expires_at_epoch_s = Some(expires_at_epoch_s)
                }))
            }
            Action::WorkspaceByLease(lease) => {
                Answer::Workspace(store.get_workspace_by_lease(&lease).unwrap())
            }
            Action::WorkspaceByPath(path) => {
                Answer::Workspace(store.get_workspace_by_path(Path::new(&path)).unwrap())
            }
            Action::ForgetWorkspace { repo, workspace_id } => {
                let rows = &mut store.rows.borrow_mut().workspaces;
                rows.retain(|w| !(w.repo == repo && w.workspace_id == workspace_id));
                Answer::Saved
            }
            Action::ClearUnhealthy { repo, workspace_id } => {
                let rows = &mut store.rows.borrow_mut().workspaces;
                let found = rows.iter_mut().find(|w| {
                    w.repo == repo && w.workspace_id == workspace_id && w.state == WorkspaceState::Free
                });
                Answer::Cleared(match found {
                    Some(w) => {
                        w.health_status = None;
                        w.unhealthy_since_epoch_s = None;
                        true
                    }
                    None => false,
                })
            }
            Action::InsertChange(change) => {
                store.rows.borrow_mut().changes.push(change.clone());
                Answer::Change(Some(change))
            }
            Action::GetChange(id) => {
                Answer::Change(store.rows.borrow().changes.iter().find(|c| c.change_id == id).cloned())
            }
            Action::GetPoolNumber(key) => Answer::Number(store.get_pool_metadata_i(&key).unwrap()),
            Action::SetPoolNumber { key, value } => {
                store.set_pool_metadata_i(&key, value).unwrap();
                Answer::Saved
            }
        }
    }
}

/// Runs a procedure to its end, performing what it asks for.
fn drive<T, F: Fn(&mut Tape) -> Result<T, Stop>>(
    world: &World,
    runner: &FakeRunner,
    procedure: F,
) -> Result<T, CubeError> {
    let mut answers: VecDeque<Answer> = VecDeque::new();
    loop {
        let mut tape = Tape { answers: answers.clone() };
        match procedure(&mut tape) {
            Ok(value) => return Ok(value),
            Err(Stop::Fail(error)) => return Err(error),
            Err(Stop::Ask(action)) => answers.push_back(world.perform(runner, action)),
        }
    }
}

/// A result as a program sees it.
#[derive(Debug)]
struct Outcome {
    message: String,
    payload: Value,
}

fn outcome(result: RunResult) -> Outcome {
    Outcome { message: result.text(), payload: value(result.payload.json()) }
}

fn run_with_dependencies(
    cli: Cli,
    world: Option<&World>,
    runner: &FakeRunner,
) -> Result<Outcome, CubeError> {
    let elsewhere = World::at("/data");
    let world = world.unwrap_or(&elsewhere);
    drive(world, runner, |tape| run(cli.clone(), tape)).map(outcome)
}

fn run_with_context(
    cli: Cli,
    world: Option<&World>,
    runner: &FakeRunner,
    defaults: Option<&RepoEnsureDefaults>,
    config: Option<CubeConfig>,
) -> Result<Outcome, CubeError> {
    let world = world.expect("a world");
    if let Some(d) = defaults {
        assert_eq!(d.repo_root, format!("{}/repos", world.data_dir));
        assert_eq!(d.workspace_root, format!("{}/workspaces", world.data_dir));
    }
    if let Some(config) = config {
        *world.config.borrow_mut() = config;
        world.write(format!("{CONFIG_DIR}/cube.toml"), "").expect("configuration");
    }
    run_with_dependencies(cli, Some(world), runner)
}

fn current_dir() -> PathBuf {
    PathBuf::from("/work/here")
}

fn current_epoch_s() -> Result<i64, CubeError> {
    Ok(NOW)
}

fn parse(argv: &[&str]) -> Cli {
    Cli::try_parse_from(argv).expect("a command line of the tool")
}

// ---------------------------------------------------------------------------
// JSON
// ---------------------------------------------------------------------------

fn fields_json(fields: Vec<(String, FieldValue)>) -> Value {
    let mut map = serde_json::Map::new();
    for (key, value) in fields {
        let value = match value {
            FieldValue::Text(s) => Value::String(s),
            FieldValue::Int(n) => Value::from(n),
            FieldValue::Count(n) => Value::from(n),
            FieldValue::Flag(b) => Value::Bool(b),
            FieldValue::Texts(v) => Value::Array(v.into_iter().map(Value::String).collect()),
        };
        map.insert(key, value);
    }
    Value::Object(map)
}

fn value(json: Json) -> Value {
    match json {
        Json::Null => Value::Null,
        Json::Flag(b) => Value::Bool(b),
        Json::Int(n) => Value::from(n),
        Json::Count(n) => Value::from(n),
        Json::Real(s) => serde_json::from_str(&s).unwrap(),
        Json::Text(s) => Value::String(s),
        Json::List(items) => Value::Array(items.into_iter().map(value).collect()),
        Json::Object(entries) => {
            Value::Object(entries.into_iter().map(|(k, v)| (k, value(v))).collect())
        }
    }
}

// ---------------------------------------------------------------------------
// Fixtures
// ---------------------------------------------------------------------------

struct TempDir {
    root: PathBuf,
}

impl TempDir {
    fn path(&self) -> &Path {
        &self.root
    }
}

fn with_database_path() -> (TempDir, World) {
    (TempDir { root: PathBuf::from("/data") }, World::at("/data"))
}

fn repo_ensure_defaults(tempdir: &TempDir) -> RepoEnsureDefaults {
    RepoEnsureDefaults {
        repo_root: text(&tempdir.path().join("repos")),
        workspace_root: text(&tempdir.path().join("workspaces")),
    }
}

#[derive(Default)]
struct FakeRunner {
    expectations: RefCell<VecDeque<ExpectedCommand>>,
}

impl FakeRunner {
    fn new(expectations: Vec<ExpectedCommand>) -> Self {
        Self { expectations: RefCell::new(expectations.into()) }
    }

    fn assert_exhausted(&self) {
        assert!(
            self.expectations.borrow().is_empty(),
            "unexpected commands remaining: {:?}",
            self.expectations.borrow()
        );
    }

    fn run(&self, world: &World, invocation: &CommandInvocation) -> Result<String, CubeError> {
        let expected = self
            .expectations
            .borrow_mut()
            .pop_front()
            .unwrap_or_else(|| panic!("unexpected command invocation {invocation:?}"));
        assert_eq!(text(&expected.cwd), invocation.cwd);
        assert_eq!(expected.program, invocation.program);
        assert_eq!(expected.args, invocation.args);
        if let Some(path) = &expected.creates_dir {
            world.create_dir_all(path).expect("create simulated workspace dir");
        }
        expected.result
    }
}

fn everything() -> WorkspaceListFilter {
    WorkspaceListFilter {
        repo: None,
        workspace_id: None,
        effective_state: None,
        holder_pattern: None,
    }
}

fn resolver_config(name: &str, origin_pattern: &str, clone_command: Option<&str>) -> CubeConfig {
    CubeConfig {
        repo_resolvers: vec![RepoResolver {
            name: name.to_string(),
            origin_pattern: origin_pattern.to_string(),
            clone_command: clone_command.map(str::to_string),
        }],
        unhealthy_gc: Default::default(),
    }
}

fn setup_unhealthy_gc_scenario(tempdir: &TempDir, world: &World) -> (Store, PathBuf) {
    let workspace_root = tempdir.path().join("workspaces");
    let ws_path = workspace_root.join("mono-agent-001");
    world.create_dir_all(ws_path.join(".jj")).expect("workspace dir");

    let store = Store::open_at(world).expect("store");
    store
        .upsert_repo(&RepoRecord {
            repo: "mono".to_string(),
            origin: "git@github.com:spinyfin/mono.git".to_string(),
            main_branch: "main".to_string(),
            workspace_root: text(&workspace_root),
            workspace_prefix: "mono-agent-".to_string(),
            source: None,
            clone_command: None,
        })
        .expect("repo");
    store
        .sync_workspaces(
            "mono",
            &[WorkspaceCandidate {
                workspace_id: "mono-agent-001".to_string(),
                workspace_path: text(&ws_path),
            }],
        )
        .expect("sync");

    (store, ws_path)
}

fn collect_aged(world: &World, runner: &FakeRunner, now: i64, max_age_secs: i64) {
    drive(world, runner, |tape| gc_aged_unhealthy_workspaces(tape, now, max_age_secs))
        .expect("the cleanup never fails");
}

fn exclude_infra(world: &World, workspace: &Path, workspace_id: &str) {
    let path = text(workspace);
    drive(world, &FakeRunner::default(), |tape| {
        ensure_boss_infra_excluded(tape, &path, workspace_id)
    })
    .expect("the guard never fails");
}

const BEGIN_MARK: &str = "# >>> boss-internal infra (managed by cube) >>>";
const END_MARK: &str = "# <<< boss-internal infra (managed by cube) <<<";

fn jj_status_clean() -> &'static str {
    "The working copy is clean\nWorking copy : abc1234 (empty) main"
}

fn jj_status_dirty() -> &'static str {
    "Working copy changes:\nM tools/cube/src/app.rs\n\nWorking copy : abc1234 some change"
}

fn jj_status_conflicted(bookmark: &str) -> String {
    format!(
        "The working copy is clean\nWorking copy : abc1234 (empty) main\nThese bookmarks have conflicts:\n  {bookmark}\n  Use `jj bookmark list` to see details."
    )
}

fn resume_pr_runner_for(
    workspace_path: &std::path::Path,
    pr_number: u64,
    head_branch: &str,
    head_commit: &str,
) -> FakeRunner {
    let github_remote = "github";
    let remote_list = format!("origin\t/local/mirror\n{github_remote}\tgit@github.com:spinyfin/mono.git\n");
    let pr_json = format!(
        r#"{{"headRefName":"{head_branch}","headRefOid":"deadbeef1234567890","state":"OPEN"}}"#
    );
    let remote_ref = format!("{head_branch}@{github_remote}");
    let pr_bm = format!("pr/{pr_number}");
    FakeRunner::new(vec![
        ExpectedCommand::ok(workspace_path.to_path_buf(), "jj", &["status", "--no-pager"], "The working copy is clean"),
        ExpectedCommand::ok(workspace_path.to_path_buf(), "jj", &["git", "remote", "list"], &remote_list),
        ExpectedCommand::ok(workspace_path.to_path_buf(), "jj", &["git", "fetch", "--remote", github_remote], ""),
        ExpectedCommand::ok(workspace_path.to_path_buf(), "gh", &[
            "pr", "view", &pr_number.to_string(),
            "-R", "spinyfin/mono",
            "--json", "headRefName,headRefOid,state",
        ], &pr_json),
        ExpectedCommand::ok(workspace_path.to_path_buf(), "jj", &["bookmark", "set", &pr_bm, "-r", &remote_ref], ""),
        ExpectedCommand::ok(workspace_path.to_path_buf(), "jj", &["bookmark", "set", head_branch, "-r", &remote_ref, "--allow-backwards"], ""),
        ExpectedCommand::ok(workspace_path.to_path_buf(), "jj", &["new", &pr_bm], ""),
        ExpectedCommand::ok(workspace_path.to_path_buf(), "jj", &["log", "--no-graph", "-r", "@", "-T", "commit_id.short()"], head_commit),
    ])
}

fn lease_runner_for(workspace_path: &std::path::Path, head: &str) -> FakeRunner {
    FakeRunner::new(vec![
        ExpectedCommand::ok(workspace_path.to_path_buf(), "jj", &["status", "--no-pager"], "The working copy is clean"),
        ExpectedCommand::ok(workspace_path.to_path_buf(), "jj", &["git", "fetch"], ""),
        ExpectedCommand::ok(workspace_path.to_path_buf(), "jj", &["bookmark", "set", "main", "-r", "main@origin", "--allow-backwards"], ""),
        ExpectedCommand::ok(workspace_path.to_path_buf(), "jj", &["new", "main"], ""),
        ExpectedCommand::ok(
            workspace_path.to_path_buf(),
            "jj",
            &["log", "--no-graph", "-r", "@", "-T", "commit_id.short()"],
            head,
        ),
    ])
}

fn gc_noop_command(workspace_path: &std::path::Path) -> ExpectedCommand {
    ExpectedCommand::ok(
        workspace_path.to_path_buf(),
        "jj",
        &[
            "log",
            "-r",
            "bookmarks(glob:\"boss/exec_*\") & ::main",
            "--no-graph",
            "-T",
            "bookmarks ++ \"\\n\"",
        ],
        "",
    )
}

fn gc_pr_remote_noop_command(workspace_path: &std::path::Path) -> ExpectedCommand {
    ExpectedCommand::ok(
        workspace_path.to_path_buf(),
        "jj",
        &["git", "remote", "list"],
        "origin /local/path/to/mirror\n",
    )
}

fn release_runner_for(workspace_path: &std::path::Path) -> FakeRunner {
    FakeRunner::new(vec![
        ExpectedCommand::ok(workspace_path.to_path_buf(), "jj", &["git", "fetch"], ""),
        ExpectedCommand::ok(workspace_path.to_path_buf(), "jj", &["bookmark", "set", "main", "-r", "main@origin", "--allow-backwards"], ""),
        ExpectedCommand::ok(workspace_path.to_path_buf(), "jj", &["new", "main"], ""),
        gc_noop_command(workspace_path),
        gc_pr_remote_noop_command(workspace_path),
    ])
}

fn lease_runner_with_setup(
    workspace_path: &std::path::Path,
    head: &str,
    setup_steps: Vec<ExpectedCommand>,
) -> FakeRunner {
    let mut commands = vec![
        ExpectedCommand::ok(workspace_path.to_path_buf(), "jj", &["status", "--no-pager"], "The working copy is clean"),
        ExpectedCommand::ok(workspace_path.to_path_buf(), "jj", &["git", "fetch"], ""),
        ExpectedCommand::ok(workspace_path.to_path_buf(), "jj", &["bookmark", "set", "main", "-r", "main@origin", "--allow-backwards"], ""),
        ExpectedCommand::ok(workspace_path.to_path_buf(), "jj", &["new", "main"], ""),
        ExpectedCommand::ok(
            workspace_path.to_path_buf(),
            "jj",
            &["log", "--no-graph", "-r", "@", "-T", "commit_id.short()"],
            head,
        ),
    ];
    commands.extend(setup_steps);
    FakeRunner::new(commands)
}

fn add_repo_cli(workspace_root: &std::path::Path) -> Cli {
    parse(&[
        "cube",
        "repo",
        "add",
        "mono",
        "--origin",
        "git@github.com:spinyfin/mono.git",
        "--workspace-root",
        &workspace_root.display().to_string(),
        "--workspace-prefix",
        "mono-agent-",
    ])
}

#[derive(Debug)]
struct ExpectedCommand {
    cwd: PathBuf,
    program: String,
    args: Vec<String>,
    result: Result<String, CubeError>,
    creates_dir: Option<PathBuf>,
}

impl ExpectedCommand {
    fn ok(cwd: PathBuf, program: &str, args: &[&str], stdout: &str) -> Self {
        Self {
            cwd,
            program: program.to_string(),
            args: args.iter().map(|arg| (*arg).to_string()).collect(),
            result: Ok(stdout.to_string()),
            creates_dir: None,
        }
    }

    fn creating_dir(mut self, path: PathBuf) -> Self {
        self.creates_dir = Some(path);
        self
    }

    fn ls_remote_symref(cwd: PathBuf, origin: &str, branch: &str) -> Self {
        Self::ok(
            cwd,
            "git",
            &["ls-remote", "--symref", origin, "HEAD"],
            &format!(
                "ref: refs/heads/{branch}\tHEAD\n\
                 0000000000000000000000000000000000000000\tHEAD"
            ),
        )
    }

    fn stale(cwd: PathBuf, program: &str, args: &[&str]) -> Self {
        let args_owned: Vec<String> = args.iter().map(|a| (*a).to_string()).collect();
        Self {
            cwd,
            program: program.to_string(),
            args: args_owned.clone(),
            result: Err(CubeError::CommandFailed {
                program: program.to_string(),
                args: args_owned,
                status: Some(1),
                stderr: "Error: The working copy is stale (not updated since operation \
                         0123456789ab). Run `jj workspace update-stale` to update it."
                    .to_string(),
            }),
            creates_dir: None,
        }
    }

    fn op_diverged(cwd: PathBuf, program: &str, args: &[&str]) -> Self {
        let args_owned: Vec<String> = args.iter().map(|a| (*a).to_string()).collect();
        Self {
            cwd,
            program: program.to_string(),
            args: args_owned.clone(),
            result: Err(CubeError::CommandFailed {
                program: program.to_string(),
                args: args_owned,
                status: Some(255),
                stderr: "Internal error: The repo was loaded at operation a44a2f689f46, \
                         which seems to be a sibling of the working copy's operation \
                         17fb914fb03f"
                    .to_string(),
            }),
            creates_dir: None,
        }
    }

    fn no_such_remote_bookmark(cwd: PathBuf, program: &str, args: &[&str]) -> Self {
        let args_owned: Vec<String> = args.iter().map(|a| (*a).to_string()).collect();
        let bookmark = args_owned.last().cloned().unwrap_or_default();
        Self {
            cwd,
            program: program.to_string(),
            args: args_owned.clone(),
            result: Err(CubeError::CommandFailed {
                program: program.to_string(),
                args: args_owned,
                status: Some(1),
                stderr: format!("Error: No such remote bookmark: {bookmark}"),
            }),
            creates_dir: None,
        }
    }

    fn revision_doesnt_exist(cwd: PathBuf, program: &str, args: &[&str]) -> Self {
        let args_owned: Vec<String> = args.iter().map(|a| (*a).to_string()).collect();
        let target = args_owned
            .iter()
            .rev()
            .find(|a| a.contains("@origin"))
            .cloned()
            .unwrap_or_default();
        Self {
            cwd,
            program: program.to_string(),
            args: args_owned.clone(),
            result: Err(CubeError::CommandFailed {
                program: program.to_string(),
                args: args_owned,
                status: Some(1),
                stderr: format!("Error: Revision `{target}` doesn't exist"),
            }),
            creates_dir: None,
        }
    }

    fn no_jj_repo(cwd: PathBuf, program: &str, args: &[&str]) -> Self {
        let args_owned: Vec<String> = args.iter().map(|a| (*a).to_string()).collect();
        Self {
            cwd,
            program: program.to_string(),
            args: args_owned.clone(),
            result: Err(CubeError::CommandFailed {
                program: program.to_string(),
                args: args_owned,
                status: Some(1),
                stderr: "Error: There is no jj repo in \".\"\n\
                         Hint: It looks like this is a git repo. You can create a jj repo \
                         backed by it by running this:\njj git init --colocate"
                    .to_string(),
            }),
            creates_dir: None,
        }
    }
}

fn remote_list_github() -> &'static str {
    "origin\t/Users/bduff/dev/agents/repos/mono\ngithub\tgit@github.com:spinyfin/mono.git\n"
}

fn reset_runner_for(ws_path: &std::path::Path) -> FakeRunner {
    FakeRunner::new(vec![
        ExpectedCommand::ok(ws_path.to_path_buf(), "jj", &["git", "fetch"], ""),
        ExpectedCommand::ok(
            ws_path.to_path_buf(),
            "jj",
            &["bookmark", "set", "main", "-r", "main@origin", "--allow-backwards"],
            "",
        ),
        ExpectedCommand::ok(ws_path.to_path_buf(), "jj", &["new", "main"], ""),
    ])
}

#[test]
fn repo_add_and_info_round_trip() {
    let (_tempdir, world) = with_database_path();

    let add = parse(&[
        "cube",
        "repo",
        "add",
        "mono",
        "--origin",
        "git@github.com:spinyfin/mono.git",
        "--workspace-root",
        "/tmp/workspaces",
        "--workspace-prefix",
        "mono-agent-",
        "--source",
        "/tmp/mono",
    ]);
    let add_result = run_with_dependencies(add, Some(&world), &FakeRunner::default())
        .expect("repo add should succeed");
    assert_eq!(add_result.message, "Registered repo `mono`.");
    assert_eq!(add_result.payload["repo"]["repo"], "mono");

    let info = parse(&["cube", "repo", "info", "mono"]);
    let info_result = run_with_dependencies(info, Some(&world), &FakeRunner::default())
        .expect("repo info should succeed");
    assert_eq!(
        info_result.payload["repo"]["workspace_prefix"],
        "mono-agent-"
    );
    assert_eq!(info_result.payload["repo"]["source"], "/tmp/mono");
}

#[test]
fn repo_list_reports_empty_store() {
    let (_tempdir, world) = with_database_path();

    let cli = parse(&["cube", "repo", "list"]);
    let result = run_with_dependencies(cli, Some(&world), &FakeRunner::default())
        .expect("repo list should succeed");

    assert_eq!(result.message, "No repos configured.");
    assert_eq!(result.payload["repos"], Value::Array(vec![]));
}

#[test]
fn repo_commands_report_missing_repo_with_specific_exit_code() {
    let (_tempdir, world) = with_database_path();

    let cli = parse(&["cube", "repo", "info", "mono"]);
    let error = run_with_dependencies(cli, Some(&world), &FakeRunner::default())
        .expect_err("repo info should fail when the repo is unknown");

    assert!(matches!(error, CubeError::RepoNotFound(_)));
    assert_eq!(error.exit_code(), 3);
}

#[test]
fn repo_ensure_reuses_existing_repo_by_origin() {
    let (tempdir, world) = with_database_path();
    let defaults = repo_ensure_defaults(&tempdir);
    world.create_dir_all(PathBuf::from(&defaults.repo_root).join("mono")).expect("source dir");

    let add = parse(&[
        "cube",
        "repo",
        "add",
        "mono",
        "--origin",
        "git@github.com:spinyfin/mono.git",
        "--workspace-root",
        &defaults.workspace_root.clone(),
        "--workspace-prefix",
        "mono-agent-",
        "--source",
        &PathBuf::from(&defaults.repo_root).join("mono").display().to_string(),
    ]);
    run_with_dependencies(add, Some(&world), &FakeRunner::default()).expect("repo");

    let ensure = parse(&[
        "cube",
        "repo",
        "ensure",
        "--origin",
        "git@github.com:spinyfin/mono.git",
    ]);
    let result = run_with_context(
        ensure,
        Some(&world),
        &FakeRunner::default(),
        Some(&defaults),
        None,
    )
    .expect("ensure");

    assert_eq!(result.message, "Ensured repo `mono`.");
    assert_eq!(result.payload["repo_id"], "mono");
    assert_eq!(
        result.payload["repo"]["workspace_root"],
        defaults.workspace_root.clone()
    );
    assert_eq!(
        result.payload["repo"]["source"],
        PathBuf::from(&defaults.repo_root).join("mono").display().to_string()
    );
}

#[test]
fn repo_ensure_materializes_missing_source_for_existing_repo() {
    let (tempdir, world) = with_database_path();
    let defaults = repo_ensure_defaults(&tempdir);
    let source_path = PathBuf::from(&defaults.repo_root).join("mono");

    let add = parse(&[
        "cube",
        "repo",
        "add",
        "mono",
        "--origin",
        "git@github.com:spinyfin/mono.git",
        "--workspace-root",
        &defaults.workspace_root.clone(),
        "--workspace-prefix",
        "mono-agent-",
        "--source",
        &source_path.display().to_string(),
    ]);
    run_with_dependencies(add, Some(&world), &FakeRunner::default()).expect("repo");

    let runner = FakeRunner::new(vec![
        ExpectedCommand::ls_remote_symref(
            PathBuf::from(&defaults.repo_root),
            "git@github.com:spinyfin/mono.git",
            "main",
        ),
        ExpectedCommand::ok(
            PathBuf::from(&defaults.repo_root),
            "jj",
            &[
                "git",
                "clone",
                "git@github.com:spinyfin/mono.git",
                &source_path.display().to_string(),
            ],
            "",
        )
        .creating_dir(source_path.clone()),
        ExpectedCommand::ok(
            source_path.clone(),
            "jj",
            &["bookmark", "track", "main@origin"],
            "",
        ),
        ExpectedCommand::no_such_remote_bookmark(
            source_path.clone(),
            "jj",
            &["bookmark", "track", "master@origin"],
        ),
    ]);

    let ensure = parse(&[
        "cube",
        "repo",
        "ensure",
        "--origin",
        "git@github.com:spinyfin/mono.git",
    ]);
    let result = run_with_context(ensure, Some(&world), &runner, Some(&defaults), None)
        .expect("ensure");

    assert_eq!(result.message, "Ensured repo `mono`.");
    assert_eq!(
        result.payload["repo"]["source"],
        source_path.display().to_string()
    );
    runner.assert_exhausted();
}

#[test]
fn repo_ensure_infers_repo_and_materializes_missing_source() {
    let (tempdir, world) = with_database_path();
    let defaults = repo_ensure_defaults(&tempdir);
    let source_path = PathBuf::from(&defaults.repo_root).join("mono");
    let runner = FakeRunner::new(vec![
        ExpectedCommand::ls_remote_symref(
            PathBuf::from(&defaults.repo_root),
            "git@github.com:spinyfin/mono.git",
            "main",
        ),
        ExpectedCommand::ok(
            PathBuf::from(&defaults.repo_root),
            "jj",
            &[
                "git",
                "clone",
                "git@github.com:spinyfin/mono.git",
                &source_path.display().to_string(),
            ],
            "",
        )
        .creating_dir(source_path.clone()),
        ExpectedCommand::ok(
            source_path.clone(),
            "jj",
            &["bookmark", "track", "main@origin"],
            "",
        ),
        ExpectedCommand::no_such_remote_bookmark(
            source_path.clone(),
            "jj",
            &["bookmark", "track", "master@origin"],
        ),
    ]);

    let ensure = parse(&[
        "cube",
        "repo",
        "ensure",
        "--origin",
        "git@github.com:spinyfin/mono.git",
    ]);
    let result = run_with_context(ensure, Some(&world), &runner, Some(&defaults), None)
        .expect("ensure");

    assert_eq!(result.message, "Ensured repo `mono`.");
    assert_eq!(result.payload["repo_id"], "mono");
    assert_eq!(result.payload["repo"]["workspace_prefix"], "mono-agent-");
    assert_eq!(
        result.payload["repo"]["workspace_root"],
        defaults.workspace_root.clone()
    );
    assert_eq!(
        result.payload["repo"]["source"],
        source_path.display().to_string()
    );
    assert!(world.is_dir(&defaults.workspace_root));
    runner.assert_exhausted();
}

#[test]
fn repo_ensure_by_name_uses_resolver_clone_command() {
    let (tempdir, world) = with_database_path();
    let defaults = repo_ensure_defaults(&tempdir);
    let source_path = PathBuf::from(&defaults.repo_root).join("frontend-api");

    let runner = FakeRunner::new(vec![
        ExpectedCommand::ok(
            PathBuf::from(&defaults.repo_root),
            "true",
            &["clone", "frontend-api"],
            "",
        )
        .creating_dir(source_path.clone()),
        ExpectedCommand::ok(
            source_path.clone(),
            "jj",
            &["git", "init", "--colocate"],
            "",
        ),
        ExpectedCommand::ls_remote_symref(
            source_path.clone(),
            "org-127256988@github.com:linkedin-multiproduct/frontend-api.git",
            "master",
        ),
    ]);

    let ensure = parse(&["cube", "repo", "ensure", "frontend-api"]);
    let result = run_with_context(
        ensure,
        Some(&world),
        &runner,
        Some(&defaults),
        Some(resolver_config(
            "mint",
            "org-127256988@github.com:linkedin-multiproduct/{name}.git",
            Some("true clone {name}"),
        )),
    )
    .expect("ensure");

    assert_eq!(result.message, "Ensured repo `frontend-api`.");
    assert_eq!(result.payload["repo_id"], "frontend-api");
    assert_eq!(
        result.payload["repo"]["origin"],
        "org-127256988@github.com:linkedin-multiproduct/frontend-api.git"
    );
    assert_eq!(
        result.payload["repo"]["clone_command"],
        "true clone frontend-api"
    );
    assert_eq!(result.payload["repo"]["main_branch"], "master");
    runner.assert_exhausted();
}

#[test]
fn repo_ensure_by_name_uses_resolver_without_clone_command() {
    let (tempdir, world) = with_database_path();
    let defaults = repo_ensure_defaults(&tempdir);
    let source_path = PathBuf::from(&defaults.repo_root).join("widget");
    let origin = "git@github.example.com:corp/widget.git";

    let runner = FakeRunner::new(vec![
        ExpectedCommand::ls_remote_symref(PathBuf::from(&defaults.repo_root), origin, "main"),
        ExpectedCommand::ok(
            PathBuf::from(&defaults.repo_root),
            "jj",
            &["git", "clone", origin, &source_path.display().to_string()],
            "",
        )
        .creating_dir(source_path.clone()),
        ExpectedCommand::ok(
            source_path.clone(),
            "jj",
            &["bookmark", "track", "main@origin"],
            "",
        ),
        ExpectedCommand::no_such_remote_bookmark(
            source_path.clone(),
            "jj",
            &["bookmark", "track", "master@origin"],
        ),
    ]);

    let ensure = parse(&["cube", "repo", "ensure", "widget"]);
    let result = run_with_context(
        ensure,
        Some(&world),
        &runner,
        Some(&defaults),
        Some(resolver_config(
            "corp-github",
            "git@github.example.com:corp/{name}.git",
            None,
        )),
    )
    .expect("ensure");

    assert_eq!(result.message, "Ensured repo `widget`.");
    assert_eq!(result.payload["repo"]["clone_command"], Value::Null);
    runner.assert_exhausted();
}

#[test]
fn repo_ensure_by_name_slug_match_is_noop_and_beats_resolver() {
    let (tempdir, world) = with_database_path();
    let defaults = repo_ensure_defaults(&tempdir);
    world.create_dir_all(PathBuf::from(&defaults.repo_root).join("mono")).expect("source dir");
    let add = parse(&[
        "cube",
        "repo",
        "add",
        "mono",
        "--origin",
        "git@github.com:spinyfin/mono.git",
        "--workspace-root",
        &defaults.workspace_root.clone(),
        "--workspace-prefix",
        "mono-agent-",
        "--source",
        &PathBuf::from(&defaults.repo_root).join("mono").display().to_string(),
    ]);
    run_with_dependencies(add, Some(&world), &FakeRunner::default()).expect("add");

    let ensure = parse(&["cube", "repo", "ensure", "mono"]);
    let result = run_with_context(
        ensure,
        Some(&world),
        &FakeRunner::default(),
        Some(&defaults),
        Some(resolver_config(
            "mint",
            "org-1@github.com:linkedin-multiproduct/{name}.git",
            Some("true clone {name}"),
        )),
    )
    .expect("ensure");

    assert_eq!(result.message, "Ensured repo `mono`.");
    assert_eq!(
        result.payload["repo"]["origin"],
        "git@github.com:spinyfin/mono.git"
    );
}

#[test]
fn repo_ensure_by_name_github_fallback() {
    let (tempdir, world) = with_database_path();
    let defaults = repo_ensure_defaults(&tempdir);
    let source_path = PathBuf::from(&defaults.repo_root).join("mono");
    let origin = "git@github.com:spinyfin/mono.git";

    let runner = FakeRunner::new(vec![
        ExpectedCommand::ls_remote_symref(PathBuf::from(&defaults.repo_root), origin, "main"),
        ExpectedCommand::ok(
            PathBuf::from(&defaults.repo_root),
            "jj",
            &["git", "clone", origin, &source_path.display().to_string()],
            "",
        )
        .creating_dir(source_path.clone()),
        ExpectedCommand::ok(
            source_path.clone(),
            "jj",
            &["bookmark", "track", "main@origin"],
            "",
        ),
        ExpectedCommand::no_such_remote_bookmark(
            source_path.clone(),
            "jj",
            &["bookmark", "track", "master@origin"],
        ),
    ]);

    let ensure = parse(&["cube", "repo", "ensure", "spinyfin/mono"]);
    let result = run_with_context(
        ensure,
        Some(&world),
        &runner,
        Some(&defaults),
        Some(CubeConfig::default()),
    )
    .expect("ensure");

    assert_eq!(result.message, "Ensured repo `mono`.");
    assert_eq!(result.payload["repo"]["origin"], origin);
    assert_eq!(result.payload["repo"]["main_branch"], "main");
    runner.assert_exhausted();
}

#[test]
fn repo_ensure_detects_master_default_branch() {
    let (tempdir, world) = with_database_path();
    let defaults = repo_ensure_defaults(&tempdir);
    let source_path = PathBuf::from(&defaults.repo_root).join("legacy");
    let origin = "git@github.com:spinyfin/legacy.git";

    let runner = FakeRunner::new(vec![
        ExpectedCommand::ls_remote_symref(PathBuf::from(&defaults.repo_root), origin, "master"),
        ExpectedCommand::ok(
            PathBuf::from(&defaults.repo_root),
            "jj",
            &["git", "clone", origin, &source_path.display().to_string()],
            "",
        )
        .creating_dir(source_path.clone()),
        ExpectedCommand::no_such_remote_bookmark(
            source_path.clone(),
            "jj",
            &["bookmark", "track", "main@origin"],
        ),
        ExpectedCommand::ok(
            source_path.clone(),
            "jj",
            &["bookmark", "track", "master@origin"],
            "",
        ),
    ]);

    let ensure = parse(&["cube", "repo", "ensure", "spinyfin/legacy"]);
    let result = run_with_context(
        ensure,
        Some(&world),
        &runner,
        Some(&defaults),
        Some(CubeConfig::default()),
    )
    .expect("ensure");

    assert_eq!(result.payload["repo"]["main_branch"], "master");
    runner.assert_exhausted();
}

#[test]
fn repo_ensure_detects_and_tracks_nonconventional_default_branch() {
    let (tempdir, world) = with_database_path();
    let defaults = repo_ensure_defaults(&tempdir);
    let source_path = PathBuf::from(&defaults.repo_root).join("trunkish");
    let origin = "git@github.com:spinyfin/trunkish.git";

    let runner = FakeRunner::new(vec![
        ExpectedCommand::ls_remote_symref(PathBuf::from(&defaults.repo_root), origin, "develop"),
        ExpectedCommand::ok(
            PathBuf::from(&defaults.repo_root),
            "jj",
            &["git", "clone", origin, &source_path.display().to_string()],
            "",
        )
        .creating_dir(source_path.clone()),
        ExpectedCommand::no_such_remote_bookmark(
            source_path.clone(),
            "jj",
            &["bookmark", "track", "main@origin"],
        ),
        ExpectedCommand::no_such_remote_bookmark(
            source_path.clone(),
            "jj",
            &["bookmark", "track", "master@origin"],
        ),
        ExpectedCommand::ok(
            source_path.clone(),
            "jj",
            &["bookmark", "track", "develop@origin"],
            "",
        ),
    ]);

    let ensure = parse(&["cube", "repo", "ensure", "spinyfin/trunkish"]);
    let result = run_with_context(
        ensure,
        Some(&world),
        &runner,
        Some(&defaults),
        Some(CubeConfig::default()),
    )
    .expect("ensure");

    assert_eq!(result.payload["repo"]["main_branch"], "develop");
    runner.assert_exhausted();
}

#[test]
fn repo_ensure_falls_back_to_main_when_detection_fails() {
    let (tempdir, world) = with_database_path();
    let defaults = repo_ensure_defaults(&tempdir);
    let source_path = PathBuf::from(&defaults.repo_root).join("mono");
    let origin = "git@github.com:spinyfin/mono.git";

    let runner = FakeRunner::new(vec![
        ExpectedCommand {
            cwd: PathBuf::from(&defaults.repo_root),
            program: "git".to_string(),
            args: vec![
                "ls-remote".to_string(),
                "--symref".to_string(),
                origin.to_string(),
                "HEAD".to_string(),
            ],
            result: Err(CubeError::CommandFailed {
                program: "git".to_string(),
                args: Vec::new(),
                status: Some(128),
                stderr: "fatal: could not read from remote repository".to_string(),
            }),
            creates_dir: None,
        },
        ExpectedCommand::ok(
            PathBuf::from(&defaults.repo_root),
            "jj",
            &["git", "clone", origin, &source_path.display().to_string()],
            "",
        )
        .creating_dir(source_path.clone()),
        ExpectedCommand::ok(
            source_path.clone(),
            "jj",
            &["bookmark", "track", "main@origin"],
            "",
        ),
        ExpectedCommand::no_such_remote_bookmark(
            source_path.clone(),
            "jj",
            &["bookmark", "track", "master@origin"],
        ),
    ]);

    let ensure = parse(&["cube", "repo", "ensure", "spinyfin/mono"]);
    let result = run_with_context(
        ensure,
        Some(&world),
        &runner,
        Some(&defaults),
        Some(CubeConfig::default()),
    )
    .expect("ensure");

    assert_eq!(result.payload["repo"]["main_branch"], "main");
    runner.assert_exhausted();
}

#[test]
fn parse_symref_default_branch_reads_head_symref() {
    let out = "ref: refs/heads/master\tHEAD\n\
               0123456789abcdef0123456789abcdef01234567\tHEAD";
    assert_eq!(
        parse_symref_default_branch(out),
        Some("master".to_string())
    );
}

#[test]
fn parse_symref_default_branch_handles_nonconventional_name() {
    let out = "ref: refs/heads/develop\tHEAD\ndeadbeef\tHEAD";
    assert_eq!(
        parse_symref_default_branch(out),
        Some("develop".to_string())
    );
}

#[test]
fn parse_symref_default_branch_returns_none_without_symref_line() {
    let out = "0123456789abcdef0123456789abcdef01234567\tHEAD";
    assert_eq!(parse_symref_default_branch(out), None);
    assert_eq!(parse_symref_default_branch(""), None);
}

#[test]
fn repo_ensure_by_name_no_match_errors_with_chain() {
    let (tempdir, world) = with_database_path();
    let defaults = repo_ensure_defaults(&tempdir);

    let ensure = parse(&["cube", "repo", "ensure", "bduff"]);
    let err = run_with_context(
        ensure,
        Some(&world),
        &FakeRunner::default(),
        Some(&defaults),
        Some(CubeConfig::default()),
    )
    .expect_err("should fail when nothing resolves");

    let msg = err.message();
    assert!(msg.contains("could not resolve repo `bduff`"), "{msg}");
    assert!(msg.contains("registered slug"), "{msg}");
    assert!(msg.contains("no `repo-resolvers`"), "{msg}");
    assert!(msg.contains("GitHub `<org>/<name>`"), "{msg}");
}

#[test]
fn repo_ensure_resolver_clone_command_missing_binary_errors() {
    let (tempdir, world) = with_database_path();
    let defaults = repo_ensure_defaults(&tempdir);

    let ensure = parse(&["cube", "repo", "ensure", "frontend-api"]);
    let err = run_with_context(
        ensure,
        Some(&world),
        &FakeRunner::default(),
        Some(&defaults),
        Some(resolver_config(
            "mint",
            "org-1@github.com:linkedin-multiproduct/{name}.git",
            Some("this-binary-does-not-exist-cube-test clone {name}"),
        )),
    )
    .expect_err("should fail when clone command binary is missing");

    let msg = err.message();
    assert!(
        msg.contains("this-binary-does-not-exist-cube-test"),
        "error should name the missing binary: {msg}"
    );
    assert!(msg.contains("not on PATH"), "error should mention PATH: {msg}");
    assert!(
        msg.contains("resolver"),
        "error should reference the resolver config: {msg}"
    );
}

#[test]
fn repo_ensure_accepts_auth_prefixed_url_when_plain_stored() {
    let (tempdir, world) = with_database_path();
    let defaults = repo_ensure_defaults(&tempdir);
    world.create_dir_all(PathBuf::from(&defaults.repo_root).join("bduff")).expect("source dir");

    let add = parse(&[
        "cube",
        "repo",
        "add",
        "bduff",
        "--origin",
        "git@github.com:linkedin-sandbox/bduff.git",
        "--workspace-root",
        &defaults.workspace_root.clone(),
        "--workspace-prefix",
        "bduff-agent-",
        "--source",
        &PathBuf::from(&defaults.repo_root).join("bduff").display().to_string(),
    ]);
    run_with_dependencies(add, Some(&world), &FakeRunner::default()).expect("repo add");

    let ensure = parse(&[
        "cube",
        "repo",
        "ensure",
        "--origin",
        "org-132020694@github.com:linkedin-sandbox/bduff.git",
    ]);
    let result = run_with_context(
        ensure,
        Some(&world),
        &FakeRunner::default(),
        Some(&defaults),
        None,
    )
    .expect("ensure with auth-prefixed URL should succeed");

    assert_eq!(result.payload["repo_id"], "bduff");
}

#[test]
fn repo_ensure_accepts_plain_url_when_auth_prefixed_stored() {
    let (tempdir, world) = with_database_path();
    let defaults = repo_ensure_defaults(&tempdir);
    world.create_dir_all(PathBuf::from(&defaults.repo_root).join("bduff")).expect("source dir");

    let add = parse(&[
        "cube",
        "repo",
        "add",
        "bduff",
        "--origin",
        "org-132020694@github.com:linkedin-sandbox/bduff.git",
        "--workspace-root",
        &defaults.workspace_root.clone(),
        "--workspace-prefix",
        "bduff-agent-",
        "--source",
        &PathBuf::from(&defaults.repo_root).join("bduff").display().to_string(),
    ]);
    run_with_dependencies(add, Some(&world), &FakeRunner::default()).expect("repo add");

    let ensure = parse(&[
        "cube",
        "repo",
        "ensure",
        "--origin",
        "git@github.com:linkedin-sandbox/bduff.git",
    ]);
    let result = run_with_context(
        ensure,
        Some(&world),
        &FakeRunner::default(),
        Some(&defaults),
        None,
    )
    .expect("ensure with plain URL should succeed when auth-prefixed is stored");

    assert_eq!(result.payload["repo_id"], "bduff");
}

#[test]
fn repo_ensure_accepts_scp_url_when_ssh_scheme_stored() {
    let (tempdir, world) = with_database_path();
    let defaults = repo_ensure_defaults(&tempdir);
    world.create_dir_all(PathBuf::from(&defaults.repo_root).join("ci-infra")).expect("source dir");

    let add = parse(&[
        "cube",
        "repo",
        "add",
        "ci-infra",
        "--origin",
        "ssh://org-132020694@github.com/linkedin-eng/ci-infra.git",
        "--workspace-root",
        &defaults.workspace_root.clone(),
        "--workspace-prefix",
        "ci-infra-agent-",
        "--source",
        &PathBuf::from(&defaults.repo_root).join("ci-infra").display().to_string(),
    ]);
    run_with_dependencies(add, Some(&world), &FakeRunner::default()).expect("repo add");

    let ensure = parse(&[
        "cube",
        "repo",
        "ensure",
        "--origin",
        "git@github.com:linkedin-eng/ci-infra.git",
    ]);
    let result = run_with_context(
        ensure,
        Some(&world),
        &FakeRunner::default(),
        Some(&defaults),
        None,
    )
    .expect("ensure with SCP URL should succeed when ssh:// form is stored");

    assert_eq!(result.payload["repo_id"], "ci-infra");
}

#[test]
fn repo_ensure_accepts_ssh_scheme_when_scp_stored() {
    let (tempdir, world) = with_database_path();
    let defaults = repo_ensure_defaults(&tempdir);
    world.create_dir_all(PathBuf::from(&defaults.repo_root).join("ci-infra")).expect("source dir");

    let add = parse(&[
        "cube",
        "repo",
        "add",
        "ci-infra",
        "--origin",
        "git@github.com:linkedin-eng/ci-infra.git",
        "--workspace-root",
        &defaults.workspace_root.clone(),
        "--workspace-prefix",
        "ci-infra-agent-",
        "--source",
        &PathBuf::from(&defaults.repo_root).join("ci-infra").display().to_string(),
    ]);
    run_with_dependencies(add, Some(&world), &FakeRunner::default()).expect("repo add");

    let ensure = parse(&[
        "cube",
        "repo",
        "ensure",
        "--origin",
        "ssh://org-132020694@github.com/linkedin-eng/ci-infra.git",
    ]);
    let result = run_with_context(
        ensure,
        Some(&world),
        &FakeRunner::default(),
        Some(&defaults),
        None,
    )
    .expect("ensure with ssh:// URL should succeed when SCP form is stored");

    assert_eq!(result.payload["repo_id"], "ci-infra");
}

#[test]
fn repo_ensure_still_rejects_different_path() {
    let (tempdir, world) = with_database_path();
    let defaults = repo_ensure_defaults(&tempdir);
    world.create_dir_all(PathBuf::from(&defaults.repo_root).join("bduff")).expect("source dir");

    let add = parse(&[
        "cube",
        "repo",
        "add",
        "bduff",
        "--origin",
        "git@github.com:linkedin-sandbox/bduff.git",
        "--workspace-root",
        &defaults.workspace_root.clone(),
        "--workspace-prefix",
        "bduff-agent-",
        "--source",
        &PathBuf::from(&defaults.repo_root).join("bduff").display().to_string(),
    ]);
    run_with_dependencies(add, Some(&world), &FakeRunner::default()).expect("repo add");

    let ensure = parse(&[
        "cube",
        "repo",
        "ensure",
        "--origin",
        "git@github.com:linkedin-eng/bduff.git",
    ]);
    let err = run_with_context(
        ensure,
        Some(&world),
        &FakeRunner::default(),
        Some(&defaults),
        None,
    )
    .expect_err("ensure with different path should fail");

    assert!(matches!(err, CubeError::InvalidArgument(_)));
    let msg = err.message();
    assert!(msg.contains("cannot ensure"), "error: {msg}");
}

#[test]
fn repo_ensure_accepts_bare_slug_when_already_configured() {
    let (tempdir, world) = with_database_path();
    let defaults = repo_ensure_defaults(&tempdir);
    world.create_dir_all(PathBuf::from(&defaults.repo_root).join("dev-infra")).expect("source dir");

    let add = parse(&[
        "cube",
        "repo",
        "add",
        "dev-infra",
        "--origin",
        "ssh://org-127256988@github.com/linkedin-multiproduct/dev-infra.git",
        "--workspace-root",
        &defaults.workspace_root.clone(),
        "--workspace-prefix",
        "dev-infra-agent-",
        "--source",
        &PathBuf::from(&defaults.repo_root).join("dev-infra").display().to_string(),
    ]);
    run_with_dependencies(add, Some(&world), &FakeRunner::default()).expect("repo add");

    let ensure = parse(&[
        "cube",
        "repo",
        "ensure",
        "--origin",
        "linkedin-multiproduct/dev-infra",
    ]);
    let result = run_with_context(
        ensure,
        Some(&world),
        &FakeRunner::default(),
        Some(&defaults),
        None,
    )
    .expect("ensure with a bare slug should succeed when the repo is configured");

    assert_eq!(result.payload["repo_id"], "dev-infra");
    assert_eq!(
        result.payload["repo"]["origin"],
        "ssh://org-127256988@github.com/linkedin-multiproduct/dev-infra.git"
    );
}

#[test]
fn repo_ensure_rejects_bare_slug_with_different_owner() {
    let (tempdir, world) = with_database_path();
    let defaults = repo_ensure_defaults(&tempdir);
    world.create_dir_all(PathBuf::from(&defaults.repo_root).join("dev-infra")).expect("source dir");

    let add = parse(&[
        "cube",
        "repo",
        "add",
        "dev-infra",
        "--origin",
        "ssh://org-127256988@github.com/linkedin-multiproduct/dev-infra.git",
        "--workspace-root",
        &defaults.workspace_root.clone(),
        "--workspace-prefix",
        "dev-infra-agent-",
        "--source",
        &PathBuf::from(&defaults.repo_root).join("dev-infra").display().to_string(),
    ]);
    run_with_dependencies(add, Some(&world), &FakeRunner::default()).expect("repo add");

    let ensure = parse(&[
        "cube",
        "repo",
        "ensure",
        "--origin",
        "some-other-org/dev-infra",
    ]);
    let err = run_with_context(
        ensure,
        Some(&world),
        &FakeRunner::default(),
        Some(&defaults),
        None,
    )
    .expect_err("ensure with a mismatched slug should fail");

    assert!(matches!(err, CubeError::InvalidArgument(_)));
    assert!(err.message().contains("cannot ensure"), "error: {err:?}");
}

#[test]
fn graph_arguments_parse_from_docs_shape() {
    let cli = parse(&["cube", "graph", "--workspace", "/tmp/mono-agent-004"]);

    match cli.command {
        Command::Graph(graph) => {
            assert_eq!(graph.workspace.as_deref(), Some("/tmp/mono-agent-004"))
        }
        _ => panic!("expected graph command"),
    }
}

#[test]
fn workspace_lease_claims_first_free_workspace_and_records_head_commit() {
    let (tempdir, world) = with_database_path();
    let workspace_root = tempdir.path().join("workspaces");
    world.create_dir_all(workspace_root.join("mono-agent-004").join(".jj")).expect("workspace dir");
    world.create_dir_all(workspace_root.join("mono-agent-005").join(".jj")).expect("workspace dir");

    let add = parse(&[
        "cube",
        "repo",
        "add",
        "mono",
        "--origin",
        "git@github.com:spinyfin/mono.git",
        "--workspace-root",
        &workspace_root.display().to_string(),
        "--workspace-prefix",
        "mono-agent-",
    ]);
    run_with_dependencies(add, Some(&world), &FakeRunner::default()).expect("repo");

    let first_path = workspace_root.join("mono-agent-004");
    let runner = FakeRunner::new(vec![
        ExpectedCommand::ok(first_path.clone(), "jj", &["status", "--no-pager"], "The working copy is clean"),
        ExpectedCommand::ok(first_path.clone(), "jj", &["git", "fetch"], ""),
        ExpectedCommand::ok(first_path.clone(), "jj", &["bookmark", "set", "main", "-r", "main@origin", "--allow-backwards"], ""),
        ExpectedCommand::ok(first_path.clone(), "jj", &["new", "main"], ""),
        ExpectedCommand::ok(
            first_path.clone(),
            "jj",
            &["log", "--no-graph", "-r", "@", "-T", "commit_id.short()"],
            "abc1234",
        ),
    ]);

    let lease = parse(&[
        "cube",
        "workspace",
        "lease",
        "mono",
        "--task",
        "implement cube",
    ]);
    let result = run_with_dependencies(lease, Some(&world), &runner).expect("lease");

    assert_eq!(
        result.payload["workspace"]["workspace_id"],
        "mono-agent-004"
    );
    assert_eq!(
        result.payload["workspace"]["workspace_path"],
        first_path.display().to_string()
    );
    assert_eq!(result.payload["workspace"]["head_commit"], "abc1234");
    runner.assert_exhausted();
}

#[test]
fn workspace_lease_fast_forwards_default_branch_to_origin() {
    let (tempdir, world) = with_database_path();
    let workspace_root = tempdir.path().join("workspaces");
    world.create_dir_all(workspace_root.join("mono-agent-004").join(".jj")).expect("workspace dir");

    run_with_dependencies(add_repo_cli(&workspace_root), Some(&world), &FakeRunner::default())
        .expect("repo");

    let first_path = workspace_root.join("mono-agent-004");
    let runner = lease_runner_for(&first_path, "abc1234");
    run_with_dependencies(
        parse(&["cube", "workspace", "lease", "mono", "--task", "ff"]),
        Some(&world),
        &runner,
    )
    .expect("lease");
    runner.assert_exhausted();
}

#[test]
fn workspace_lease_tolerates_unresolvable_origin_default_branch() {
    let (tempdir, world) = with_database_path();
    let workspace_root = tempdir.path().join("workspaces");
    world.create_dir_all(workspace_root.join("mono-agent-004").join(".jj")).expect("workspace dir");

    run_with_dependencies(add_repo_cli(&workspace_root), Some(&world), &FakeRunner::default())
        .expect("repo");

    let first_path = workspace_root.join("mono-agent-004");
    let runner = FakeRunner::new(vec![
        ExpectedCommand::ok(first_path.clone(), "jj", &["status", "--no-pager"], "The working copy is clean"),
        ExpectedCommand::ok(first_path.clone(), "jj", &["git", "fetch"], ""),
        ExpectedCommand::revision_doesnt_exist(
            first_path.clone(),
            "jj",
            &["bookmark", "set", "main", "-r", "main@origin", "--allow-backwards"],
        ),
        ExpectedCommand::ok(first_path.clone(), "jj", &["new", "main"], ""),
        ExpectedCommand::ok(
            first_path.clone(),
            "jj",
            &["log", "--no-graph", "-r", "@", "-T", "commit_id.short()"],
            "abc1234",
        ),
    ]);

    let result = run_with_dependencies(
        parse(&["cube", "workspace", "lease", "mono", "--task", "tolerate"]),
        Some(&world),
        &runner,
    )
    .expect("lease should succeed despite unresolvable origin default branch");
    assert_eq!(result.payload["workspace"]["head_commit"], "abc1234");
    runner.assert_exhausted();
}

#[test]
fn workspace_lease_auto_creates_when_pool_is_empty() {
    let (tempdir, world) = with_database_path();
    let workspace_root = tempdir.path().join("workspaces");

    let add = parse(&[
        "cube",
        "repo",
        "add",
        "mono",
        "--origin",
        "git@github.com:spinyfin/mono.git",
        "--workspace-root",
        &workspace_root.display().to_string(),
        "--workspace-prefix",
        "mono-agent-",
    ]);
    run_with_dependencies(add, Some(&world), &FakeRunner::default()).expect("repo");

    let new_path = workspace_root.join("mono-agent-001");
    let staging = workspace_root.join(".incoming-mono-agent-001");
    let runner = FakeRunner::new(vec![
        ExpectedCommand::ok(
            workspace_root.clone(),
            "jj",
            &[
                "git",
                "clone",
                "--colocate",
                "git@github.com:spinyfin/mono.git",
                &staging.display().to_string(),
            ],
            "",
        )
        .creating_dir(staging.clone()),
        ExpectedCommand::ok(
            staging.clone(),
            "jj",
            &["bookmark", "track", "main@origin"],
            "",
        ),
        ExpectedCommand::no_such_remote_bookmark(
            staging.clone(),
            "jj",
            &["bookmark", "track", "master@origin"],
        ),
        ExpectedCommand::ok(new_path.clone(), "jj", &["git", "fetch"], ""),
        ExpectedCommand::ok(new_path.clone(), "jj", &["bookmark", "set", "main", "-r", "main@origin", "--allow-backwards"], ""),
        ExpectedCommand::ok(new_path.clone(), "jj", &["new", "main"], ""),
        ExpectedCommand::ok(
            new_path.clone(),
            "jj",
            &["log", "--no-graph", "-r", "@", "-T", "commit_id.short()"],
            "abc1234",
        ),
    ]);

    let lease = parse(&[
        "cube",
        "workspace",
        "lease",
        "mono",
        "--task",
        "auto-create demo",
    ]);
    let result = run_with_dependencies(lease, Some(&world), &runner).expect("lease");

    assert_eq!(
        result.payload["workspace"]["workspace_id"],
        "mono-agent-001"
    );
    assert_eq!(result.payload["workspace"]["state"], "leased");
    assert_eq!(result.payload["workspace"]["task"], "auto-create demo");
    assert_eq!(result.payload["workspace"]["head_commit"], "abc1234");
    runner.assert_exhausted();
}

#[test]
fn workspace_lease_tracks_master_origin_after_fresh_clone() {
    let (tempdir, world) = with_database_path();
    let workspace_root = tempdir.path().join("workspaces");

    let add = parse(&[
        "cube",
        "repo",
        "add",
        "legacy",
        "--origin",
        "git@github.com:spinyfin/legacy.git",
        "--main-branch",
        "master",
        "--workspace-root",
        &workspace_root.display().to_string(),
        "--workspace-prefix",
        "legacy-agent-",
    ]);
    run_with_dependencies(add, Some(&world), &FakeRunner::default()).expect("repo");

    let new_path = workspace_root.join("legacy-agent-001");
    let staging = workspace_root.join(".incoming-legacy-agent-001");
    let runner = FakeRunner::new(vec![
        ExpectedCommand::ok(
            workspace_root.clone(),
            "jj",
            &[
                "git",
                "clone",
                "--colocate",
                "git@github.com:spinyfin/legacy.git",
                &staging.display().to_string(),
            ],
            "",
        )
        .creating_dir(staging.clone()),
        ExpectedCommand::no_such_remote_bookmark(
            staging.clone(),
            "jj",
            &["bookmark", "track", "main@origin"],
        ),
        ExpectedCommand::ok(
            staging.clone(),
            "jj",
            &["bookmark", "track", "master@origin"],
            "",
        ),
        ExpectedCommand::ok(new_path.clone(), "jj", &["git", "fetch"], ""),
        ExpectedCommand::ok(new_path.clone(), "jj", &["bookmark", "set", "master", "-r", "master@origin", "--allow-backwards"], ""),
        ExpectedCommand::ok(new_path.clone(), "jj", &["new", "master"], ""),
        ExpectedCommand::ok(
            new_path.clone(),
            "jj",
            &["log", "--no-graph", "-r", "@", "-T", "commit_id.short()"],
            "fee1dead",
        ),
    ]);

    let lease = parse(&[
        "cube",
        "workspace",
        "lease",
        "legacy",
        "--task",
        "fresh-clone master default",
    ]);
    let result = run_with_dependencies(lease, Some(&world), &runner).expect("lease");

    assert_eq!(
        result.payload["workspace"]["workspace_id"],
        "legacy-agent-001"
    );
    assert_eq!(result.payload["workspace"]["state"], "leased");
    runner.assert_exhausted();
}

#[test]
fn workspace_lease_tracks_main_origin_after_fresh_clone() {
    let (tempdir, world) = with_database_path();
    let workspace_root = tempdir.path().join("workspaces");

    let add = parse(&[
        "cube",
        "repo",
        "add",
        "mono",
        "--origin",
        "git@github.com:spinyfin/mono.git",
        "--main-branch",
        "main",
        "--workspace-root",
        &workspace_root.display().to_string(),
        "--workspace-prefix",
        "mono-agent-",
    ]);
    run_with_dependencies(add, Some(&world), &FakeRunner::default()).expect("repo");

    let new_path = workspace_root.join("mono-agent-001");
    let staging = workspace_root.join(".incoming-mono-agent-001");
    let runner = FakeRunner::new(vec![
        ExpectedCommand::ok(
            workspace_root.clone(),
            "jj",
            &[
                "git",
                "clone",
                "--colocate",
                "git@github.com:spinyfin/mono.git",
                &staging.display().to_string(),
            ],
            "",
        )
        .creating_dir(staging.clone()),
        ExpectedCommand::ok(
            staging.clone(),
            "jj",
            &["bookmark", "track", "main@origin"],
            "",
        ),
        ExpectedCommand::no_such_remote_bookmark(
            staging.clone(),
            "jj",
            &["bookmark", "track", "master@origin"],
        ),
        ExpectedCommand::ok(new_path.clone(), "jj", &["git", "fetch"], ""),
        ExpectedCommand::ok(new_path.clone(), "jj", &["bookmark", "set", "main", "-r", "main@origin", "--allow-backwards"], ""),
        ExpectedCommand::ok(new_path.clone(), "jj", &["new", "main"], ""),
        ExpectedCommand::ok(
            new_path.clone(),
            "jj",
            &["log", "--no-graph", "-r", "@", "-T", "commit_id.short()"],
            "cafef00d",
        ),
    ]);

    let lease = parse(&[
        "cube",
        "workspace",
        "lease",
        "mono",
        "--task",
        "fresh-clone main default",
    ]);
    let result = run_with_dependencies(lease, Some(&world), &runner).expect("lease");

    assert_eq!(
        result.payload["workspace"]["workspace_id"],
        "mono-agent-001"
    );
    assert_eq!(result.payload["workspace"]["state"], "leased");
    runner.assert_exhausted();
}

#[test]
fn workspace_lease_does_not_track_non_default_origin_bookmarks() {
    let (tempdir, world) = with_database_path();
    let workspace_root = tempdir.path().join("workspaces");

    let add = parse(&[
        "cube",
        "repo",
        "add",
        "mono",
        "--origin",
        "git@github.com:spinyfin/mono.git",
        "--workspace-root",
        &workspace_root.display().to_string(),
        "--workspace-prefix",
        "mono-agent-",
    ]);
    run_with_dependencies(add, Some(&world), &FakeRunner::default()).expect("repo");

    let new_path = workspace_root.join("mono-agent-001");
    let staging = workspace_root.join(".incoming-mono-agent-001");
    let runner = FakeRunner::new(vec![
        ExpectedCommand::ok(
            workspace_root.clone(),
            "jj",
            &[
                "git",
                "clone",
                "--colocate",
                "git@github.com:spinyfin/mono.git",
                &staging.display().to_string(),
            ],
            "",
        )
        .creating_dir(staging.clone()),
        ExpectedCommand::ok(
            staging.clone(),
            "jj",
            &["bookmark", "track", "main@origin"],
            "",
        ),
        ExpectedCommand::no_such_remote_bookmark(
            staging.clone(),
            "jj",
            &["bookmark", "track", "master@origin"],
        ),
        ExpectedCommand::ok(new_path.clone(), "jj", &["git", "fetch"], ""),
        ExpectedCommand::ok(new_path.clone(), "jj", &["bookmark", "set", "main", "-r", "main@origin", "--allow-backwards"], ""),
        ExpectedCommand::ok(new_path.clone(), "jj", &["new", "main"], ""),
        ExpectedCommand::ok(
            new_path.clone(),
            "jj",
            &["log", "--no-graph", "-r", "@", "-T", "commit_id.short()"],
            "ba5eba11",
        ),
    ]);

    let lease = parse(&[
        "cube",
        "workspace",
        "lease",
        "mono",
        "--task",
        "no extra bookmark tracking",
    ]);
    run_with_dependencies(lease, Some(&world), &runner).expect("lease");
    runner.assert_exhausted();
}

#[test]
fn workspace_lease_errors_when_no_default_origin_bookmark_exists() {
    let (tempdir, world) = with_database_path();
    let workspace_root = tempdir.path().join("workspaces");

    let add = parse(&[
        "cube",
        "repo",
        "add",
        "weird",
        "--origin",
        "git@github.com:spinyfin/weird.git",
        "--workspace-root",
        &workspace_root.display().to_string(),
        "--workspace-prefix",
        "weird-agent-",
    ]);
    run_with_dependencies(add, Some(&world), &FakeRunner::default()).expect("repo");

    let staging = workspace_root.join(".incoming-weird-agent-001");
    let runner = FakeRunner::new(vec![
        ExpectedCommand::ok(
            workspace_root.clone(),
            "jj",
            &[
                "git",
                "clone",
                "--colocate",
                "git@github.com:spinyfin/weird.git",
                &staging.display().to_string(),
            ],
            "",
        )
        .creating_dir(staging.clone()),
        ExpectedCommand::no_such_remote_bookmark(
            staging.clone(),
            "jj",
            &["bookmark", "track", "main@origin"],
        ),
        ExpectedCommand::no_such_remote_bookmark(
            staging.clone(),
            "jj",
            &["bookmark", "track", "master@origin"],
        ),
    ]);

    let lease = parse(&[
        "cube",
        "workspace",
        "lease",
        "weird",
        "--task",
        "no default branch",
    ]);
    let err = run_with_dependencies(lease, Some(&world), &runner)
        .expect_err("lease should fail when neither default branch is present");
    match err {
        CubeError::SetupStepFailed { step, error } => {
            assert_eq!(step, "track_remote_bookmarks");
            assert!(
                error.contains("main@origin") && error.contains("master@origin"),
                "error message should name both expected branches: {error}"
            );
        }
        other => panic!("expected SetupStepFailed, got {other:?}"),
    }
    runner.assert_exhausted();
}

#[test]
fn workspace_lease_propagates_unrelated_track_failure() {
    let (tempdir, world) = with_database_path();
    let workspace_root = tempdir.path().join("workspaces");

    let add = parse(&[
        "cube",
        "repo",
        "add",
        "mono",
        "--origin",
        "git@github.com:spinyfin/mono.git",
        "--workspace-root",
        &workspace_root.display().to_string(),
        "--workspace-prefix",
        "mono-agent-",
    ]);
    run_with_dependencies(add, Some(&world), &FakeRunner::default()).expect("repo");

    let staging = workspace_root.join(".incoming-mono-agent-001");
    let runner = FakeRunner::new(vec![
        ExpectedCommand::ok(
            workspace_root.clone(),
            "jj",
            &[
                "git",
                "clone",
                "--colocate",
                "git@github.com:spinyfin/mono.git",
                &staging.display().to_string(),
            ],
            "",
        )
        .creating_dir(staging.clone()),
        ExpectedCommand {
            cwd: staging.clone(),
            program: "jj".to_string(),
            args: vec![
                "bookmark".to_string(),
                "track".to_string(),
                "main@origin".to_string(),
            ],
            result: Err(CubeError::CommandFailed {
                program: "jj".to_string(),
                args: vec![
                    "bookmark".to_string(),
                    "track".to_string(),
                    "main@origin".to_string(),
                ],
                status: Some(2),
                stderr: "Error: Failed to load repo: some unrelated jj failure".to_string(),
            }),
            creates_dir: None,
        },
    ]);

    let lease = parse(&[
        "cube",
        "workspace",
        "lease",
        "mono",
        "--task",
        "track failure propagates",
    ]);
    let err = run_with_dependencies(lease, Some(&world), &runner)
        .expect_err("lease should propagate non-NoSuchRemoteBookmark failures");
    match err {
        CubeError::CommandFailed { program, stderr, .. } => {
            assert_eq!(program, "jj");
            assert!(stderr.contains("unrelated jj failure"), "stderr={stderr}");
        }
        other => panic!("expected CommandFailed, got {other:?}"),
    }
    runner.assert_exhausted();
}

#[test]
fn workspace_lease_auto_creates_next_id_after_existing() {
    let (tempdir, world) = with_database_path();
    let workspace_root = tempdir.path().join("workspaces");
    world.create_dir_all(workspace_root.join("mono-agent-001").join(".jj")).expect("workspace dir");
    world.create_dir_all(workspace_root.join("mono-agent-007").join(".jj")).expect("workspace dir");

    let add = parse(&[
        "cube",
        "repo",
        "add",
        "mono",
        "--origin",
        "git@github.com:spinyfin/mono.git",
        "--workspace-root",
        &workspace_root.display().to_string(),
        "--workspace-prefix",
        "mono-agent-",
    ]);
    run_with_dependencies(add, Some(&world), &FakeRunner::default()).expect("repo");

    for (path, task) in [
        (workspace_root.join("mono-agent-001"), "first"),
        (workspace_root.join("mono-agent-007"), "second"),
    ] {
        let runner = FakeRunner::new(vec![
            ExpectedCommand::ok(path.clone(), "jj", &["status", "--no-pager"], "The working copy is clean"),
            ExpectedCommand::ok(path.clone(), "jj", &["git", "fetch"], ""),
            ExpectedCommand::ok(path.clone(), "jj", &["bookmark", "set", "main", "-r", "main@origin", "--allow-backwards"], ""),
            ExpectedCommand::ok(path.clone(), "jj", &["new", "main"], ""),
            ExpectedCommand::ok(
                path.clone(),
                "jj",
                &["log", "--no-graph", "-r", "@", "-T", "commit_id.short()"],
                "deadbee",
            ),
        ]);
        let lease = parse(&["cube", "workspace", "lease", "mono", "--task", task]);
        run_with_dependencies(lease, Some(&world), &runner).expect("seed lease");
    }

    let new_path = workspace_root.join("mono-agent-008");
    let staging = workspace_root.join(".incoming-mono-agent-008");
    let runner = FakeRunner::new(vec![
        ExpectedCommand::ok(
            workspace_root.clone(),
            "jj",
            &[
                "git",
                "clone",
                "--colocate",
                "git@github.com:spinyfin/mono.git",
                &staging.display().to_string(),
            ],
            "",
        )
        .creating_dir(staging.clone()),
        ExpectedCommand::ok(
            staging.clone(),
            "jj",
            &["bookmark", "track", "main@origin"],
            "",
        ),
        ExpectedCommand::no_such_remote_bookmark(
            staging.clone(),
            "jj",
            &["bookmark", "track", "master@origin"],
        ),
        ExpectedCommand::ok(new_path.clone(), "jj", &["git", "fetch"], ""),
        ExpectedCommand::ok(new_path.clone(), "jj", &["bookmark", "set", "main", "-r", "main@origin", "--allow-backwards"], ""),
        ExpectedCommand::ok(new_path.clone(), "jj", &["new", "main"], ""),
        ExpectedCommand::ok(
            new_path.clone(),
            "jj",
            &["log", "--no-graph", "-r", "@", "-T", "commit_id.short()"],
            "abc1234",
        ),
    ]);
    let lease = parse(&["cube", "workspace", "lease", "mono", "--task", "third"]);
    let result = run_with_dependencies(lease, Some(&world), &runner).expect("lease");

    assert_eq!(
        result.payload["workspace"]["workspace_id"],
        "mono-agent-008"
    );
    runner.assert_exhausted();
}

#[test]
fn next_workspace_id_picks_max_plus_one() {
    assert_eq!(
        next_workspace_id("mono-agent-", &[]),
        "mono-agent-001"
    );
    assert_eq!(
        next_workspace_id(
            "mono-agent-",
            &["mono-agent-001".to_string(), "mono-agent-002".to_string(),],
        ),
        "mono-agent-003"
    );
    assert_eq!(
        next_workspace_id(
            "mono-agent-",
            &["mono-agent-001".to_string(), "mono-agent-007".to_string(),],
        ),
        "mono-agent-008"
    );
    assert_eq!(
        next_workspace_id(
            "mono-agent-",
            &[
                "flunge-agent-099".to_string(),
                "mono-agent-abc".to_string(),
                "mono-agent-002".to_string(),
            ],
        ),
        "mono-agent-003"
    );
}

#[test]
fn workspace_lease_with_prefer_claims_named_workspace_when_free() {
    let (tempdir, world) = with_database_path();
    let workspace_root = tempdir.path().join("workspaces");
    world.create_dir_all(workspace_root.join("mono-agent-004").join(".jj")).expect("workspace dir");
    world.create_dir_all(workspace_root.join("mono-agent-005").join(".jj")).expect("workspace dir");

    let add = parse(&[
        "cube",
        "repo",
        "add",
        "mono",
        "--origin",
        "git@github.com:spinyfin/mono.git",
        "--workspace-root",
        &workspace_root.display().to_string(),
        "--workspace-prefix",
        "mono-agent-",
    ]);
    run_with_dependencies(add, Some(&world), &FakeRunner::default()).expect("repo");

    let preferred_path = workspace_root.join("mono-agent-005");
    let runner = FakeRunner::new(vec![
        ExpectedCommand::ok(preferred_path.clone(), "jj", &["status", "--no-pager"], "The working copy is clean"),
        ExpectedCommand::ok(preferred_path.clone(), "jj", &["git", "fetch"], ""),
        ExpectedCommand::ok(preferred_path.clone(), "jj", &["bookmark", "set", "main", "-r", "main@origin", "--allow-backwards"], ""),
        ExpectedCommand::ok(preferred_path.clone(), "jj", &["new", "main"], ""),
        ExpectedCommand::ok(
            preferred_path.clone(),
            "jj",
            &["log", "--no-graph", "-r", "@", "-T", "commit_id.short()"],
            "def5678",
        ),
    ]);

    let lease = parse(&[
        "cube",
        "workspace",
        "lease",
        "mono",
        "--task",
        "resume cube prefer work",
        "--prefer",
        "mono-agent-005",
    ]);
    let result = run_with_dependencies(lease, Some(&world), &runner).expect("lease");

    assert_eq!(
        result.payload["workspace"]["workspace_id"],
        "mono-agent-005"
    );
    assert_eq!(
        result.payload["workspace"]["workspace_path"],
        preferred_path.display().to_string()
    );
    runner.assert_exhausted();
}

#[test]
fn workspace_lease_with_prefer_falls_back_when_preferred_is_leased() {
    let (tempdir, world) = with_database_path();
    let workspace_root = tempdir.path().join("workspaces");
    world.create_dir_all(workspace_root.join("mono-agent-004").join(".jj")).expect("workspace dir");
    world.create_dir_all(workspace_root.join("mono-agent-005").join(".jj")).expect("workspace dir");

    let add = parse(&[
        "cube",
        "repo",
        "add",
        "mono",
        "--origin",
        "git@github.com:spinyfin/mono.git",
        "--workspace-root",
        &workspace_root.display().to_string(),
        "--workspace-prefix",
        "mono-agent-",
    ]);
    run_with_dependencies(add, Some(&world), &FakeRunner::default()).expect("repo");

    let preferred_path = workspace_root.join("mono-agent-005");
    let first_runner = FakeRunner::new(vec![
        ExpectedCommand::ok(preferred_path.clone(), "jj", &["status", "--no-pager"], "The working copy is clean"),
        ExpectedCommand::ok(preferred_path.clone(), "jj", &["git", "fetch"], ""),
        ExpectedCommand::ok(preferred_path.clone(), "jj", &["bookmark", "set", "main", "-r", "main@origin", "--allow-backwards"], ""),
        ExpectedCommand::ok(preferred_path.clone(), "jj", &["new", "main"], ""),
        ExpectedCommand::ok(
            preferred_path.clone(),
            "jj",
            &["log", "--no-graph", "-r", "@", "-T", "commit_id.short()"],
            "first123",
        ),
    ]);
    let first_lease = parse(&[
        "cube",
        "workspace",
        "lease",
        "mono",
        "--task",
        "first task",
        "--prefer",
        "mono-agent-005",
    ]);
    run_with_dependencies(first_lease, Some(&world), &first_runner)
        .expect("first lease");
    first_runner.assert_exhausted();

    let fallback_path = workspace_root.join("mono-agent-004");
    let second_runner = FakeRunner::new(vec![
        ExpectedCommand::ok(fallback_path.clone(), "jj", &["status", "--no-pager"], "The working copy is clean"),
        ExpectedCommand::ok(fallback_path.clone(), "jj", &["git", "fetch"], ""),
        ExpectedCommand::ok(fallback_path.clone(), "jj", &["bookmark", "set", "main", "-r", "main@origin", "--allow-backwards"], ""),
        ExpectedCommand::ok(fallback_path.clone(), "jj", &["new", "main"], ""),
        ExpectedCommand::ok(
            fallback_path.clone(),
            "jj",
            &["log", "--no-graph", "-r", "@", "-T", "commit_id.short()"],
            "second456",
        ),
    ]);
    let second_lease = parse(&[
        "cube",
        "workspace",
        "lease",
        "mono",
        "--task",
        "second task",
        "--prefer",
        "mono-agent-005",
    ]);
    let result = run_with_dependencies(second_lease, Some(&world), &second_runner)
        .expect("second lease");

    assert_eq!(
        result.payload["workspace"]["workspace_id"],
        "mono-agent-004"
    );
    second_runner.assert_exhausted();
}

#[test]
fn workspace_lease_with_unknown_prefer_falls_back_to_first_free() {
    let (tempdir, world) = with_database_path();
    let workspace_root = tempdir.path().join("workspaces");
    world.create_dir_all(workspace_root.join("mono-agent-004").join(".jj")).expect("workspace dir");
    world.create_dir_all(workspace_root.join("mono-agent-005").join(".jj")).expect("workspace dir");

    let add = parse(&[
        "cube",
        "repo",
        "add",
        "mono",
        "--origin",
        "git@github.com:spinyfin/mono.git",
        "--workspace-root",
        &workspace_root.display().to_string(),
        "--workspace-prefix",
        "mono-agent-",
    ]);
    run_with_dependencies(add, Some(&world), &FakeRunner::default()).expect("repo");

    let first_path = workspace_root.join("mono-agent-004");
    let runner = FakeRunner::new(vec![
        ExpectedCommand::ok(first_path.clone(), "jj", &["status", "--no-pager"], "The working copy is clean"),
        ExpectedCommand::ok(first_path.clone(), "jj", &["git", "fetch"], ""),
        ExpectedCommand::ok(first_path.clone(), "jj", &["bookmark", "set", "main", "-r", "main@origin", "--allow-backwards"], ""),
        ExpectedCommand::ok(first_path.clone(), "jj", &["new", "main"], ""),
        ExpectedCommand::ok(
            first_path.clone(),
            "jj",
            &["log", "--no-graph", "-r", "@", "-T", "commit_id.short()"],
            "abc1234",
        ),
    ]);

    let lease = parse(&[
        "cube",
        "workspace",
        "lease",
        "mono",
        "--task",
        "fallback path",
        "--prefer",
        "mono-agent-999",
    ]);
    let result = run_with_dependencies(lease, Some(&world), &runner).expect("lease");

    assert_eq!(
        result.payload["workspace"]["workspace_id"],
        "mono-agent-004"
    );
    runner.assert_exhausted();
}

#[test]
fn workspace_lease_clean_pool_returns_lowest_workspace() {
    let (tempdir, world) = with_database_path();
    let workspace_root = tempdir.path().join("workspaces");
    world.create_dir_all(workspace_root.join("mono-agent-003").join(".jj")).expect("workspace dir");
    world.create_dir_all(workspace_root.join("mono-agent-007").join(".jj")).expect("workspace dir");

    run_with_dependencies(
        add_repo_cli(&workspace_root),
        Some(&world),
        &FakeRunner::default(),
    )
    .expect("repo");

    let first = workspace_root.join("mono-agent-003");
    let runner = FakeRunner::new(vec![
        ExpectedCommand::ok(first.clone(), "jj", &["status", "--no-pager"], jj_status_clean()),
        ExpectedCommand::ok(first.clone(), "jj", &["git", "fetch"], ""),
        ExpectedCommand::ok(first.clone(), "jj", &["bookmark", "set", "main", "-r", "main@origin", "--allow-backwards"], ""),
        ExpectedCommand::ok(first.clone(), "jj", &["new", "main"], ""),
        ExpectedCommand::ok(
            first.clone(),
            "jj",
            &["log", "--no-graph", "-r", "@", "-T", "commit_id.short()"],
            "abc1234",
        ),
    ]);

    let result = run_with_dependencies(
        parse(&["cube", "workspace", "lease", "mono", "--task", "clean pool"]),
        Some(&world),
        &runner,
    )
    .expect("lease");
    runner.assert_exhausted();

    assert_eq!(result.payload["workspace"]["workspace_id"], "mono-agent-003");
    let hc = result.payload["health_check"].as_array().expect("health_check");
    assert_eq!(hc.len(), 1);
    assert_eq!(hc[0]["workspace_id"], "mono-agent-003");
    assert_eq!(hc[0]["health"], "clean");
    assert_eq!(hc[0]["skipped"], false);
}

#[test]
fn workspace_lease_skips_dirty_picks_clean() {
    let (tempdir, world) = with_database_path();
    let workspace_root = tempdir.path().join("workspaces");
    let dirty_path = workspace_root.join("mono-agent-003");
    let clean_path = workspace_root.join("mono-agent-007");
    world.create_dir_all(dirty_path.join(".jj")).expect("dirty dir");
    world.create_dir_all(clean_path.join(".jj")).expect("clean dir");

    run_with_dependencies(
        add_repo_cli(&workspace_root),
        Some(&world),
        &FakeRunner::default(),
    )
    .expect("repo");

    let runner = FakeRunner::new(vec![
        ExpectedCommand::ok(dirty_path.clone(), "jj", &["status", "--no-pager"], jj_status_dirty()),
        ExpectedCommand::ok(clean_path.clone(), "jj", &["status", "--no-pager"], jj_status_clean()),
        ExpectedCommand::ok(clean_path.clone(), "jj", &["git", "fetch"], ""),
        ExpectedCommand::ok(clean_path.clone(), "jj", &["bookmark", "set", "main", "-r", "main@origin", "--allow-backwards"], ""),
        ExpectedCommand::ok(clean_path.clone(), "jj", &["new", "main"], ""),
        ExpectedCommand::ok(
            clean_path.clone(),
            "jj",
            &["log", "--no-graph", "-r", "@", "-T", "commit_id.short()"],
            "abc1234",
        ),
    ]);

    let result = run_with_dependencies(
        parse(&["cube", "workspace", "lease", "mono", "--task", "skip dirty"]),
        Some(&world),
        &runner,
    )
    .expect("lease");
    runner.assert_exhausted();

    assert_eq!(result.payload["workspace"]["workspace_id"], "mono-agent-007");
    let hc = result.payload["health_check"].as_array().expect("health_check");
    assert_eq!(hc.len(), 2);
    assert_eq!(hc[0]["workspace_id"], "mono-agent-003");
    assert_eq!(hc[0]["health"], "dirty");
    assert_eq!(hc[0]["skipped"], true);
    assert_eq!(hc[1]["workspace_id"], "mono-agent-007");
    assert_eq!(hc[1]["health"], "clean");
    assert_eq!(hc[1]["skipped"], false);

    let store = Store::open_at(&world).unwrap();
    let ws = store
        .get_workspace_by_path(&dirty_path)
        .unwrap()
        .unwrap();
    assert_eq!(ws.health_status, Some(WorkspaceHealth::Dirty));
}

#[test]
fn workspace_lease_allow_dirty_reclaims_named_workspace_without_reset() {
    let (tempdir, world) = with_database_path();
    let workspace_root = tempdir.path().join("workspaces");
    world.create_dir_all(workspace_root.join("mono-agent-004").join(".jj"))
        .expect("workspace dir");
    let dirty_path = workspace_root.join("mono-agent-005");
    world.create_dir_all(dirty_path.join(".jj")).expect("dirty dir");

    run_with_dependencies(
        add_repo_cli(&workspace_root),
        Some(&world),
        &FakeRunner::default(),
    )
    .expect("repo");

    {
        let store = Store::open_at(&world).unwrap();
        store
            .sync_workspaces(
                "mono",
                &[
                    WorkspaceCandidate {
                        workspace_id: "mono-agent-004".to_string(),
                        workspace_path: text(&workspace_root.join("mono-agent-004")),
                    },
                    WorkspaceCandidate {
                        workspace_id: "mono-agent-005".to_string(),
                        workspace_path: text(&dirty_path),
                    },
                ],
            )
            .unwrap();
        store
            .update_workspace_health("mono", "mono-agent-005", WorkspaceHealth::Dirty)
            .unwrap();
    }

    let runner = FakeRunner::new(vec![ExpectedCommand::ok(
        dirty_path.clone(),
        "jj",
        &["log", "--no-graph", "-r", "@", "-T", "commit_id.short()"],
        "dead789",
    )]);

    let result = run_with_dependencies(
        parse(&[
            "cube",
            "workspace",
            "lease",
            "mono",
            "--task",
            "recover stranded work",
            "--prefer",
            "mono-agent-005",
            "--allow-dirty",
        ]),
        Some(&world),
        &runner,
    )
    .expect("lease");
    runner.assert_exhausted();

    assert_eq!(result.payload["workspace"]["workspace_id"], "mono-agent-005");
    assert_eq!(
        result.payload["workspace"]["workspace_path"],
        dirty_path.display().to_string()
    );
    assert_eq!(result.payload["workspace"]["head_commit"], "dead789");
    let hc = result.payload["health_check"].as_array().expect("health_check");
    assert_eq!(hc.len(), 1);
    assert_eq!(hc[0]["allow_dirty"], true);
    assert_eq!(hc[0]["reset_skipped"], true);

    let store = Store::open_at(&world).unwrap();
    let ws = store.get_workspace_by_path(&dirty_path).unwrap().unwrap();
    assert_eq!(ws.state, WorkspaceState::Leased);
}

#[test]
fn workspace_lease_allow_dirty_errors_when_preferred_missing() {
    let (tempdir, world) = with_database_path();
    let workspace_root = tempdir.path().join("workspaces");
    world.create_dir_all(workspace_root.join("mono-agent-004").join(".jj"))
        .expect("workspace dir");

    run_with_dependencies(
        add_repo_cli(&workspace_root),
        Some(&world),
        &FakeRunner::default(),
    )
    .expect("repo");

    let runner = FakeRunner::new(vec![]);
    let err = run_with_dependencies(
        parse(&[
            "cube",
            "workspace",
            "lease",
            "mono",
            "--task",
            "recover stranded work",
            "--prefer",
            "mono-agent-999",
            "--allow-dirty",
        ]),
        Some(&world),
        &runner,
    )
    .expect_err("expected lease to fail for unknown preferred workspace");
    runner.assert_exhausted();
    assert!(matches!(err, CubeError::WorkspaceNotFound(_)));
}

#[test]
fn workspace_lease_allow_dirty_errors_when_preferred_leased() {
    let (tempdir, world) = with_database_path();
    let workspace_root = tempdir.path().join("workspaces");
    let busy_path = workspace_root.join("mono-agent-004");
    world.create_dir_all(busy_path.join(".jj")).expect("workspace dir");

    run_with_dependencies(
        add_repo_cli(&workspace_root),
        Some(&world),
        &FakeRunner::default(),
    )
    .expect("repo");

    let first_runner = FakeRunner::new(vec![
        ExpectedCommand::ok(busy_path.clone(), "jj", &["status", "--no-pager"], jj_status_clean()),
        ExpectedCommand::ok(busy_path.clone(), "jj", &["git", "fetch"], ""),
        ExpectedCommand::ok(busy_path.clone(), "jj", &["bookmark", "set", "main", "-r", "main@origin", "--allow-backwards"], ""),
        ExpectedCommand::ok(busy_path.clone(), "jj", &["new", "main"], ""),
        ExpectedCommand::ok(
            busy_path.clone(),
            "jj",
            &["log", "--no-graph", "-r", "@", "-T", "commit_id.short()"],
            "live0001",
        ),
    ]);
    run_with_dependencies(
        parse(&["cube", "workspace", "lease", "mono", "--task", "live work"]),
        Some(&world),
        &first_runner,
    )
    .expect("first lease");
    first_runner.assert_exhausted();

    let runner = FakeRunner::new(vec![]);
    let err = run_with_dependencies(
        parse(&[
            "cube",
            "workspace",
            "lease",
            "mono",
            "--task",
            "recover stranded work",
            "--prefer",
            "mono-agent-004",
            "--allow-dirty",
        ]),
        Some(&world),
        &runner,
    )
    .expect_err("expected lease to fail for leased preferred workspace");
    runner.assert_exhausted();
    assert!(matches!(err, CubeError::InvalidArgument(_)));
}

#[test]
fn workspace_lease_resume_pr_warm_path_positions_on_pr_head() {
    let (tempdir, world) = with_database_path();
    let workspace_root = tempdir.path().join("workspaces");
    world.create_dir_all(workspace_root.join("mono-agent-004").join(".jj"))
        .expect("workspace dir");

    run_with_dependencies(
        add_repo_cli(&workspace_root),
        Some(&world),
        &FakeRunner::default(),
    )
    .expect("repo");

    let ws_path = workspace_root.join("mono-agent-004");
    let runner = resume_pr_runner_for(&ws_path, 1364, "boss/exec_18b6_a1", "cafe1234");

    let result = run_with_dependencies(
        parse(&[
            "cube", "workspace", "lease", "mono",
            "--task", "resume PR 1364",
            "--resume-pr", "1364",
        ]),
        Some(&world),
        &runner,
    )
    .expect("resume_pr lease");
    runner.assert_exhausted();

    assert_eq!(result.payload["workspace"]["workspace_id"], "mono-agent-004");
    assert_eq!(result.payload["workspace"]["head_commit"], "cafe1234");
    assert_eq!(result.payload["resume_pr"]["pr_number"], 1364);
    assert_eq!(result.payload["resume_pr"]["head_branch"], "boss/exec_18b6_a1");
}

#[test]
fn workspace_lease_resume_pr_cold_path_fallback_via_gh() {
    let (tempdir, world) = with_database_path();
    let workspace_root = tempdir.path().join("workspaces");
    world.create_dir_all(workspace_root.join("mono-agent-004").join(".jj"))
        .expect("workspace dir");

    run_with_dependencies(
        add_repo_cli(&workspace_root),
        Some(&world),
        &FakeRunner::default(),
    )
    .expect("repo");

    let ws_path = workspace_root.join("mono-agent-004");
    let runner = resume_pr_runner_for(&ws_path, 42, "boss/exec_cold_b2", "deadc0de");

    let result = run_with_dependencies(
        parse(&[
            "cube", "workspace", "lease", "mono",
            "--task", "resume cold PR 42",
            "--resume-pr", "42",
        ]),
        Some(&world),
        &runner,
    )
    .expect("cold resume_pr lease");
    runner.assert_exhausted();

    assert_eq!(result.payload["resume_pr"]["pr_number"], 42);
    assert_eq!(result.payload["resume_pr"]["head_branch"], "boss/exec_cold_b2");
    assert_eq!(result.payload["workspace"]["head_commit"], "deadc0de");
}

#[test]
fn workspace_lease_resume_pr_with_prefer_uses_preferred_workspace() {
    let (tempdir, world) = with_database_path();
    let workspace_root = tempdir.path().join("workspaces");
    world.create_dir_all(workspace_root.join("mono-agent-004").join(".jj"))
        .expect("ws-004 dir");
    world.create_dir_all(workspace_root.join("mono-agent-007").join(".jj"))
        .expect("ws-007 dir");

    run_with_dependencies(
        add_repo_cli(&workspace_root),
        Some(&world),
        &FakeRunner::default(),
    )
    .expect("repo");

    let preferred_path = workspace_root.join("mono-agent-007");
    let runner = resume_pr_runner_for(&preferred_path, 99, "boss/exec_pref_c3", "feedface");

    let result = run_with_dependencies(
        parse(&[
            "cube", "workspace", "lease", "mono",
            "--task", "resume PR 99 on preferred workspace",
            "--prefer", "mono-agent-007",
            "--resume-pr", "99",
        ]),
        Some(&world),
        &runner,
    )
    .expect("prefer + resume_pr lease");
    runner.assert_exhausted();

    assert_eq!(result.payload["workspace"]["workspace_id"], "mono-agent-007");
    assert_eq!(result.payload["resume_pr"]["pr_number"], 99);
    assert_eq!(result.payload["resume_pr"]["head_branch"], "boss/exec_pref_c3");
}

#[test]
fn workspace_lease_resume_pr_fallback_when_prefer_absent() {
    let (tempdir, world) = with_database_path();
    let workspace_root = tempdir.path().join("workspaces");
    world.create_dir_all(workspace_root.join("mono-agent-004").join(".jj"))
        .expect("workspace dir");

    run_with_dependencies(
        add_repo_cli(&workspace_root),
        Some(&world),
        &FakeRunner::default(),
    )
    .expect("repo");

    let ws_path = workspace_root.join("mono-agent-004");
    let runner = resume_pr_runner_for(&ws_path, 77, "boss/exec_fallback_d4", "b0b0b0b0");

    let result = run_with_dependencies(
        parse(&[
            "cube", "workspace", "lease", "mono",
            "--task", "resume with fallback",
            "--prefer", "mono-agent-999",
            "--resume-pr", "77",
        ]),
        Some(&world),
        &runner,
    )
    .expect("fallback resume_pr lease");
    runner.assert_exhausted();

    assert_eq!(result.payload["workspace"]["workspace_id"], "mono-agent-004");
    assert_eq!(result.payload["resume_pr"]["pr_number"], 77);
}

#[test]
fn workspace_lease_resume_pr_hard_errors_on_merged_pr() {
    let (tempdir, world) = with_database_path();
    let workspace_root = tempdir.path().join("workspaces");
    world.create_dir_all(workspace_root.join("mono-agent-004").join(".jj"))
        .expect("workspace dir");

    run_with_dependencies(
        add_repo_cli(&workspace_root),
        Some(&world),
        &FakeRunner::default(),
    )
    .expect("repo");

    let ws_path = workspace_root.join("mono-agent-004");
    let pr_json = r#"{"headRefName":"boss/exec_merged","headRefOid":"deadbeef","state":"MERGED"}"#;
    let remote_list = "origin\t/local/mirror\ngithub\tgit@github.com:spinyfin/mono.git\n";
    let runner = FakeRunner::new(vec![
        ExpectedCommand::ok(ws_path.clone(), "jj", &["status", "--no-pager"], "The working copy is clean"),
        ExpectedCommand::ok(ws_path.clone(), "jj", &["git", "remote", "list"], remote_list),
        ExpectedCommand::ok(ws_path.clone(), "jj", &["git", "fetch", "--remote", "github"], ""),
        ExpectedCommand::ok(ws_path.clone(), "gh", &[
            "pr", "view", "5",
            "-R", "spinyfin/mono",
            "--json", "headRefName,headRefOid,state",
        ], pr_json),
    ]);

    let err = run_with_dependencies(
        parse(&[
            "cube", "workspace", "lease", "mono",
            "--task", "attempt to resume merged PR",
            "--resume-pr", "5",
        ]),
        Some(&world),
        &runner,
    )
    .expect_err("expected hard error for merged PR");
    runner.assert_exhausted();

    let msg = err.message();
    assert!(msg.contains("MERGED"), "error should mention MERGED: {msg}");
    assert!(msg.contains("5"), "error should mention PR number: {msg}");
}

#[test]
fn workspace_lease_resume_pr_hard_errors_on_closed_pr() {
    let (tempdir, world) = with_database_path();
    let workspace_root = tempdir.path().join("workspaces");
    world.create_dir_all(workspace_root.join("mono-agent-004").join(".jj"))
        .expect("workspace dir");

    run_with_dependencies(
        add_repo_cli(&workspace_root),
        Some(&world),
        &FakeRunner::default(),
    )
    .expect("repo");

    let ws_path = workspace_root.join("mono-agent-004");
    let pr_json = r#"{"headRefName":"boss/exec_closed","headRefOid":"cafebabe","state":"CLOSED"}"#;
    let remote_list = "origin\t/local/mirror\ngithub\tgit@github.com:spinyfin/mono.git\n";
    let runner = FakeRunner::new(vec![
        ExpectedCommand::ok(ws_path.clone(), "jj", &["status", "--no-pager"], "The working copy is clean"),
        ExpectedCommand::ok(ws_path.clone(), "jj", &["git", "remote", "list"], remote_list),
        ExpectedCommand::ok(ws_path.clone(), "jj", &["git", "fetch", "--remote", "github"], ""),
        ExpectedCommand::ok(ws_path.clone(), "gh", &[
            "pr", "view", "10",
            "-R", "spinyfin/mono",
            "--json", "headRefName,headRefOid,state",
        ], pr_json),
    ]);

    let err = run_with_dependencies(
        parse(&[
            "cube", "workspace", "lease", "mono",
            "--task", "attempt to resume closed PR",
            "--resume-pr", "10",
        ]),
        Some(&world),
        &runner,
    )
    .expect_err("expected hard error for closed PR");
    runner.assert_exhausted();

    let msg = err.message();
    assert!(msg.contains("CLOSED"), "error should mention CLOSED: {msg}");
}

#[test]
fn workspace_lease_resume_pr_json_omits_resume_pr_when_not_used() {
    let (tempdir, world) = with_database_path();
    let workspace_root = tempdir.path().join("workspaces");
    world.create_dir_all(workspace_root.join("mono-agent-004").join(".jj"))
        .expect("workspace dir");

    run_with_dependencies(
        add_repo_cli(&workspace_root),
        Some(&world),
        &FakeRunner::default(),
    )
    .expect("repo");

    let ws_path = workspace_root.join("mono-agent-004");
    let runner = lease_runner_for(&ws_path, "abc1234");
    let result = run_with_dependencies(
        parse(&["cube", "workspace", "lease", "mono", "--task", "normal task"]),
        Some(&world),
        &runner,
    )
    .expect("normal lease");
    runner.assert_exhausted();

    assert!(
        result.payload.get("resume_pr").is_none(),
        "normal lease must not include resume_pr in JSON: {:?}",
        result.payload
    );
}

#[test]
fn workspace_lease_one_clean_n_conflicted_uses_clean() {
    let (tempdir, world) = with_database_path();
    let workspace_root = tempdir.path().join("workspaces");
    let conflicted_path = workspace_root.join("mono-agent-003");
    let clean_path = workspace_root.join("mono-agent-007");
    world.create_dir_all(conflicted_path.join(".jj")).expect("conflicted dir");
    world.create_dir_all(clean_path.join(".jj")).expect("clean dir");

    run_with_dependencies(
        add_repo_cli(&workspace_root),
        Some(&world),
        &FakeRunner::default(),
    )
    .expect("repo");

    let runner = FakeRunner::new(vec![
        ExpectedCommand::ok(
            conflicted_path.clone(),
            "jj",
            &["status", "--no-pager"],
            &jj_status_conflicted("fix-burst"),
        ),
        ExpectedCommand::ok(clean_path.clone(), "jj", &["status", "--no-pager"], jj_status_clean()),
        ExpectedCommand::ok(clean_path.clone(), "jj", &["git", "fetch"], ""),
        ExpectedCommand::ok(clean_path.clone(), "jj", &["bookmark", "set", "main", "-r", "main@origin", "--allow-backwards"], ""),
        ExpectedCommand::ok(clean_path.clone(), "jj", &["new", "main"], ""),
        ExpectedCommand::ok(
            clean_path.clone(),
            "jj",
            &["log", "--no-graph", "-r", "@", "-T", "commit_id.short()"],
            "abc1234",
        ),
    ]);

    let result = run_with_dependencies(
        parse(&["cube", "workspace", "lease", "mono", "--task", "prefer clean"]),
        Some(&world),
        &runner,
    )
    .expect("lease");
    runner.assert_exhausted();

    assert_eq!(result.payload["workspace"]["workspace_id"], "mono-agent-007");
    let hc = result.payload["health_check"].as_array().expect("health_check");
    assert_eq!(hc.len(), 2);
    assert_eq!(hc[0]["workspace_id"], "mono-agent-003");
    assert_eq!(hc[0]["health"], "conflicted");
    assert_eq!(hc[1]["workspace_id"], "mono-agent-007");
    assert_eq!(hc[1]["health"], "clean");
}

#[test]
fn workspace_lease_all_conflicted_repairs_lowest_and_returns_it() {
    let (tempdir, world) = with_database_path();
    let workspace_root = tempdir.path().join("workspaces");
    let path_003 = workspace_root.join("mono-agent-003");
    let path_007 = workspace_root.join("mono-agent-007");
    world.create_dir_all(path_003.join(".jj")).expect("003 dir");
    world.create_dir_all(path_007.join(".jj")).expect("007 dir");

    run_with_dependencies(
        add_repo_cli(&workspace_root),
        Some(&world),
        &FakeRunner::default(),
    )
    .expect("repo");

    let runner = FakeRunner::new(vec![
        ExpectedCommand::ok(
            path_003.clone(),
            "jj",
            &["status", "--no-pager"],
            &jj_status_conflicted("fix-burst"),
        ),
        ExpectedCommand::ok(
            path_007.clone(),
            "jj",
            &["status", "--no-pager"],
            &jj_status_conflicted("fix-burst"),
        ),
        ExpectedCommand::ok(
            path_003.clone(),
            "jj",
            &["bookmark", "forget", "fix-burst"],
            "",
        ),
        ExpectedCommand::ok(path_003.clone(), "jj", &["git", "fetch"], ""),
        ExpectedCommand::ok(path_003.clone(), "jj", &["bookmark", "set", "main", "-r", "main@origin", "--allow-backwards"], ""),
        ExpectedCommand::ok(path_003.clone(), "jj", &["new", "main"], ""),
        ExpectedCommand::ok(
            path_003.clone(),
            "jj",
            &["log", "--no-graph", "-r", "@", "-T", "commit_id.short()"],
            "abc1234",
        ),
    ]);

    let result = run_with_dependencies(
        parse(&["cube", "workspace", "lease", "mono", "--task", "all conflicted"]),
        Some(&world),
        &runner,
    )
    .expect("lease");
    runner.assert_exhausted();

    assert_eq!(result.payload["workspace"]["workspace_id"], "mono-agent-003");
    let hc = result.payload["health_check"].as_array().expect("health_check");
    assert_eq!(hc.len(), 2);
    assert_eq!(hc[0]["workspace_id"], "mono-agent-003");
    assert_eq!(hc[0]["health"], "conflicted");
    assert_eq!(hc[0]["skipped"], false);
    assert_eq!(hc[1]["workspace_id"], "mono-agent-007");
    assert_eq!(hc[1]["skipped"], true);
}

#[test]
fn workspace_lease_all_dirty_auto_creates_fresh_workspace() {
    let (tempdir, world) = with_database_path();
    let workspace_root = tempdir.path().join("workspaces");
    let path_003 = workspace_root.join("mono-agent-003");
    let path_007 = workspace_root.join("mono-agent-007");
    world.create_dir_all(path_003.join(".jj")).expect("003 dir");
    world.create_dir_all(path_007.join(".jj")).expect("007 dir");

    run_with_dependencies(
        add_repo_cli(&workspace_root),
        Some(&world),
        &FakeRunner::default(),
    )
    .expect("repo");

    let new_path = workspace_root.join("mono-agent-008");
    let staging = workspace_root.join(".incoming-mono-agent-008");
    let runner = FakeRunner::new(vec![
        ExpectedCommand::ok(path_003.clone(), "jj", &["status", "--no-pager"], jj_status_dirty()),
        ExpectedCommand::ok(path_007.clone(), "jj", &["status", "--no-pager"], jj_status_dirty()),
        ExpectedCommand::ok(
            workspace_root.clone(),
            "jj",
            &[
                "git",
                "clone",
                "--colocate",
                "git@github.com:spinyfin/mono.git",
                &staging.display().to_string(),
            ],
            "",
        )
        .creating_dir(staging.clone()),
        ExpectedCommand::ok(staging.clone(), "jj", &["bookmark", "track", "main@origin"], ""),
        ExpectedCommand::no_such_remote_bookmark(
            staging.clone(),
            "jj",
            &["bookmark", "track", "master@origin"],
        ),
        ExpectedCommand::ok(new_path.clone(), "jj", &["git", "fetch"], ""),
        ExpectedCommand::ok(new_path.clone(), "jj", &["bookmark", "set", "main", "-r", "main@origin", "--allow-backwards"], ""),
        ExpectedCommand::ok(new_path.clone(), "jj", &["new", "main"], ""),
        ExpectedCommand::ok(
            new_path.clone(),
            "jj",
            &["log", "--no-graph", "-r", "@", "-T", "commit_id.short()"],
            "abc1234",
        ),
    ]);

    let result = run_with_dependencies(
        parse(&["cube", "workspace", "lease", "mono", "--task", "all dirty"]),
        Some(&world),
        &runner,
    )
    .expect("lease should succeed via auto-create when all existing workspaces are dirty");
    runner.assert_exhausted();

    assert_eq!(
        result.payload["workspace"]["workspace_id"],
        "mono-agent-008",
        "expected newly created workspace"
    );
    assert_eq!(result.payload["workspace"]["state"], "leased");

    let store = Store::open_at(&world).unwrap();
    for path in [&path_003, &path_007] {
        let ws = store.get_workspace_by_path(path).unwrap().unwrap();
        assert_eq!(
            ws.health_status,
            Some(WorkspaceHealth::Dirty),
            "dirty workspace should be preserved at {}",
            path.display()
        );
    }
}

#[test]
fn workspace_list_shows_health_status_in_effective_state() {
    let (tempdir, world) = with_database_path();
    let workspace_root = tempdir.path().join("workspaces");
    let dirty_path = workspace_root.join("mono-agent-003");
    let clean_path = workspace_root.join("mono-agent-007");
    world.create_dir_all(dirty_path.join(".jj")).expect("dirty dir");
    world.create_dir_all(clean_path.join(".jj")).expect("clean dir");

    run_with_dependencies(
        add_repo_cli(&workspace_root),
        Some(&world),
        &FakeRunner::default(),
    )
    .expect("repo");

    let lease_runner = FakeRunner::new(vec![
        ExpectedCommand::ok(dirty_path.clone(), "jj", &["status", "--no-pager"], jj_status_dirty()),
        ExpectedCommand::ok(clean_path.clone(), "jj", &["status", "--no-pager"], jj_status_clean()),
        ExpectedCommand::ok(clean_path.clone(), "jj", &["git", "fetch"], ""),
        ExpectedCommand::ok(clean_path.clone(), "jj", &["bookmark", "set", "main", "-r", "main@origin", "--allow-backwards"], ""),
        ExpectedCommand::ok(clean_path.clone(), "jj", &["new", "main"], ""),
        ExpectedCommand::ok(
            clean_path.clone(),
            "jj",
            &["log", "--no-graph", "-r", "@", "-T", "commit_id.short()"],
            "abc1234",
        ),
    ]);
    run_with_dependencies(
        parse(&["cube", "workspace", "lease", "mono", "--task", "test"]),
        Some(&world),
        &lease_runner,
    )
    .expect("lease");
    lease_runner.assert_exhausted();

    let list_result = run_with_dependencies(
        parse(&["cube", "workspace", "list", "--json"]),
        Some(&world),
        &FakeRunner::default(),
    )
    .expect("list");

    let workspaces = list_result.payload["workspaces"]
        .as_array()
        .expect("workspaces array");
    let ws_003 = workspaces
        .iter()
        .find(|w| w["workspace_id"] == "mono-agent-003")
        .expect("003");
    let ws_007 = workspaces
        .iter()
        .find(|w| w["workspace_id"] == "mono-agent-007")
        .expect("007");
    assert_eq!(ws_003["health_status"], "dirty");
    assert_eq!(ws_003["state"], "free");
    assert_eq!(ws_007["state"], "leased");
}

#[test]
fn workspace_list_state_filter_accepts_free_dirty() {
    let (tempdir, world) = with_database_path();
    let workspace_root = tempdir.path().join("workspaces");
    let dirty_path = workspace_root.join("mono-agent-003");
    let clean_path = workspace_root.join("mono-agent-007");
    world.create_dir_all(dirty_path.join(".jj")).expect("dirty dir");
    world.create_dir_all(clean_path.join(".jj")).expect("clean dir");

    run_with_dependencies(
        add_repo_cli(&workspace_root),
        Some(&world),
        &FakeRunner::default(),
    )
    .expect("repo");

    let lease_runner = FakeRunner::new(vec![
        ExpectedCommand::ok(dirty_path.clone(), "jj", &["status", "--no-pager"], jj_status_dirty()),
        ExpectedCommand::ok(clean_path.clone(), "jj", &["status", "--no-pager"], jj_status_clean()),
        ExpectedCommand::ok(clean_path.clone(), "jj", &["git", "fetch"], ""),
        ExpectedCommand::ok(clean_path.clone(), "jj", &["bookmark", "set", "main", "-r", "main@origin", "--allow-backwards"], ""),
        ExpectedCommand::ok(clean_path.clone(), "jj", &["new", "main"], ""),
        ExpectedCommand::ok(
            clean_path.clone(),
            "jj",
            &["log", "--no-graph", "-r", "@", "-T", "commit_id.short()"],
            "abc1234",
        ),
    ]);
    run_with_dependencies(
        parse(&["cube", "workspace", "lease", "mono", "--task", "test"]),
        Some(&world),
        &lease_runner,
    )
    .expect("lease");

    let dirty_list = run_with_dependencies(
        parse(&["cube", "workspace", "list", "--state", "free-dirty"]),
        Some(&world),
        &FakeRunner::default(),
    )
    .expect("list dirty");

    let workspaces = dirty_list.payload["workspaces"]
        .as_array()
        .expect("workspaces");
    assert_eq!(workspaces.len(), 1);
    assert_eq!(workspaces[0]["workspace_id"], "mono-agent-003");

    let free_list = run_with_dependencies(
        parse(&["cube", "workspace", "list", "--state", "free"]),
        Some(&world),
        &FakeRunner::default(),
    )
    .expect("list free");
    assert_eq!(
        free_list.payload["workspaces"].as_array().unwrap().len(),
        0,
        "no purely-free workspaces should remain after leasing the only clean one"
    );
}

#[test]
fn workspace_release_clears_health_status() {
    let (tempdir, world) = with_database_path();
    let workspace_root = tempdir.path().join("workspaces");
    let ws_path = workspace_root.join("mono-agent-003");
    world.create_dir_all(ws_path.join(".jj")).expect("workspace dir");

    run_with_dependencies(
        add_repo_cli(&workspace_root),
        Some(&world),
        &FakeRunner::default(),
    )
    .expect("repo");

    let lease_runner = lease_runner_for(&ws_path, "abc1234");
    let lease_result = run_with_dependencies(
        parse(&["cube", "workspace", "lease", "mono", "--task", "test"]),
        Some(&world),
        &lease_runner,
    )
    .expect("lease");
    lease_runner.assert_exhausted();
    let lease_id = lease_result.payload["workspace"]["lease_id"]
        .as_str()
        .unwrap()
        .to_string();

    let release_runner = FakeRunner::new(vec![
        ExpectedCommand::ok(ws_path.clone(), "jj", &["git", "fetch"], ""),
        ExpectedCommand::ok(ws_path.clone(), "jj", &["bookmark", "set", "main", "-r", "main@origin", "--allow-backwards"], ""),
        ExpectedCommand::ok(ws_path.clone(), "jj", &["new", "main"], ""),
        gc_noop_command(&ws_path),
        gc_pr_remote_noop_command(&ws_path),
    ]);
    run_with_dependencies(
        parse(&["cube", "workspace", "release", "--lease", &lease_id]),
        Some(&world),
        &release_runner,
    )
    .expect("release");
    release_runner.assert_exhausted();

    let store = Store::open_at(&world).unwrap();
    let ws = store.get_workspace_by_path(&ws_path).unwrap().unwrap();
    assert_eq!(ws.health_status, None, "health_status should be cleared on release");
}

#[test]
fn workspace_lease_release_list_workspace_list_shows_effective_state() {
    let (tempdir, world) = with_database_path();
    let workspace_root = tempdir.path().join("workspaces");
    let conflicted_path = workspace_root.join("mono-agent-003");
    let clean_path = workspace_root.join("mono-agent-007");
    world.create_dir_all(conflicted_path.join(".jj")).expect("conflicted dir");
    world.create_dir_all(clean_path.join(".jj")).expect("clean dir");

    run_with_dependencies(
        add_repo_cli(&workspace_root),
        Some(&world),
        &FakeRunner::default(),
    )
    .expect("repo");

    let lease_runner = FakeRunner::new(vec![
        ExpectedCommand::ok(
            conflicted_path.clone(),
            "jj",
            &["status", "--no-pager"],
            &jj_status_conflicted("fix-burst"),
        ),
        ExpectedCommand::ok(clean_path.clone(), "jj", &["status", "--no-pager"], jj_status_clean()),
        ExpectedCommand::ok(clean_path.clone(), "jj", &["git", "fetch"], ""),
        ExpectedCommand::ok(clean_path.clone(), "jj", &["bookmark", "set", "main", "-r", "main@origin", "--allow-backwards"], ""),
        ExpectedCommand::ok(clean_path.clone(), "jj", &["new", "main"], ""),
        ExpectedCommand::ok(
            clean_path.clone(),
            "jj",
            &["log", "--no-graph", "-r", "@", "-T", "commit_id.short()"],
            "abc1234",
        ),
    ]);
    run_with_dependencies(
        parse(&["cube", "workspace", "lease", "mono", "--task", "test"]),
        Some(&world),
        &lease_runner,
    )
    .expect("lease");
    lease_runner.assert_exhausted();

    let list = run_with_dependencies(
        parse(&["cube", "workspace", "list"]),
        Some(&world),
        &FakeRunner::default(),
    )
    .expect("list");

    assert!(
        list.message.contains("free-conflicted"),
        "expected free-conflicted in list message: {}",
        list.message
    );
}

#[test]
fn workspace_release_resets_and_frees_the_workspace() {
    let (tempdir, world) = with_database_path();
    let workspace_root = tempdir.path().join("workspaces");
    world.create_dir_all(workspace_root.join("mono-agent-004").join(".jj")).expect("workspace dir");

    let add = parse(&[
        "cube",
        "repo",
        "add",
        "mono",
        "--origin",
        "git@github.com:spinyfin/mono.git",
        "--workspace-root",
        &workspace_root.display().to_string(),
        "--workspace-prefix",
        "mono-agent-",
    ]);
    run_with_dependencies(add, Some(&world), &FakeRunner::default()).expect("repo");

    let workspace_path = workspace_root.join("mono-agent-004");
    let lease_runner = FakeRunner::new(vec![
        ExpectedCommand::ok(workspace_path.clone(), "jj", &["status", "--no-pager"], "The working copy is clean"),
        ExpectedCommand::ok(workspace_path.clone(), "jj", &["git", "fetch"], ""),
        ExpectedCommand::ok(workspace_path.clone(), "jj", &["bookmark", "set", "main", "-r", "main@origin", "--allow-backwards"], ""),
        ExpectedCommand::ok(workspace_path.clone(), "jj", &["new", "main"], ""),
        ExpectedCommand::ok(
            workspace_path.clone(),
            "jj",
            &["log", "--no-graph", "-r", "@", "-T", "commit_id.short()"],
            "abc1234",
        ),
    ]);
    let lease = parse(&[
        "cube",
        "workspace",
        "lease",
        "mono",
        "--task",
        "implement cube",
    ]);
    let lease_result =
        run_with_dependencies(lease, Some(&world), &lease_runner).expect("lease");
    let lease_id = lease_result.payload["workspace"]["lease_id"]
        .as_str()
        .expect("lease id")
        .to_string();
    lease_runner.assert_exhausted();

    let release_runner = FakeRunner::new(vec![
        ExpectedCommand::ok(workspace_path.clone(), "jj", &["git", "fetch"], ""),
        ExpectedCommand::ok(workspace_path.clone(), "jj", &["bookmark", "set", "main", "-r", "main@origin", "--allow-backwards"], ""),
        ExpectedCommand::ok(workspace_path.clone(), "jj", &["new", "main"], ""),
        gc_noop_command(&workspace_path),
        gc_pr_remote_noop_command(&workspace_path),
    ]);
    let release = parse(&["cube", "workspace", "release", "--lease", &lease_id]);
    let release_result =
        run_with_dependencies(release, Some(&world), &release_runner).expect("release");

    assert_eq!(release_result.payload["workspace"]["state"], "free");
    assert_eq!(
        release_result.payload["workspace"]["lease_id"],
        Value::Null
    );
    release_runner.assert_exhausted();
}

#[test]
fn lease_and_release_emit_audit_log_entries() {
    let (tempdir, world) = with_database_path();
    let workspace_root = tempdir.path().join("workspaces");
    world.create_dir_all(workspace_root.join("mono-agent-004").join(".jj")).expect("workspace dir");

    let add = parse(&[
        "cube",
        "repo",
        "add",
        "mono",
        "--origin",
        "git@github.com:spinyfin/mono.git",
        "--workspace-root",
        &workspace_root.display().to_string(),
        "--workspace-prefix",
        "mono-agent-",
    ]);
    run_with_dependencies(add, Some(&world), &FakeRunner::default()).expect("repo");

    let workspace_path = workspace_root.join("mono-agent-004");
    let lease_runner = FakeRunner::new(vec![
        ExpectedCommand::ok(workspace_path.clone(), "jj", &["status", "--no-pager"], "The working copy is clean"),
        ExpectedCommand::ok(workspace_path.clone(), "jj", &["git", "fetch"], ""),
        ExpectedCommand::ok(workspace_path.clone(), "jj", &["bookmark", "set", "main", "-r", "main@origin", "--allow-backwards"], ""),
        ExpectedCommand::ok(workspace_path.clone(), "jj", &["new", "main"], ""),
        ExpectedCommand::ok(
            workspace_path.clone(),
            "jj",
            &["log", "--no-graph", "-r", "@", "-T", "commit_id.short()"],
            "abc1234",
        ),
    ]);
    let lease = parse(&[
        "cube",
        "workspace",
        "lease",
        "mono",
        "--task",
        "audit smoke",
    ]);
    let lease_result =
        run_with_dependencies(lease, Some(&world), &lease_runner).expect("lease");
    let lease_id = lease_result.payload["workspace"]["lease_id"]
        .as_str()
        .expect("lease id")
        .to_string();
    lease_runner.assert_exhausted();

    let release_runner = FakeRunner::new(vec![
        ExpectedCommand::ok(workspace_path.clone(), "jj", &["git", "fetch"], ""),
        ExpectedCommand::ok(workspace_path.clone(), "jj", &["bookmark", "set", "main", "-r", "main@origin", "--allow-backwards"], ""),
        ExpectedCommand::ok(workspace_path.clone(), "jj", &["new", "main"], ""),
        gc_noop_command(&workspace_path),
        gc_pr_remote_noop_command(&workspace_path),
    ]);
    let release = parse(&[
        "cube",
        "workspace",
        "release",
        "--lease",
        &lease_id,
        "--reason",
        "done",
    ]);
    run_with_dependencies(release, Some(&world), &release_runner).expect("release");
    release_runner.assert_exhausted();

    let audit_files = world.audit_files();
    assert_eq!(audit_files.len(), 1, "expected one weekly audit file");

    let contents = world.audit_log();
    let events: Vec<Value> = contents
        .lines()
        .map(|l| serde_json::from_str::<Value>(l).unwrap())
        .collect();
    let by_event: Vec<&Value> = events
        .iter()
        .filter(|e| {
            let name = e["event"].as_str().unwrap_or_default();
            name == "lease.acquired" || name == "lease.released"
        })
        .collect();
    assert_eq!(by_event.len(), 2, "expected one lease.acquired + one lease.released event");

    let acquired = by_event[0];
    assert_eq!(acquired["event"], "lease.acquired");
    assert_eq!(acquired["repo"], "mono");
    assert_eq!(acquired["workspace_id"], "mono-agent-004");
    assert_eq!(acquired["lease_id"], lease_id);
    assert_eq!(acquired["task"], "audit smoke");
    assert_eq!(acquired["head_commit"], "abc1234");
    assert!(acquired["holder"].is_string());
    assert!(acquired["ts"].as_str().unwrap().ends_with('Z'));

    let released = by_event[1];
    assert_eq!(released["event"], "lease.released");
    assert_eq!(released["lease_id"], lease_id);
    assert_eq!(released["reason"], "done");
    assert_eq!(released["keep_dirty"], false);

    let jj_ops: Vec<&Value> = events
        .iter()
        .filter(|e| e["event"] == "workspace.jj_op")
        .collect();
    assert_eq!(
        jj_ops.len(),
        6,
        "expected 6 workspace.jj_op events (fetch+bookmark-set+new each for lease+release)"
    );
    let workspace_path_str = workspace_path.display().to_string();
    for op in &jj_ops {
        assert_eq!(op["workspace_path"], workspace_path_str);
    }
}

#[test]
fn workspace_release_by_workspace_id_resolves_active_lease() {
    let (tempdir, world) = with_database_path();
    let workspace_root = tempdir.path().join("workspaces");
    world.create_dir_all(workspace_root.join("mono-agent-004").join(".jj")).expect("workspace dir");

    let add = parse(&[
        "cube",
        "repo",
        "add",
        "mono",
        "--origin",
        "git@github.com:spinyfin/mono.git",
        "--workspace-root",
        &workspace_root.display().to_string(),
        "--workspace-prefix",
        "mono-agent-",
    ]);
    run_with_dependencies(add, Some(&world), &FakeRunner::default()).expect("repo");

    let workspace_path = workspace_root.join("mono-agent-004");
    let lease_runner = FakeRunner::new(vec![
        ExpectedCommand::ok(workspace_path.clone(), "jj", &["status", "--no-pager"], "The working copy is clean"),
        ExpectedCommand::ok(workspace_path.clone(), "jj", &["git", "fetch"], ""),
        ExpectedCommand::ok(workspace_path.clone(), "jj", &["bookmark", "set", "main", "-r", "main@origin", "--allow-backwards"], ""),
        ExpectedCommand::ok(workspace_path.clone(), "jj", &["new", "main"], ""),
        ExpectedCommand::ok(
            workspace_path.clone(),
            "jj",
            &["log", "--no-graph", "-r", "@", "-T", "commit_id.short()"],
            "abc1234",
        ),
    ]);
    let lease = parse(&["cube", "workspace", "lease", "mono", "--task", "demo"]);
    run_with_dependencies(lease, Some(&world), &lease_runner).expect("lease");
    lease_runner.assert_exhausted();

    let release_runner = FakeRunner::new(vec![
        ExpectedCommand::ok(workspace_path.clone(), "jj", &["git", "fetch"], ""),
        ExpectedCommand::ok(workspace_path.clone(), "jj", &["bookmark", "set", "main", "-r", "main@origin", "--allow-backwards"], ""),
        ExpectedCommand::ok(workspace_path.clone(), "jj", &["new", "main"], ""),
        gc_noop_command(&workspace_path),
        gc_pr_remote_noop_command(&workspace_path),
    ]);
    let release = parse(&["cube", "workspace", "release", "mono-agent-004"]);
    let result = run_with_dependencies(release, Some(&world), &release_runner)
        .expect("release by id");

    assert_eq!(result.payload["workspace"]["state"], "free");
    assert_eq!(
        result.payload["workspace"]["workspace_id"],
        "mono-agent-004"
    );
    release_runner.assert_exhausted();
}

#[test]
fn workspace_release_by_workspace_id_errors_when_not_leased() {
    let (tempdir, world) = with_database_path();
    let workspace_root = tempdir.path().join("workspaces");
    world.create_dir_all(workspace_root.join("mono-agent-004").join(".jj")).expect("workspace dir");

    let add = parse(&[
        "cube",
        "repo",
        "add",
        "mono",
        "--origin",
        "git@github.com:spinyfin/mono.git",
        "--workspace-root",
        &workspace_root.display().to_string(),
        "--workspace-prefix",
        "mono-agent-",
    ]);
    run_with_dependencies(add, Some(&world), &FakeRunner::default()).expect("repo");

    let list = parse(&["cube", "workspace", "list", "--repo", "mono"]);
    let _ = run_with_dependencies(list, Some(&world), &FakeRunner::default());

    let release = parse(&["cube", "workspace", "release", "mono-agent-004"]);
    let error = run_with_dependencies(release, Some(&world), &FakeRunner::default())
        .expect_err("release should fail");
    assert!(matches!(error, CubeError::WorkspaceNotFound(_)));
}

#[test]
fn workspace_release_keep_dirty_skips_reset_and_records_reason() {
    let (tempdir, world) = with_database_path();
    let workspace_root = tempdir.path().join("workspaces");
    world.create_dir_all(workspace_root.join("mono-agent-001").join(".jj")).expect("workspace dir");

    let add = parse(&[
        "cube",
        "repo",
        "add",
        "mono",
        "--origin",
        "git@github.com:spinyfin/mono.git",
        "--workspace-root",
        &workspace_root.display().to_string(),
        "--workspace-prefix",
        "mono-agent-",
    ]);
    run_with_dependencies(add, Some(&world), &FakeRunner::default()).expect("repo");

    let workspace_path = workspace_root.join("mono-agent-001");
    let lease_runner = FakeRunner::new(vec![
        ExpectedCommand::ok(workspace_path.clone(), "jj", &["status", "--no-pager"], "The working copy is clean"),
        ExpectedCommand::ok(workspace_path.clone(), "jj", &["git", "fetch"], ""),
        ExpectedCommand::ok(workspace_path.clone(), "jj", &["bookmark", "set", "main", "-r", "main@origin", "--allow-backwards"], ""),
        ExpectedCommand::ok(workspace_path.clone(), "jj", &["new", "main"], ""),
        ExpectedCommand::ok(
            workspace_path.clone(),
            "jj",
            &["log", "--no-graph", "-r", "@", "-T", "commit_id.short()"],
            "abc1234",
        ),
    ]);
    let lease_result = run_with_dependencies(
        parse(&["cube", "workspace", "lease", "mono", "--task", "demo"]),
        Some(&world),
        &lease_runner,
    )
    .expect("lease");
    let lease_id = lease_result.payload["workspace"]["lease_id"]
        .as_str()
        .expect("lease id")
        .to_string();
    lease_runner.assert_exhausted();

    let release_runner = FakeRunner::default();
    let result = run_with_dependencies(
        parse(&[
            "cube",
            "workspace",
            "release",
            "--lease",
            &lease_id,
            "--reason",
            "crash",
            "--keep-dirty",
        ]),
        Some(&world),
        &release_runner,
    )
    .expect("release");

    assert_eq!(result.payload["workspace"]["state"], "free");
    assert_eq!(result.payload["workspace"]["last_release_reason"], "crash");
    assert!(result.message.contains("kept dirty"));
    release_runner.assert_exhausted();
}

#[test]
fn workspace_force_release_skips_reset() {
    let (tempdir, world) = with_database_path();
    let workspace_root = tempdir.path().join("workspaces");
    world.create_dir_all(workspace_root.join("mono-agent-001").join(".jj")).expect("workspace dir");

    let add = parse(&[
        "cube",
        "repo",
        "add",
        "mono",
        "--origin",
        "git@github.com:spinyfin/mono.git",
        "--workspace-root",
        &workspace_root.display().to_string(),
        "--workspace-prefix",
        "mono-agent-",
    ]);
    run_with_dependencies(add, Some(&world), &FakeRunner::default()).expect("repo");

    let workspace_path = workspace_root.join("mono-agent-001");
    let lease_runner = FakeRunner::new(vec![
        ExpectedCommand::ok(workspace_path.clone(), "jj", &["status", "--no-pager"], "The working copy is clean"),
        ExpectedCommand::ok(workspace_path.clone(), "jj", &["git", "fetch"], ""),
        ExpectedCommand::ok(workspace_path.clone(), "jj", &["bookmark", "set", "main", "-r", "main@origin", "--allow-backwards"], ""),
        ExpectedCommand::ok(workspace_path.clone(), "jj", &["new", "main"], ""),
        ExpectedCommand::ok(
            workspace_path.clone(),
            "jj",
            &["log", "--no-graph", "-r", "@", "-T", "commit_id.short()"],
            "abc1234",
        ),
    ]);
    let lease_result = run_with_dependencies(
        parse(&["cube", "workspace", "lease", "mono", "--task", "demo"]),
        Some(&world),
        &lease_runner,
    )
    .expect("lease");
    let lease_id = lease_result.payload["workspace"]["lease_id"]
        .as_str()
        .expect("lease id")
        .to_string();

    let release_runner = FakeRunner::default();
    let result = run_with_dependencies(
        parse(&["cube", "workspace", "force-release", "--lease", &lease_id]),
        Some(&world),
        &release_runner,
    )
    .expect("force-release");

    assert_eq!(result.payload["workspace"]["state"], "free");
    assert_eq!(
        result.payload["workspace"]["last_release_reason"],
        "force-released"
    );
    release_runner.assert_exhausted();
}

#[test]
fn workspace_remove_deletes_synced_free_row() {
    let (tempdir, world) = with_database_path();
    let workspace_root = tempdir.path().join("workspaces");
    let workspace_path = workspace_root.join("mono-agent-007");
    world.create_dir_all(workspace_path.join(".jj")).expect("workspace dir");

    run_with_dependencies(
        parse(&[
            "cube",
            "repo",
            "add",
            "mono",
            "--origin",
            "git@github.com:spinyfin/mono.git",
            "--workspace-root",
            &workspace_root.display().to_string(),
            "--workspace-prefix",
            "mono-agent-",
        ]),
        Some(&world),
        &FakeRunner::default(),
    )
    .expect("repo");

    {
        let store = Store::open_at(&world).unwrap();
        store
            .sync_workspaces(
                "mono",
                &[WorkspaceCandidate {
                    workspace_id: "mono-agent-007".to_string(),
                    workspace_path: text(&workspace_path),
                }],
            )
            .unwrap();
    }

    let result = run_with_dependencies(
        parse(&["cube", "workspace", "remove", "mono-agent-007"]),
        Some(&world),
        &FakeRunner::default(),
    )
    .expect("remove");

    assert!(result.message.contains("Removed mono/mono-agent-007"));
    assert_eq!(result.payload["forced"], false);
    assert_eq!(result.payload["workspace"]["workspace_id"], "mono-agent-007");

    let store = Store::open_at(&world).unwrap();
    let remaining = store
        .list_workspaces_filtered(&WorkspaceListFilter {
            repo: Some("mono".to_string()),
            ..everything()
        })
        .unwrap();
    assert!(remaining.is_empty(), "expected row to be deleted");
    assert!(world.is_dir(&workspace_path), "directory must be left intact");
}

#[test]
fn workspace_remove_refuses_leased_row_without_force() {
    let (tempdir, world) = with_database_path();
    let workspace_root = tempdir.path().join("workspaces");
    world.create_dir_all(workspace_root.join("mono-agent-001").join(".jj")).expect("workspace dir");

    run_with_dependencies(
        parse(&[
            "cube",
            "repo",
            "add",
            "mono",
            "--origin",
            "git@github.com:spinyfin/mono.git",
            "--workspace-root",
            &workspace_root.display().to_string(),
            "--workspace-prefix",
            "mono-agent-",
        ]),
        Some(&world),
        &FakeRunner::default(),
    )
    .expect("repo");

    let workspace_path = workspace_root.join("mono-agent-001");
    let lease_runner = FakeRunner::new(vec![
        ExpectedCommand::ok(workspace_path.clone(), "jj", &["status", "--no-pager"], "The working copy is clean"),
        ExpectedCommand::ok(workspace_path.clone(), "jj", &["git", "fetch"], ""),
        ExpectedCommand::ok(workspace_path.clone(), "jj", &["bookmark", "set", "main", "-r", "main@origin", "--allow-backwards"], ""),
        ExpectedCommand::ok(workspace_path.clone(), "jj", &["new", "main"], ""),
        ExpectedCommand::ok(
            workspace_path.clone(),
            "jj",
            &["log", "--no-graph", "-r", "@", "-T", "commit_id.short()"],
            "abc1234",
        ),
    ]);
    run_with_dependencies(
        parse(&["cube", "workspace", "lease", "mono", "--task", "demo"]),
        Some(&world),
        &lease_runner,
    )
    .expect("lease");
    lease_runner.assert_exhausted();

    let error = run_with_dependencies(
        parse(&["cube", "workspace", "remove", "mono-agent-001"]),
        Some(&world),
        &FakeRunner::default(),
    )
    .expect_err("remove should refuse a leased row");

    match error {
        CubeError::InvalidArgument(msg) => {
            assert!(
                msg.contains("currently leased"),
                "unexpected message: {msg}"
            );
        }
        other => panic!("expected InvalidArgument, got {other:?}"),
    }

    let store = Store::open_at(&world).unwrap();
    let remaining = store
        .list_workspaces_filtered(&WorkspaceListFilter {
            repo: Some("mono".to_string()),
            ..everything()
        })
        .unwrap();
    assert_eq!(remaining.len(), 1);
}

#[test]
fn workspace_remove_force_removes_leased_row() {
    let (tempdir, world) = with_database_path();
    let workspace_root = tempdir.path().join("workspaces");
    world.create_dir_all(workspace_root.join("mono-agent-001").join(".jj")).expect("workspace dir");

    run_with_dependencies(
        parse(&[
            "cube",
            "repo",
            "add",
            "mono",
            "--origin",
            "git@github.com:spinyfin/mono.git",
            "--workspace-root",
            &workspace_root.display().to_string(),
            "--workspace-prefix",
            "mono-agent-",
        ]),
        Some(&world),
        &FakeRunner::default(),
    )
    .expect("repo");

    let workspace_path = workspace_root.join("mono-agent-001");
    let lease_runner = FakeRunner::new(vec![
        ExpectedCommand::ok(workspace_path.clone(), "jj", &["status", "--no-pager"], "The working copy is clean"),
        ExpectedCommand::ok(workspace_path.clone(), "jj", &["git", "fetch"], ""),
        ExpectedCommand::ok(workspace_path.clone(), "jj", &["bookmark", "set", "main", "-r", "main@origin", "--allow-backwards"], ""),
        ExpectedCommand::ok(workspace_path.clone(), "jj", &["new", "main"], ""),
        ExpectedCommand::ok(
            workspace_path.clone(),
            "jj",
            &["log", "--no-graph", "-r", "@", "-T", "commit_id.short()"],
            "abc1234",
        ),
    ]);
    run_with_dependencies(
        parse(&["cube", "workspace", "lease", "mono", "--task", "demo"]),
        Some(&world),
        &lease_runner,
    )
    .expect("lease");

    let result = run_with_dependencies(
        parse(&["cube", "workspace", "remove", "mono-agent-001", "--force"]),
        Some(&world),
        &FakeRunner::default(),
    )
    .expect("force remove");

    assert_eq!(result.payload["forced"], true);
    assert_eq!(result.payload["workspace"]["state"], "leased");

    let store = Store::open_at(&world).unwrap();
    let remaining = store
        .list_workspaces_filtered(&WorkspaceListFilter {
            repo: Some("mono".to_string()),
            ..everything()
        })
        .unwrap();
    assert!(remaining.is_empty(), "row should be deleted under --force");
}

#[test]
fn workspace_remove_succeeds_when_directory_is_gone() {
    let (tempdir, world) = with_database_path();
    let workspace_root = tempdir.path().join("workspaces");
    let workspace_path = workspace_root.join("mono-agent-007");
    world.create_dir_all(workspace_path.join(".jj")).expect("workspace dir");

    run_with_dependencies(
        parse(&[
            "cube",
            "repo",
            "add",
            "mono",
            "--origin",
            "git@github.com:spinyfin/mono.git",
            "--workspace-root",
            &workspace_root.display().to_string(),
            "--workspace-prefix",
            "mono-agent-",
        ]),
        Some(&world),
        &FakeRunner::default(),
    )
    .expect("repo");

    {
        let store = Store::open_at(&world).unwrap();
        store
            .sync_workspaces(
                "mono",
                &[WorkspaceCandidate {
                    workspace_id: "mono-agent-007".to_string(),
                    workspace_path: text(&workspace_path),
                }],
            )
            .unwrap();
    }

    world.remove_dir_all(&workspace_path).unwrap();

    let result = run_with_dependencies(
        parse(&["cube", "workspace", "remove", "mono-agent-007"]),
        Some(&world),
        &FakeRunner::default(),
    )
    .expect("remove dangling row");

    assert!(result.message.contains("mono-agent-007"));

    let store = Store::open_at(&world).unwrap();
    let remaining = store
        .list_workspaces_filtered(&WorkspaceListFilter {
            repo: Some("mono".to_string()),
            ..everything()
        })
        .unwrap();
    assert!(remaining.is_empty());
}

#[test]
fn workspace_remove_errors_when_workspace_id_unknown() {
    let (_tempdir, world) = with_database_path();

    let error = run_with_dependencies(
        parse(&["cube", "workspace", "remove", "mono-agent-999"]),
        Some(&world),
        &FakeRunner::default(),
    )
    .expect_err("remove should fail for unknown workspace");

    assert!(matches!(error, CubeError::WorkspaceNotFound(_)));
}

#[test]
fn workspace_remove_emits_audit_entry() {
    let (tempdir, world) = with_database_path();
    let workspace_root = tempdir.path().join("workspaces");
    let workspace_path = workspace_root.join("mono-agent-007");
    world.create_dir_all(workspace_path.join(".jj")).expect("workspace dir");

    run_with_dependencies(
        parse(&[
            "cube",
            "repo",
            "add",
            "mono",
            "--origin",
            "git@github.com:spinyfin/mono.git",
            "--workspace-root",
            &workspace_root.display().to_string(),
            "--workspace-prefix",
            "mono-agent-",
        ]),
        Some(&world),
        &FakeRunner::default(),
    )
    .expect("repo");

    {
        let store = Store::open_at(&world).unwrap();
        store
            .sync_workspaces(
                "mono",
                &[WorkspaceCandidate {
                    workspace_id: "mono-agent-007".to_string(),
                    workspace_path: text(&workspace_path),
                }],
            )
            .unwrap();
    }

    run_with_dependencies(
        parse(&["cube", "workspace", "remove", "mono-agent-007"]),
        Some(&world),
        &FakeRunner::default(),
    )
    .expect("remove");

    let audit_files = world.audit_files();
    assert_eq!(audit_files.len(), 1, "expected one weekly audit file");

    let contents = world.audit_log();
    let line = contents.lines().last().expect("at least one event");
    let event: Value = serde_json::from_str(line).unwrap();
    assert_eq!(event["event"], "workspace.removed");
    assert_eq!(event["repo"], "mono");
    assert_eq!(event["workspace_id"], "mono-agent-007");
    assert_eq!(event["prior_state"], "free");
    assert_eq!(event["forced"], false);
    assert_eq!(event["expunged"], false);
}

#[test]
fn workspace_remove_expunge_deletes_row_and_directory() {
    let (tempdir, world) = with_database_path();
    let workspace_root = tempdir.path().join("workspaces");
    let workspace_path = workspace_root.join("mono-agent-007");
    world.create_dir_all(workspace_path.join(".jj")).expect("workspace dir");
    world.write(workspace_path.join("marker"), "x").expect("marker file");

    run_with_dependencies(
        parse(&[
            "cube",
            "repo",
            "add",
            "mono",
            "--origin",
            "git@github.com:spinyfin/mono.git",
            "--workspace-root",
            &workspace_root.display().to_string(),
            "--workspace-prefix",
            "mono-agent-",
        ]),
        Some(&world),
        &FakeRunner::default(),
    )
    .expect("repo");

    {
        let store = Store::open_at(&world).unwrap();
        store
            .sync_workspaces(
                "mono",
                &[WorkspaceCandidate {
                    workspace_id: "mono-agent-007".to_string(),
                    workspace_path: text(&workspace_path),
                }],
            )
            .unwrap();
    }

    let result = run_with_dependencies(
        parse(&[
            "cube",
            "workspace",
            "remove",
            "mono-agent-007",
            "--expunge",
        ]),
        Some(&world),
        &FakeRunner::default(),
    )
    .expect("expunge remove");

    assert_eq!(result.payload["expunged"], true);
    assert!(result.message.contains("deleted workspace directory"));
    assert!(
        !world.is_there(&workspace_path),
        "expected on-disk directory to be removed"
    );

    let store = Store::open_at(&world).unwrap();
    let remaining = store
        .list_workspaces_filtered(&WorkspaceListFilter {
            repo: Some("mono".to_string()),
            ..everything()
        })
        .unwrap();
    assert!(remaining.is_empty(), "row should be deleted");
}

#[test]
fn workspace_remove_expunge_tolerates_missing_directory() {
    let (tempdir, world) = with_database_path();
    let workspace_root = tempdir.path().join("workspaces");
    let workspace_path = workspace_root.join("mono-agent-007");
    world.create_dir_all(workspace_path.join(".jj")).expect("workspace dir");

    run_with_dependencies(
        parse(&[
            "cube",
            "repo",
            "add",
            "mono",
            "--origin",
            "git@github.com:spinyfin/mono.git",
            "--workspace-root",
            &workspace_root.display().to_string(),
            "--workspace-prefix",
            "mono-agent-",
        ]),
        Some(&world),
        &FakeRunner::default(),
    )
    .expect("repo");

    {
        let store = Store::open_at(&world).unwrap();
        store
            .sync_workspaces(
                "mono",
                &[WorkspaceCandidate {
                    workspace_id: "mono-agent-007".to_string(),
                    workspace_path: text(&workspace_path),
                }],
            )
            .unwrap();
    }

    world.remove_dir_all(&workspace_path).unwrap();

    let result = run_with_dependencies(
        parse(&[
            "cube",
            "workspace",
            "remove",
            "mono-agent-007",
            "--expunge",
        ]),
        Some(&world),
        &FakeRunner::default(),
    )
    .expect("expunge tolerates missing dir");

    assert_eq!(result.payload["expunged"], true);
    assert!(!world.is_there(&workspace_path));
}

#[test]
fn workspace_remove_without_expunge_leaves_directory_intact() {
    let (tempdir, world) = with_database_path();
    let workspace_root = tempdir.path().join("workspaces");
    let workspace_path = workspace_root.join("mono-agent-007");
    world.create_dir_all(workspace_path.join(".jj")).expect("workspace dir");
    world.write(workspace_path.join("marker"), "x").expect("marker file");

    run_with_dependencies(
        parse(&[
            "cube",
            "repo",
            "add",
            "mono",
            "--origin",
            "git@github.com:spinyfin/mono.git",
            "--workspace-root",
            &workspace_root.display().to_string(),
            "--workspace-prefix",
            "mono-agent-",
        ]),
        Some(&world),
        &FakeRunner::default(),
    )
    .expect("repo");

    {
        let store = Store::open_at(&world).unwrap();
        store
            .sync_workspaces(
                "mono",
                &[WorkspaceCandidate {
                    workspace_id: "mono-agent-007".to_string(),
                    workspace_path: text(&workspace_path),
                }],
            )
            .unwrap();
    }

    let result = run_with_dependencies(
        parse(&["cube", "workspace", "remove", "mono-agent-007"]),
        Some(&world),
        &FakeRunner::default(),
    )
    .expect("remove");

    assert_eq!(result.payload["expunged"], false);
    assert!(
        world.is_dir(&workspace_path),
        "directory must remain when --expunge is not passed"
    );
    assert!(
        world.is_there(&workspace_path.join("marker")),
        "directory contents must be preserved"
    );
}

#[test]
fn workspace_remove_expunge_makes_removal_durable_against_lease_resync() {
    let (tempdir, world) = with_database_path();
    let workspace_root = tempdir.path().join("workspaces");
    let workspace_path = workspace_root.join("mono-agent-007");
    world.create_dir_all(workspace_path.join(".jj")).expect("workspace dir");

    run_with_dependencies(
        parse(&[
            "cube",
            "repo",
            "add",
            "mono",
            "--origin",
            "git@github.com:spinyfin/mono.git",
            "--workspace-root",
            &workspace_root.display().to_string(),
            "--workspace-prefix",
            "mono-agent-",
        ]),
        Some(&world),
        &FakeRunner::default(),
    )
    .expect("repo");

    {
        let store = Store::open_at(&world).unwrap();
        store
            .sync_workspaces(
                "mono",
                &[WorkspaceCandidate {
                    workspace_id: "mono-agent-007".to_string(),
                    workspace_path: text(&workspace_path),
                }],
            )
            .unwrap();
    }

    run_with_dependencies(
        parse(&[
            "cube",
            "workspace",
            "remove",
            "mono-agent-007",
            "--expunge",
        ]),
        Some(&world),
        &FakeRunner::default(),
    )
    .expect("expunge remove");

    let new_path = workspace_root.join("mono-agent-001");
    let staging = workspace_root.join(".incoming-mono-agent-001");
    let lease_runner = FakeRunner::new(vec![
        ExpectedCommand::ok(
            workspace_root.clone(),
            "jj",
            &[
                "git",
                "clone",
                "--colocate",
                "git@github.com:spinyfin/mono.git",
                &staging.display().to_string(),
            ],
            "",
        )
        .creating_dir(staging.clone()),
        ExpectedCommand::ok(
            staging.clone(),
            "jj",
            &["bookmark", "track", "main@origin"],
            "",
        ),
        ExpectedCommand::no_such_remote_bookmark(
            staging.clone(),
            "jj",
            &["bookmark", "track", "master@origin"],
        ),
        ExpectedCommand::ok(new_path.clone(), "jj", &["git", "fetch"], ""),
        ExpectedCommand::ok(new_path.clone(), "jj", &["bookmark", "set", "main", "-r", "main@origin", "--allow-backwards"], ""),
        ExpectedCommand::ok(new_path.clone(), "jj", &["new", "main"], ""),
        ExpectedCommand::ok(
            new_path.clone(),
            "jj",
            &["log", "--no-graph", "-r", "@", "-T", "commit_id.short()"],
            "abc1234",
        ),
    ]);

    let lease_result = run_with_dependencies(
        parse(&[
            "cube",
            "workspace",
            "lease",
            "mono",
            "--task",
            "after-expunge",
        ]),
        Some(&world),
        &lease_runner,
    )
    .expect("lease after expunge");

    assert_eq!(
        lease_result.payload["workspace"]["workspace_id"],
        "mono-agent-001",
        "lease should auto-create a fresh slot, not resurrect the expunged one"
    );

    let store = Store::open_at(&world).unwrap();
    let rows = store
        .list_workspaces_filtered(&WorkspaceListFilter {
            repo: Some("mono".to_string()),
            ..everything()
        })
        .unwrap();
    let ids: Vec<_> = rows.iter().map(|r| r.workspace_id.as_str()).collect();
    assert!(
        !ids.contains(&"mono-agent-007"),
        "expunged workspace must not reappear; saw {ids:?}"
    );
}

#[test]
fn workspace_remove_without_expunge_resurrects_on_next_lease() {
    let (tempdir, world) = with_database_path();
    let workspace_root = tempdir.path().join("workspaces");
    let workspace_path = workspace_root.join("mono-agent-007");
    world.create_dir_all(workspace_path.join(".jj")).expect("workspace dir");

    run_with_dependencies(
        parse(&[
            "cube",
            "repo",
            "add",
            "mono",
            "--origin",
            "git@github.com:spinyfin/mono.git",
            "--workspace-root",
            &workspace_root.display().to_string(),
            "--workspace-prefix",
            "mono-agent-",
        ]),
        Some(&world),
        &FakeRunner::default(),
    )
    .expect("repo");

    {
        let store = Store::open_at(&world).unwrap();
        store
            .sync_workspaces(
                "mono",
                &[WorkspaceCandidate {
                    workspace_id: "mono-agent-007".to_string(),
                    workspace_path: text(&workspace_path),
                }],
            )
            .unwrap();
    }

    run_with_dependencies(
        parse(&["cube", "workspace", "remove", "mono-agent-007"]),
        Some(&world),
        &FakeRunner::default(),
    )
    .expect("remove");

    let lease_runner = FakeRunner::new(vec![
        ExpectedCommand::ok(workspace_path.clone(), "jj", &["status", "--no-pager"], "The working copy is clean"),
        ExpectedCommand::ok(workspace_path.clone(), "jj", &["git", "fetch"], ""),
        ExpectedCommand::ok(workspace_path.clone(), "jj", &["bookmark", "set", "main", "-r", "main@origin", "--allow-backwards"], ""),
        ExpectedCommand::ok(workspace_path.clone(), "jj", &["new", "main"], ""),
        ExpectedCommand::ok(
            workspace_path.clone(),
            "jj",
            &["log", "--no-graph", "-r", "@", "-T", "commit_id.short()"],
            "abc1234",
        ),
    ]);
    let lease_result = run_with_dependencies(
        parse(&["cube", "workspace", "lease", "mono", "--task", "resync"]),
        Some(&world),
        &lease_runner,
    )
    .expect("lease re-syncs row");

    assert_eq!(
        lease_result.payload["workspace"]["workspace_id"],
        "mono-agent-007",
        "without --expunge the discovered directory resurrects the row"
    );
}

#[test]
fn workspace_heartbeat_extends_expiry() {
    let (tempdir, world) = with_database_path();
    let workspace_root = tempdir.path().join("workspaces");
    world.create_dir_all(workspace_root.join("mono-agent-001").join(".jj")).expect("workspace dir");

    let add = parse(&[
        "cube",
        "repo",
        "add",
        "mono",
        "--origin",
        "git@github.com:spinyfin/mono.git",
        "--workspace-root",
        &workspace_root.display().to_string(),
        "--workspace-prefix",
        "mono-agent-",
    ]);
    run_with_dependencies(add, Some(&world), &FakeRunner::default()).expect("repo");

    let workspace_path = workspace_root.join("mono-agent-001");
    let lease_runner = FakeRunner::new(vec![
        ExpectedCommand::ok(workspace_path.clone(), "jj", &["status", "--no-pager"], "The working copy is clean"),
        ExpectedCommand::ok(workspace_path.clone(), "jj", &["git", "fetch"], ""),
        ExpectedCommand::ok(workspace_path.clone(), "jj", &["bookmark", "set", "main", "-r", "main@origin", "--allow-backwards"], ""),
        ExpectedCommand::ok(workspace_path.clone(), "jj", &["new", "main"], ""),
        ExpectedCommand::ok(
            workspace_path.clone(),
            "jj",
            &["log", "--no-graph", "-r", "@", "-T", "commit_id.short()"],
            "abc1234",
        ),
    ]);
    let lease_result = run_with_dependencies(
        parse(&["cube", "workspace", "lease", "mono", "--task", "demo"]),
        Some(&world),
        &lease_runner,
    )
    .expect("lease");
    let lease_id = lease_result.payload["workspace"]["lease_id"]
        .as_str()
        .expect("lease id")
        .to_string();
    let before_expiry = lease_result.payload["workspace"]["lease_expires_at_epoch_s"]
        .as_i64()
        .expect("initial expiry");

    world.clock.set(world.clock.get() + 2);

    let beat_result = run_with_dependencies(
        parse(&["cube", "workspace", "heartbeat", "--lease", &lease_id]),
        Some(&world),
        &FakeRunner::default(),
    )
    .expect("heartbeat");

    let after_expiry = beat_result.payload["workspace"]["lease_expires_at_epoch_s"]
        .as_i64()
        .expect("new expiry");
    assert!(
        after_expiry > before_expiry,
        "heartbeat should advance expiry: before={before_expiry}, after={after_expiry}"
    );

    let custom = run_with_dependencies(
        parse(&[
            "cube",
            "workspace",
            "heartbeat",
            "--lease",
            &lease_id,
            "--ttl-seconds",
            "60",
        ]),
        Some(&world),
        &FakeRunner::default(),
    )
    .expect("heartbeat custom");
    let custom_expiry = custom.payload["workspace"]["lease_expires_at_epoch_s"]
        .as_i64()
        .expect("custom expiry");
    let now_after = current_epoch_s().expect("now");
    let delta = custom_expiry - now_after;
    assert!(
        (delta - 60).abs() <= 5,
        "custom expiry {custom_expiry} should be ~now+60={}, delta {delta}s",
        now_after + 60
    );
}

#[test]
fn workspace_status_includes_jj_status_output() {
    let (tempdir, world) = with_database_path();
    let workspace_root = tempdir.path().join("workspaces");
    world.create_dir_all(workspace_root.join("mono-agent-004").join(".jj")).expect("workspace dir");

    let add = parse(&[
        "cube",
        "repo",
        "add",
        "mono",
        "--origin",
        "git@github.com:spinyfin/mono.git",
        "--workspace-root",
        &workspace_root.display().to_string(),
        "--workspace-prefix",
        "mono-agent-",
    ]);
    run_with_dependencies(add, Some(&world), &FakeRunner::default()).expect("repo");

    let workspace_path = workspace_root.join("mono-agent-004");
    let lease_runner = FakeRunner::new(vec![
        ExpectedCommand::ok(workspace_path.clone(), "jj", &["status", "--no-pager"], "The working copy is clean"),
        ExpectedCommand::ok(workspace_path.clone(), "jj", &["git", "fetch"], ""),
        ExpectedCommand::ok(workspace_path.clone(), "jj", &["bookmark", "set", "main", "-r", "main@origin", "--allow-backwards"], ""),
        ExpectedCommand::ok(workspace_path.clone(), "jj", &["new", "main"], ""),
        ExpectedCommand::ok(
            workspace_path.clone(),
            "jj",
            &["log", "--no-graph", "-r", "@", "-T", "commit_id.short()"],
            "abc1234",
        ),
    ]);
    let lease = parse(&[
        "cube",
        "workspace",
        "lease",
        "mono",
        "--task",
        "implement cube",
    ]);
    run_with_dependencies(lease, Some(&world), &lease_runner).expect("lease");
    lease_runner.assert_exhausted();

    let status_runner = FakeRunner::new(vec![ExpectedCommand::ok(
        workspace_path.clone(),
        "jj",
        &["status"],
        "The working copy is clean",
    )]);
    let status = parse(&[
        "cube",
        "workspace",
        "status",
        "--workspace",
        &workspace_path.display().to_string(),
    ]);
    let status_result =
        run_with_dependencies(status, Some(&world), &status_runner).expect("status");

    assert_eq!(
        status_result.payload["jj_status"],
        "The working copy is clean"
    );
    assert!(status_result.message.contains("jj_status:"));
    status_runner.assert_exhausted();
}

#[test]
fn workspace_status_forgets_missing_workspace_rows() {
    let (tempdir, world) = with_database_path();
    let workspace_root = tempdir.path().join("workspaces");
    world.create_dir_all(workspace_root.join("mono-agent-004").join(".jj")).expect("workspace dir");

    let add = parse(&[
        "cube",
        "repo",
        "add",
        "mono",
        "--origin",
        "git@github.com:spinyfin/mono.git",
        "--workspace-root",
        &workspace_root.display().to_string(),
        "--workspace-prefix",
        "mono-agent-",
    ]);
    run_with_dependencies(add, Some(&world), &FakeRunner::default()).expect("repo");

    let workspace_path = workspace_root.join("mono-agent-004");
    let lease_runner = FakeRunner::new(vec![
        ExpectedCommand::ok(workspace_path.clone(), "jj", &["status", "--no-pager"], "The working copy is clean"),
        ExpectedCommand::ok(workspace_path.clone(), "jj", &["git", "fetch"], ""),
        ExpectedCommand::ok(workspace_path.clone(), "jj", &["bookmark", "set", "main", "-r", "main@origin", "--allow-backwards"], ""),
        ExpectedCommand::ok(workspace_path.clone(), "jj", &["new", "main"], ""),
        ExpectedCommand::ok(
            workspace_path.clone(),
            "jj",
            &["log", "--no-graph", "-r", "@", "-T", "commit_id.short()"],
            "abc1234",
        ),
    ]);
    let lease = parse(&[
        "cube",
        "workspace",
        "lease",
        "mono",
        "--task",
        "implement cube",
    ]);
    run_with_dependencies(lease, Some(&world), &lease_runner).expect("lease");
    lease_runner.assert_exhausted();

    world.remove_dir_all(&workspace_path).expect("remove workspace dir");

    let status = parse(&[
        "cube",
        "workspace",
        "status",
        "--workspace",
        &workspace_path.display().to_string(),
    ]);
    let error = run_with_dependencies(status, Some(&world), &FakeRunner::default())
        .expect_err("status should forget missing workspace");

    assert!(matches!(error, CubeError::WorkspaceNotFound(_)));
}

#[test]
fn workspace_list_returns_filtered_rows() {
    let (tempdir, world) = with_database_path();
    let workspace_root = tempdir.path().join("workspaces");
    world.create_dir_all(workspace_root.join("mono-agent-001").join(".jj")).expect("workspace dir");
    world.create_dir_all(workspace_root.join("mono-agent-002").join(".jj")).expect("workspace dir");

    let add = parse(&[
        "cube",
        "repo",
        "add",
        "mono",
        "--origin",
        "git@github.com:spinyfin/mono.git",
        "--workspace-root",
        &workspace_root.display().to_string(),
        "--workspace-prefix",
        "mono-agent-",
    ]);
    run_with_dependencies(add, Some(&world), &FakeRunner::default()).expect("repo");

    let first_path = workspace_root.join("mono-agent-001");
    let runner = FakeRunner::new(vec![
        ExpectedCommand::ok(first_path.clone(), "jj", &["status", "--no-pager"], "The working copy is clean"),
        ExpectedCommand::ok(first_path.clone(), "jj", &["git", "fetch"], ""),
        ExpectedCommand::ok(first_path.clone(), "jj", &["bookmark", "set", "main", "-r", "main@origin", "--allow-backwards"], ""),
        ExpectedCommand::ok(first_path.clone(), "jj", &["new", "main"], ""),
        ExpectedCommand::ok(
            first_path.clone(),
            "jj",
            &["log", "--no-graph", "-r", "@", "-T", "commit_id.short()"],
            "abc1234",
        ),
    ]);
    let lease = parse(&["cube", "workspace", "lease", "mono", "--task", "demo"]);
    run_with_dependencies(lease, Some(&world), &runner).expect("lease");

    let list_all = parse(&["cube", "workspace", "list"]);
    let result_all =
        run_with_dependencies(list_all, Some(&world), &FakeRunner::default())
            .expect("list");
    let rows = result_all.payload["workspaces"].as_array().expect("array");
    assert_eq!(rows.len(), 2);

    let list_leased = parse(&["cube", "workspace", "list", "--state", "leased"]);
    let result_leased =
        run_with_dependencies(list_leased, Some(&world), &FakeRunner::default())
            .expect("list leased");
    let leased = result_leased.payload["workspaces"]
        .as_array()
        .expect("array");
    assert_eq!(leased.len(), 1);
    assert_eq!(leased[0]["workspace_id"], "mono-agent-001");
    assert_eq!(leased[0]["state"], "leased");
    assert_eq!(leased[0]["task"], "demo");

    let list_bad = parse(&["cube", "workspace", "list", "--state", "bogus"]);
    let error = run_with_dependencies(list_bad, Some(&world), &FakeRunner::default())
        .expect_err("invalid state");
    assert!(matches!(error, CubeError::InvalidArgument(_)));
}

#[test]
fn change_create_records_named_workspace_head() {
    let (tempdir, world) = with_database_path();
    let workspace_root = tempdir.path().join("workspaces");
    world.create_dir_all(workspace_root.join("mono-agent-004").join(".jj")).expect("workspace dir");

    let add = parse(&[
        "cube",
        "repo",
        "add",
        "mono",
        "--origin",
        "git@github.com:spinyfin/mono.git",
        "--workspace-root",
        &workspace_root.display().to_string(),
        "--workspace-prefix",
        "mono-agent-",
    ]);
    run_with_dependencies(add, Some(&world), &FakeRunner::default()).expect("repo");

    let workspace_path = workspace_root.join("mono-agent-004");
    let lease_runner = FakeRunner::new(vec![
        ExpectedCommand::ok(workspace_path.clone(), "jj", &["status", "--no-pager"], "The working copy is clean"),
        ExpectedCommand::ok(workspace_path.clone(), "jj", &["git", "fetch"], ""),
        ExpectedCommand::ok(workspace_path.clone(), "jj", &["bookmark", "set", "main", "-r", "main@origin", "--allow-backwards"], ""),
        ExpectedCommand::ok(workspace_path.clone(), "jj", &["new", "main"], ""),
        ExpectedCommand::ok(
            workspace_path.clone(),
            "jj",
            &["log", "--no-graph", "-r", "@", "-T", "commit_id.short()"],
            "abc1234",
        ),
    ]);
    let lease = parse(&[
        "cube",
        "workspace",
        "lease",
        "mono",
        "--task",
        "implement cube",
    ]);
    run_with_dependencies(lease, Some(&world), &lease_runner).expect("lease");
    lease_runner.assert_exhausted();

    let change_runner = FakeRunner::new(vec![
        ExpectedCommand::ok(
            workspace_path.clone(),
            "jj",
            &["describe", "-m", "Implement parser"],
            "",
        ),
        ExpectedCommand::ok(
            workspace_path.clone(),
            "jj",
            &[
                "log",
                "--no-graph",
                "-r",
                "@",
                "-T",
                "change_id ++ \"\\n\" ++ commit_id.short()",
            ],
            "zxy123\nabc1234",
        ),
    ]);
    let create = parse(&[
        "cube",
        "change",
        "create",
        "--workspace",
        &workspace_path.display().to_string(),
        "--title",
        "Implement parser",
    ]);
    let result =
        run_with_dependencies(create, Some(&world), &change_runner).expect("change");

    assert_eq!(result.payload["change"]["repo"], "mono");
    assert_eq!(
        result.payload["change"]["workspace_path"],
        workspace_path.display().to_string()
    );
    assert_eq!(result.payload["change"]["title"], "Implement parser");
    assert_eq!(result.payload["change"]["jj_change_id"], "zxy123");
    assert_eq!(result.payload["change"]["head_commit"], "abc1234");
    change_runner.assert_exhausted();
}

#[test]
fn change_create_from_parent_uses_parent_jj_change_id() {
    let (tempdir, world) = with_database_path();
    let workspace_root = tempdir.path().join("workspaces");
    world.create_dir_all(workspace_root.join("mono-agent-004").join(".jj")).expect("workspace dir");

    let add = parse(&[
        "cube",
        "repo",
        "add",
        "mono",
        "--origin",
        "git@github.com:spinyfin/mono.git",
        "--workspace-root",
        &workspace_root.display().to_string(),
        "--workspace-prefix",
        "mono-agent-",
    ]);
    run_with_dependencies(add, Some(&world), &FakeRunner::default()).expect("repo");

    let workspace_path = workspace_root.join("mono-agent-004");
    let lease_runner = FakeRunner::new(vec![
        ExpectedCommand::ok(workspace_path.clone(), "jj", &["status", "--no-pager"], "The working copy is clean"),
        ExpectedCommand::ok(workspace_path.clone(), "jj", &["git", "fetch"], ""),
        ExpectedCommand::ok(workspace_path.clone(), "jj", &["bookmark", "set", "main", "-r", "main@origin", "--allow-backwards"], ""),
        ExpectedCommand::ok(workspace_path.clone(), "jj", &["new", "main"], ""),
        ExpectedCommand::ok(
            workspace_path.clone(),
            "jj",
            &["log", "--no-graph", "-r", "@", "-T", "commit_id.short()"],
            "abc1234",
        ),
    ]);
    let lease = parse(&[
        "cube",
        "workspace",
        "lease",
        "mono",
        "--task",
        "implement cube",
    ]);
    run_with_dependencies(lease, Some(&world), &lease_runner).expect("lease");
    lease_runner.assert_exhausted();

    let root_runner = FakeRunner::new(vec![
        ExpectedCommand::ok(
            workspace_path.clone(),
            "jj",
            &["describe", "-m", "Implement parser"],
            "",
        ),
        ExpectedCommand::ok(
            workspace_path.clone(),
            "jj",
            &[
                "log",
                "--no-graph",
                "-r",
                "@",
                "-T",
                "change_id ++ \"\\n\" ++ commit_id.short()",
            ],
            "root123\nabc1234",
        ),
    ]);
    let root = parse(&[
        "cube",
        "change",
        "create",
        "--workspace",
        &workspace_path.display().to_string(),
        "--title",
        "Implement parser",
    ]);
    let root_result =
        run_with_dependencies(root, Some(&world), &root_runner).expect("root change");
    root_runner.assert_exhausted();
    let parent_change_id = root_result.payload["change"]["change_id"]
        .as_str()
        .expect("parent change id")
        .to_string();

    let child_runner = FakeRunner::new(vec![
        ExpectedCommand::ok(
            workspace_path.clone(),
            "jj",
            &["new", "root123", "-m", "Add tests"],
            "",
        ),
        ExpectedCommand::ok(
            workspace_path.clone(),
            "jj",
            &[
                "log",
                "--no-graph",
                "-r",
                "@",
                "-T",
                "change_id ++ \"\\n\" ++ commit_id.short()",
            ],
            "child456\nbcd2345",
        ),
    ]);
    let child = parse(&[
        "cube",
        "change",
        "create",
        "--parent",
        &parent_change_id,
        "--title",
        "Add tests",
    ]);
    let child_result =
        run_with_dependencies(child, Some(&world), &child_runner).expect("child");

    assert_eq!(
        child_result.payload["change"]["parent_change_id"],
        parent_change_id
    );
    assert_eq!(child_result.payload["change"]["jj_change_id"], "child456");
    child_runner.assert_exhausted();
}

#[test]
fn change_info_round_trips_record() {
    let (tempdir, world) = with_database_path();
    let workspace_root = tempdir.path().join("workspaces");
    world.create_dir_all(workspace_root.join("mono-agent-004").join(".jj")).expect("workspace dir");

    let add = parse(&[
        "cube",
        "repo",
        "add",
        "mono",
        "--origin",
        "git@github.com:spinyfin/mono.git",
        "--workspace-root",
        &workspace_root.display().to_string(),
        "--workspace-prefix",
        "mono-agent-",
    ]);
    run_with_dependencies(add, Some(&world), &FakeRunner::default()).expect("repo");

    let workspace_path = workspace_root.join("mono-agent-004");
    let lease_runner = FakeRunner::new(vec![
        ExpectedCommand::ok(workspace_path.clone(), "jj", &["status", "--no-pager"], "The working copy is clean"),
        ExpectedCommand::ok(workspace_path.clone(), "jj", &["git", "fetch"], ""),
        ExpectedCommand::ok(workspace_path.clone(), "jj", &["bookmark", "set", "main", "-r", "main@origin", "--allow-backwards"], ""),
        ExpectedCommand::ok(workspace_path.clone(), "jj", &["new", "main"], ""),
        ExpectedCommand::ok(
            workspace_path.clone(),
            "jj",
            &["log", "--no-graph", "-r", "@", "-T", "commit_id.short()"],
            "abc1234",
        ),
    ]);
    let lease = parse(&[
        "cube",
        "workspace",
        "lease",
        "mono",
        "--task",
        "implement cube",
    ]);
    run_with_dependencies(lease, Some(&world), &lease_runner).expect("lease");
    lease_runner.assert_exhausted();

    let change_runner = FakeRunner::new(vec![
        ExpectedCommand::ok(
            workspace_path.clone(),
            "jj",
            &["describe", "-m", "Implement parser"],
            "",
        ),
        ExpectedCommand::ok(
            workspace_path.clone(),
            "jj",
            &[
                "log",
                "--no-graph",
                "-r",
                "@",
                "-T",
                "change_id ++ \"\\n\" ++ commit_id.short()",
            ],
            "zxy123\nabc1234",
        ),
    ]);
    let create = parse(&[
        "cube",
        "change",
        "create",
        "--workspace",
        &workspace_path.display().to_string(),
        "--title",
        "Implement parser",
    ]);
    let create_result =
        run_with_dependencies(create, Some(&world), &change_runner).expect("change");
    change_runner.assert_exhausted();

    let change_id = create_result.payload["change"]["change_id"]
        .as_str()
        .expect("change id")
        .to_string();
    let info = parse(&["cube", "change", "info", "--change", &change_id]);
    let info_result = run_with_dependencies(info, Some(&world), &FakeRunner::default())
        .expect("info");

    assert_eq!(info_result.payload["change"]["change_id"], change_id);
    assert_eq!(info_result.payload["change"]["title"], "Implement parser");
}

#[test]
fn workspace_setup_returns_empty_when_no_setup_yaml() {
    let (tempdir, world) = with_database_path();
    let workspace_root = tempdir.path().join("workspaces");
    let workspace_path = workspace_root.join("mono-agent-001");
    world.create_dir_all(workspace_path.join(".jj")).unwrap();

    run_with_dependencies(
        add_repo_cli(&workspace_root),
        Some(&world),
        &FakeRunner::default(),
    )
    .expect("repo");

    let lease_runner = lease_runner_for(&workspace_path, "abc1234");
    run_with_dependencies(
        parse(&["cube", "workspace", "lease", "mono", "--task", "demo"]),
        Some(&world),
        &lease_runner,
    )
    .expect("lease");
    lease_runner.assert_exhausted();

    let setup_runner = FakeRunner::default();
    let setup = parse(&[
        "cube",
        "workspace",
        "setup",
        "--workspace",
        &workspace_path.display().to_string(),
    ]);
    let result =
        run_with_dependencies(setup, Some(&world), &setup_runner).expect("setup");
    setup_runner.assert_exhausted();
    assert_eq!(
        result.message,
        "No setup steps are configured for mono-agent-001."
    );
    assert_eq!(result.payload["setup"]["steps"], Value::Array(vec![]));
}

#[test]
fn workspace_release_gc_forgets_consumed_bookmarks() {
    let (tempdir, world) = with_database_path();
    let workspace_root = tempdir.path().join("workspaces");
    let workspace_path = workspace_root.join("mono-agent-001");
    world.create_dir_all(workspace_path.join(".jj")).expect("workspace dir");

    run_with_dependencies(
        add_repo_cli(&workspace_root),
        Some(&world),
        &FakeRunner::default(),
    )
    .expect("repo");

    let lease_runner = lease_runner_for(&workspace_path, "abc1234");
    let lease_result = run_with_dependencies(
        parse(&["cube", "workspace", "lease", "mono", "--task", "gc test"]),
        Some(&world),
        &lease_runner,
    )
    .expect("lease");
    lease_runner.assert_exhausted();
    let lease_id = lease_result.payload["workspace"]["lease_id"]
        .as_str()
        .unwrap()
        .to_string();

    let release_runner = FakeRunner::new(vec![
        ExpectedCommand::ok(workspace_path.clone(), "jj", &["git", "fetch"], ""),
        ExpectedCommand::ok(workspace_path.clone(), "jj", &["bookmark", "set", "main", "-r", "main@origin", "--allow-backwards"], ""),
        ExpectedCommand::ok(workspace_path.clone(), "jj", &["new", "main"], ""),
        ExpectedCommand::ok(
            workspace_path.clone(),
            "jj",
            &[
                "log",
                "-r",
                "bookmarks(glob:\"boss/exec_*\") & ::main",
                "--no-graph",
                "-T",
                "bookmarks ++ \"\\n\"",
            ],
            "boss/exec_18abcd_01",
        ),
        gc_pr_remote_noop_command(&workspace_path),
        ExpectedCommand::ok(
            workspace_path.clone(),
            "jj",
            &["bookmark", "forget", "boss/exec_18abcd_01"],
            "",
        ),
    ]);
    run_with_dependencies(
        parse(&["cube", "workspace", "release", "--lease", &lease_id]),
        Some(&world),
        &release_runner,
    )
    .expect("release");
    release_runner.assert_exhausted();
}

#[test]
fn workspace_gc_verb_forgets_consumed_bookmarks_on_free_workspaces() {
    let (tempdir, world) = with_database_path();
    let workspace_root = tempdir.path().join("workspaces");
    let ws1_path = workspace_root.join("mono-agent-001"); // will be leased
    let ws2_path = workspace_root.join("mono-agent-002"); // stays free
    world.create_dir_all(ws1_path.join(".jj")).expect("ws1 dir");
    world.create_dir_all(ws2_path.join(".jj")).expect("ws2 dir");

    run_with_dependencies(
        add_repo_cli(&workspace_root),
        Some(&world),
        &FakeRunner::default(),
    )
    .expect("repo");

    let lease_runner = lease_runner_for(&ws1_path, "abc1234");
    run_with_dependencies(
        parse(&["cube", "workspace", "lease", "mono", "--task", "keep leased"]),
        Some(&world),
        &lease_runner,
    )
    .expect("lease");
    lease_runner.assert_exhausted();

    let gc_runner = FakeRunner::new(vec![
        ExpectedCommand::ok(ws2_path.clone(), "jj", &["git", "fetch"], ""),
        ExpectedCommand::ok(
            ws2_path.clone(),
            "jj",
            &[
                "log",
                "-r",
                "bookmarks(glob:\"boss/exec_*\") & ::main",
                "--no-graph",
                "-T",
                "bookmarks ++ \"\\n\"",
            ],
            "boss/exec_dead_01",
        ),
        gc_pr_remote_noop_command(&ws2_path),
        ExpectedCommand::ok(
            ws2_path.clone(),
            "jj",
            &["bookmark", "forget", "boss/exec_dead_01"],
            "",
        ),
    ]);
    let gc_result = run_with_dependencies(
        parse(&["cube", "workspace", "gc"]),
        Some(&world),
        &gc_runner,
    )
    .expect("gc");
    gc_runner.assert_exhausted();

    let results = gc_result.payload["results"].as_array().unwrap();
    assert_eq!(results.len(), 2);

    let ws1_r = results
        .iter()
        .find(|r| r["workspace_id"] == "mono-agent-001")
        .unwrap();
    assert_eq!(ws1_r["skipped"], true);
    assert_eq!(ws1_r["skipped_reason"], "leased");

    let ws2_r = results
        .iter()
        .find(|r| r["workspace_id"] == "mono-agent-002")
        .unwrap();
    assert_eq!(ws2_r["skipped"], false);
    assert_eq!(ws2_r["bookmarks_forgotten"].as_array().unwrap().len(), 1);
    assert_eq!(ws2_r["bookmarks_forgotten"][0], "boss/exec_dead_01");
}

#[test]
fn workspace_gc_dry_run_lists_without_forgetting() {
    let (tempdir, world) = with_database_path();
    let workspace_root = tempdir.path().join("workspaces");
    let workspace_path = workspace_root.join("mono-agent-001");
    world.create_dir_all(workspace_path.join(".jj")).expect("workspace dir");

    run_with_dependencies(
        add_repo_cli(&workspace_root),
        Some(&world),
        &FakeRunner::default(),
    )
    .expect("repo");

    let lease_runner = lease_runner_for(&workspace_path, "abc1234");
    let lease_result = run_with_dependencies(
        parse(&["cube", "workspace", "lease", "mono", "--task", "seed"]),
        Some(&world),
        &lease_runner,
    )
    .expect("lease");
    lease_runner.assert_exhausted();
    let lease_id = lease_result.payload["workspace"]["lease_id"]
        .as_str()
        .unwrap()
        .to_string();
    let release_runner = release_runner_for(&workspace_path);
    run_with_dependencies(
        parse(&["cube", "workspace", "release", "--lease", &lease_id]),
        Some(&world),
        &release_runner,
    )
    .expect("release");
    release_runner.assert_exhausted();

    let gc_runner = FakeRunner::new(vec![
        ExpectedCommand::ok(workspace_path.clone(), "jj", &["git", "fetch"], ""),
        ExpectedCommand::ok(
            workspace_path.clone(),
            "jj",
            &[
                "log",
                "-r",
                "bookmarks(glob:\"boss/exec_*\") & ::main",
                "--no-graph",
                "-T",
                "bookmarks ++ \"\\n\"",
            ],
            "boss/exec_dry_01",
        ),
        gc_pr_remote_noop_command(&workspace_path),
    ]);
    let gc_result = run_with_dependencies(
        parse(&["cube", "workspace", "gc", "--dry-run"]),
        Some(&world),
        &gc_runner,
    )
    .expect("gc dry-run");
    gc_runner.assert_exhausted();

    assert!(gc_result.message.contains("dry-run"));
    let results = gc_result.payload["results"].as_array().unwrap();
    assert_eq!(results[0]["bookmarks_forgotten"].as_array().unwrap().len(), 1);
    assert_eq!(results[0]["bookmarks_forgotten"][0], "boss/exec_dry_01");
}

#[test]
fn gc_forgets_closed_pr_bookmark() {
    let (tempdir, world) = with_database_path();
    let workspace_root = tempdir.path().join("workspaces");
    let workspace_path = workspace_root.join("mono-agent-001");
    world.create_dir_all(workspace_path.join(".jj")).expect("workspace dir");

    run_with_dependencies(
        add_repo_cli(&workspace_root),
        Some(&world),
        &FakeRunner::default(),
    )
    .expect("repo");

    let lease_runner = lease_runner_for(&workspace_path, "abc1234");
    let lease_result = run_with_dependencies(
        parse(&["cube", "workspace", "lease", "mono", "--task", "pr gc test"]),
        Some(&world),
        &lease_runner,
    )
    .expect("lease");
    lease_runner.assert_exhausted();
    let lease_id = lease_result.payload["workspace"]["lease_id"]
        .as_str()
        .unwrap()
        .to_string();

    let release_runner = FakeRunner::new(vec![
        ExpectedCommand::ok(workspace_path.clone(), "jj", &["git", "fetch"], ""),
        ExpectedCommand::ok(workspace_path.clone(), "jj", &["bookmark", "set", "main", "-r", "main@origin", "--allow-backwards"], ""),
        ExpectedCommand::ok(workspace_path.clone(), "jj", &["new", "main"], ""),
        gc_noop_command(&workspace_path),
        ExpectedCommand::ok(workspace_path.clone(), "jj", &["git", "remote", "list"],
            "github\tgit@github.com:spinyfin/mono.git\norigin\t/local/mirror\n"),
        ExpectedCommand::ok(
            workspace_path.clone(), "jj",
            &["log", "-r", "bookmarks(glob:\"pr/*\")", "--no-graph", "-T", "bookmarks ++ \"\\n\""],
            "pr/42\n",
        ),
        ExpectedCommand::ok(
            workspace_path.clone(), "gh",
            &["pr", "view", "42", "-R", "spinyfin/mono", "--json", "state", "--jq", ".state"],
            "CLOSED",
        ),
        ExpectedCommand::ok(workspace_path.clone(), "jj", &["bookmark", "forget", "pr/42"], ""),
    ]);
    run_with_dependencies(
        parse(&["cube", "workspace", "release", "--lease", &lease_id]),
        Some(&world),
        &release_runner,
    )
    .expect("release");
    release_runner.assert_exhausted();
}

#[test]
fn gc_forgets_merged_pr_bookmark() {
    let (tempdir, world) = with_database_path();
    let workspace_root = tempdir.path().join("workspaces");
    let workspace_path = workspace_root.join("mono-agent-001");
    world.create_dir_all(workspace_path.join(".jj")).expect("workspace dir");

    run_with_dependencies(
        add_repo_cli(&workspace_root),
        Some(&world),
        &FakeRunner::default(),
    )
    .expect("repo");

    let lease_runner = lease_runner_for(&workspace_path, "abc1234");
    let lease_result = run_with_dependencies(
        parse(&["cube", "workspace", "lease", "mono", "--task", "pr gc merged"]),
        Some(&world),
        &lease_runner,
    )
    .expect("lease");
    lease_runner.assert_exhausted();
    let lease_id = lease_result.payload["workspace"]["lease_id"]
        .as_str()
        .unwrap()
        .to_string();

    let release_runner = FakeRunner::new(vec![
        ExpectedCommand::ok(workspace_path.clone(), "jj", &["git", "fetch"], ""),
        ExpectedCommand::ok(workspace_path.clone(), "jj", &["bookmark", "set", "main", "-r", "main@origin", "--allow-backwards"], ""),
        ExpectedCommand::ok(workspace_path.clone(), "jj", &["new", "main"], ""),
        gc_noop_command(&workspace_path),
        ExpectedCommand::ok(workspace_path.clone(), "jj", &["git", "remote", "list"],
            "github\tgit@github.com:spinyfin/mono.git\norigin\t/local/mirror\n"),
        ExpectedCommand::ok(
            workspace_path.clone(), "jj",
            &["log", "-r", "bookmarks(glob:\"pr/*\")", "--no-graph", "-T", "bookmarks ++ \"\\n\""],
            "pr/99\n",
        ),
        ExpectedCommand::ok(
            workspace_path.clone(), "gh",
            &["pr", "view", "99", "-R", "spinyfin/mono", "--json", "state", "--jq", ".state"],
            "MERGED",
        ),
        ExpectedCommand::ok(workspace_path.clone(), "jj", &["bookmark", "forget", "pr/99"], ""),
    ]);
    run_with_dependencies(
        parse(&["cube", "workspace", "release", "--lease", &lease_id]),
        Some(&world),
        &release_runner,
    )
    .expect("release");
    release_runner.assert_exhausted();
}

#[test]
fn gc_retains_open_pr_bookmark() {
    let (tempdir, world) = with_database_path();
    let workspace_root = tempdir.path().join("workspaces");
    let workspace_path = workspace_root.join("mono-agent-001");
    world.create_dir_all(workspace_path.join(".jj")).expect("workspace dir");

    run_with_dependencies(
        add_repo_cli(&workspace_root),
        Some(&world),
        &FakeRunner::default(),
    )
    .expect("repo");

    let lease_runner = lease_runner_for(&workspace_path, "abc1234");
    let lease_result = run_with_dependencies(
        parse(&["cube", "workspace", "lease", "mono", "--task", "pr gc open"]),
        Some(&world),
        &lease_runner,
    )
    .expect("lease");
    lease_runner.assert_exhausted();
    let lease_id = lease_result.payload["workspace"]["lease_id"]
        .as_str()
        .unwrap()
        .to_string();

    let release_runner = FakeRunner::new(vec![
        ExpectedCommand::ok(workspace_path.clone(), "jj", &["git", "fetch"], ""),
        ExpectedCommand::ok(workspace_path.clone(), "jj", &["bookmark", "set", "main", "-r", "main@origin", "--allow-backwards"], ""),
        ExpectedCommand::ok(workspace_path.clone(), "jj", &["new", "main"], ""),
        gc_noop_command(&workspace_path),
        ExpectedCommand::ok(workspace_path.clone(), "jj", &["git", "remote", "list"],
            "github\tgit@github.com:spinyfin/mono.git\norigin\t/local/mirror\n"),
        ExpectedCommand::ok(
            workspace_path.clone(), "jj",
            &["log", "-r", "bookmarks(glob:\"pr/*\")", "--no-graph", "-T", "bookmarks ++ \"\\n\""],
            "pr/7\n",
        ),
        ExpectedCommand::ok(
            workspace_path.clone(), "gh",
            &["pr", "view", "7", "-R", "spinyfin/mono", "--json", "state", "--jq", ".state"],
            "OPEN",
        ),
    ]);
    run_with_dependencies(
        parse(&["cube", "workspace", "release", "--lease", &lease_id]),
        Some(&world),
        &release_runner,
    )
    .expect("release");
    release_runner.assert_exhausted();
}

#[test]
fn gc_skips_pr_sweep_when_offline() {
    let (tempdir, world) = with_database_path();
    let workspace_root = tempdir.path().join("workspaces");
    let workspace_path = workspace_root.join("mono-agent-001");
    world.create_dir_all(workspace_path.join(".jj")).expect("workspace dir");

    run_with_dependencies(
        add_repo_cli(&workspace_root),
        Some(&world),
        &FakeRunner::default(),
    )
    .expect("repo");

    let lease_runner = lease_runner_for(&workspace_path, "abc1234");
    let lease_result = run_with_dependencies(
        parse(&["cube", "workspace", "lease", "mono", "--task", "offline gc"]),
        Some(&world),
        &lease_runner,
    )
    .expect("lease");
    lease_runner.assert_exhausted();
    let lease_id = lease_result.payload["workspace"]["lease_id"]
        .as_str()
        .unwrap()
        .to_string();

    let release_runner = FakeRunner::new(vec![
        ExpectedCommand::ok(workspace_path.clone(), "jj", &["git", "fetch"], ""),
        ExpectedCommand::ok(workspace_path.clone(), "jj", &["bookmark", "set", "main", "-r", "main@origin", "--allow-backwards"], ""),
        ExpectedCommand::ok(workspace_path.clone(), "jj", &["new", "main"], ""),
        gc_noop_command(&workspace_path),
        ExpectedCommand {
            cwd: workspace_path.clone(),
            program: "jj".to_string(),
            args: ["git", "remote", "list"].iter().map(|s| s.to_string()).collect(),
            result: Err(CubeError::CommandFailed {
                program: "jj".to_string(),
                args: vec!["git".to_string(), "remote".to_string(), "list".to_string()],
                status: Some(1),
                stderr: "no jj repo".to_string(),
            }),
            creates_dir: None,
        },
    ]);
    run_with_dependencies(
        parse(&["cube", "workspace", "release", "--lease", &lease_id]),
        Some(&world),
        &release_runner,
    )
    .expect("release");
    release_runner.assert_exhausted();
}

#[test]
fn auto_gc_updates_timestamp_when_stale() {
    let (tempdir, world) = with_database_path();
    let workspace_root = tempdir.path().join("workspaces");
    world.create_dir_all(workspace_root.join("mono-agent-001").join(".jj")).expect("dir");

    run_with_dependencies(
        add_repo_cli(&workspace_root),
        Some(&world),
        &FakeRunner::default(),
    )
    .expect("repo");

    let old_ts = current_epoch_s().unwrap() - (25 * 60 * 60);
    {
        let store = Store::open_at(&world).unwrap();
        store.set_pool_metadata_i("last_pool_gc_at", old_ts).unwrap();
    }

    let workspace_path = workspace_root.join("mono-agent-001");
    let lease_runner = lease_runner_for(&workspace_path, "abc1234");
    run_with_dependencies(
        parse(&["cube", "workspace", "lease", "mono", "--task", "stale gc test"]),
        Some(&world),
        &lease_runner,
    )
    .expect("lease");
    lease_runner.assert_exhausted();

    let store = Store::open_at(&world).unwrap();
    let ts = store
        .get_pool_metadata_i("last_pool_gc_at")
        .unwrap()
        .expect("last_pool_gc_at should be set");
    assert!(ts > old_ts, "last_pool_gc_at should have been updated");
    let now = current_epoch_s().unwrap();
    assert!(now - ts < 10, "last_pool_gc_at should be near now");
}

#[test]
fn auto_gc_skips_when_already_ran_within_24h() {
    let (tempdir, world) = with_database_path();
    let workspace_root = tempdir.path().join("workspaces");
    world.create_dir_all(workspace_root.join("mono-agent-001").join(".jj")).expect("dir");

    run_with_dependencies(
        add_repo_cli(&workspace_root),
        Some(&world),
        &FakeRunner::default(),
    )
    .expect("repo");

    let recent_ts = current_epoch_s().unwrap() - 3600;
    {
        let store = Store::open_at(&world).unwrap();
        store.set_pool_metadata_i("last_pool_gc_at", recent_ts).unwrap();
    }

    let workspace_path = workspace_root.join("mono-agent-001");
    let lease_runner = lease_runner_for(&workspace_path, "abc1234");
    run_with_dependencies(
        parse(&["cube", "workspace", "lease", "mono", "--task", "recent gc test"]),
        Some(&world),
        &lease_runner,
    )
    .expect("lease");
    lease_runner.assert_exhausted();

    let store = Store::open_at(&world).unwrap();
    let ts = store
        .get_pool_metadata_i("last_pool_gc_at")
        .unwrap()
        .expect("last_pool_gc_at should be set");
    assert_eq!(ts, recent_ts, "last_pool_gc_at should NOT change within 24h");
}

#[test]
fn workspace_setup_failure_surfaces_step_id_and_retains_lease() {
    let (tempdir, world) = with_database_path();
    let workspace_root = tempdir.path().join("workspaces");
    let workspace_path = workspace_root.join("mono-agent-001");
    world.create_dir_all(workspace_path.join(".jj")).unwrap();
    world
        .setup
        .borrow_mut()
        .push(("deps".to_string(), Step::Command("pnpm", &["install"])));

    run_with_dependencies(
        add_repo_cli(&workspace_root),
        Some(&world),
        &FakeRunner::default(),
    )
    .expect("repo");

    let failing = ExpectedCommand {
        cwd: workspace_path.clone(),
        program: "pnpm".to_string(),
        args: vec!["install".to_string()],
        result: Err(CubeError::CommandFailed {
            program: "pnpm".to_string(),
            args: vec!["install".to_string()],
            status: Some(1),
            stderr: "boom".to_string(),
        }),
        creates_dir: None,
    };
    let lease_runner = lease_runner_with_setup(&workspace_path, "abc1234", vec![failing]);

    let error = run_with_dependencies(
        parse(&["cube", "workspace", "lease", "mono", "--task", "demo"]),
        Some(&world),
        &lease_runner,
    )
    .expect_err("lease should surface setup failure");
    lease_runner.assert_exhausted();
    match error {
        CubeError::SetupStepFailed { step, error } => {
            assert_eq!(step, "deps");
            assert!(error.contains("pnpm"), "error mentions program: {error}");
        }
        other => panic!("unexpected error: {other:?}"),
    }

    let store = Store::open_at(&world).unwrap();
    let record = store
        .get_workspace_by_path(&workspace_path)
        .unwrap()
        .unwrap();
    assert_eq!(record.state, WorkspaceState::Leased);
    assert!(record.lease_id.is_some());
}

#[test]
fn workspace_lease_recovers_from_stale_jj_working_copy() {
    let (tempdir, world) = with_database_path();
    let workspace_root = tempdir.path().join("workspaces");
    let workspace_path = workspace_root.join("mono-agent-004");
    world.create_dir_all(workspace_path.join(".jj")).expect("workspace dir");

    run_with_dependencies(
        add_repo_cli(&workspace_root),
        Some(&world),
        &FakeRunner::default(),
    )
    .expect("repo");

    let runner = FakeRunner::new(vec![
        ExpectedCommand::ok(workspace_path.clone(), "jj", &["status", "--no-pager"], "The working copy is clean"),
        ExpectedCommand::stale(workspace_path.clone(), "jj", &["git", "fetch"]),
        ExpectedCommand::ok(
            workspace_path.clone(),
            "jj",
            &["workspace", "update-stale"],
            "Working copy now at: abc1234",
        ),
        ExpectedCommand::ok(workspace_path.clone(), "jj", &["git", "fetch"], ""),
        ExpectedCommand::ok(workspace_path.clone(), "jj", &["bookmark", "set", "main", "-r", "main@origin", "--allow-backwards"], ""),
        ExpectedCommand::ok(workspace_path.clone(), "jj", &["new", "main"], ""),
        ExpectedCommand::ok(
            workspace_path.clone(),
            "jj",
            &["log", "--no-graph", "-r", "@", "-T", "commit_id.short()"],
            "abc1234",
        ),
    ]);

    let result = run_with_dependencies(
        parse(&["cube", "workspace", "lease", "mono", "--task", "stale demo"]),
        Some(&world),
        &runner,
    )
    .expect("lease should auto-recover from stale");
    runner.assert_exhausted();

    assert_eq!(
        result.payload["workspace"]["workspace_id"],
        "mono-agent-004"
    );
    assert_eq!(result.payload["workspace"]["head_commit"], "abc1234");

    let logs = world.audit_log();
    assert!(
        logs.contains("\"event\":\"workspace.stale_recovered\""),
        "expected stale_recovered audit event, got: {logs}"
    );
    assert!(
        logs.contains(workspace_path.display().to_string().as_str()),
        "audit event should record the workspace path"
    );
}

#[test]
fn workspace_lease_surfaces_stale_recovery_failure() {
    let (tempdir, world) = with_database_path();
    let workspace_root = tempdir.path().join("workspaces");
    let workspace_path = workspace_root.join("mono-agent-004");
    world.create_dir_all(workspace_path.join(".jj")).expect("workspace dir");

    run_with_dependencies(
        add_repo_cli(&workspace_root),
        Some(&world),
        &FakeRunner::default(),
    )
    .expect("repo");

    let runner = FakeRunner::new(vec![
        ExpectedCommand::ok(workspace_path.clone(), "jj", &["status", "--no-pager"], "The working copy is clean"),
        ExpectedCommand::stale(workspace_path.clone(), "jj", &["git", "fetch"]),
        ExpectedCommand {
            cwd: workspace_path.clone(),
            program: "jj".to_string(),
            args: vec!["workspace".to_string(), "update-stale".to_string()],
            result: Err(CubeError::CommandFailed {
                program: "jj".to_string(),
                args: vec!["workspace".to_string(), "update-stale".to_string()],
                status: Some(1),
                stderr: "Error: workspace operation failed".to_string(),
            }),
            creates_dir: None,
        },
    ]);

    let error = run_with_dependencies(
        parse(&["cube", "workspace", "lease", "mono", "--task", "stale fail"]),
        Some(&world),
        &runner,
    )
    .expect_err("lease should fail when stale recovery itself fails");
    runner.assert_exhausted();

    match error {
        CubeError::StaleRecoveryFailed {
            workspace_path: path,
            cause,
        } => {
            assert_eq!(path, workspace_path);
            assert!(
                cause.contains("update-stale"),
                "cause should mention update-stale: {cause}"
            );
        }
        other => panic!("expected StaleRecoveryFailed, got {other:?}"),
    }
}

#[test]
fn workspace_lease_recovers_from_op_log_divergence() {
    let (tempdir, world) = with_database_path();
    let workspace_root = tempdir.path().join("workspaces");
    let workspace_path = workspace_root.join("mono-agent-004");
    world.create_dir_all(workspace_path.join(".jj")).expect("workspace dir");

    run_with_dependencies(
        add_repo_cli(&workspace_root),
        Some(&world),
        &FakeRunner::default(),
    )
    .expect("repo");

    let runner = FakeRunner::new(vec![
        ExpectedCommand::op_diverged(workspace_path.clone(), "jj", &["status", "--no-pager"]),
        ExpectedCommand::ok(
            workspace_path.clone(),
            "jj",
            &["workspace", "update-stale"],
            "Working copy now at: abc1234",
        ),
        ExpectedCommand::ok(workspace_path.clone(), "jj", &["status", "--no-pager"], "The working copy is clean"),
        ExpectedCommand::ok(workspace_path.clone(), "jj", &["git", "fetch"], ""),
        ExpectedCommand::ok(workspace_path.clone(), "jj", &["bookmark", "set", "main", "-r", "main@origin", "--allow-backwards"], ""),
        ExpectedCommand::ok(workspace_path.clone(), "jj", &["new", "main"], ""),
        ExpectedCommand::ok(
            workspace_path.clone(),
            "jj",
            &["log", "--no-graph", "-r", "@", "-T", "commit_id.short()"],
            "abc1234",
        ),
    ]);

    let result = run_with_dependencies(
        parse(&["cube", "workspace", "lease", "mono", "--task", "op-diverged demo"]),
        Some(&world),
        &runner,
    )
    .expect("lease should auto-recover from op-log divergence");
    runner.assert_exhausted();

    assert_eq!(
        result.payload["workspace"]["workspace_id"],
        "mono-agent-004"
    );
    assert_eq!(result.payload["workspace"]["head_commit"], "abc1234");

    let logs = world.audit_log();
    assert!(
        logs.contains("\"event\":\"workspace.op_diverged_recovered\""),
        "expected op_diverged_recovered audit event, got: {logs}"
    );
    assert!(
        logs.contains(workspace_path.display().to_string().as_str()),
        "audit event should record the workspace path"
    );
}

#[test]
fn workspace_lease_surfaces_op_diverged_recovery_failure() {
    let (tempdir, world) = with_database_path();
    let workspace_root = tempdir.path().join("workspaces");
    let workspace_path = workspace_root.join("mono-agent-004");
    world.create_dir_all(workspace_path.join(".jj")).expect("workspace dir");

    run_with_dependencies(
        add_repo_cli(&workspace_root),
        Some(&world),
        &FakeRunner::default(),
    )
    .expect("repo");

    let runner = FakeRunner::new(vec![
        ExpectedCommand::op_diverged(workspace_path.clone(), "jj", &["status", "--no-pager"]),
        ExpectedCommand {
            cwd: workspace_path.clone(),
            program: "jj".to_string(),
            args: vec!["workspace".to_string(), "update-stale".to_string()],
            result: Err(CubeError::CommandFailed {
                program: "jj".to_string(),
                args: vec!["workspace".to_string(), "update-stale".to_string()],
                status: Some(1),
                stderr: "Error: workspace operation failed".to_string(),
            }),
            creates_dir: None,
        },
    ]);

    let error = run_with_dependencies(
        parse(&["cube", "workspace", "lease", "mono", "--task", "op-diverged fail"]),
        Some(&world),
        &runner,
    )
    .expect_err("lease should fail when op-diverged recovery itself fails");
    runner.assert_exhausted();

    match error {
        CubeError::StaleRecoveryFailed {
            workspace_path: path,
            cause,
        } => {
            assert_eq!(path, workspace_path);
            assert!(
                cause.contains("update-stale"),
                "cause should mention update-stale: {cause}"
            );
        }
        other => panic!("expected StaleRecoveryFailed, got {other:?}"),
    }
}

#[test]
fn workspace_lease_colocate_inits_when_git_repo_has_no_jj() {
    let (tempdir, world) = with_database_path();
    let workspace_root = tempdir.path().join("workspaces");
    let workspace_path = workspace_root.join("mono-agent-004");
    world.create_dir_all(workspace_path.join(".jj")).expect("workspace dir");
    world.create_dir_all(workspace_path.join(".git")).expect(".git dir");

    run_with_dependencies(
        add_repo_cli(&workspace_root),
        Some(&world),
        &FakeRunner::default(),
    )
    .expect("repo");

    let runner = FakeRunner::new(vec![
        ExpectedCommand::no_jj_repo(workspace_path.clone(), "jj", &["status", "--no-pager"]),
        ExpectedCommand::ok(
            workspace_path.clone(),
            "jj",
            &["git", "init", "--colocate"],
            "",
        ),
        ExpectedCommand::ok(workspace_path.clone(), "jj", &["status", "--no-pager"], "The working copy is clean"),
        ExpectedCommand::ok(workspace_path.clone(), "jj", &["git", "fetch"], ""),
        ExpectedCommand::ok(workspace_path.clone(), "jj", &["bookmark", "set", "main", "-r", "main@origin", "--allow-backwards"], ""),
        ExpectedCommand::ok(workspace_path.clone(), "jj", &["new", "main"], ""),
        ExpectedCommand::ok(
            workspace_path.clone(),
            "jj",
            &["log", "--no-graph", "-r", "@", "-T", "commit_id.short()"],
            "abc1234",
        ),
    ]);

    let result = run_with_dependencies(
        parse(&["cube", "workspace", "lease", "mono", "--task", "colocate init demo"]),
        Some(&world),
        &runner,
    )
    .expect("lease should auto-recover by running jj git init --colocate");
    runner.assert_exhausted();

    assert_eq!(
        result.payload["workspace"]["workspace_id"],
        "mono-agent-004"
    );
    assert_eq!(result.payload["workspace"]["head_commit"], "abc1234");

    let logs = world.audit_log();
    assert!(
        logs.contains("\"event\":\"workspace.jj_colocate_initialised\""),
        "expected jj_colocate_initialised audit event, got: {logs}"
    );
    assert!(
        logs.contains(workspace_path.display().to_string().as_str()),
        "audit event should record the workspace path"
    );
}

#[test]
fn workspace_lease_self_heals_broken_empty_and_auto_creates() {
    let (tempdir, world) = with_database_path();
    let workspace_root = tempdir.path().join("workspaces");
    let husk_path = workspace_root.join("mono-agent-004");
    world.create_dir_all(&husk_path).expect("workspace dir");

    run_with_dependencies(
        add_repo_cli(&workspace_root),
        Some(&world),
        &FakeRunner::default(),
    )
    .expect("repo");

    let new_path = workspace_root.join("mono-agent-001");
    let staging = workspace_root.join(".incoming-mono-agent-001");
    let runner = FakeRunner::new(vec![
        ExpectedCommand::ok(
            workspace_root.clone(),
            "jj",
            &[
                "git",
                "clone",
                "--colocate",
                "git@github.com:spinyfin/mono.git",
                &staging.display().to_string(),
            ],
            "",
        )
        .creating_dir(staging.clone()),
        ExpectedCommand::ok(staging.clone(), "jj", &["bookmark", "track", "main@origin"], ""),
        ExpectedCommand::no_such_remote_bookmark(
            staging.clone(),
            "jj",
            &["bookmark", "track", "master@origin"],
        ),
        ExpectedCommand::ok(new_path.clone(), "jj", &["git", "fetch"], ""),
        ExpectedCommand::ok(new_path.clone(), "jj", &["bookmark", "set", "main", "-r", "main@origin", "--allow-backwards"], ""),
        ExpectedCommand::ok(new_path.clone(), "jj", &["new", "main"], ""),
        ExpectedCommand::ok(
            new_path.clone(),
            "jj",
            &["log", "--no-graph", "-r", "@", "-T", "commit_id.short()"],
            "abc1234",
        ),
    ]);

    let result = run_with_dependencies(
        parse(&["cube", "workspace", "lease", "mono", "--task", "no git dir"]),
        Some(&world),
        &runner,
    )
    .expect("lease should self-heal the husk and auto-create a fresh workspace");
    runner.assert_exhausted();

    assert_eq!(result.payload["workspace"]["workspace_id"], "mono-agent-001");
    assert_eq!(result.payload["workspace"]["state"], "leased");

    assert!(!world.is_there(&husk_path), "broken-empty husk should be removed");
    let store = Store::open_at(&world).unwrap();
    let rows = store
        .list_workspaces_filtered(&everything())
        .unwrap();
    let ids: Vec<_> = rows.iter().map(|r| r.workspace_id.as_str()).collect();
    assert!(!ids.contains(&"mono-agent-004"), "husk row should be forgotten; saw {ids:?}");
    assert!(ids.contains(&"mono-agent-001"), "fresh workspace should exist; saw {ids:?}");

    let events = world.events.borrow().clone();
    assert!(
        events.iter().any(|e| e["event"] == "workspace.broken_empty"),
        "expected workspace.broken_empty audit event; got: {events:?}"
    );
    assert!(
        events.iter().any(|e| e["event"] == "workspace.broken_empty_gc"
            && e["workspace_id"] == "mono-agent-004"),
        "expected workspace.broken_empty_gc audit event for the husk; got: {events:?}"
    );
}

#[test]
fn workspace_lease_self_heals_two_broken_empty_husks() {
    let (tempdir, world) = with_database_path();
    let workspace_root = tempdir.path().join("workspaces");
    let husk_a = workspace_root.join("mono-agent-027");
    let husk_b = workspace_root.join("mono-agent-028");
    world.create_dir_all(&husk_a).expect("husk a");
    world.create_dir_all(&husk_b).expect("husk b");

    run_with_dependencies(
        add_repo_cli(&workspace_root),
        Some(&world),
        &FakeRunner::default(),
    )
    .expect("repo");

    let new_path = workspace_root.join("mono-agent-001");
    let staging = workspace_root.join(".incoming-mono-agent-001");
    let runner = FakeRunner::new(vec![
        ExpectedCommand::ok(
            workspace_root.clone(),
            "jj",
            &[
                "git",
                "clone",
                "--colocate",
                "git@github.com:spinyfin/mono.git",
                &staging.display().to_string(),
            ],
            "",
        )
        .creating_dir(staging.clone()),
        ExpectedCommand::ok(staging.clone(), "jj", &["bookmark", "track", "main@origin"], ""),
        ExpectedCommand::no_such_remote_bookmark(
            staging.clone(),
            "jj",
            &["bookmark", "track", "master@origin"],
        ),
        ExpectedCommand::ok(new_path.clone(), "jj", &["git", "fetch"], ""),
        ExpectedCommand::ok(new_path.clone(), "jj", &["bookmark", "set", "main", "-r", "main@origin", "--allow-backwards"], ""),
        ExpectedCommand::ok(new_path.clone(), "jj", &["new", "main"], ""),
        ExpectedCommand::ok(
            new_path.clone(),
            "jj",
            &["log", "--no-graph", "-r", "@", "-T", "commit_id.short()"],
            "abc1234",
        ),
    ]);

    let result = run_with_dependencies(
        parse(&["cube", "workspace", "lease", "mono", "--task", "two husks"]),
        Some(&world),
        &runner,
    )
    .expect("lease should succeed by GC'ing both husks and auto-creating");
    runner.assert_exhausted();

    assert_eq!(result.payload["workspace"]["workspace_id"], "mono-agent-001");
    assert!(!world.is_there(&husk_a), "husk 027 should be removed");
    assert!(!world.is_there(&husk_b), "husk 028 should be removed");
}

#[test]
fn workspace_lease_gcs_broken_empty_and_keeps_dirty_then_auto_creates() {
    let (tempdir, world) = with_database_path();
    let workspace_root = tempdir.path().join("workspaces");
    let dirty_path = workspace_root.join("mono-agent-003");
    let husk_path = workspace_root.join("mono-agent-027");
    world.create_dir_all(dirty_path.join(".jj")).expect("dirty dir");
    world.create_dir_all(&husk_path).expect("husk dir");

    run_with_dependencies(
        add_repo_cli(&workspace_root),
        Some(&world),
        &FakeRunner::default(),
    )
    .expect("repo");

    let new_path = workspace_root.join("mono-agent-004");
    let staging = workspace_root.join(".incoming-mono-agent-004");
    let runner = FakeRunner::new(vec![
        ExpectedCommand::ok(dirty_path.clone(), "jj", &["status", "--no-pager"], jj_status_dirty()),
        ExpectedCommand::ok(
            workspace_root.clone(),
            "jj",
            &[
                "git",
                "clone",
                "--colocate",
                "git@github.com:spinyfin/mono.git",
                &staging.display().to_string(),
            ],
            "",
        )
        .creating_dir(staging.clone()),
        ExpectedCommand::ok(staging.clone(), "jj", &["bookmark", "track", "main@origin"], ""),
        ExpectedCommand::no_such_remote_bookmark(
            staging.clone(),
            "jj",
            &["bookmark", "track", "master@origin"],
        ),
        ExpectedCommand::ok(new_path.clone(), "jj", &["git", "fetch"], ""),
        ExpectedCommand::ok(new_path.clone(), "jj", &["bookmark", "set", "main", "-r", "main@origin", "--allow-backwards"], ""),
        ExpectedCommand::ok(new_path.clone(), "jj", &["new", "main"], ""),
        ExpectedCommand::ok(
            new_path.clone(),
            "jj",
            &["log", "--no-graph", "-r", "@", "-T", "commit_id.short()"],
            "abc1234",
        ),
    ]);

    let result = run_with_dependencies(
        parse(&["cube", "workspace", "lease", "mono", "--task", "dirty plus husk"]),
        Some(&world),
        &runner,
    )
    .expect("lease should succeed: GC the husk, keep the dirty one, auto-create");
    runner.assert_exhausted();

    assert_eq!(result.payload["workspace"]["workspace_id"], "mono-agent-004");
    assert!(!world.is_there(&husk_path), "broken-empty husk should be removed");
    assert!(world.is_there(&dirty_path), "dirty workspace must be left untouched");
    let store = Store::open_at(&world).unwrap();
    let dirty_row = store.get_workspace_by_path(&dirty_path).unwrap().unwrap();
    assert_eq!(
        dirty_row.health_status,
        Some(WorkspaceHealth::Dirty),
        "dirty workspace should still be marked dirty"
    );
}

#[test]
fn workspace_list_reconciles_free_row_whose_directory_is_missing() {
    let (tempdir, world) = with_database_path();
    let workspace_root = tempdir.path().join("workspaces");
    let workspace_path = workspace_root.join("mono-agent-007");
    world.create_dir_all(workspace_path.join(".jj")).expect("workspace dir");

    run_with_dependencies(
        add_repo_cli(&workspace_root),
        Some(&world),
        &FakeRunner::default(),
    )
    .expect("repo");

    {
        let store = Store::open_at(&world).unwrap();
        store
            .sync_workspaces(
                "mono",
                &[WorkspaceCandidate {
                    workspace_id: "mono-agent-007".to_string(),
                    workspace_path: text(&workspace_path),
                }],
            )
            .unwrap();
    }
    world.remove_dir_all(&workspace_path).expect("wipe workspace dir");

    let result = run_with_dependencies(
        parse(&["cube", "workspace", "list"]),
        Some(&world),
        &FakeRunner::default(),
    )
    .expect("list");

    assert_eq!(
        result.payload["reconciled"]["removed"][0]["workspace_id"],
        "mono-agent-007"
    );
    assert_eq!(
        result.payload["reconciled"]["removed"][0]["prior_state"],
        "free"
    );
    assert_eq!(result.payload["reconciled"]["held"], Value::Array(vec![]));
    assert_eq!(result.payload["workspaces"], Value::Array(vec![]));

    let store = Store::open_at(&world).unwrap();
    let remaining = store
        .list_workspaces_filtered(&everything())
        .unwrap();
    assert!(remaining.is_empty(), "row must be deleted by reconcile");

    let events = world.events.borrow().clone();
    let reconciled: Vec<_> = events
        .iter()
        .filter(|e| e["event"] == "workspace.dir_missing_reconciled")
        .collect();
    assert_eq!(reconciled.len(), 1);
    assert_eq!(reconciled[0]["repo"], "mono");
    assert_eq!(reconciled[0]["workspace_id"], "mono-agent-007");
    assert_eq!(reconciled[0]["prior_state"], "free");
}

#[test]
fn workspace_list_reconciles_leased_row_with_expired_lease() {
    let (tempdir, world) = with_database_path();
    let workspace_root = tempdir.path().join("workspaces");
    let workspace_path = workspace_root.join("mono-agent-001");
    world.create_dir_all(workspace_path.join(".jj")).expect("workspace dir");

    run_with_dependencies(
        add_repo_cli(&workspace_root),
        Some(&world),
        &FakeRunner::default(),
    )
    .expect("repo");

    let lease_runner = lease_runner_for(&workspace_path, "abc1234");
    let lease_result = run_with_dependencies(
        parse(&["cube", "workspace", "lease", "mono", "--task", "demo"]),
        Some(&world),
        &lease_runner,
    )
    .expect("lease");
    let lease_id = lease_result.payload["workspace"]["lease_id"]
        .as_str()
        .expect("lease id")
        .to_string();
    lease_runner.assert_exhausted();

    world.force_lease_expiry(&lease_id, 1);
    world.remove_dir_all(&workspace_path).expect("wipe workspace dir");

    let result = run_with_dependencies(
        parse(&["cube", "workspace", "list"]),
        Some(&world),
        &FakeRunner::default(),
    )
    .expect("list");

    assert_eq!(
        result.payload["reconciled"]["removed"][0]["workspace_id"],
        "mono-agent-001"
    );
    assert_eq!(
        result.payload["reconciled"]["removed"][0]["prior_state"],
        "leased"
    );
    assert_eq!(result.payload["reconciled"]["held"], Value::Array(vec![]));

    let store = Store::open_at(&world).unwrap();
    let remaining = store
        .list_workspaces_filtered(&everything())
        .unwrap();
    assert!(
        remaining.is_empty(),
        "expired+missing row must be force-released and deleted"
    );

    let events = world.events.borrow().clone();
    let reconciled: Vec<_> = events
        .iter()
        .filter(|e| e["event"] == "workspace.dir_missing_reconciled")
        .collect();
    assert_eq!(reconciled.len(), 1);
    assert_eq!(reconciled[0]["prior_state"], "leased");
    assert_eq!(reconciled[0]["lease_id"], lease_id);
}

#[test]
fn workspace_list_holds_leased_row_when_lease_still_active() {
    let (tempdir, world) = with_database_path();
    let workspace_root = tempdir.path().join("workspaces");
    let workspace_path = workspace_root.join("mono-agent-001");
    world.create_dir_all(workspace_path.join(".jj")).expect("workspace dir");

    run_with_dependencies(
        add_repo_cli(&workspace_root),
        Some(&world),
        &FakeRunner::default(),
    )
    .expect("repo");

    let lease_runner = lease_runner_for(&workspace_path, "abc1234");
    let lease_result = run_with_dependencies(
        parse(&["cube", "workspace", "lease", "mono", "--task", "demo"]),
        Some(&world),
        &lease_runner,
    )
    .expect("lease");
    let lease_id = lease_result.payload["workspace"]["lease_id"]
        .as_str()
        .expect("lease id")
        .to_string();
    lease_runner.assert_exhausted();

    let far_future = current_epoch_s().expect("now") + 86_400;
    world.force_lease_expiry(&lease_id, far_future);
    world.remove_dir_all(&workspace_path).expect("wipe workspace dir");

    let result = run_with_dependencies(
        parse(&["cube", "workspace", "list"]),
        Some(&world),
        &FakeRunner::default(),
    )
    .expect("list");

    assert_eq!(result.payload["reconciled"]["removed"], Value::Array(vec![]));
    assert_eq!(
        result.payload["reconciled"]["held"][0]["workspace_id"],
        "mono-agent-001"
    );
    assert_eq!(
        result.payload["reconciled"]["held"][0]["prior_state"],
        "leased"
    );

    let store = Store::open_at(&world).unwrap();
    let remaining = store
        .list_workspaces_filtered(&everything())
        .unwrap();
    assert_eq!(
        remaining.len(),
        1,
        "active-lease+missing row must be left in place"
    );
    assert_eq!(remaining[0].state, WorkspaceState::Leased);

    let events = world.events.borrow().clone();
    let held: Vec<_> = events
        .iter()
        .filter(|e| e["event"] == "workspace.dir_missing_held")
        .collect();
    assert_eq!(held.len(), 1);
    assert_eq!(held[0]["lease_id"], lease_id);
    assert_eq!(held[0]["lease_expires_at_epoch_s"], far_future);
}

#[test]
fn workspace_list_reconcile_is_noop_when_directories_exist() {
    let (tempdir, world) = with_database_path();
    let workspace_root = tempdir.path().join("workspaces");
    let workspace_path = workspace_root.join("mono-agent-001");
    world.create_dir_all(workspace_path.join(".jj")).expect("workspace dir");

    run_with_dependencies(
        add_repo_cli(&workspace_root),
        Some(&world),
        &FakeRunner::default(),
    )
    .expect("repo");

    {
        let store = Store::open_at(&world).unwrap();
        store
            .sync_workspaces(
                "mono",
                &[WorkspaceCandidate {
                    workspace_id: "mono-agent-001".to_string(),
                    workspace_path: text(&workspace_path),
                }],
            )
            .unwrap();
    }

    let result = run_with_dependencies(
        parse(&["cube", "workspace", "list"]),
        Some(&world),
        &FakeRunner::default(),
    )
    .expect("list");

    assert_eq!(result.payload["reconciled"]["removed"], Value::Array(vec![]));
    assert_eq!(result.payload["reconciled"]["held"], Value::Array(vec![]));
    assert!(world.events.borrow().clone().is_empty());
}

#[test]
fn workspace_list_reconciler_respects_repo_filter() {
    let (tempdir, world) = with_database_path();
    let workspace_root_a = tempdir.path().join("repos-a/workspaces");
    let workspace_root_b = tempdir.path().join("repos-b/workspaces");
    world.create_dir_all(workspace_root_a.join("mono-agent-001").join(".jj"))
        .expect("workspace dir a");
    world.create_dir_all(workspace_root_b.join("other-agent-001").join(".jj"))
        .expect("workspace dir b");

    run_with_dependencies(
        parse(&[
            "cube",
            "repo",
            "add",
            "mono",
            "--origin",
            "git@github.com:spinyfin/mono.git",
            "--workspace-root",
            &workspace_root_a.display().to_string(),
            "--workspace-prefix",
            "mono-agent-",
        ]),
        Some(&world),
        &FakeRunner::default(),
    )
    .expect("repo a");
    run_with_dependencies(
        parse(&[
            "cube",
            "repo",
            "add",
            "other",
            "--origin",
            "git@github.com:spinyfin/other.git",
            "--workspace-root",
            &workspace_root_b.display().to_string(),
            "--workspace-prefix",
            "other-agent-",
        ]),
        Some(&world),
        &FakeRunner::default(),
    )
    .expect("repo b");

    {
        let store = Store::open_at(&world).unwrap();
        store
            .sync_workspaces(
                "mono",
                &[WorkspaceCandidate {
                    workspace_id: "mono-agent-001".to_string(),
                    workspace_path: text(&workspace_root_a.join("mono-agent-001")),
                }],
            )
            .unwrap();
        store
            .sync_workspaces(
                "other",
                &[WorkspaceCandidate {
                    workspace_id: "other-agent-001".to_string(),
                    workspace_path: text(&workspace_root_b.join("other-agent-001")),
                }],
            )
            .unwrap();
    }
    world.remove_dir_all(workspace_root_a.join("mono-agent-001"))
        .expect("wipe a");
    world.remove_dir_all(workspace_root_b.join("other-agent-001"))
        .expect("wipe b");

    let result = run_with_dependencies(
        parse(&["cube", "workspace", "list", "--repo", "mono"]),
        Some(&world),
        &FakeRunner::default(),
    )
    .expect("list");

    let removed = result.payload["reconciled"]["removed"]
        .as_array()
        .unwrap();
    assert_eq!(removed.len(), 1);
    assert_eq!(removed[0]["repo"], "mono");

    let store = Store::open_at(&world).unwrap();
    let other = store
        .list_workspaces_filtered(&WorkspaceListFilter {
            repo: Some("other".to_string()),
            ..everything()
        })
        .unwrap();
    assert_eq!(other.len(), 1);
    assert_eq!(other[0].workspace_id, "other-agent-001");
}

#[test]
fn workspace_lease_reconciles_expired_missing_row_before_claiming() {
    let (tempdir, world) = with_database_path();
    let workspace_root = tempdir.path().join("workspaces");
    let workspace_path = workspace_root.join("mono-agent-001");
    world.create_dir_all(workspace_path.join(".jj")).expect("workspace dir");

    run_with_dependencies(
        add_repo_cli(&workspace_root),
        Some(&world),
        &FakeRunner::default(),
    )
    .expect("repo");

    let lease_runner = lease_runner_for(&workspace_path, "abc1234");
    let first = run_with_dependencies(
        parse(&["cube", "workspace", "lease", "mono", "--task", "demo"]),
        Some(&world),
        &lease_runner,
    )
    .expect("first lease");
    let lease_id = first.payload["workspace"]["lease_id"]
        .as_str()
        .expect("lease id")
        .to_string();
    lease_runner.assert_exhausted();

    world.force_lease_expiry(&lease_id, 1);
    world.remove_dir_all(&workspace_path).expect("wipe workspace dir");

    let new_path = workspace_root.join("mono-agent-001");
    let staging = workspace_root.join(".incoming-mono-agent-001");
    let runner = FakeRunner::new(vec![
        ExpectedCommand::ok(
            workspace_root.clone(),
            "jj",
            &[
                "git",
                "clone",
                "--colocate",
                "git@github.com:spinyfin/mono.git",
                &staging.display().to_string(),
            ],
            "",
        )
        .creating_dir(staging.clone()),
        ExpectedCommand::ok(
            staging.clone(),
            "jj",
            &["bookmark", "track", "main@origin"],
            "",
        ),
        ExpectedCommand::no_such_remote_bookmark(
            staging.clone(),
            "jj",
            &["bookmark", "track", "master@origin"],
        ),
        ExpectedCommand::ok(new_path.clone(), "jj", &["git", "fetch"], ""),
        ExpectedCommand::ok(new_path.clone(), "jj", &["bookmark", "set", "main", "-r", "main@origin", "--allow-backwards"], ""),
        ExpectedCommand::ok(new_path.clone(), "jj", &["new", "main"], ""),
        ExpectedCommand::ok(
            new_path.clone(),
            "jj",
            &["log", "--no-graph", "-r", "@", "-T", "commit_id.short()"],
            "def5678",
        ),
    ]);

    let second = run_with_dependencies(
        parse(&["cube", "workspace", "lease", "mono", "--task", "fresh"]),
        Some(&world),
        &runner,
    )
    .expect("second lease");
    runner.assert_exhausted();

    assert_eq!(
        second.payload["workspace"]["workspace_id"],
        "mono-agent-001"
    );

    let store = Store::open_at(&world).unwrap();
    let rows = store
        .list_workspaces_filtered(&everything())
        .unwrap();
    assert_eq!(rows.len(), 1);
    assert_eq!(rows[0].workspace_id, "mono-agent-001");
    assert_eq!(rows[0].state, WorkspaceState::Leased);

    let events = world.events.borrow().clone();
    let reconciled: Vec<_> = events
        .iter()
        .filter(|e| {
            e["event"] == "workspace.dir_missing_reconciled"
                && e["workspace_id"] == "mono-agent-001"
        })
        .collect();
    assert_eq!(reconciled.len(), 1);
}

#[test]
fn second_lease_refuses_to_reset_workspace_with_uncommitted_prior_work() {
    let (tempdir, world) = with_database_path();
    let workspace_root = tempdir.path().join("workspaces");
    let workspace_path = workspace_root.join("mono-agent-001");
    world.create_dir_all(workspace_path.join(".jj")).expect("workspace dir");

    run_with_dependencies(
        add_repo_cli(&workspace_root),
        Some(&world),
        &FakeRunner::default(),
    )
    .expect("repo");

    let lease_runner = lease_runner_for(&workspace_path, "abc1234");
    let first = run_with_dependencies(
        parse(&["cube", "workspace", "lease", "mono", "--task", "wip"]),
        Some(&world),
        &lease_runner,
    )
    .expect("first lease");
    let prior_lease_id = first.payload["workspace"]["lease_id"]
        .as_str()
        .expect("lease id")
        .to_string();
    lease_runner.assert_exhausted();

    world.force_lease_expiry(&prior_lease_id, 1);

    let probe_output = "abcd1234\tfalse\tfeature-bookmark";
    let second_runner = FakeRunner::new(vec![
        ExpectedCommand::ok(workspace_path.clone(), "jj", &["status", "--no-pager"], "The working copy is clean"),
        ExpectedCommand::ok(workspace_path.clone(), "jj", &["git", "fetch"], ""),
        ExpectedCommand::ok(
            workspace_path.clone(),
            "jj",
            &[
                "log",
                "--no-graph",
                "-r",
                "@",
                "-T",
                "change_id ++ \"\\t\" ++ empty ++ \"\\t\" ++ parents.map(|p| p.bookmarks().join(\",\")).join(\";\")",
            ],
            probe_output,
        ),
    ]);

    let err = run_with_dependencies(
        parse(&["cube", "workspace", "lease", "mono", "--task", "incoming"]),
        Some(&world),
        &second_runner,
    )
    .expect_err("second lease must refuse to clobber the WIP");

    match &err {
        CubeError::LeaseExpiredWorkspaceDirty {
            workspace_path: refused_path,
            prior_lease_id: refused_lease,
            ..
        } => {
            assert_eq!(refused_path, &workspace_path);
            assert_eq!(refused_lease, &prior_lease_id);
        }
        other => panic!("expected LeaseExpiredWorkspaceDirty, got {other:?}"),
    }
    second_runner.assert_exhausted();

    let events = world.events.borrow().clone();
    let refused: Vec<_> = events
        .iter()
        .filter(|e| e["event"] == "workspace.reset_refused_dirty")
        .collect();
    assert_eq!(refused.len(), 1, "expected one workspace.reset_refused_dirty event");
    assert_eq!(refused[0]["prior_lease_id"], prior_lease_id);
    assert_eq!(refused[0]["workspace_path"], workspace_path.display().to_string());

    let reclaimed: Vec<_> = events
        .iter()
        .filter(|e| e["event"] == "lease.expired_reclaimed")
        .collect();
    assert_eq!(reclaimed.len(), 1);
    assert_eq!(reclaimed[0]["prior_lease_id"], prior_lease_id);

    let store = Store::open_at(&world).unwrap();
    let rows = store
        .list_workspaces_filtered(&everything())
        .unwrap();
    assert_eq!(rows.len(), 1);
    assert_eq!(rows[0].state, WorkspaceState::Free);
    assert_eq!(rows[0].last_release_reason.as_deref(), Some("lease_setup_failed"));
}

#[test]
fn second_lease_resets_normally_when_at_is_clean_on_main() {
    let (tempdir, world) = with_database_path();
    let workspace_root = tempdir.path().join("workspaces");
    let workspace_path = workspace_root.join("mono-agent-001");
    world.create_dir_all(workspace_path.join(".jj")).expect("workspace dir");

    run_with_dependencies(
        add_repo_cli(&workspace_root),
        Some(&world),
        &FakeRunner::default(),
    )
    .expect("repo");

    let lease_runner = lease_runner_for(&workspace_path, "abc1234");
    let first = run_with_dependencies(
        parse(&["cube", "workspace", "lease", "mono", "--task", "wip"]),
        Some(&world),
        &lease_runner,
    )
    .expect("first lease");
    let prior_lease_id = first.payload["workspace"]["lease_id"]
        .as_str()
        .expect("lease id")
        .to_string();
    lease_runner.assert_exhausted();

    world.force_lease_expiry(&prior_lease_id, 1);

    let probe_output = "abcd1234\ttrue\tmain";
    let second_runner = FakeRunner::new(vec![
        ExpectedCommand::ok(workspace_path.clone(), "jj", &["status", "--no-pager"], "The working copy is clean"),
        ExpectedCommand::ok(workspace_path.clone(), "jj", &["git", "fetch"], ""),
        ExpectedCommand::ok(
            workspace_path.clone(),
            "jj",
            &[
                "log",
                "--no-graph",
                "-r",
                "@",
                "-T",
                "change_id ++ \"\\t\" ++ empty ++ \"\\t\" ++ parents.map(|p| p.bookmarks().join(\",\")).join(\";\")",
            ],
            probe_output,
        ),
        ExpectedCommand::ok(workspace_path.clone(), "jj", &["bookmark", "set", "main", "-r", "main@origin", "--allow-backwards"], ""),
        ExpectedCommand::ok(workspace_path.clone(), "jj", &["new", "main"], ""),
        ExpectedCommand::ok(
            workspace_path.clone(),
            "jj",
            &["log", "--no-graph", "-r", "@", "-T", "commit_id.short()"],
            "def5678",
        ),
    ]);

    run_with_dependencies(
        parse(&["cube", "workspace", "lease", "mono", "--task", "fresh"]),
        Some(&world),
        &second_runner,
    )
    .expect("second lease must succeed when the workspace is clean on main");
    second_runner.assert_exhausted();
}

#[test]
fn resume_pr_on_expired_lease_refuses_dirty_workspace() {
    let (tempdir, world) = with_database_path();
    let workspace_root = tempdir.path().join("workspaces");
    let workspace_path = workspace_root.join("mono-agent-001");
    world.create_dir_all(workspace_path.join(".jj")).expect("workspace dir");

    run_with_dependencies(
        add_repo_cli(&workspace_root),
        Some(&world),
        &FakeRunner::default(),
    )
    .expect("repo");

    let lease_runner = lease_runner_for(&workspace_path, "abc1234");
    let first = run_with_dependencies(
        parse(&["cube", "workspace", "lease", "mono", "--task", "wip"]),
        Some(&world),
        &lease_runner,
    )
    .expect("first lease");
    let prior_lease_id = first.payload["workspace"]["lease_id"]
        .as_str()
        .expect("lease id")
        .to_string();
    lease_runner.assert_exhausted();

    world.force_lease_expiry(&prior_lease_id, 1);

    let github_remote = "github";
    let remote_list = format!("origin\t/local/mirror\n{github_remote}\tgit@github.com:spinyfin/mono.git\n");
    let probe_output = "abcd1234\tfalse\tfeature-bookmark";
    let head_status_template = "change_id ++ \"\\t\" ++ empty ++ \"\\t\" ++ parents.map(|p| p.bookmarks().join(\",\")).join(\";\")";
    let second_runner = FakeRunner::new(vec![
        ExpectedCommand::ok(workspace_path.clone(), "jj", &["status", "--no-pager"], "The working copy is clean"),
        ExpectedCommand::ok(workspace_path.clone(), "jj", &["git", "remote", "list"], &remote_list),
        ExpectedCommand::ok(workspace_path.clone(), "jj", &["git", "fetch", "--remote", github_remote], ""),
        ExpectedCommand::ok(
            workspace_path.clone(),
            "jj",
            &["log", "--no-graph", "-r", "@", "-T", head_status_template],
            probe_output,
        ),
    ]);

    let err = run_with_dependencies(
        parse(&[
            "cube", "workspace", "lease", "mono",
            "--task", "resume dirty PR",
            "--resume-pr", "42",
        ]),
        Some(&world),
        &second_runner,
    )
    .expect_err("resume-pr on dirty expired workspace must refuse");

    match &err {
        CubeError::LeaseExpiredWorkspaceDirty {
            workspace_path: refused_path,
            prior_lease_id: refused_lease,
            ..
        } => {
            assert_eq!(refused_path, &workspace_path);
            assert_eq!(refused_lease, &prior_lease_id);
        }
        other => panic!("expected LeaseExpiredWorkspaceDirty, got {other:?}"),
    }
    second_runner.assert_exhausted();

    let store = Store::open_at(&world).unwrap();
    let rows = store
        .list_workspaces_filtered(&everything())
        .unwrap();
    assert_eq!(rows.len(), 1);
    assert_eq!(rows[0].state, WorkspaceState::Free);
    assert_eq!(rows[0].last_release_reason.as_deref(), Some("lease_setup_failed"));
}

#[test]
fn run_jj_propagates_non_stale_errors_unchanged() {
    let runner = FakeRunner::new(vec![ExpectedCommand {
        cwd: PathBuf::from("/tmp/ws"),
        program: "jj".to_string(),
        args: vec!["status".to_string()],
        result: Err(CubeError::CommandFailed {
            program: "jj".to_string(),
            args: vec!["status".to_string()],
            status: Some(1),
            stderr: "Error: something else entirely".to_string(),
        }),
        creates_dir: None,
    }]);

    let invocation = CommandInvocation {
        cwd: "/tmp/ws".to_string(),
        program: "jj".to_string(),
        args: vec!["status".to_string()],
    };
    let world = World::at("/data");
    let err = drive(&world, &runner, |tape| run_jj(tape, &invocation))
        .expect_err("non-stale failure should propagate");
    runner.assert_exhausted();
    assert!(
        matches!(err, CubeError::CommandFailed { .. }),
        "expected CommandFailed, got {err:?}"
    );
}

#[test]
fn workspace_dir_create_error_has_specific_variant() {
    let (tempdir, world) = with_database_path();
    let workspace_root = tempdir.path().join("workspaces");

    world.write(&workspace_root, "not a dir").expect("write sentinel file");

    let defaults = RepoEnsureDefaults {
        repo_root: text(&tempdir.path().join("repos")),
        workspace_root: text(&workspace_root),
    };

    let cli = parse(&["cube", "repo", "ensure", "--origin", "https://github.com/example/repo"]);
    let runner = FakeRunner::default();
    let err = run_with_context(cli, Some(&world), &runner, Some(&defaults), None)
        .expect_err("should fail because workspace_root is a file");

    assert!(
        matches!(err, CubeError::WorkspaceDirCreate { ref path, .. } if *path == text(&workspace_root)),
        "expected WorkspaceDirCreate, got: {err:?}"
    );
}

#[test]
fn is_stdin_path_recognises_known_aliases() {
    assert!(is_stdin_path("/dev/stdin"));
    assert!(is_stdin_path("-"));
    assert!(is_stdin_path("/dev/fd/0"));
}

#[test]
fn is_stdin_path_does_not_match_regular_paths() {
    assert!(!is_stdin_path("/tmp/pr-body.md"));
    assert!(!is_stdin_path("/dev/null"));
    assert!(!is_stdin_path(""));
}

#[test]
fn ensure_pr_uses_body_file_flag_not_body_flag() {
    let body_content =
        "Use `rustc --help` or `$(cargo --version)` or ${CARGO_HOME}.\n\nMore `code`.";
    let (tempdir, world) = with_database_path();
    let tmp = tempdir.path().join("body.md");
    world.write(&tmp, body_content).expect("write body");
    let body_path = text(&tmp);

    let cwd = current_dir();
    let runner = FakeRunner::new(vec![
        ExpectedCommand::ok(
            cwd.clone(),
            "jj",
            &["git", "remote", "list"],
            "origin\tgit@github.com:spinyfin/mono.git\n",
        ),
        ExpectedCommand::ok(
            cwd.clone(),
            "jj",
            &[
                "git", "push", "-b", "my-feature", "--remote", "origin", "--allow-new",
            ],
            "",
        ),
        ExpectedCommand::ok(
            cwd.clone(),
            "jj",
            &["log", "-r", "my-feature", "--no-graph", "-T", "commit_id"],
            "abc123\n",
        ),
        ExpectedCommand::ok(
            cwd.clone(),
            "gh",
            &[
                "api",
                "repos/spinyfin/mono/branches/my-feature",
                "--jq",
                ".commit.sha",
            ],
            "abc123\n",
        ),
        ExpectedCommand::ok(
            cwd.clone(),
            "gh",
            &[
                "pr", "list", "-R", "spinyfin/mono", "--head", "my-feature", "--state",
                "open", "--json", "url",
            ],
            "[]",
        ),
        ExpectedCommand::ok(
            cwd.clone(),
            "gh",
            &[
                "pr",
                "create",
                "-R",
                "spinyfin/mono",
                "--head",
                "my-feature",
                "--base",
                "main",
                "--title",
                "Test PR",
                "--body-file",
                &body_path,
            ],
            "https://github.com/spinyfin/mono/pull/99",
        ),
        ExpectedCommand::ok(
            cwd.clone(),
            "jj",
            &["bookmark", "set", "pr/99", "-r", "my-feature"],
            "",
        ),
    ]);

    let cli = parse(&[
        "cube",
        "pr",
        "ensure",
        "--branch",
        "my-feature",
        "--title",
        "Test PR",
        "--body-file",
        &body_path,
    ]);
    let result =
        run_with_dependencies(cli, Some(&world), &runner).expect("ensure_pr with --body-file");
    runner.assert_exhausted();

    assert_eq!(result.payload["url"], "https://github.com/spinyfin/mono/pull/99");
    let body_on_disk = world.read_to_string(&tmp).expect("read body");
    assert_eq!(body_on_disk, body_content);
}

#[test]
fn ensure_pr_created_json_has_action_url_number() {
    let cwd = current_dir();
    let runner = FakeRunner::new(vec![
        ExpectedCommand::ok(
            cwd.clone(),
            "jj",
            &["git", "remote", "list"],
            "origin\tgit@github.com:spinyfin/mono.git\n",
        ),
        ExpectedCommand::ok(
            cwd.clone(),
            "jj",
            &[
                "git", "push", "-b", "my-feature", "--remote", "origin", "--allow-new",
            ],
            "",
        ),
        ExpectedCommand::ok(
            cwd.clone(),
            "jj",
            &["log", "-r", "my-feature", "--no-graph", "-T", "commit_id"],
            "abc123\n",
        ),
        ExpectedCommand::ok(
            cwd.clone(),
            "gh",
            &[
                "api",
                "repos/spinyfin/mono/branches/my-feature",
                "--jq",
                ".commit.sha",
            ],
            "abc123\n",
        ),
        ExpectedCommand::ok(
            cwd.clone(),
            "gh",
            &[
                "pr", "list", "-R", "spinyfin/mono", "--head", "my-feature", "--state",
                "open", "--json", "url",
            ],
            "[]",
        ),
        ExpectedCommand::ok(
            cwd.clone(),
            "gh",
            &[
                "pr", "create", "-R", "spinyfin/mono", "--head", "my-feature", "--base",
                "main", "--title", "New PR",
            ],
            "https://github.com/spinyfin/mono/pull/42",
        ),
        ExpectedCommand::ok(
            cwd.clone(),
            "jj",
            &["bookmark", "set", "pr/42", "-r", "my-feature"],
            "",
        ),
    ]);

    let cli = parse(&[
        "cube", "pr", "ensure", "--branch", "my-feature", "--title", "New PR",
    ]);
    let result = run_with_dependencies(cli, None, &runner).expect("ensure_pr created");
    runner.assert_exhausted();

    assert_eq!(result.message, "https://github.com/spinyfin/mono/pull/42");
    assert_eq!(result.payload["action"], "created");
    assert_eq!(result.payload["url"], "https://github.com/spinyfin/mono/pull/42");
    assert_eq!(result.payload["number"], 42);
    assert_eq!(result.payload["pr_bookmark"], "pr/42");
}

#[test]
fn ensure_pr_exists_json_has_action_url_number() {
    let cwd = current_dir();
    let runner = FakeRunner::new(vec![
        ExpectedCommand::ok(
            cwd.clone(),
            "jj",
            &["git", "remote", "list"],
            "origin\tgit@github.com:spinyfin/mono.git\n",
        ),
        ExpectedCommand::ok(
            cwd.clone(),
            "jj",
            &[
                "git", "push", "-b", "my-feature", "--remote", "origin", "--allow-new",
            ],
            "",
        ),
        ExpectedCommand::ok(
            cwd.clone(),
            "jj",
            &["log", "-r", "my-feature", "--no-graph", "-T", "commit_id"],
            "abc123\n",
        ),
        ExpectedCommand::ok(
            cwd.clone(),
            "gh",
            &[
                "api",
                "repos/spinyfin/mono/branches/my-feature",
                "--jq",
                ".commit.sha",
            ],
            "abc123\n",
        ),
        ExpectedCommand::ok(
            cwd.clone(),
            "gh",
            &[
                "pr", "list", "-R", "spinyfin/mono", "--head", "my-feature", "--state",
                "open", "--json", "url",
            ],
            r#"[{"url":"https://github.com/spinyfin/mono/pull/7"}]"#,
        ),
        ExpectedCommand::ok(
            cwd.clone(),
            "jj",
            &["bookmark", "set", "pr/7", "-r", "my-feature"],
            "",
        ),
    ]);

    let cli = parse(&[
        "cube", "pr", "ensure", "--branch", "my-feature", "--title", "Existing PR",
    ]);
    let result = run_with_dependencies(cli, None, &runner).expect("ensure_pr exists");
    runner.assert_exhausted();

    assert_eq!(result.message, "https://github.com/spinyfin/mono/pull/7");
    assert_eq!(result.payload["action"], "exists");
    assert_eq!(result.payload["url"], "https://github.com/spinyfin/mono/pull/7");
    assert_eq!(result.payload["number"], 7);
    assert_eq!(result.payload["pr_bookmark"], "pr/7");
}

#[test]
fn ensure_pr_pushes_to_github_remote_not_local_mirror() {
    let cwd = current_dir();
    let runner = FakeRunner::new(vec![
        ExpectedCommand::ok(
            cwd.clone(),
            "jj",
            &["git", "remote", "list"],
            "origin\t/Users/bduff/dev/agents/repos/mono\n\
             github\tgit@github.com:spinyfin/mono.git\n",
        ),
        ExpectedCommand::ok(
            cwd.clone(),
            "jj",
            &[
                "git", "push", "-b", "my-feature", "--remote", "github", "--allow-new",
            ],
            "",
        ),
        ExpectedCommand::ok(
            cwd.clone(),
            "jj",
            &["log", "-r", "my-feature", "--no-graph", "-T", "commit_id"],
            "deadbeef\n",
        ),
        ExpectedCommand::ok(
            cwd.clone(),
            "gh",
            &[
                "api",
                "repos/spinyfin/mono/branches/my-feature",
                "--jq",
                ".commit.sha",
            ],
            "deadbeef\n",
        ),
        ExpectedCommand::ok(
            cwd.clone(),
            "gh",
            &[
                "pr", "list", "-R", "spinyfin/mono", "--head", "my-feature", "--state",
                "open", "--json", "url",
            ],
            "[]",
        ),
        ExpectedCommand::ok(
            cwd.clone(),
            "gh",
            &[
                "pr", "create", "-R", "spinyfin/mono", "--head", "my-feature", "--base",
                "main", "--title", "New PR",
            ],
            "https://github.com/spinyfin/mono/pull/77",
        ),
        ExpectedCommand::ok(
            cwd.clone(),
            "jj",
            &["bookmark", "set", "pr/77", "-r", "my-feature"],
            "",
        ),
    ]);

    let cli = parse(&[
        "cube", "pr", "ensure", "--branch", "my-feature", "--title", "New PR",
    ]);
    let result = run_with_dependencies(cli, None, &runner).expect("ensure_pr created");
    runner.assert_exhausted();
    assert_eq!(result.payload["url"], "https://github.com/spinyfin/mono/pull/77");
}

#[test]
fn ensure_pr_fails_loudly_when_push_did_not_reach_github() {
    let cwd = current_dir();
    let runner = FakeRunner::new(vec![
        ExpectedCommand::ok(
            cwd.clone(),
            "jj",
            &["git", "remote", "list"],
            "origin\tgit@github.com:spinyfin/mono.git\n",
        ),
        ExpectedCommand::ok(
            cwd.clone(),
            "jj",
            &[
                "git", "push", "-b", "my-feature", "--remote", "origin", "--allow-new",
            ],
            "",
        ),
        ExpectedCommand::ok(
            cwd.clone(),
            "jj",
            &["log", "-r", "my-feature", "--no-graph", "-T", "commit_id"],
            "4ce6198\n",
        ),
        ExpectedCommand::ok(
            cwd.clone(),
            "gh",
            &[
                "api",
                "repos/spinyfin/mono/branches/my-feature",
                "--jq",
                ".commit.sha",
            ],
            "2f8dd09\n",
        ),
    ]);

    let cli = parse(&[
        "cube", "pr", "ensure", "--branch", "my-feature", "--title", "New PR",
    ]);
    let err = run_with_dependencies(cli, None, &runner)
        .expect_err("ensure_pr should fail when push did not reach GitHub");
    runner.assert_exhausted();
    let msg = err.message();
    assert!(
        msg.contains("push verification failed") && msg.contains("4ce6198") && msg.contains("2f8dd09"),
        "error should name the mismatch loudly: {msg}"
    );
}

#[test]
fn ensure_pr_guard_rejects_pr_bookmark_branch_arg() {
    let cwd = current_dir();
    let runner = FakeRunner::new(vec![
        ExpectedCommand::ok(
            cwd.clone(),
            "jj",
            &["git", "remote", "list"],
            "origin\tgit@github.com:spinyfin/mono.git\n",
        ),
    ]);

    let cli = parse(&["cube", "pr", "ensure", "--branch", "pr/42"]);
    let err = run_with_dependencies(cli, None, &runner)
        .expect_err("ensure_pr should refuse a pr/* branch");
    runner.assert_exhausted();
    let msg = err.message();
    assert!(
        msg.contains("pr/42") && msg.contains("reserved"),
        "error should mention the bookmark and reserved: {msg}"
    );
}

#[test]
fn ensure_pr_sets_pr_bookmark_on_create() {
    let cwd = current_dir();
    let runner = FakeRunner::new(vec![
        ExpectedCommand::ok(
            cwd.clone(),
            "jj",
            &["git", "remote", "list"],
            "origin\tgit@github.com:spinyfin/mono.git\n",
        ),
        ExpectedCommand::ok(
            cwd.clone(),
            "jj",
            &[
                "git", "push", "-b", "my-feature", "--remote", "origin", "--allow-new",
            ],
            "",
        ),
        ExpectedCommand::ok(
            cwd.clone(),
            "jj",
            &["log", "-r", "my-feature", "--no-graph", "-T", "commit_id"],
            "abc123\n",
        ),
        ExpectedCommand::ok(
            cwd.clone(),
            "gh",
            &[
                "api",
                "repos/spinyfin/mono/branches/my-feature",
                "--jq",
                ".commit.sha",
            ],
            "abc123\n",
        ),
        ExpectedCommand::ok(
            cwd.clone(),
            "gh",
            &[
                "pr", "list", "-R", "spinyfin/mono", "--head", "my-feature", "--state",
                "open", "--json", "url",
            ],
            "[]",
        ),
        ExpectedCommand::ok(
            cwd.clone(),
            "gh",
            &[
                "pr", "create", "-R", "spinyfin/mono", "--head", "my-feature", "--base",
                "main", "--title", "My Feature",
            ],
            "https://github.com/spinyfin/mono/pull/55",
        ),
        ExpectedCommand::ok(
            cwd.clone(),
            "jj",
            &["bookmark", "set", "pr/55", "-r", "my-feature"],
            "",
        ),
    ]);

    let cli = parse(&[
        "cube", "pr", "ensure", "--branch", "my-feature", "--title", "My Feature",
    ]);
    let result = run_with_dependencies(cli, None, &runner).expect("ensure_pr create+bookmark");
    runner.assert_exhausted();

    assert_eq!(result.payload["pr_bookmark"], "pr/55");
}

#[test]
fn ensure_pr_sets_pr_bookmark_on_existing_pr() {
    let cwd = current_dir();
    let runner = FakeRunner::new(vec![
        ExpectedCommand::ok(
            cwd.clone(),
            "jj",
            &["git", "remote", "list"],
            "origin\tgit@github.com:spinyfin/mono.git\n",
        ),
        ExpectedCommand::ok(
            cwd.clone(),
            "jj",
            &[
                "git", "push", "-b", "my-feature", "--remote", "origin", "--allow-new",
            ],
            "",
        ),
        ExpectedCommand::ok(
            cwd.clone(),
            "jj",
            &["log", "-r", "my-feature", "--no-graph", "-T", "commit_id"],
            "abc123\n",
        ),
        ExpectedCommand::ok(
            cwd.clone(),
            "gh",
            &[
                "api",
                "repos/spinyfin/mono/branches/my-feature",
                "--jq",
                ".commit.sha",
            ],
            "abc123\n",
        ),
        ExpectedCommand::ok(
            cwd.clone(),
            "gh",
            &[
                "pr", "list", "-R", "spinyfin/mono", "--head", "my-feature", "--state",
                "open", "--json", "url",
            ],
            r#"[{"url":"https://github.com/spinyfin/mono/pull/33"}]"#,
        ),
        ExpectedCommand::ok(
            cwd.clone(),
            "jj",
            &["bookmark", "set", "pr/33", "-r", "my-feature"],
            "",
        ),
    ]);

    let cli = parse(&[
        "cube", "pr", "ensure", "--branch", "my-feature", "--title", "My Feature",
    ]);
    let result =
        run_with_dependencies(cli, None, &runner).expect("ensure_pr exists+bookmark");
    runner.assert_exhausted();

    assert_eq!(result.payload["action"], "exists");
    assert_eq!(result.payload["pr_bookmark"], "pr/33");
}

#[test]
fn ensure_pr_errors_on_multiple_open_prs() {
    let cwd = current_dir();
    let runner = FakeRunner::new(vec![
        ExpectedCommand::ok(
            cwd.clone(),
            "jj",
            &["git", "remote", "list"],
            "origin\tgit@github.com:spinyfin/mono.git\n",
        ),
        ExpectedCommand::ok(
            cwd.clone(),
            "jj",
            &[
                "git", "push", "-b", "my-feature", "--remote", "origin", "--allow-new",
            ],
            "",
        ),
        ExpectedCommand::ok(
            cwd.clone(),
            "jj",
            &["log", "-r", "my-feature", "--no-graph", "-T", "commit_id"],
            "abc123\n",
        ),
        ExpectedCommand::ok(
            cwd.clone(),
            "gh",
            &[
                "api",
                "repos/spinyfin/mono/branches/my-feature",
                "--jq",
                ".commit.sha",
            ],
            "abc123\n",
        ),
        ExpectedCommand::ok(
            cwd.clone(),
            "gh",
            &[
                "pr", "list", "-R", "spinyfin/mono", "--head", "my-feature", "--state",
                "open", "--json", "url",
            ],
            r#"[{"url":"https://github.com/spinyfin/mono/pull/10"},{"url":"https://github.com/spinyfin/mono/pull/11"}]"#,
        ),
    ]);

    let cli = parse(&[
        "cube", "pr", "ensure", "--branch", "my-feature", "--title", "My Feature",
    ]);
    let err = run_with_dependencies(cli, None, &runner)
        .expect_err("ensure_pr should fail on >1 open PRs");
    runner.assert_exhausted();
    let msg = err.message();
    assert!(
        msg.contains("2") && msg.contains("my-feature"),
        "error should mention count and branch: {msg}"
    );
}

#[test]
fn pr_push_happy_path_advance() {
    let cwd = current_dir();
    let runner = FakeRunner::new(vec![
        ExpectedCommand::ok(cwd.clone(), "jj", &["git", "remote", "list"], remote_list_github()),
        ExpectedCommand::ok(
            cwd.clone(), "gh",
            &["pr", "view", "42", "-R", "spinyfin/mono", "--json", "state"],
            r#"{"state":"OPEN"}"#,
        ),
        ExpectedCommand::ok(cwd.clone(), "jj", &["log", "-r", "@", "--no-graph", "-T", "empty"], "false"),
        ExpectedCommand::ok(
            cwd.clone(), "jj",
            &["log", "-r", "pr/42 & ancestors(@)", "--no-graph", "-T", "commit_id"],
            "aabbcc\n",
        ),
        ExpectedCommand::ok(cwd.clone(), "jj", &["bookmark", "set", "boss/exec_abc", "-r", "@"], ""),
        ExpectedCommand::ok(cwd.clone(), "jj", &["bookmark", "set", "pr/42", "-r", "@"], ""),
        ExpectedCommand::ok(
            cwd.clone(), "jj",
            &["git", "push", "-b", "boss/exec_abc", "--remote", "github"],
            "",
        ),
        ExpectedCommand::ok(
            cwd.clone(), "jj",
            &["log", "-r", "boss/exec_abc", "--no-graph", "-T", "commit_id"],
            "deadbeef\n",
        ),
        ExpectedCommand::ok(
            cwd.clone(), "gh",
            &["api", "repos/spinyfin/mono/branches/boss/exec_abc", "--jq", ".commit.sha"],
            "deadbeef\n",
        ),
    ]);

    let cli = parse(&[
        "cube", "pr", "push", "--pr", "42", "--branch", "boss/exec_abc",
    ]);
    let result = run_with_dependencies(cli, None, &runner).expect("pr_push happy path");
    runner.assert_exhausted();
    assert_eq!(result.payload["action"], "pushed");
    assert_eq!(result.payload["number"], 42);
    assert!(result.payload["url"].as_str().unwrap().contains("/pull/42"));
}

#[test]
fn pr_push_noop_idempotency() {
    let cwd = current_dir();
    let runner = FakeRunner::new(vec![
        ExpectedCommand::ok(cwd.clone(), "jj", &["git", "remote", "list"], remote_list_github()),
        ExpectedCommand::ok(
            cwd.clone(), "gh",
            &["pr", "view", "42", "-R", "spinyfin/mono", "--json", "state"],
            r#"{"state":"OPEN"}"#,
        ),
        ExpectedCommand::ok(cwd.clone(), "jj", &["log", "-r", "@", "--no-graph", "-T", "empty"], "true"),
        ExpectedCommand::ok(
            cwd.clone(), "gh",
            &["api", "repos/spinyfin/mono/branches/boss/exec_abc", "--jq", ".commit.sha"],
            "abc123\n",
        ),
        ExpectedCommand::ok(
            cwd.clone(), "jj",
            &["log", "-r", "pr/42", "--no-graph", "-T", "commit_id"],
            "abc123\n",
        ),
    ]);

    let cli = parse(&[
        "cube", "pr", "push", "--pr", "42", "--branch", "boss/exec_abc",
    ]);
    let result = run_with_dependencies(cli, None, &runner).expect("pr_push noop");
    runner.assert_exhausted();
    assert_eq!(result.payload["action"], "noop");
    assert_eq!(result.payload["number"], 42);
}

#[test]
fn pr_push_empty_at_nothing_to_land() {
    let cwd = current_dir();
    let runner = FakeRunner::new(vec![
        ExpectedCommand::ok(cwd.clone(), "jj", &["git", "remote", "list"], remote_list_github()),
        ExpectedCommand::ok(
            cwd.clone(), "gh",
            &["pr", "view", "42", "-R", "spinyfin/mono", "--json", "state"],
            r#"{"state":"OPEN"}"#,
        ),
        ExpectedCommand::ok(cwd.clone(), "jj", &["log", "-r", "@", "--no-graph", "-T", "empty"], "true"),
        ExpectedCommand::ok(
            cwd.clone(), "gh",
            &["api", "repos/spinyfin/mono/branches/boss/exec_abc", "--jq", ".commit.sha"],
            "github_sha\n",
        ),
        ExpectedCommand::ok(
            cwd.clone(), "jj",
            &["log", "-r", "pr/42", "--no-graph", "-T", "commit_id"],
            "local_sha\n",
        ),
    ]);

    let cli = parse(&[
        "cube", "pr", "push", "--pr", "42", "--branch", "boss/exec_abc",
    ]);
    let err = run_with_dependencies(cli, None, &runner).expect_err("should fail — nothing to land");
    runner.assert_exhausted();
    assert!(
        err.message().contains("empty") && err.message().contains("nothing to land"),
        "error should mention empty and nothing to land: {err:?}"
    );
}

#[test]
fn pr_push_detached_refusal() {
    let cwd = current_dir();
    let runner = FakeRunner::new(vec![
        ExpectedCommand::ok(cwd.clone(), "jj", &["git", "remote", "list"], remote_list_github()),
        ExpectedCommand::ok(
            cwd.clone(), "gh",
            &["pr", "view", "42", "-R", "spinyfin/mono", "--json", "state"],
            r#"{"state":"OPEN"}"#,
        ),
        ExpectedCommand::ok(cwd.clone(), "jj", &["log", "-r", "@", "--no-graph", "-T", "empty"], "false"),
        ExpectedCommand::ok(
            cwd.clone(), "jj",
            &["log", "-r", "pr/42 & ancestors(@)", "--no-graph", "-T", "commit_id"],
            "",
        ),
    ]);

    let cli = parse(&[
        "cube", "pr", "push", "--pr", "42", "--branch", "boss/exec_abc",
    ]);
    let err = run_with_dependencies(cli, None, &runner).expect_err("should refuse detached @");
    runner.assert_exhausted();
    assert!(
        err.message().contains("not a descendant") || err.message().contains("descendant"),
        "error should mention descendant: {err:?}"
    );
}

#[test]
fn pr_push_stale_push_error() {
    let cwd = current_dir();
    let push_err = CubeError::CommandFailed {
        program: "jj".to_string(),
        args: vec!["git".to_string(), "push".to_string(), "-b".to_string(),
                   "boss/exec_abc".to_string(), "--remote".to_string(), "github".to_string()],
        status: Some(1),
        stderr: "Error: Remote bookmark boss/exec_abc@github is ahead of local bookmark"
            .to_string(),
    };
    let runner = FakeRunner::new(vec![
        ExpectedCommand::ok(cwd.clone(), "jj", &["git", "remote", "list"], remote_list_github()),
        ExpectedCommand::ok(
            cwd.clone(), "gh",
            &["pr", "view", "42", "-R", "spinyfin/mono", "--json", "state"],
            r#"{"state":"OPEN"}"#,
        ),
        ExpectedCommand::ok(cwd.clone(), "jj", &["log", "-r", "@", "--no-graph", "-T", "empty"], "false"),
        ExpectedCommand::ok(
            cwd.clone(), "jj",
            &["log", "-r", "pr/42 & ancestors(@)", "--no-graph", "-T", "commit_id"],
            "aabbcc\n",
        ),
        ExpectedCommand::ok(cwd.clone(), "jj", &["bookmark", "set", "boss/exec_abc", "-r", "@"], ""),
        ExpectedCommand::ok(cwd.clone(), "jj", &["bookmark", "set", "pr/42", "-r", "@"], ""),
        ExpectedCommand {
            cwd: cwd.clone(),
            program: "jj".to_string(),
            args: ["git", "push", "-b", "boss/exec_abc", "--remote", "github"]
                .iter().map(|s| s.to_string()).collect(),
            result: Err(push_err),
            creates_dir: None,
        },
    ]);

    let cli = parse(&[
        "cube", "pr", "push", "--pr", "42", "--branch", "boss/exec_abc",
    ]);
    let err = run_with_dependencies(cli, None, &runner).expect_err("should surface push error");
    runner.assert_exhausted();
    assert!(
        err.message().contains("push") || err.message().contains("boss/exec_abc"),
        "error should mention push failure: {err:?}"
    );
}

#[test]
fn pr_push_merged_pr_hard_error() {
    let cwd = current_dir();
    let runner = FakeRunner::new(vec![
        ExpectedCommand::ok(cwd.clone(), "jj", &["git", "remote", "list"], remote_list_github()),
        ExpectedCommand::ok(
            cwd.clone(), "gh",
            &["pr", "view", "42", "-R", "spinyfin/mono", "--json", "state"],
            r#"{"state":"MERGED"}"#,
        ),
    ]);

    let cli = parse(&[
        "cube", "pr", "push", "--pr", "42", "--branch", "boss/exec_abc",
    ]);
    let err = run_with_dependencies(cli, None, &runner).expect_err("should hard-error on merged PR");
    runner.assert_exhausted();
    assert!(
        err.message().contains("MERGED") || err.message().contains("merged"),
        "error should mention MERGED: {err:?}"
    );
}

#[test]
fn pr_push_closed_pr_hard_error() {
    let cwd = current_dir();
    let runner = FakeRunner::new(vec![
        ExpectedCommand::ok(cwd.clone(), "jj", &["git", "remote", "list"], remote_list_github()),
        ExpectedCommand::ok(
            cwd.clone(), "gh",
            &["pr", "view", "42", "-R", "spinyfin/mono", "--json", "state"],
            r#"{"state":"CLOSED"}"#,
        ),
    ]);

    let cli = parse(&[
        "cube", "pr", "push", "--pr", "42", "--branch", "boss/exec_abc",
    ]);
    let err = run_with_dependencies(cli, None, &runner).expect_err("should hard-error on closed PR");
    runner.assert_exhausted();
    assert!(
        err.message().contains("CLOSED") || err.message().contains("non-open"),
        "error should mention closed/non-open: {err:?}"
    );
}

#[test]
fn pr_push_force_with_lease_happy_path() {
    let cwd = current_dir();
    let runner = FakeRunner::new(vec![
        ExpectedCommand::ok(cwd.clone(), "jj", &["git", "remote", "list"], remote_list_github()),
        ExpectedCommand::ok(
            cwd.clone(), "gh",
            &["pr", "view", "42", "-R", "spinyfin/mono", "--json", "state"],
            r#"{"state":"OPEN"}"#,
        ),
        ExpectedCommand::ok(cwd.clone(), "jj", &["log", "-r", "@", "--no-graph", "-T", "empty"], "false"),
        ExpectedCommand::ok(
            cwd.clone(), "jj",
            &["log", "-r", "boss/exec_abc@github", "--no-graph", "-T", "commit_id"],
            "remote_sha\n",
        ),
        ExpectedCommand::ok(
            cwd.clone(), "gh",
            &["api", "repos/spinyfin/mono/branches/boss/exec_abc", "--jq", ".commit.sha"],
            "remote_sha\n",
        ),
        ExpectedCommand::ok(cwd.clone(), "jj", &["bookmark", "set", "boss/exec_abc", "-r", "@"], ""),
        ExpectedCommand::ok(cwd.clone(), "jj", &["bookmark", "set", "pr/42", "-r", "@"], ""),
        ExpectedCommand::ok(
            cwd.clone(), "git",
            &["push", "--force-with-lease", "github", "boss/exec_abc"],
            "",
        ),
        ExpectedCommand::ok(
            cwd.clone(), "jj",
            &["log", "-r", "boss/exec_abc", "--no-graph", "-T", "commit_id"],
            "new_sha\n",
        ),
        ExpectedCommand::ok(
            cwd.clone(), "gh",
            &["api", "repos/spinyfin/mono/branches/boss/exec_abc", "--jq", ".commit.sha"],
            "new_sha\n",
        ),
    ]);

    let cli = parse(&[
        "cube", "pr", "push", "--pr", "42", "--branch", "boss/exec_abc", "--force-with-lease",
    ]);
    let result = run_with_dependencies(cli, None, &runner).expect("force-with-lease happy path");
    runner.assert_exhausted();
    assert_eq!(result.payload["action"], "pushed");
    assert_eq!(result.payload["number"], 42);
}

#[test]
fn pr_push_force_with_lease_concurrent_advance_refusal() {
    let cwd = current_dir();
    let runner = FakeRunner::new(vec![
        ExpectedCommand::ok(cwd.clone(), "jj", &["git", "remote", "list"], remote_list_github()),
        ExpectedCommand::ok(
            cwd.clone(), "gh",
            &["pr", "view", "42", "-R", "spinyfin/mono", "--json", "state"],
            r#"{"state":"OPEN"}"#,
        ),
        ExpectedCommand::ok(cwd.clone(), "jj", &["log", "-r", "@", "--no-graph", "-T", "empty"], "false"),
        ExpectedCommand::ok(
            cwd.clone(), "jj",
            &["log", "-r", "boss/exec_abc@github", "--no-graph", "-T", "commit_id"],
            "old_sha\n",
        ),
        ExpectedCommand::ok(
            cwd.clone(), "gh",
            &["api", "repos/spinyfin/mono/branches/boss/exec_abc", "--jq", ".commit.sha"],
            "new_sha_from_concurrent_push\n",
        ),
    ]);

    let cli = parse(&[
        "cube", "pr", "push", "--pr", "42", "--branch", "boss/exec_abc", "--force-with-lease",
    ]);
    let err = run_with_dependencies(cli, None, &runner).expect_err("should refuse concurrent advance");
    runner.assert_exhausted();
    assert!(
        err.message().contains("force-with-lease refused")
            || err.message().contains("advanced"),
        "error should mention lease refusal: {err:?}"
    );
}

#[test]
fn pr_push_infers_from_ancestry() {
    let cwd = current_dir();
    let runner = FakeRunner::new(vec![
        ExpectedCommand::ok(cwd.clone(), "jj", &["git", "remote", "list"], remote_list_github()),
        ExpectedCommand::ok(
            cwd.clone(), "jj",
            &[
                "log", "-r", r#"latest(ancestors(@) & bookmarks(glob:"pr/*"))"#,
                "--no-graph", "-T", r#"bookmarks.map(|b| b.name()).join("\n")"#,
            ],
            "boss/exec_abc\npr/42\n",
        ),
        ExpectedCommand::ok(
            cwd.clone(), "gh",
            &["pr", "view", "42", "-R", "spinyfin/mono", "--json", "state"],
            r#"{"state":"OPEN"}"#,
        ),
        ExpectedCommand::ok(cwd.clone(), "jj", &["log", "-r", "@", "--no-graph", "-T", "empty"], "false"),
        ExpectedCommand::ok(
            cwd.clone(), "jj",
            &["log", "-r", "pr/42 & ancestors(@)", "--no-graph", "-T", "commit_id"],
            "aabbcc\n",
        ),
        ExpectedCommand::ok(cwd.clone(), "jj", &["bookmark", "set", "boss/exec_abc", "-r", "@"], ""),
        ExpectedCommand::ok(cwd.clone(), "jj", &["bookmark", "set", "pr/42", "-r", "@"], ""),
        ExpectedCommand::ok(
            cwd.clone(), "jj",
            &["git", "push", "-b", "boss/exec_abc", "--remote", "github"],
            "",
        ),
        ExpectedCommand::ok(
            cwd.clone(), "jj",
            &["log", "-r", "boss/exec_abc", "--no-graph", "-T", "commit_id"],
            "deadbeef\n",
        ),
        ExpectedCommand::ok(
            cwd.clone(), "gh",
            &["api", "repos/spinyfin/mono/branches/boss/exec_abc", "--jq", ".commit.sha"],
            "deadbeef\n",
        ),
    ]);

    let cli = parse(&["cube", "pr", "push"]);
    let result = run_with_dependencies(cli, None, &runner).expect("pr_push inferred from ancestry");
    runner.assert_exhausted();
    assert_eq!(result.payload["action"], "pushed");
    assert_eq!(result.payload["number"], 42);
}

#[test]
fn pr_push_guard_rejects_pr_bookmark_head_branch() {
    let cwd = current_dir();
    let runner = FakeRunner::new(vec![
        ExpectedCommand::ok(cwd.clone(), "jj", &["git", "remote", "list"], remote_list_github()),
    ]);

    let cli = parse(&[
        "cube", "pr", "push", "--pr", "42", "--branch", "pr/42",
    ]);
    let err = run_with_dependencies(cli, None, &runner).expect_err("should refuse pr/* branch");
    runner.assert_exhausted();
    assert!(
        err.message().contains("reserved") || err.message().contains("pr/42"),
        "error should mention reserved namespace: {err:?}"
    );
}

#[test]
fn pr_number_from_url_parses_standard_url() {
    assert_eq!(
        pr_number_from_url("https://github.com/owner/repo/pull/123"),
        Some(123)
    );
}

#[test]
fn pr_number_from_url_parses_url_with_trailing_slash() {
    assert_eq!(
        pr_number_from_url("https://github.com/owner/repo/pull/456/"),
        Some(456)
    );
}

#[test]
fn pr_number_from_url_returns_none_for_non_numeric_suffix() {
    assert_eq!(
        pr_number_from_url("https://github.com/owner/repo/pull/"),
        None
    );
}

#[test]
fn boss_infra_exclude_block_names_the_per_workspace_log() {
    let block = render_boss_infra_exclude_block("rdev-base-image-agent-001");
    assert!(block.contains("/logs/rdev-base-image-agent-001.log"));
    assert!(block.contains(".boss/"));
    assert!(block.starts_with(BEGIN_MARK));
    assert!(block.trim_end().ends_with(END_MARK));
}

#[test]
fn upsert_managed_exclude_appends_to_empty_body() {
    let block = render_boss_infra_exclude_block("mono-agent-004");
    assert_eq!(upsert_managed_exclude("", &block), block);
}

#[test]
fn upsert_managed_exclude_preserves_operator_excludes() {
    let block = render_boss_infra_exclude_block("mono-agent-004");
    let existing = "# operator-added\n*.tmp\n";
    let result = upsert_managed_exclude(existing, &block);
    assert!(result.starts_with("# operator-added\n*.tmp\n"));
    assert!(result.contains("/logs/mono-agent-004.log"));
}

#[test]
fn upsert_managed_exclude_is_idempotent() {
    let block = render_boss_infra_exclude_block("mono-agent-004");
    let once = upsert_managed_exclude("*.tmp\n", &block);
    let twice = upsert_managed_exclude(&once, &block);
    assert_eq!(once, twice);
    assert_eq!(twice.matches(BEGIN_MARK).count(), 1);
}

#[test]
fn upsert_managed_exclude_rewrites_stale_block_in_place() {
    let stale = render_boss_infra_exclude_block("old-workspace-id");
    let existing = format!("*.tmp\n{stale}# trailing operator line\n");
    let fresh = render_boss_infra_exclude_block("new-workspace-id");
    let result = upsert_managed_exclude(&existing, &fresh);
    assert!(result.contains("/logs/new-workspace-id.log"));
    assert!(!result.contains("old-workspace-id"));
    assert!(result.starts_with("*.tmp\n"));
    assert!(result.contains("# trailing operator line\n"));
    assert_eq!(result.matches(BEGIN_MARK).count(), 1);
}

#[test]
fn ensure_boss_infra_excluded_writes_git_info_exclude() {
    let (tempdir, world) = with_database_path();
    let workspace = tempdir.path().join("mono-agent-004");
    world.create_dir_all(workspace.join(".git")).expect("colocated .git dir");

    exclude_infra(&world, &workspace, "mono-agent-004");

    let exclude = world.read_to_string(workspace.join(".git/info/exclude"))
        .expect("exclude written");
    assert!(exclude.contains("/logs/mono-agent-004.log"));
    assert!(exclude.contains(".boss/"));

    exclude_infra(&world, &workspace, "mono-agent-004");
    let again = world.read_to_string(workspace.join(".git/info/exclude")).unwrap();
    assert_eq!(exclude, again);
    assert_eq!(again.matches(BEGIN_MARK).count(), 1);
}

#[test]
fn ensure_boss_infra_excluded_skips_when_not_colocated() {
    let (tempdir, world) = with_database_path();
    let workspace = tempdir.path().join("mono-agent-004");
    world.create_dir_all(workspace.join(".jj")).expect("jj dir");

    exclude_infra(&world, &workspace, "mono-agent-004");

    assert!(!world.is_there(&workspace.join(".git")));
}

#[test]
fn gc_resets_aged_dirty_workspace_to_clean() {
    let (tempdir, world) = with_database_path();
    let (store, ws_path) = setup_unhealthy_gc_scenario(&tempdir, &world);

    store
        .update_workspace_health("mono", "mono-agent-001", WorkspaceHealth::Dirty)
        .expect("mark dirty");

    let ws = store.get_workspace_by_path(&ws_path).unwrap().unwrap();
    assert_eq!(ws.health_status, Some(WorkspaceHealth::Dirty));
    assert!(ws.unhealthy_since_epoch_s.is_some(), "unhealthy_since should be set");

    let fake_now = ws.unhealthy_since_epoch_s.unwrap() + 6 * 86_400;
    let max_age_secs = 5 * 86_400;

    let runner = reset_runner_for(&ws_path);
    collect_aged(&world, &runner, fake_now, max_age_secs);
    runner.assert_exhausted();

    let ws_after = store.get_workspace_by_path(&ws_path).unwrap().unwrap();
    assert_eq!(
        ws_after.health_status, None,
        "health_status should be cleared after GC reset"
    );
    assert_eq!(
        ws_after.unhealthy_since_epoch_s, None,
        "unhealthy_since_epoch_s should be cleared after GC reset"
    );
    assert_eq!(ws_after.state, WorkspaceState::Free);
}

#[test]
fn gc_resets_aged_conflicted_workspace_to_clean() {
    let (tempdir, world) = with_database_path();
    let (store, ws_path) = setup_unhealthy_gc_scenario(&tempdir, &world);

    store
        .update_workspace_health("mono", "mono-agent-001", WorkspaceHealth::Conflicted)
        .expect("mark conflicted");

    let ws = store.get_workspace_by_path(&ws_path).unwrap().unwrap();
    assert_eq!(ws.health_status, Some(WorkspaceHealth::Conflicted));
    assert!(ws.unhealthy_since_epoch_s.is_some());

    let fake_now = ws.unhealthy_since_epoch_s.unwrap() + 6 * 86_400;
    let max_age_secs = 5 * 86_400;

    let runner = reset_runner_for(&ws_path);
    collect_aged(&world, &runner, fake_now, max_age_secs);
    runner.assert_exhausted();

    let ws_after = store.get_workspace_by_path(&ws_path).unwrap().unwrap();
    assert_eq!(ws_after.health_status, None);
    assert_eq!(ws_after.unhealthy_since_epoch_s, None);
}

#[test]
fn gc_skips_recently_unhealthy_workspace() {
    let (tempdir, world) = with_database_path();
    let (store, ws_path) = setup_unhealthy_gc_scenario(&tempdir, &world);

    store
        .update_workspace_health("mono", "mono-agent-001", WorkspaceHealth::Dirty)
        .expect("mark dirty");

    let ws = store.get_workspace_by_path(&ws_path).unwrap().unwrap();
    let unhealthy_since = ws.unhealthy_since_epoch_s.unwrap();

    let fake_now = unhealthy_since + 86_400;
    let max_age_secs = 5 * 86_400;

    let runner = FakeRunner::default();
    collect_aged(&world, &runner, fake_now, max_age_secs);
    runner.assert_exhausted();

    let ws_after = store.get_workspace_by_path(&ws_path).unwrap().unwrap();
    assert_eq!(
        ws_after.health_status,
        Some(WorkspaceHealth::Dirty),
        "recent unhealthy workspace should be left untouched"
    );
    assert_eq!(ws_after.unhealthy_since_epoch_s, Some(unhealthy_since));
}

#[test]
fn the_pool_cleanup_takes_the_age_from_the_configuration() {
    let runs = |days: u32, configured: bool| {
        let (tempdir, world) = with_database_path();
        let (store, ws_path) = setup_unhealthy_gc_scenario(&tempdir, &world);
        store
            .update_workspace_health("mono", "mono-agent-001", WorkspaceHealth::Dirty)
            .expect("mark dirty");
        world.clock.set(NOW + 5 * 86_400 + 1);
        if configured {
            world.config.borrow_mut().unhealthy_gc = UnhealthyGc { max_age_days: days };
            world.write(format!("{CONFIG_DIR}/cube.toml"), "").expect("configuration");
        }
        let runner = FakeRunner::new(
            [
                vec!["git", "fetch"],
                vec![
                    "log",
                    "-r",
                    "bookmarks(glob:\"boss/exec_*\") & ::main",
                    "--no-graph",
                    "-T",
                    "bookmarks ++ \"\\n\"",
                ],
                vec!["git", "remote", "list"],
                vec!["git", "fetch"],
                vec!["bookmark", "set", "main", "-r", "main@origin", "--allow-backwards"],
                vec!["new", "main"],
            ]
            .iter()
            .map(|args| ExpectedCommand::ok(ws_path.clone(), "jj", args, ""))
            .collect(),
        );
        drive(&world, &runner, run_pool_gc_background).expect("the cleanup never fails");
        let left = runner.expectations.borrow().len();
        left
    };
    assert_eq!(runs(0, false), 0);
    assert_eq!(runs(5, true), 0);
    assert_eq!(runs(4, true), 0);
    assert_eq!(runs(6, true), 3);
}

#[test]
fn load_config_returns_default_when_file_absent() {
    let world = World::at("/data");
    world.create_dir_all(CONFIG_DIR).expect("configuration directory");
    let cfg = drive(&world, &FakeRunner::default(), load_config).expect("load");
    assert!(cfg.repo_resolvers.is_empty());
}

#[test]
fn the_configuration_file_is_read_where_it_is_there() {
    let path = format!("{CONFIG_DIR}/cube.toml");
    let start = |last: Answer| {
        let mut tape = Tape {
            answers: VecDeque::from(vec![
                Answer::Place(None),
                Answer::Place(None),
                Answer::Place(Some("/home/me".to_string())),
                Answer::Flag(true),
                last,
            ]),
        };
        load_config(&mut tape)
    };
    assert_eq!(
        start(Answer::Text(Content::Text("body".to_string()))),
        Err(Stop::Ask(Action::ParseConfig("body".to_string())))
    );
    let fault = IoFault { not_found: false, text: "denied".to_string() };
    assert_eq!(
        start(Answer::Text(Content::Fault(fault))),
        Err(Stop::Fail(CubeError::Io("denied".to_string())))
    );
    let mut tape = Tape {
        answers: VecDeque::from(vec![
            Answer::Place(Some(CONFIG_DIR.to_string())),
            Answer::Place(None),
            Answer::Place(None),
            Answer::Flag(true),
            Answer::Text(Content::Text("=".to_string())),
            Answer::Failed(CubeError::InvalidArgument("bad".to_string())),
        ]),
    };
    match load_config(&mut tape) {
        Err(Stop::Fail(e)) => {
            assert_eq!(e.message(), format!("failed to parse cube config at {path}: bad"))
        }
        other => panic!("unexpected {other:?}"),
    }
    let mut homeless =
        Tape { answers: VecDeque::from(vec![Answer::Place(None), Answer::Place(None), Answer::Place(None)]) };
    assert_eq!(load_config(&mut homeless), Ok(CubeConfig::default()));
}

#[test]
fn setup_steps_are_reported_with_the_lease() {
    let (tempdir, world) = with_database_path();
    let workspace_root = tempdir.path().join("workspaces");
    let workspace_path = workspace_root.join("mono-agent-001");
    world.create_dir_all(workspace_path.join(".jj")).unwrap();
    world.setup.borrow_mut().push(("deps".to_string(), Step::Command("pnpm", &["install"])));
    world.setup.borrow_mut().push(("secrets".to_string(), Step::Skip("already_ran")));
    run_with_dependencies(add_repo_cli(&workspace_root), Some(&world), &FakeRunner::default())
        .expect("repo");
    let runner = lease_runner_with_setup(
        &workspace_path,
        "abc1234",
        vec![ExpectedCommand::ok(workspace_path.clone(), "pnpm", &["install"], "")],
    );
    let result = run_with_dependencies(
        parse(&["cube", "workspace", "lease", "mono", "--task", "demo"]),
        Some(&world),
        &runner,
    )
    .expect("lease");
    runner.assert_exhausted();
    assert!(result.message.ends_with(" Setup: 1 ran, 1 skipped."), "{}", result.message);
    let steps = result.payload["setup"]["steps"].as_array().expect("steps array");
    assert_eq!(steps.len(), 2);
    assert_eq!(steps[0]["id"], "deps");
    assert_eq!(steps[0]["status"], "ran");
    assert_eq!(steps[1]["status"], "skipped");
    assert_eq!(steps[1]["reason"], "already_ran");
}

fn body_file(world: &World, path: &str) -> Result<(String, Option<String>), CubeError> {
    drive(world, &FakeRunner::default(), |tape| resolve_body_file(tape, path))
}

#[test]
fn resolve_body_file_errors_on_empty_regular_file() {
    let (tempdir, world) = with_database_path();
    let path = text(&tempdir.path().join("body.md"));
    world.write(&path, "").expect("write");
    let result = body_file(&world, &path);
    assert!(result.is_err(), "should error on empty file, got {:?}", result);
    let msg = result.unwrap_err().message();
    assert!(msg.contains("empty"), "error should mention 'empty': {msg}");
}

#[test]
fn resolve_body_file_passes_through_non_empty_regular_file() {
    let (tempdir, world) = with_database_path();
    let path = text(&tempdir.path().join("body.md"));
    world.write(&path, "## Summary\n\nBody text.").expect("write");
    let (resolved, temp) = body_file(&world, &path).expect("a file with a body");
    assert_eq!(resolved, path);
    assert!(temp.is_none());
}

#[test]
fn resolve_body_file_materialises_fifo_content_to_temp_file() {
    let (tempdir, world) = with_database_path();
    let path = text(&tempdir.path().join("pipe"));
    world.write(&path, "## Summary\n\nPiped.").expect("write");
    world.disk.borrow_mut().streams.insert(path.clone());
    let (resolved, temp) = body_file(&world, &path).expect("a pipe with a body");
    assert_eq!(temp.as_deref(), Some(resolved.as_str()));
    assert_ne!(resolved, path);
    assert_eq!(world.read_to_string(&resolved).unwrap(), "## Summary\n\nPiped.");
}

#[test]
fn resolve_body_file_errors_on_empty_fifo() {
    let (tempdir, world) = with_database_path();
    let path = text(&tempdir.path().join("pipe"));
    world.write(&path, " \n").expect("write");
    world.disk.borrow_mut().streams.insert(path.clone());
    let msg = body_file(&world, &path).unwrap_err().message();
    assert!(msg.contains("empty"), "error should mention 'empty': {msg}");
}
