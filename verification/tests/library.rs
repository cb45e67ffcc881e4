use std::collections::{BTreeMap, VecDeque};

use cube::app::{answer_fresh_id, holder_identity, pr_command_name, run, stack_command_name};
use cube::audit::{
    format_iso8601, insert_field, outdated, parse_yyyy_mm_dd, stamp, week_file_name,
};
use cube::calendar::{civil_from_days, days_from_civil, monday_of_week, SECS_PER_DAY};
use cube::change::change_id;
use cube::cli::{
    Cli, Command, DoctorArgs, PrCommand, PrMergeArgs, PrPushArgs, RepoCommand, StackCommand,
    StackRebaseArgs, WorkspaceCommand,
};
use cube::command_runner::{
    command_outcome, environment, timed_out, watch, CommandInvocation, RealCommandRunner, Watch,
};
use cube::config::{config_dir, config_file_path, ConfigEnv, CubeConfig, RepoResolver};
use cube::ensure::{acceptable, github_fallback_error, resolve_by_config};
use cube::error::CubeError;
use cube::events::{AuditEvent, FieldValue};
use cube::exclude::{render_boss_infra_exclude_block, upsert_managed_exclude};
use cube::flow::{Action, Answer, DirEntry, DirName, Listing, Stop, Tape};
use cube::gc::{gc_workspace_bookmarks, pick_bookmarks, Pick};
use cube::git::{
    assert_not_pr_bookmark, is_owner_name_slug, is_pr_bookmark, origin_path_matches_slug,
    origin_urls_equivalent, parse_github_remote, parse_org_name_shape, pr_bookmark_name,
};
use cube::health::{parse_conflicted_bookmarks_from_status, parse_health, WorkspaceHealthOutcome};
use cube::jj::{
    is_no_such_remote_bookmark, is_unresolved_remote_target, jj_update_stale_recovery_kind, run_jj,
};
use cube::json::{parse_json, parse_json_list, Json};
use cube::number::{decimal, pad, parse_unsigned, signed, wide_decimal};
use cube::order::{in_order, insert_candidate, insert_name};
use cube::paths::{parent, path_join, under};
use cube::pool::{next_workspace_id, read_candidates};
use cube::pool_gc::{aged, gc_stale_workspace_logs, minus, plus};
use cube::pr_ensure::{choose_existing, Existing};
use cube::pr_push::{check_pr_open, first_number, infer_target, named_state, pr_push};
use cube::reconcile::{fate, Fate};
use cube::records::{
    EffectiveState, SetupReport, SetupStep, StepStatus, WorkspaceCandidate, WorkspaceHealth,
    WorkspaceRecord, WorkspaceState,
};
use cube::render::{abbreviate_path, effective_state_display, format_workspace_list};
use cube::repo::{
    clone_plan, materialize_repo_source_if_missing, normalize_origin, repo_id_from_origin,
    sanitize_repo_id,
};
use cube::report::{Payload, Style};
use cube::reset::{parse_head_status, reset_workspace_guarded};
use cube::resume::head_branch;
use cube::scan::order_free;
use cube::setup::{format_lease_message, format_setup_message};
use cube::split::{join, lines, replace, split, words};
use cube::text::{contains, strip_prefix, strip_suffix, trim};
use serde_json::Value;

fn strings(v: &[&str]) -> Vec<String> {
    v.iter().map(|s| s.to_string()).collect()
}

fn tape(answers: Vec<Answer>) -> Tape {
    Tape { answers: VecDeque::from(answers) }
}

fn unicode(name: &str) -> DirName {
    DirName { text: name.to_string(), is_unicode: true }
}

fn output(s: &str) -> Answer {
    Answer::Output(s.to_string())
}

fn failed(program: &str, stderr: &str) -> CubeError {
    CubeError::CommandFailed {
        program: program.to_string(),
        args: vec![],
        status: Some(1),
        stderr: stderr.to_string(),
    }
}

fn row(id: &str) -> WorkspaceRecord {
    WorkspaceRecord {
        repo: "mono".to_string(),
        workspace_id: id.to_string(),
        workspace_path: format!("/pool/{id}"),
        state: WorkspaceState::Free,
        lease_id: None,
        holder: None,
        task: None,
        leased_at_epoch_s: None,
        lease_expires_at_epoch_s: None,
        head_commit: None,
        health_status: None,
        unhealthy_since_epoch_s: None,
        last_release_reason: None,
    }
}

// ---------------------------------------------------------------------------
// The calendar and the audit log
// ---------------------------------------------------------------------------

fn epoch_for(y: i64, m: u32, d: u32, hh: i64, mm: i64, ss: i64) -> i64 {
    days_from_civil(y, m, d) * SECS_PER_DAY + hh * 3600 + mm * 60 + ss
}

#[test]
fn week_file_name_uses_monday_of_iso_week() {
    let ts = epoch_for(2026, 4, 30, 14, 5, 30);
    assert_eq!(week_file_name(ts), "audit-2026-04-27.log");

    let ts_mon = epoch_for(2026, 4, 27, 0, 0, 0);
    assert_eq!(week_file_name(ts_mon), "audit-2026-04-27.log");

    let ts_sun = epoch_for(2026, 5, 3, 23, 59, 59);
    assert_eq!(week_file_name(ts_sun), "audit-2026-04-27.log");

    let ts_next = epoch_for(2026, 5, 4, 0, 0, 1);
    assert_eq!(week_file_name(ts_next), "audit-2026-05-04.log");
}

#[test]
fn iso8601_round_trip_for_known_instant() {
    let ts = epoch_for(2026, 4, 30, 14, 5, 30);
    assert_eq!(format_iso8601(ts), "2026-04-30T14:05:30Z");
}

/// A directory of logs, by file name.
type Logs = BTreeMap<String, String>;

fn event(name: &str) -> AuditEvent {
    AuditEvent::named(name)
        .text("repo", "mono")
        .maybe_text("workspace_id", &Some("mono-agent-004".to_string()))
        .maybe_text("reason", &None)
}

fn append_at(logs: &mut Logs, now: i64, event: AuditEvent) {
    let mut line = serde_json::Map::new();
    for (key, value) in stamp(event, now) {
        let value = match value {
            FieldValue::Text(s) => Value::String(s),
            FieldValue::Int(n) => Value::from(n),
            other => panic!("unexpected {other:?}"),
        };
        line.insert(key, value);
    }
    let log = logs.entry(week_file_name(now)).or_default();
    log.push_str(&Value::Object(line).to_string());
    log.push('\n');
    logs.retain(|name, _| !outdated(name, now));
}

#[test]
fn append_writes_jsonl_with_event_and_timestamp() {
    let mut logs = Logs::new();
    let ts = epoch_for(2026, 4, 30, 14, 5, 30);
    append_at(&mut logs, ts, event("lease.acquired"));

    let contents = &logs["audit-2026-04-27.log"];
    let parsed: Value = serde_json::from_str(contents.trim_end()).unwrap();
    assert_eq!(parsed["event"], "lease.acquired");
    assert_eq!(parsed["ts"], "2026-04-30T14:05:30Z");
    assert_eq!(parsed["ts_epoch_s"], ts);
    assert_eq!(parsed["repo"], "mono");
    assert_eq!(parsed["workspace_id"], "mono-agent-004");
    assert!(parsed.get("reason").is_none());
    assert!(contents.ends_with('\n'));
}

#[test]
fn appending_in_same_week_reuses_file() {
    let mut logs = Logs::new();
    let mon = epoch_for(2026, 4, 27, 9, 0, 0);
    let fri = epoch_for(2026, 5, 1, 17, 30, 0);
    append_at(&mut logs, mon, event("lease.acquired"));
    append_at(&mut logs, fri, event("lease.released"));

    assert_eq!(logs.len(), 1);
    assert_eq!(logs["audit-2026-04-27.log"].lines().count(), 2);
}

#[test]
fn weekly_rollover_creates_new_file() {
    let mut logs = Logs::new();
    let week_a = epoch_for(2026, 4, 30, 12, 0, 0);
    let week_b = epoch_for(2026, 5, 7, 12, 0, 0);
    append_at(&mut logs, week_a, event("lease.acquired"));
    append_at(&mut logs, week_b, event("lease.acquired"));

    assert!(logs.contains_key("audit-2026-04-27.log"));
    assert!(logs.contains_key("audit-2026-05-04.log"));
}

#[test]
fn prune_removes_files_older_than_retention_window() {
    let mut logs = Logs::new();
    logs.insert("audit-2025-12-01.log".to_string(), "{}\n".to_string());
    logs.insert("audit-2026-04-06.log".to_string(), "{}\n".to_string());

    let now = epoch_for(2026, 4, 30, 12, 0, 0);
    append_at(&mut logs, now, event("lease.acquired"));

    assert!(!logs.contains_key("audit-2025-12-01.log"), "expected old log to be pruned");
    assert!(logs.contains_key("audit-2026-04-06.log"), "expected recent log to be kept");
    assert!(logs.contains_key("audit-2026-04-27.log"));
}

#[test]
fn prune_ignores_unrelated_files() {
    let mut logs = Logs::new();
    logs.insert("README".to_string(), "hello".to_string());
    let now = epoch_for(2026, 4, 30, 12, 0, 0);
    append_at(&mut logs, now, event("lease.acquired"));
    assert!(logs.contains_key("README"));
    assert!(!outdated("audit-1999-13-01.log", now));
    assert!(!outdated("audit-1999-01-01.txt", now));
}

#[test]
fn a_log_is_kept_for_twelve_weeks() {
    let now = epoch_for(2026, 4, 27, 0, 0, 0);
    assert!(!outdated("audit-2026-02-02.log", now));
    assert!(outdated("audit-2026-02-02.log", now + 1));
}

#[test]
fn a_field_is_replaced_and_an_absent_value_dropped() {
    let mut fields = vec![("a".to_string(), FieldValue::Int(1)), ("b".to_string(), FieldValue::Int(2))];
    insert_field(&mut fields, "a", Some(FieldValue::Flag(true)));
    insert_field(&mut fields, "c", None);
    insert_field(&mut fields, "c", Some(FieldValue::Count(3)));
    assert_eq!(
        fields,
        vec![
            ("a".to_string(), FieldValue::Flag(true)),
            ("b".to_string(), FieldValue::Int(2)),
            ("c".to_string(), FieldValue::Count(3)),
        ]
    );
}

#[test]
fn dates_and_day_numbers_agree() {
    assert_eq!(days_from_civil(1970, 1, 1), 0);
    assert_eq!(days_from_civil(2000, 3, 1), 11017);
    assert_eq!(days_from_civil(1969, 12, 31), -1);
    assert_eq!(civil_from_days(0), (1970, 1, 1));
    assert_eq!(civil_from_days(11016), (2000, 2, 29));
    assert_eq!(civil_from_days(-719468), (0, 3, 1));
    let (y, m, d) = civil_from_days(i64::MIN);
    assert_eq!(days_from_civil(y, m, d), i64::MIN);
    assert_eq!(days_from_civil(1970, 13, 1), 365);
    assert_eq!(days_from_civil(1970, 0, 1), -31);
    for day in -200_000..200_000 {
        let (y, m, d) = civil_from_days(day);
        assert_eq!(days_from_civil(y, m, d), day);
    }
    assert_eq!(monday_of_week(0), (1969, 12, 29));
    assert_eq!(monday_of_week(-1), (1969, 12, 29));
}

#[test]
fn dates_are_read_from_text() {
    assert_eq!(parse_yyyy_mm_dd("1970-01-02"), Some(86_400));
    assert_eq!(parse_yyyy_mm_dd("2026-04-27"), Some(epoch_for(2026, 4, 27, 0, 0, 0)));
    assert_eq!(parse_yyyy_mm_dd("-001-01-01"), Some(epoch_for(-1, 1, 1, 0, 0, 0)));
    assert_eq!(parse_yyyy_mm_dd("1970-13-01"), None);
    assert_eq!(parse_yyyy_mm_dd("1970-00-01"), None);
    assert_eq!(parse_yyyy_mm_dd("1970-01-32"), None);
    assert_eq!(parse_yyyy_mm_dd("1970/01/02"), None);
    assert_eq!(parse_yyyy_mm_dd("70-01-02"), None);
    assert_eq!(parse_yyyy_mm_dd("19x0-01-02"), None);
    assert_eq!(parse_yyyy_mm_dd("-+01-01-01"), None);
    assert_eq!(format_iso8601(-1), "1969-12-31T23:59:59Z");
}

// ---------------------------------------------------------------------------
// Configuration
// ---------------------------------------------------------------------------

#[test]
fn default_config_has_no_resolvers() {
    let cfg = CubeConfig::default();
    assert!(cfg.repo_resolvers.is_empty());
}

#[test]
fn resolve_origin_substitutes_name() {
    let r = RepoResolver {
        name: "mint".to_string(),
        origin_pattern: "org-1@github.com:linkedin-multiproduct/{name}.git".to_string(),
        clone_command: Some("mint clone {name}".to_string()),
    };
    assert_eq!(
        r.resolve_origin("frontend-api").as_deref(),
        Some("org-1@github.com:linkedin-multiproduct/frontend-api.git")
    );
    assert_eq!(
        r.resolve_clone_command("frontend-api").as_deref(),
        Some("mint clone frontend-api")
    );
}

#[test]
fn a_pattern_that_yields_nothing_resolves_nothing() {
    let blank = RepoResolver {
        name: "blank".to_string(),
        origin_pattern: " {name} ".to_string(),
        clone_command: None,
    };
    assert_eq!(blank.resolve_origin(""), None);
    assert_eq!(blank.resolve_clone_command("x"), None);
    let second = RepoResolver {
        name: "second".to_string(),
        origin_pattern: "https://{name}.example/{name}".to_string(),
        clone_command: Some("get {name} {name}".to_string()),
    };
    let chain = vec![
        RepoResolver { origin_pattern: "".to_string(), ..blank.clone() },
        second,
        RepoResolver { origin_pattern: "late".to_string(), ..blank },
    ];
    assert_eq!(
        resolve_by_config(&chain, "a"),
        Some(("https://a.example/a".to_string(), Some("get a a".to_string())))
    );
    assert_eq!(resolve_by_config(&chain[..1].to_vec(), "a"), None);
}

#[test]
fn the_configuration_file_is_found() {
    let mut env = ConfigEnv {
        cube_config_dir: Some("/etc/cube".to_string()),
        xdg_config_home: Some("/x".to_string()),
        home: Some("/home/me".to_string()),
    };
    assert_eq!(config_dir(&env).unwrap(), "/etc/cube");
    env.cube_config_dir = None;
    assert_eq!(config_dir(&env).unwrap(), "/x/cube");
    env.xdg_config_home = None;
    assert_eq!(config_file_path(&env).unwrap(), "/home/me/.config/cube/cube.toml");
    env.home = None;
    assert_eq!(config_file_path(&env), Err(CubeError::Io("HOME is not set".to_string())));
}

// ---------------------------------------------------------------------------
// Failures
// ---------------------------------------------------------------------------

#[test]
fn failures_have_messages_and_exit_codes() {
    let p = "/p".to_string();
    let io = "denied".to_string();
    let cases: Vec<(CubeError, &str, u8)> = vec![
        (CubeError::InvalidArgument("a".to_string()), "a", 2),
        (CubeError::NotImplemented("b".to_string()), "b", 2),
        (CubeError::RepoNotFound("m".to_string()), "repo `m` is not configured", 3),
        (
            CubeError::NoAvailableWorkspace("m".to_string()),
            "no free workspace is available for repo `m`",
            4,
        ),
        (CubeError::WorkspaceNotFound("w".to_string()), "workspace `w` is not tracked", 5),
        (CubeError::LeaseNotFound("l".to_string()), "lease `l` is not tracked", 5),
        (CubeError::ChangeNotFound("c".to_string()), "change `c` is not tracked", 5),
        (
            CubeError::SetupStepFailed { step: "s".to_string(), error: "e".to_string() },
            "setup step `s` failed: e",
            6,
        ),
        (CubeError::Storage("x".to_string()), "failed to access Cube metadata: x", 1),
        (
            CubeError::WorkspaceDirCreate { path: p.clone(), source: io.clone() },
            "failed to create workspace directory `/p`: denied",
            1,
        ),
        (
            CubeError::WorkspaceDirRead { path: p.clone(), source: io.clone() },
            "failed to read workspace directory `/p`: denied",
            1,
        ),
        (
            CubeError::WorkspaceDirRemove { path: p.clone(), source: io.clone() },
            "failed to remove workspace directory `/p`: denied",
            1,
        ),
        (
            CubeError::RepoSourceDirCreate { path: p.clone(), source: io.clone() },
            "failed to create repo source directory `/p`: denied",
            1,
        ),
        (
            CubeError::StateDbIo { path: p.clone(), source: io.clone() },
            "failed to open state database at `/p`: denied",
            1,
        ),
        (
            CubeError::AuditLogIo { path: p.clone(), source: io.clone() },
            "failed to write audit log entry at `/p`: denied",
            1,
        ),
        (
            CubeError::LockIo { path: p.clone(), source: io.clone() },
            "failed to acquire repo lock at `/p`: denied",
            1,
        ),
        (CubeError::Io(io), "I/O error: denied", 1),
        (
            CubeError::CommandFailed {
                program: "jj".to_string(),
                args: strings(&["new", "main"]),
                status: Some(-2),
                stderr: "boom".to_string(),
            },
            "command `jj new main` failed with exit code -2: boom",
            1,
        ),
        (
            CubeError::CommandFailed {
                program: "jj".to_string(),
                args: vec![],
                status: None,
                stderr: "".to_string(),
            },
            "command `jj ` failed",
            1,
        ),
        (CubeError::Json("j".to_string()), "failed to serialize output: j", 1),
        (
            CubeError::StaleRecoveryFailed { workspace_path: p.clone(), cause: "c".to_string() },
            "workspace `/p` is stale and could not be auto-recovered: c",
            1,
        ),
        (
            CubeError::LeaseExpiredWorkspaceDirty {
                workspace_path: p,
                prior_lease_id: "L".to_string(),
                prior_holder: "H".to_string(),
            },
            "workspace `/p` was reclaimed from an expired lease (prior holder: H, lease: L) but its \
             working copy still has uncommitted work; refusing to destructively reset it. Use `cube \
             workspace force-release --lease L` to acknowledge data loss and re-attempt the lease.",
            7,
        ),
    ];
    for (error, message, code) in cases {
        assert_eq!(error.message(), message);
        assert_eq!(error.exit_code(), code);
    }
}

// ---------------------------------------------------------------------------
// Commands
// ---------------------------------------------------------------------------

#[test]
fn commands_are_read_and_watched() {
    let inv = RealCommandRunner::invocation("/w", "echo", &["hello", "x y"]);
    assert_eq!(
        inv,
        CommandInvocation {
            cwd: "/w".to_string(),
            program: "echo".to_string(),
            args: strings(&["hello", "x y"]),
        }
    );
    assert_eq!(command_outcome(&inv, true, Some(0), " hello \n", "w"), Ok("hello".to_string()));
    assert_eq!(
        command_outcome(&inv, false, Some(3), "out", " no \n"),
        Err(CubeError::CommandFailed {
            program: "echo".to_string(),
            args: strings(&["hello", "x y"]),
            status: Some(3),
            stderr: "no".to_string(),
        })
    );
    assert_eq!(
        timed_out(&inv, 7),
        CubeError::CommandTimedOut {
            program: "echo".to_string(),
            args: strings(&["hello", "x y"]),
            timeout_secs: 7,
        }
    );
    assert_eq!(timed_out(&inv, 7).exit_code(), 1);
    assert_eq!(timed_out(&inv, 7).message(), "command `echo hello x y` timed out after 7s");
    assert_eq!(watch(true, true, 1), Watch::Finished);
    assert_eq!(watch(false, true, 1), Watch::Kill);
    assert_eq!(watch(false, false, 8), Watch::Sleep { sleep_ms: 8, next_ms: 16 });
    assert_eq!(watch(false, false, 32), Watch::Sleep { sleep_ms: 32, next_ms: 50 });
    assert_eq!(watch(false, false, u64::MAX), Watch::Sleep { sleep_ms: u64::MAX, next_ms: 50 });
}

#[test]
fn subprocesses_never_prompt() {
    let names = |terminal: bool, ssh: bool| -> Vec<String> {
        environment(terminal, ssh).into_iter().map(|(k, _)| k).collect()
    };
    assert_eq!(names(true, true), strings(&["GIT_TERMINAL_PROMPT"]));
    assert_eq!(names(false, true), strings(&["NO_COLOR", "GIT_TERMINAL_PROMPT"]));
    assert_eq!(names(true, false), strings(&["GIT_SSH_COMMAND", "GIT_TERMINAL_PROMPT"]));
    assert_eq!(environment(true, true)[0].1, "0");
}

// ---------------------------------------------------------------------------
// Text
// ---------------------------------------------------------------------------

#[test]
fn text_is_cut_as_expected() {
    assert_eq!(trim("\u{3000} a b\t\n"), "a b");
    assert_eq!(lines("a\r\nb\n\nc\r"), strings(&["a", "b", "", "c\r"]));
    assert_eq!(lines("a\n"), strings(&["a"]));
    assert_eq!(lines(""), strings(&[]));
    assert_eq!(split("a;;b", ';'), strings(&["a", "", "b"]));
    assert_eq!(split("", ';'), strings(&[""]));
    assert_eq!(words(" a \t bc\n"), strings(&["a", "bc"]));
    assert_eq!(replace("aXbXX", "X", "--"), "a--b----");
    assert_eq!(replace("aaa", "aa", "b"), "ba");
    assert_eq!(join(&strings(&["a", "b", "c"]), ", "), "a, b, c");
    assert_eq!(join(&strings(&[]), ", "), "");
    assert!(contains("abcabd", "abd"));
    assert!(contains("", ""));
    assert!(!contains("ab", "abc"));
    assert_eq!(strip_prefix("pr/7", "pr/").as_deref(), Some("7"));
    assert_eq!(strip_prefix("p", "pr/"), None);
    assert_eq!(strip_suffix("x.git", ".git").as_deref(), Some("x"));
    assert_eq!(strip_suffix("git", ".git"), None);
}

#[test]
fn numerals_are_written_and_read() {
    assert_eq!(decimal(0), "0");
    assert_eq!(decimal(u64::MAX), "18446744073709551615");
    assert_eq!(wide_decimal(u128::MAX), "340282366920938463463374607431768211455");
    assert_eq!(signed(i64::MIN), "-9223372036854775808");
    assert_eq!(signed(42), "42");
    assert_eq!(pad("7".to_string(), 3), "007");
    assert_eq!(pad("1234".to_string(), 3), "1234");
    assert_eq!(parse_unsigned("+042", 100), Some(42));
    assert_eq!(parse_unsigned("18446744073709551615", u64::MAX), Some(u64::MAX));
    assert_eq!(parse_unsigned("18446744073709551616", u64::MAX), None);
    assert_eq!(parse_unsigned("101", 100), None);
    assert_eq!(parse_unsigned("", 100), None);
    assert_eq!(parse_unsigned("+", 100), None);
    assert_eq!(parse_unsigned("-1", 100), None);
    assert_eq!(parse_unsigned("1a", 100), None);
    assert_eq!(plus(i64::MAX, 1), i64::MAX);
    assert_eq!(plus(i64::MIN, -1), i64::MIN);
    assert_eq!(minus(5, 7), -2);
    assert_eq!(minus(i64::MIN, 1), i64::MIN);
    assert_eq!(minus(0, i64::MIN), i64::MAX);
}

#[test]
fn texts_are_put_in_order() {
    assert!(in_order("a", "ab"));
    assert!(in_order("Z", "a"));
    assert!(!in_order("b", "ab"));
    let mut names: Vec<String> = Vec::new();
    for name in ["b", "a", "c", "b"] {
        insert_name(&mut names, &name.to_string());
    }
    assert_eq!(names, strings(&["a", "b", "c"]));
    let mut sorted: Vec<WorkspaceCandidate> = Vec::new();
    for (id, path) in [("m-2", "x"), ("m-1", "y"), ("m-2", "z")] {
        insert_candidate(
            &mut sorted,
            WorkspaceCandidate { workspace_id: id.to_string(), workspace_path: path.to_string() },
        );
    }
    let paths: Vec<&str> = sorted.iter().map(|c| c.workspace_path.as_str()).collect();
    assert_eq!(paths, vec!["y", "x", "z"]);
}

#[test]
fn paths_are_taken_apart() {
    assert_eq!(path_join("/a", "b"), "/a/b");
    assert_eq!(path_join("/a/", "b"), "/a/b");
    assert_eq!(path_join("/a", "/b"), "/b");
    assert_eq!(path_join("", "b"), "b");
    assert_eq!(parent("/a/b"), Some("/a".to_string()));
    assert_eq!(parent("/a/b/./"), Some("/a".to_string()));
    assert_eq!(parent("/a"), Some("/".to_string()));
    assert_eq!(parent("a"), Some("".to_string()));
    assert_eq!(parent("/"), None);
    assert_eq!(parent(""), None);
    assert!(under("/pool/a", "/pool"));
    assert!(under("/pool//./a", "/pool/"));
    assert!(!under("/pool-2/a", "/pool"));
    assert!(!under("pool/a", "/pool"));
    assert!(under("/x", ""));
    assert!(under("x", ""));
    assert!(!under("/x", "."));
    assert!(!under("x", "/"));
}

// ---------------------------------------------------------------------------
// Names
// ---------------------------------------------------------------------------

#[test]
fn repository_ids_come_from_origins() {
    assert_eq!(sanitize_repo_id("My_Repo..x!"), "my-repo-x");
    assert_eq!(sanitize_repo_id("--a--b--"), "a-b");
    assert_eq!(sanitize_repo_id(&sanitize_repo_id("A.b_C")), "a-b-c");
    assert_eq!(repo_id_from_origin("git@github.com:o/Mono.git").unwrap(), "mono");
    assert_eq!(repo_id_from_origin(" https://h/o/r/ ").unwrap(), "r");
    assert_eq!(
        repo_id_from_origin("://").unwrap_err().message(),
        "could not infer repo id from origin `://`"
    );
    assert_eq!(normalize_origin("  u "), Ok("u".to_string()));
    assert_eq!(normalize_origin(" ").unwrap_err().message(), "origin must not be empty");
}

#[test]
fn origins_are_compared_by_place() {
    assert!(origin_urls_equivalent("git@github.com:o/r.git", "org-1@github.com:o/r"));
    assert!(origin_urls_equivalent("ssh://git@github.com/o/r.git", "git@github.com:o/r.git"));
    assert!(!origin_urls_equivalent("git@github.com:o/r.git", "git@github.com:o/s.git"));
    assert!(is_owner_name_slug("o/r"));
    assert!(!is_owner_name_slug("o/r/s"));
    assert!(!is_owner_name_slug("git@h:o/r"));
    assert!(!is_owner_name_slug("/r"));
    assert!(origin_path_matches_slug("org-1@github.com:o/r.git", "o/r"));
    assert!(!origin_path_matches_slug("org-1@github.com:o/r.git", "p/r"));
    assert_eq!(parse_org_name_shape("o/r"), Some(("o".to_string(), "r".to_string())));
    assert_eq!(parse_org_name_shape("r"), None);
    assert!(acceptable("git@github.com:o/r.git", "o/r"));
    assert!(!acceptable("git@github.com:o/r.git", "p/r"));
    assert_eq!(
        parse_github_remote("origin\t/mirror\ngithub git@github.com:o/r.git\n"),
        Some(("github".to_string(), "o/r".to_string()))
    );
    assert_eq!(parse_github_remote("origin /mirror\n"), None);
}

#[test]
fn pull_request_bookmarks_are_reserved() {
    assert_eq!(pr_bookmark_name(42), "pr/42");
    assert!(is_pr_bookmark("pr/42"));
    assert!(!is_pr_bookmark("boss/pr/42"));
    assert!(assert_not_pr_bookmark("feature").is_ok());
    let why = assert_not_pr_bookmark("pr/42").unwrap_err();
    assert!(why.contains("pr/42") && why.contains("reserved"));
    assert_eq!(
        infer_target(&strings(&["pr/1", "a", "pr/2", "pr/x", "b"])),
        (Some(2), Some("b".to_string()))
    );
}

#[test]
fn fresh_identifiers_have_the_right_shape() {
    let id = |a: Option<Answer>| match a {
        Some(Answer::Name(id)) => id,
        other => panic!("expected a name, got {other:?}"),
    };
    let a = id(answer_fresh_id(&Action::FreshId));
    let b = id(answer_fresh_id(&Action::FreshId));
    assert_ne!(a, b);
    assert_eq!(a.len(), 36);
    for (i, c) in a.chars().enumerate() {
        if [8, 13, 18, 23].contains(&i) {
            assert_eq!(c, '-');
        } else {
            assert!(c.is_ascii_digit() || ('a'..='f').contains(&c));
        }
    }
    assert_eq!(a.chars().nth(14), Some('4'));
    assert!("89ab".contains(a.chars().nth(19).unwrap()));
    assert!(answer_fresh_id(&Action::Clock).is_none());
    let change = change_id(&a);
    assert_eq!(change.len(), 36);
    assert!(change.starts_with("chg_") && !change.contains('-'));
    assert_eq!(holder_identity(&None, &None, 9), "unknown@localhost:9");
    assert_eq!(
        holder_identity(&Some("u".to_string()), &Some("h".to_string()), 10),
        "u@h:10"
    );
}

#[test]
fn next_ids_are_fresh() {
    let existing = strings(&["m-9", "m-010", "m-x", "n-99"]);
    let id = next_workspace_id("m-", &existing);
    assert_eq!(id, "m-011");
    assert!(!existing.contains(&id));
    assert_eq!(next_workspace_id("m-", &[]), "m-001");
    assert_eq!(next_workspace_id("m-", &strings(&["m-4294967295"])), "m-4294967296");
}

// ---------------------------------------------------------------------------
// Running jj
// ---------------------------------------------------------------------------

#[test]
fn complaints_are_read_whatever_their_case() {
    let stale = failed("jj", "Error: The WORKING COPY IS STALE");
    assert_eq!(jj_update_stale_recovery_kind(&stale), Some("workspace.stale_recovered"));
    let sibling = failed("jj", "this Seems To Be A Sibling");
    assert_eq!(jj_update_stale_recovery_kind(&sibling), Some("workspace.op_diverged_recovered"));
    assert_eq!(jj_update_stale_recovery_kind(&failed("git", "working copy is stale")), None);
    assert!(is_no_such_remote_bookmark(&failed("jj", "No Such Remote Bookmark: x")));
    assert!(!is_no_such_remote_bookmark(&failed("jj", "Revision `x` doesn't exist")));
    assert!(is_unresolved_remote_target(&failed("jj", "Revision `x` doesn't exist")));
    assert!(!is_unresolved_remote_target(&CubeError::Io("doesn't exist".to_string())));
}

#[test]
fn a_stale_workspace_is_updated_once() {
    let inv = RealCommandRunner::invocation("/w", "jj", &["status"]);
    let stale = failed("jj", "the working copy is stale");
    let mut t = tape(vec![Answer::Failed(stale.clone())]);
    match run_jj(&mut t, &inv) {
        Err(Stop::Ask(Action::Run(c))) => assert_eq!(c.args, strings(&["workspace", "update-stale"])),
        other => panic!("unexpected {other:?}"),
    }
    let mut t = tape(vec![
        Answer::Failed(stale.clone()),
        output(""),
        Answer::Ack,
        output("fine"),
        output("left"),
    ]);
    assert_eq!(run_jj(&mut t, &inv).unwrap(), "fine");
    assert_eq!(t.answers.len(), 1);
    let mut t =
        tape(vec![Answer::Failed(stale.clone()), output(""), Answer::Ack, Answer::Failed(stale)]);
    match run_jj(&mut t, &inv) {
        Err(Stop::Fail(CubeError::StaleRecoveryFailed { workspace_path, cause })) => {
            assert_eq!(workspace_path, "/w");
            assert!(cause.starts_with("retry after update-stale failed: "));
        }
        other => panic!("unexpected {other:?}"),
    }
}

#[test]
fn work_of_an_expired_lease_is_not_destroyed() {
    let prior = Some(cube::records::ExpiredLease {
        workspace_id: "m-1".to_string(),
        lease_id: "L".to_string(),
        holder: None,
        task: None,
        leased_at_epoch_s: None,
        lease_expires_at_epoch_s: None,
    });
    let mut t = tape(vec![
        Answer::Ack,
        output(""),
        Answer::Ack,
        output("qwerty\tfalse\tmain"),
        Answer::Ack,
    ]);
    match reset_workspace_guarded(&mut t, "/w", "main", &prior) {
        Err(Stop::Fail(CubeError::LeaseExpiredWorkspaceDirty { prior_holder, .. })) => {
            assert_eq!(prior_holder, "<unknown>")
        }
        other => panic!("unexpected {other:?}"),
    }
    let mut t = tape(vec![
        Answer::Ack,
        output(""),
        Answer::Ack,
        output("qwerty\ttrue\tfeature, main ;other"),
        Answer::Ack,
        output(""),
        Answer::Ack,
        output(""),
    ]);
    assert!(reset_workspace_guarded(&mut t, "/w", "main", &prior).is_ok());
}

#[test]
fn head_status_is_read_from_tabs() {
    let head = parse_head_status(" abc\tTRUE\tx,main;y \n", "main");
    assert_eq!(head.head_change_id, "abc");
    assert!(head.head_is_empty && head.is_clean_on_main);
    assert_eq!(head.head_parent_bookmarks, "x,main;y");
    assert!(!parse_head_status("abc\ttrue\tmainly", "main").is_clean_on_main);
    assert!(!parse_head_status("abc", "main").head_is_empty);
}

#[test]
fn health_is_read_from_status() {
    assert_eq!(parse_health("The working copy is clean"), WorkspaceHealthOutcome::Clean);
    assert_eq!(
        parse_health("  Working copy changes:\nM a\nThese bookmarks have conflicts:\n  x\n"),
        WorkspaceHealthOutcome::DirtyWorkingCopy
    );
    let status = "These bookmarks have conflicts:\n  fix-a\n  fix-b\n  Use `jj bookmark list` to see\n  fix-c\n";
    let plain = "These bookmarks have conflicts:\n  fix-a\nDone\n  fix-b\n";
    assert_eq!(parse_conflicted_bookmarks_from_status(plain), strings(&["fix-a"]));
    assert_eq!(parse_conflicted_bookmarks_from_status(status), strings(&["fix-a", "fix-b"]));
    assert_eq!(
        parse_health(status),
        WorkspaceHealthOutcome::ConflictedBookmarks(strings(&["fix-a", "fix-b"]))
    );
}

// ---------------------------------------------------------------------------
// Pull requests
// ---------------------------------------------------------------------------

#[test]
fn a_pull_request_must_be_open() {
    let open = |json: &str| check_pr_open(&mut tape(vec![output(json)]), "/w", "o/r", 7);
    assert!(open("{\"state\":\"OPEN\"}").is_ok());
    for (json, words) in [
        ("{\"state\":\"MERGED\"}", "PR #7 is MERGED"),
        ("{}", "PR #7 is UNKNOWN"),
        ("[1]", "PR #7 is UNKNOWN"),
        ("nonsense", "unexpected response from `gh pr view 7`"),
    ] {
        match open(json) {
            Err(Stop::Fail(e)) => assert!(e.message().contains(words), "{}", e.message()),
            other => panic!("unexpected {other:?}"),
        }
    }
}

#[test]
fn the_pull_request_of_a_branch_is_looked_up() {
    let args = PrPushArgs { pr: None, branch: Some("feature".to_string()), force_with_lease: false };
    let ask = |json: &str| {
        let mut t = tape(vec![output("/w"), output("gh git@github.com:o/r.git"), output(json)]);
        pr_push(&mut t, &args)
    };
    match ask("[{\"number\":12},{\"number\":13}]") {
        Err(Stop::Ask(Action::Run(c))) => {
            assert_eq!(c.args, strings(&["pr", "view", "12", "-R", "o/r", "--json", "state"]))
        }
        other => panic!("unexpected {other:?}"),
    }
    for (json, words) in [("[]", "no open PR found"), ("{", "unexpected response"), ("[{}]", "no open PR found")] {
        match ask(json) {
            Err(Stop::Fail(e)) => assert!(e.message().contains(words), "{}", e.message()),
            other => panic!("unexpected {other:?}"),
        }
    }
}

#[test]
fn json_is_read() {
    let json = parse_json(r#"{"a":{"b":[1,-2,1.5,null,true]},"n":7,"s":"x","a2":"y"}"#).unwrap();
    assert_eq!(json.count_at("n"), Some(7));
    assert_eq!(json.count_at("s"), None);
    assert_eq!(json.text_at("s").as_deref(), Some("x"));
    assert_eq!(json.text_at("n"), None);
    assert_eq!(json.text_at("missing"), None);
    assert_eq!(
        json.get("a").and_then(|a| a.get("b")),
        Some(&Json::List(vec![
            Json::Count(1),
            Json::Int(-2),
            Json::Real("1.5".to_string()),
            Json::Null,
            Json::Flag(true),
        ]))
    );
    assert_eq!(Json::List(vec![]).get("a"), None);
    assert_eq!(parse_json("{"), Err("EOF while parsing an object at line 1 column 1".to_string()));
    assert_eq!(parse_json_list("[1,\"a\"]").unwrap().len(), 2);
    assert_eq!(
        parse_json_list("{}"),
        Err("invalid type: map, expected a sequence at line 1 column 0".to_string())
    );
}

#[test]
fn open_pull_requests_are_counted() {
    let choose = |list: &str| choose_existing(&parse_json_list(list).unwrap());
    assert_eq!(choose("[]"), Existing::Create);
    assert_eq!(choose("[{\"title\":\"t\"}]"), Existing::Create);
    assert_eq!(choose("[{\"url\":\"u\"}]"), Existing::Use("u".to_string()));
    assert_eq!(choose("[{\"url\":\"u\"},{\"url\":\"v\"},3]"), Existing::TooMany(3));
    assert_eq!(first_number(&parse_json_list("[{\"number\":5},{\"number\":6}]").unwrap()), Some(5));
    assert_eq!(first_number(&parse_json_list("[{\"number\":-5}]").unwrap()), None);
    assert_eq!(first_number(&vec![]), None);
    assert_eq!(named_state(&parse_json("{\"state\":\"DRAFT\"}").unwrap()), "DRAFT");
    assert_eq!(named_state(&parse_json("7").unwrap()), "UNKNOWN");
}

#[test]
fn a_closed_pull_request_is_not_resumed() {
    let read = |json: &str| head_branch(3, "o/r", &parse_json(json).unwrap());
    assert_eq!(read(r#"{"state":"OPEN","headRefName":"b"}"#), Ok("b".to_string()));
    assert_eq!(read(r#"{"headRefName":"b"}"#), Ok("b".to_string()));
    for state in ["CLOSED", "MERGED"] {
        let error = read(&format!("{{\"state\":\"{state}\",\"headRefName\":\"b\"}}")).unwrap_err();
        assert!(error.message().contains(state));
    }
    assert!(read("{}").unwrap_err().message().contains("headRefName"));
}

// ---------------------------------------------------------------------------
// The pool
// ---------------------------------------------------------------------------

#[test]
fn candidates_are_directories_with_the_prefix() {
    let named = |name: &str, is_dir: bool| DirEntry::Named { name: unicode(name), is_dir };
    let found = read_candidates(
        "/pool",
        "m-",
        &vec![named("m-2", true), named("m-1", true), named("m-3", false), named(".incoming-m-4", true)],
    )
    .unwrap();
    let ids: Vec<&str> = found.iter().map(|c| c.workspace_id.as_str()).collect();
    assert_eq!(ids, vec!["m-1", "m-2"]);
    assert_eq!(found[0].workspace_path, "/pool/m-1");
    assert_eq!(
        read_candidates(
            "/pool",
            "m-",
            &vec![DirEntry::Untyped { name: unicode("q"), cause: "c".to_string() }]
        ),
        Err(CubeError::WorkspaceDirRead { path: "/pool/q".to_string(), source: "c".to_string() })
    );
    assert_eq!(
        read_candidates("/pool", "m-", &vec![DirEntry::Unreadable { cause: "c".to_string() }]),
        Err(CubeError::WorkspaceDirRead { path: "/pool".to_string(), source: "c".to_string() })
    );
}

#[test]
fn missing_rows_meet_their_fate() {
    let mut w = row("m-1");
    assert_eq!(fate(&w, 100), Fate::Forget);
    w.state = WorkspaceState::Leased;
    assert_eq!(fate(&w, 100), Fate::Hold);
    w.lease_expires_at_epoch_s = Some(101);
    assert_eq!(fate(&w, 100), Fate::Hold);
    w.lease_expires_at_epoch_s = Some(100);
    assert_eq!(fate(&w, 100), Fate::Evict);
}

#[test]
fn the_preferred_workspace_is_tried_first() {
    let free = vec![row("m-1"), row("m-2"), row("m-3")];
    let ids = |prefer: Option<&str>| -> Vec<String> {
        order_free(&free, &prefer.map(str::to_string)).into_iter().map(|w| w.workspace_id).collect()
    };
    assert_eq!(ids(None), strings(&["m-1", "m-2", "m-3"]));
    assert_eq!(ids(Some("m-3")), strings(&["m-3", "m-1", "m-2"]));
    assert_eq!(ids(Some("m-9")), strings(&["m-1", "m-2", "m-3"]));
}

#[test]
fn only_aged_free_workspaces_are_collected() {
    let mut w = row("m-1");
    assert!(!aged(&w, 10));
    w.health_status = Some(WorkspaceHealth::Dirty);
    w.unhealthy_since_epoch_s = Some(10);
    assert!(aged(&w, 11));
    assert!(!aged(&w, 10));
    w.state = WorkspaceState::Leased;
    assert!(!aged(&w, 11));
}

#[test]
fn bookmarks_are_picked_once() {
    let listing = "boss/exec_1 boss/exec_1@origin\nmain boss/exec_2 boss/exec_1 pr/4 pr/4@github";
    assert_eq!(pick_bookmarks(listing, Pick::Exec), strings(&["boss/exec_1", "boss/exec_2"]));
    assert_eq!(pick_bookmarks(listing, Pick::Pr), strings(&["pr/4"]));
}

#[test]
fn a_dry_run_names_what_would_go() {
    let answers = vec![output("boss/exec_1\n"), output("origin /mirror\n")];
    let names = gc_workspace_bookmarks(&mut tape(answers.clone()), "/w", false, true).unwrap();
    assert_eq!(names, strings(&["boss/exec_1"]));
    match gc_workspace_bookmarks(&mut tape(answers), "/w", false, false) {
        Err(Stop::Ask(Action::Run(c))) => {
            assert_eq!(c.args, strings(&["bookmark", "forget", "boss/exec_1"]))
        }
        other => panic!("unexpected {other:?}"),
    }
}

#[test]
fn the_exclude_block_is_written_once() {
    let block = render_boss_infra_exclude_block("m-1");
    let once = upsert_managed_exclude("*.tmp", &block);
    assert_eq!(once, format!("*.tmp\n{block}"));
    assert_eq!(upsert_managed_exclude(&once, &block), once);
    let longer = format!("{once}tail\n");
    let other = render_boss_infra_exclude_block("m-2");
    assert_eq!(upsert_managed_exclude(&longer, &other), format!("*.tmp\n{other}tail\n"));
}

const BEGIN: &str = "# >>> boss-internal infra (managed by cube) >>>";
const END: &str = "# <<< boss-internal infra (managed by cube) <<<";

#[test]
fn a_body_that_carries_the_block_stays() {
    let block = render_boss_infra_exclude_block("mono-agent-004");
    let stray = format!("{END}\n{block}");
    assert_eq!(upsert_managed_exclude(&stray, &block), stray);
    let other = render_boss_infra_exclude_block("mono-agent-005");
    let two = format!("a\n{other}{block}b\n");
    assert_eq!(upsert_managed_exclude(&two, &block), two);
}

#[test]
fn the_closing_mark_is_sought_behind_the_opening_one() {
    let block = render_boss_infra_exclude_block("mono-agent-004");
    let stray = format!("{END}\n{BEGIN}\nold\n{END}\ntail\n");
    let once = upsert_managed_exclude(&stray, &block);
    assert_eq!(once, format!("{END}\n{block}tail\n"));
    assert_eq!(upsert_managed_exclude(&once, &block), once);
    for lone in [format!("{BEGIN}\n"), format!("{END}\n"), format!("{END}\n{BEGIN}")] {
        let once = upsert_managed_exclude(&lone, &block);
        assert!(once.starts_with(&lone) && once.ends_with(&block));
        assert_eq!(upsert_managed_exclude(&once, &block), once);
    }
}

#[test]
fn one_block_is_left() {
    let block = render_boss_infra_exclude_block("mono-agent-004");
    for body in ["", "*.tmp", "*.tmp\n", &format!("x\n{BEGIN}\nold\n{END}y"), &block] {
        let once = upsert_managed_exclude(body, &block);
        assert_eq!(once.matches(BEGIN).count(), 1);
        assert_eq!(once.matches(END).count(), 1);
    }
}

#[test]
fn log_names_that_are_not_unicode_are_left_alone() {
    let foreign = DirEntry::Named {
        name: DirName { text: "m\u{fffd}".to_string(), is_unicode: false },
        is_dir: true,
    };
    let gone = DirEntry::Named { name: unicode("m-1"), is_dir: true };
    let mut t = tape(vec![
        Answer::Place(Some("/logs".to_string())),
        Answer::Flag(true),
        Answer::Listed(Listing::Entries(vec![foreign, gone])),
        Answer::Workspaces(vec![]),
    ]);
    assert_eq!(
        gc_stale_workspace_logs(&mut t),
        Err(Stop::Ask(Action::RemoveTree("/logs/m-1".to_string())))
    );
}

// ---------------------------------------------------------------------------
// Cloning
// ---------------------------------------------------------------------------

fn repo_with(clone_command: &str) -> cube::records::RepoRecord {
    cube::records::RepoRecord {
        repo: "r".to_string(),
        origin: "o".to_string(),
        main_branch: "main".to_string(),
        workspace_root: "/pool".to_string(),
        workspace_prefix: "r-".to_string(),
        source: Some("/src/r".to_string()),
        clone_command: Some(clone_command.to_string()),
    }
}

#[test]
fn clone_commands_are_split_like_a_shell_does() {
    let start = || vec![Answer::Flag(false), Answer::Done(None)];
    let record = repo_with("fetch 'a b' c\\ d");
    match materialize_repo_source_if_missing(&mut tape(start()), &record) {
        Err(Stop::Ask(Action::OnPath(program))) => assert_eq!(program, "fetch"),
        other => panic!("unexpected {other:?}"),
    }
    let mut answers = start();
    answers.push(Answer::Flag(true));
    answers.push(Answer::Ack);
    match materialize_repo_source_if_missing(&mut tape(answers), &record) {
        Err(Stop::Ask(Action::Run(c))) => {
            assert_eq!(c.cwd, "/src");
            assert_eq!(c.args, strings(&["a b", "c d"]));
        }
        other => panic!("unexpected {other:?}"),
    }
    for (command, words) in [
        ("fetch 'open", "is not a parseable shell command"),
        ("  ", "is empty"),
    ] {
        match materialize_repo_source_if_missing(&mut tape(start()), &repo_with(command)) {
            Err(Stop::Fail(e)) => assert!(e.message().contains(words), "{}", e.message()),
            other => panic!("unexpected {other:?}"),
        }
    }
    assert_eq!(
        clone_plan("c", Some(strings(&["p", "x", "y"]))),
        Ok(("p".to_string(), strings(&["x", "y"])))
    );
}

#[test]
fn a_missing_remote_on_github_is_explained() {
    let missing = github_fallback_error(failed("jj", "ERROR: Repository NOT FOUND."), "o", "r");
    assert!(missing.message().contains("fell back to GitHub `o/r`"));
    let other = failed("jj", "network is down");
    assert_eq!(github_fallback_error(other.clone(), "o", "r"), other);
}

// ---------------------------------------------------------------------------
// Reports
// ---------------------------------------------------------------------------

#[test]
fn states_have_names() {
    for (name, state) in [
        ("free", EffectiveState::Free),
        ("free-dirty", EffectiveState::FreeDirty),
        ("free-conflicted", EffectiveState::FreeConflicted),
        ("leased", EffectiveState::Leased),
    ] {
        assert_eq!(EffectiveState::from_name(name), Some(state));
        assert_eq!(state.as_str(), name);
    }
    assert_eq!(EffectiveState::from_name("busy"), None);
    let mut w = row("m-1");
    w.health_status = Some(WorkspaceHealth::Conflicted);
    assert_eq!(effective_state_display(&w), "free-conflicted");
    w.state = WorkspaceState::Leased;
    assert_eq!(effective_state_display(&w), "leased");
}

#[test]
fn workspaces_are_listed_in_columns() {
    let mut leased = row("m-10");
    leased.state = WorkspaceState::Leased;
    leased.holder = Some("me".to_string());
    leased.lease_id = Some("L".to_string());
    let spans = format_workspace_list(&vec![row("m-1"), leased], &Some("/pool".to_string()));
    let plain: String = spans.iter().map(|s| s.text.as_str()).collect();
    assert_eq!(
        plain,
        "mono/m-1   free    ~/m-1\nmono/m-10  leased  ~/m-10\n    holder  me\n    lease   L"
    );
    assert_eq!(spans[0].style, Style::Name);
    assert_eq!(spans[2].style, Style::Free);
    assert_eq!(abbreviate_path("/home/me", &Some("/home/me".to_string())), "~");
    assert_eq!(abbreviate_path("/home/me2", &Some("/home/me".to_string())), "/home/me2");
    assert_eq!(abbreviate_path("/x", &Some("".to_string())), "/x");
    assert_eq!(abbreviate_path("/x", &None), "/x");
}

#[test]
fn setup_steps_are_counted() {
    let step = |status: StepStatus| SetupStep { id: "s".to_string(), status };
    let report = SetupReport {
        steps: vec![step(StepStatus::Ran), step(StepStatus::Skipped { reason: "already_ran".to_string() }), step(StepStatus::Ran)],
    };
    assert_eq!(
        format_lease_message("Leased.".to_string(), &report),
        "Leased. Setup: 2 ran, 1 skipped."
    );
    assert_eq!(format_lease_message("Leased.".to_string(), &SetupReport::empty()), "Leased.");
    assert_eq!(format_setup_message("m-1", &report), "Setup complete for m-1: 2 ran, 1 skipped.");
    assert_eq!(
        format_setup_message("m-1", &SetupReport::empty()),
        "No setup steps are configured for m-1."
    );
    let broken = SetupReport {
        steps: vec![step(StepStatus::Ran), step(StepStatus::Failed { error: "e".to_string() })],
    };
    assert_eq!(broken.first_failure(), Some(("s".to_string(), "e".to_string())));
    assert_eq!(report.first_failure(), None);
}

// ---------------------------------------------------------------------------
// The command line
// ---------------------------------------------------------------------------

fn parses(argv: &[&str]) -> bool {
    Cli::try_parse_from(argv).is_ok()
}

#[test]
fn the_grammar_is_strict() {
    assert!(!parses(&[]));
    assert!(!parses(&["cube"]));
    assert!(!parses(&["cube", "repo"]));
    assert!(!parses(&["cube", "--help"]));
    assert!(!parses(&["cube", "nonsense"]));
    assert!(!parses(&["cube", "repo", "list", "extra"]));
    assert!(!parses(&["cube", "repo", "list", "--json=true"]));
    assert!(!parses(&["cube", "repo", "list", "--json", "--json"]));
    assert!(!parses(&["cube", "workspace", "lease", "m", "--task", "a", "--task", "b"]));
    assert!(!parses(&["cube", "workspace", "lease", "m", "--task"]));
    assert!(!parses(&["cube", "workspace", "lease", "m", "--task", "--json"]));
    assert!(!parses(&["cube", "workspace", "lease", "m"]));
    assert!(!parses(&["cube", "workspace", "lease", "m", "--task", "a", "--resume-pr", "x"]));
    assert!(!parses(&["cube", "workspace", "lease", "m", "-x", "--task", "a"]));
    assert!(!parses(&["cube", "stack", "rebase", "--root", "a", "--subtree", "b", "--onto", "c"]));
    assert!(!parses(&["cube", "pr", "sync", "--root", "a", "--change", "b"]));
    assert!(!parses(&["cube", "pr", "ensure", "--body", "a", "--body-file", "b"]));
    assert!(parses(&["cube", "workspace", "lease", "m", "--task=", "--resume-pr=+7"]));
    assert!(parses(&["cube", "workspace", "lease", "--task", "-", "--", "--m"]));
    assert!(parses(&["cube", "workspace", "release", "--lease", "L", "--repo", "m"]));
    assert!(parses(&["cube", "stack", "rebase", "--onto", "c"]));
    assert!(parses(&["cube", "doctor"]));
}

#[test]
fn json_is_accepted_at_every_level() {
    for argv in [
        vec!["cube", "--json", "repo", "list"],
        vec!["cube", "repo", "--json", "list"],
        vec!["cube", "repo", "list", "--json"],
        vec!["cube", "--json", "repo", "--json", "list", "--json"],
    ] {
        let cli = Cli::try_parse_from(&argv).unwrap();
        assert!(cli.json);
        assert_eq!(cli.command, Command::Repo { command: RepoCommand::List });
    }
    assert!(!Cli::try_parse_from(&["cube", "repo", "list"]).unwrap().json);
}

#[test]
fn values_reach_the_command() {
    let cli = Cli::try_parse_from(&[
        "cube", "repo", "add", "m", "--origin=o", "--workspace-root", "/w", "--workspace-prefix", "m-",
    ])
    .unwrap();
    assert_eq!(
        cli.command,
        Command::Repo {
            command: RepoCommand::Add {
                repo: "m".to_string(),
                origin: "o".to_string(),
                main_branch: "main".to_string(),
                workspace_root: "/w".to_string(),
                workspace_prefix: "m-".to_string(),
                source: None,
            }
        }
    );
}

#[test]
fn commands_that_are_missing_say_so() {
    let rebase = Command::Stack {
        command: StackCommand::Rebase(StackRebaseArgs {
            root: None,
            subtree: None,
            onto: "main".to_string(),
        }),
    };
    let merge = PrCommand::Merge(PrMergeArgs { change: None, stack: None });
    assert_eq!(pr_command_name(&merge), "merge");
    if let Command::Stack { command } = &rebase {
        assert_eq!(stack_command_name(command), "rebase");
    }
    let cases: Vec<(Command, Vec<Answer>, &str)> = vec![
        (rebase, vec![], "stack command `rebase` is not implemented yet"),
        (Command::Pr { command: merge }, vec![], "pr command `merge` is not implemented yet"),
        (
            Command::Doctor(DoctorArgs { workspace: None }),
            vec![],
            "doctor command is not implemented yet",
        ),
        (
            Command::Workspace { command: WorkspaceCommand::Rebase },
            vec![Answer::Saved],
            "workspace command `rebase` is not implemented yet",
        ),
    ];
    for (command, answers, message) in cases {
        match run(Cli { json: false, command }, &mut tape(answers)) {
            Err(Stop::Fail(e)) => {
                assert_eq!(e.message(), message);
                assert_eq!(e.exit_code(), 2);
            }
            other => panic!("unexpected {other:?}"),
        }
    }
}

#[test]
fn later_answers_do_not_change_the_end() {
    let info = || Cli::try_parse_from(&["cube", "repo", "info", "m"]).unwrap();
    let answers = vec![Answer::Saved, Answer::Repo(None)];
    let mut short = tape(answers.clone());
    let first = run(info(), &mut short);
    let mut longer_answers = answers;
    longer_answers.push(Answer::Ack);
    let mut long = tape(longer_answers);
    assert_eq!(run(info(), &mut long), first);
    assert_eq!(short.answers.len(), 0);
    assert_eq!(long.answers.len(), 1);
    match first {
        Err(Stop::Fail(CubeError::RepoNotFound(m))) => assert_eq!(m, "m"),
        other => panic!("unexpected {other:?}"),
    }
    let mut empty = tape(vec![]);
    assert_eq!(run(info(), &mut empty), Err(Stop::Ask(Action::OpenStore)));
}

#[test]
fn failures_of_the_registry_pass_through() {
    let mut t = tape(vec![Answer::Saved, Answer::Failed(CubeError::Storage("locked".to_string()))]);
    let cli = Cli::try_parse_from(&["cube", "repo", "list"]).unwrap();
    assert_eq!(run(cli, &mut t), Err(Stop::Fail(CubeError::Storage("locked".to_string()))));
    let mut t = tape(vec![Answer::Saved, Answer::Repos(vec![]), Answer::Place(None)]);
    let cli = Cli::try_parse_from(&["cube", "repo", "list"]).unwrap();
    let result = run(cli, &mut t).unwrap();
    assert_eq!(result.text(), "No repos configured.");
    assert_eq!(result.payload, Payload::Repos(vec![]));
}
