//! Later answers do not change what earlier ones led to.
//!
//! A procedure that comes to an end with some answers comes to the same end when more
//! answers follow, and leaves those that follow unused. So running a procedure again
//! with one answer more goes on from where it stopped.

use vstd::prelude::*;

use crate::app::{flow_command, flow_pr};
use crate::change::{
    flow_change, flow_change_info, flow_create_in, flow_create_on, flow_describe_change,
    flow_insert_change, flow_known_change, flow_new_change,
};
use crate::cli::{
    ChangeCommandView, ChangeCreateArgsView, CommandView, PrCommandView, PrEnsureArgsView,
    PrPushArgsView, RepoCommandView, WorkspaceCommandView,
};
use crate::command_runner::CommandInvocationView;
use crate::config::{flow_load_config, flow_read_config, RepoResolverView};
use crate::ensure::{
    RepoEnsureDefaultsView, flow_add, flow_ensure, flow_ensure_by_name, flow_ensure_by_origin,
    flow_ensure_core, flow_from_github, flow_list_repos, flow_note_branch, flow_register, flow_repo,
    flow_repo_info, flow_reuse, flow_upsert,
};
use crate::error::CubeErrorView;
use crate::events::AuditEventView;
use crate::exclude::{flow_ensure_excluded, flow_rewrite};
use crate::flow::{
    ActionView, AnswerView, DirEntryView, Flow, ask_ack, ask_change, ask_cleared, ask_config,
    ask_done, ask_expired, ask_flag, ask_found, ask_listed, ask_name, ask_number, ask_output,
    ask_place, ask_repo, ask_repos, ask_saved, ask_setup, ask_text, ask_time, ask_workspace,
    ask_workspaces,
};
use crate::gc::{
    flow_closed_among, flow_closed_bookmarks, flow_fetch_if, flow_forget, flow_gc_bookmarks,
    state_query,
};
use crate::health::{flow_broken_empty, flow_check_health, flow_repair};
use crate::jj::{flow_colocate, flow_note_diverged, flow_run_jj, flow_update_stale, spec_jj};
use crate::lease::{
    LeaseArgsView, TicketView, expired_event, flow_acquire, flow_claim, flow_finish_lease,
    flow_gc_husks, flow_give_back, flow_hand_over, flow_known_repo, flow_lease, flow_lease_clean,
    flow_lease_dirty, flow_lease_from, flow_note_expired, flow_position, flow_position_or_release,
    flow_provision, flow_reclaimable, flow_record_head, flow_refresh, flow_settle, flow_vanished,
};
use crate::order::with_name;
use crate::paths::{spec_path_join, spec_under};
use crate::pool::{
    flow_auto_create, flow_clear, flow_clone_source, flow_create_root, flow_discover,
    flow_find_workspace, flow_gc_husk, flow_lookup, flow_publish, flow_sync_around, flow_track,
    flow_track_each,
};
use crate::pool_gc::{
    entry_name, flow_gc_aged, flow_gc_aged_all, flow_gc_aged_one, flow_gc_bookmarks_all,
    flow_gc_logs, flow_gc_rest, flow_main_branch, flow_mark_reset, flow_max_age, flow_note_reset,
    flow_pool_gc, flow_remove_logs, flow_still_free, flow_trigger_gc, is_registered, warn,
};
use crate::pr::{
    flow_detect_bookmark, flow_here, flow_run, flow_set_pr_bookmark, flow_verify_push, spec_gh,
};
use crate::pr_ensure::{
    flow_body_of, flow_branch, flow_ensure_pr, flow_find_or_create, flow_finish, flow_keep_stream,
    flow_remove_temp, flow_resolve_body,
};
use crate::pr_push::{
    flow_advance, flow_advance_one, flow_branch_of_pr, flow_check_open, flow_force_push,
    flow_forward_push, flow_github_sha, flow_infer, flow_land, flow_nothing_to_land,
    flow_pr_of_branch, flow_pr_push, flow_target,
};
use crate::reconcile::{
    flow_evict_row, flow_forget_row, flow_hold_row, flow_reconcile, flow_reconcile_each,
    flow_reconcile_repo, flow_reconcile_row, flow_reconcile_rows, flow_release_missing,
    flow_repos_to_reconcile,
};
use crate::records::{
    ChangeRecordView, EffectiveState, ExpiredLeaseView, ReconcileReportView, RepoRecordView,
    WorkspaceCandidateView, WorkspaceRecordView, WorkspaceState,
};
use crate::repo::{
    flow_clone_by_command, flow_clone_by_jj, flow_clone_into, flow_colocate_clone, flow_detect,
    flow_materialize,
};
use crate::report::{HealthCheckView, PrResumeInfoView, WorkspaceGcResultView};
use crate::reset::{
    flow_current_change, flow_current_commit, flow_fast_forward, flow_guard, flow_new_on_main,
    flow_note_look, flow_read_head_status, flow_reset,
};
use crate::resume::{flow_github_of, flow_head_branch, flow_resume, flow_stand_on};
use crate::scan::{ScanView, flow_note_dirty, flow_scan, flow_scan_one};
use crate::setup::flow_setup;
use crate::text::spec_strip_prefix;
use crate::workspace::{
    flow_clean_for_release, flow_clean_logs, flow_expunge, flow_force_release, flow_force_released,
    flow_gc, flow_gc_each, flow_gc_one, flow_heartbeat, flow_known_workspace, flow_list,
    flow_list_by, flow_one_row, flow_release, flow_release_gc, flow_release_gone, flow_release_slot,
    flow_remove, flow_resolve_lease, flow_set_up, flow_status, flow_take_out, flow_workspace,
};

verus! {

pub broadcast proof fn replay_ask_output(t: Seq<AnswerView>, s: Seq<AnswerView>, a: ActionView)
    ensures
        ask_output(t, a) !is Asks ==> #[trigger] ask_output(t + s, a)
            == ask_output(t, a).with_more(s),
{
    if t.len() > 0 {
        assert((t + s).drop_first() =~= t.drop_first() + s);
    }
}

pub broadcast proof fn replay_run(
    t: Seq<AnswerView>,
    s: Seq<AnswerView>,
    inv: CommandInvocationView,
    before: Seq<char>,
    after: Seq<char>,
)
    ensures
        flow_run(t, inv, before, after) !is Asks ==> #[trigger] flow_run(t + s, inv, before, after)
            == flow_run(t, inv, before, after).with_more(s),
{
    broadcast use replay_ask_output;
}

pub broadcast proof fn replay_here(t: Seq<AnswerView>, s: Seq<AnswerView>)
    ensures
        flow_here(t) !is Asks ==> #[trigger] flow_here(t + s)
            == flow_here(t).with_more(s),
{
    broadcast use {
        replay_ask_output, replay_run,
    };
}

pub broadcast proof fn replay_detect_bookmark(
    t: Seq<AnswerView>,
    s: Seq<AnswerView>,
    cwd: Seq<char>,
)
    ensures
        flow_detect_bookmark(t, cwd) !is Asks ==> #[trigger] flow_detect_bookmark(t + s, cwd)
            == flow_detect_bookmark(t, cwd).with_more(s),
{
    broadcast use replay_run;
}

pub broadcast proof fn replay_branch(
    t: Seq<AnswerView>,
    s: Seq<AnswerView>,
    cwd: Seq<char>,
    branch: Option<Seq<char>>,
)
    ensures
        flow_branch(t, cwd, branch) !is Asks ==> #[trigger] flow_branch(t + s, cwd, branch)
            == flow_branch(t, cwd, branch).with_more(s),
{
    broadcast use replay_detect_bookmark;
}

pub broadcast proof fn replay_verify_push(
    t: Seq<AnswerView>,
    s: Seq<AnswerView>,
    cwd: Seq<char>,
    slug: Seq<char>,
    branch: Seq<char>,
)
    ensures
        flow_verify_push(t, cwd, slug, branch) !is Asks
            ==> #[trigger] flow_verify_push(t + s, cwd, slug, branch)
            == flow_verify_push(t, cwd, slug, branch).with_more(s),
{
    broadcast use replay_run;
}

pub broadcast proof fn replay_set_pr_bookmark(
    t: Seq<AnswerView>,
    s: Seq<AnswerView>,
    cwd: Seq<char>,
    number: Option<u64>,
    branch: Seq<char>,
)
    ensures
        flow_set_pr_bookmark(t, cwd, number, branch) !is Asks
            ==> #[trigger] flow_set_pr_bookmark(t + s, cwd, number, branch)
            == flow_set_pr_bookmark(t, cwd, number, branch).with_more(s),
{
    broadcast use replay_run;
}

pub broadcast proof fn replay_finish(
    t: Seq<AnswerView>,
    s: Seq<AnswerView>,
    cwd: Seq<char>,
    branch: Seq<char>,
    created: bool,
    url: Seq<char>,
)
    ensures
        flow_finish(t, cwd, branch, created, url) !is Asks
            ==> #[trigger] flow_finish(t + s, cwd, branch, created, url)
            == flow_finish(t, cwd, branch, created, url).with_more(s),
{
    broadcast use replay_set_pr_bookmark;
}

pub broadcast proof fn replay_ask_text(t: Seq<AnswerView>, s: Seq<AnswerView>, a: ActionView)
    ensures
        ask_text(t, a) !is Asks ==> #[trigger] ask_text(t + s, a)
            == ask_text(t, a).with_more(s),
{
    if t.len() > 0 {
        assert((t + s).drop_first() =~= t.drop_first() + s);
    }
}

pub broadcast proof fn replay_ask_name(t: Seq<AnswerView>, s: Seq<AnswerView>, a: ActionView)
    ensures
        ask_name(t, a) !is Asks ==> #[trigger] ask_name(t + s, a)
            == ask_name(t, a).with_more(s),
{
    if t.len() > 0 {
        assert((t + s).drop_first() =~= t.drop_first() + s);
    }
}

pub broadcast proof fn replay_ask_done(t: Seq<AnswerView>, s: Seq<AnswerView>, a: ActionView)
    ensures
        ask_done(t, a) !is Asks ==> #[trigger] ask_done(t + s, a)
            == ask_done(t, a).with_more(s),
{
    if t.len() > 0 {
        assert((t + s).drop_first() =~= t.drop_first() + s);
    }
}

pub broadcast proof fn replay_keep_stream(
    t: Seq<AnswerView>,
    s: Seq<AnswerView>,
    path: Seq<char>,
    source: ActionView,
)
    ensures
        flow_keep_stream(t, path, source) !is Asks
            ==> #[trigger] flow_keep_stream(t + s, path, source)
            == flow_keep_stream(t, path, source).with_more(s),
{
    broadcast use {
        replay_ask_text, replay_ask_name, replay_ask_done,
    };
}

pub broadcast proof fn replay_ask_found(t: Seq<AnswerView>, s: Seq<AnswerView>, a: ActionView)
    ensures
        ask_found(t, a) !is Asks ==> #[trigger] ask_found(t + s, a)
            == ask_found(t, a).with_more(s),
{
    if t.len() > 0 {
        assert((t + s).drop_first() =~= t.drop_first() + s);
    }
}

pub broadcast proof fn replay_resolve_body(
    t: Seq<AnswerView>,
    s: Seq<AnswerView>,
    path: Seq<char>,
)
    ensures
        flow_resolve_body(t, path) !is Asks ==> #[trigger] flow_resolve_body(t + s, path)
            == flow_resolve_body(t, path).with_more(s),
{
    broadcast use {
        replay_keep_stream, replay_ask_found,
    };
}

pub broadcast proof fn replay_body_of(
    t: Seq<AnswerView>,
    s: Seq<AnswerView>,
    path: Option<Seq<char>>,
)
    ensures
        flow_body_of(t, path) !is Asks ==> #[trigger] flow_body_of(t + s, path)
            == flow_body_of(t, path).with_more(s),
{
    broadcast use replay_resolve_body;
}

pub broadcast proof fn replay_ask_ack(t: Seq<AnswerView>, s: Seq<AnswerView>, a: ActionView)
    ensures
        ask_ack(t, a) !is Asks ==> #[trigger] ask_ack(t + s, a)
            == ask_ack(t, a).with_more(s),
{
    if t.len() > 0 {
        assert((t + s).drop_first() =~= t.drop_first() + s);
    }
}

pub broadcast proof fn replay_remove_temp(
    t: Seq<AnswerView>,
    s: Seq<AnswerView>,
    temp: Option<Seq<char>>,
)
    ensures
        flow_remove_temp(t, temp) !is Asks ==> #[trigger] flow_remove_temp(t + s, temp)
            == flow_remove_temp(t, temp).with_more(s),
{
    broadcast use replay_ask_ack;
}

pub broadcast proof fn replay_create_pr_ensure(
    t: Seq<AnswerView>,
    s: Seq<AnswerView>,
    cwd: Seq<char>,
    slug: Seq<char>,
    branch: Seq<char>,
    args: PrEnsureArgsView,
)
    ensures
        crate::pr_ensure::flow_create(t, cwd, slug, branch, args) !is Asks
            ==> #[trigger] crate::pr_ensure::flow_create(t + s, cwd, slug, branch, args)
            == crate::pr_ensure::flow_create(t, cwd, slug, branch, args).with_more(s),
{
    broadcast use {
        replay_body_of, replay_run, replay_remove_temp, replay_finish,
    };
}

pub broadcast proof fn replay_find_or_create(
    t: Seq<AnswerView>,
    s: Seq<AnswerView>,
    cwd: Seq<char>,
    slug: Seq<char>,
    branch: Seq<char>,
    args: PrEnsureArgsView,
)
    ensures
        flow_find_or_create(t, cwd, slug, branch, args) !is Asks
            ==> #[trigger] flow_find_or_create(t + s, cwd, slug, branch, args)
            == flow_find_or_create(t, cwd, slug, branch, args).with_more(s),
{
    broadcast use {
        replay_run, replay_finish, replay_create_pr_ensure,
    };
}

pub broadcast proof fn replay_ensure_pr(
    t: Seq<AnswerView>,
    s: Seq<AnswerView>,
    args: PrEnsureArgsView,
)
    ensures
        flow_ensure_pr(t, args) !is Asks ==> #[trigger] flow_ensure_pr(t + s, args)
            == flow_ensure_pr(t, args).with_more(s),
{
    broadcast use {
        replay_here, replay_branch, replay_run, replay_verify_push, replay_find_or_create,
    };
}

pub broadcast proof fn replay_branch_of_pr(
    t: Seq<AnswerView>,
    s: Seq<AnswerView>,
    cwd: Seq<char>,
    n: u64,
)
    ensures
        flow_branch_of_pr(t, cwd, n) !is Asks ==> #[trigger] flow_branch_of_pr(t + s, cwd, n)
            == flow_branch_of_pr(t, cwd, n).with_more(s),
{
    broadcast use replay_run;
}

pub broadcast proof fn replay_pr_of_branch(
    t: Seq<AnswerView>,
    s: Seq<AnswerView>,
    cwd: Seq<char>,
    slug: Seq<char>,
    branch: Seq<char>,
)
    ensures
        flow_pr_of_branch(t, cwd, slug, branch) !is Asks
            ==> #[trigger] flow_pr_of_branch(t + s, cwd, slug, branch)
            == flow_pr_of_branch(t, cwd, slug, branch).with_more(s),
{
    broadcast use replay_run;
}

pub broadcast proof fn replay_infer(t: Seq<AnswerView>, s: Seq<AnswerView>, cwd: Seq<char>)
    ensures
        flow_infer(t, cwd) !is Asks ==> #[trigger] flow_infer(t + s, cwd)
            == flow_infer(t, cwd).with_more(s),
{
    broadcast use replay_run;
}

pub broadcast proof fn replay_target(
    t: Seq<AnswerView>,
    s: Seq<AnswerView>,
    args: PrPushArgsView,
    cwd: Seq<char>,
    slug: Seq<char>,
)
    ensures
        flow_target(t, args, cwd, slug) !is Asks ==> #[trigger] flow_target(t + s, args, cwd, slug)
            == flow_target(t, args, cwd, slug).with_more(s),
{
    broadcast use {
        replay_branch_of_pr, replay_pr_of_branch, replay_infer,
    };
}

pub broadcast proof fn replay_check_open(
    t: Seq<AnswerView>,
    s: Seq<AnswerView>,
    cwd: Seq<char>,
    slug: Seq<char>,
    n: u64,
)
    ensures
        flow_check_open(t, cwd, slug, n) !is Asks
            ==> #[trigger] flow_check_open(t + s, cwd, slug, n)
            == flow_check_open(t, cwd, slug, n).with_more(s),
{
    broadcast use replay_run;
}

pub broadcast proof fn replay_github_sha(
    t: Seq<AnswerView>,
    s: Seq<AnswerView>,
    cwd: Seq<char>,
    slug: Seq<char>,
    branch: Seq<char>,
)
    ensures
        flow_github_sha(t, cwd, slug, branch) !is Asks
            ==> #[trigger] flow_github_sha(t + s, cwd, slug, branch)
            == flow_github_sha(t, cwd, slug, branch).with_more(s),
{
    broadcast use replay_run;
}

pub broadcast proof fn replay_nothing_to_land(
    t: Seq<AnswerView>,
    s: Seq<AnswerView>,
    cwd: Seq<char>,
    slug: Seq<char>,
    n: u64,
    branch: Seq<char>,
)
    ensures
        flow_nothing_to_land(t, cwd, slug, n, branch) !is Asks
            ==> #[trigger] flow_nothing_to_land(t + s, cwd, slug, n, branch)
            == flow_nothing_to_land(t, cwd, slug, n, branch).with_more(s),
{
    broadcast use {
        replay_github_sha, replay_ask_output,
    };
}

pub broadcast proof fn replay_advance_one(
    t: Seq<AnswerView>,
    s: Seq<AnswerView>,
    cwd: Seq<char>,
    name: Seq<char>,
)
    ensures
        flow_advance_one(t, cwd, name) !is Asks ==> #[trigger] flow_advance_one(t + s, cwd, name)
            == flow_advance_one(t, cwd, name).with_more(s),
{
    broadcast use replay_run;
}

pub broadcast proof fn replay_advance(
    t: Seq<AnswerView>,
    s: Seq<AnswerView>,
    cwd: Seq<char>,
    branch: Seq<char>,
    bookmark: Seq<char>,
)
    ensures
        flow_advance(t, cwd, branch, bookmark) !is Asks
            ==> #[trigger] flow_advance(t + s, cwd, branch, bookmark)
            == flow_advance(t, cwd, branch, bookmark).with_more(s),
{
    broadcast use replay_advance_one;
}

pub broadcast proof fn replay_force_push(
    t: Seq<AnswerView>,
    s: Seq<AnswerView>,
    cwd: Seq<char>,
    remote: Seq<char>,
    slug: Seq<char>,
    n: u64,
    branch: Seq<char>,
)
    ensures
        flow_force_push(t, cwd, remote, slug, n, branch) !is Asks
            ==> #[trigger] flow_force_push(t + s, cwd, remote, slug, n, branch)
            == flow_force_push(t, cwd, remote, slug, n, branch).with_more(s),
{
    broadcast use {
        replay_run, replay_github_sha, replay_advance,
    };
}

pub broadcast proof fn replay_forward_push(
    t: Seq<AnswerView>,
    s: Seq<AnswerView>,
    cwd: Seq<char>,
    remote: Seq<char>,
    n: u64,
    branch: Seq<char>,
)
    ensures
        flow_forward_push(t, cwd, remote, n, branch) !is Asks
            ==> #[trigger] flow_forward_push(t + s, cwd, remote, n, branch)
            == flow_forward_push(t, cwd, remote, n, branch).with_more(s),
{
    broadcast use {
        replay_run, replay_advance,
    };
}

pub broadcast proof fn replay_land(
    t: Seq<AnswerView>,
    s: Seq<AnswerView>,
    cwd: Seq<char>,
    remote: Seq<char>,
    slug: Seq<char>,
    n: u64,
    branch: Seq<char>,
    force: bool,
)
    ensures
        flow_land(t, cwd, remote, slug, n, branch, force) !is Asks
            ==> #[trigger] flow_land(t + s, cwd, remote, slug, n, branch, force)
            == flow_land(t, cwd, remote, slug, n, branch, force).with_more(s),
{
    broadcast use {
        replay_check_open, replay_run, replay_nothing_to_land, replay_force_push,
        replay_forward_push, replay_verify_push,
    };
}

pub broadcast proof fn replay_pr_push(
    t: Seq<AnswerView>,
    s: Seq<AnswerView>,
    args: PrPushArgsView,
)
    ensures
        flow_pr_push(t, args) !is Asks ==> #[trigger] flow_pr_push(t + s, args)
            == flow_pr_push(t, args).with_more(s),
{
    broadcast use {
        replay_here, replay_target, replay_land,
    };
}

pub broadcast proof fn replay_pr(t: Seq<AnswerView>, s: Seq<AnswerView>, command: PrCommandView)
    ensures
        flow_pr(t, command) !is Asks ==> #[trigger] flow_pr(t + s, command)
            == flow_pr(t, command).with_more(s),
{
    broadcast use {
        replay_ensure_pr, replay_pr_push,
    };
}

pub broadcast proof fn replay_ask_saved(t: Seq<AnswerView>, s: Seq<AnswerView>, a: ActionView)
    ensures
        ask_saved(t, a) !is Asks ==> #[trigger] ask_saved(t + s, a)
            == ask_saved(t, a).with_more(s),
{
    if t.len() > 0 {
        assert((t + s).drop_first() =~= t.drop_first() + s);
    }
}

pub broadcast proof fn replay_ask_config(t: Seq<AnswerView>, s: Seq<AnswerView>, a: ActionView)
    ensures
        ask_config(t, a) !is Asks ==> #[trigger] ask_config(t + s, a)
            == ask_config(t, a).with_more(s),
{
    if t.len() > 0 {
        assert((t + s).drop_first() =~= t.drop_first() + s);
    }
}

pub broadcast proof fn replay_read_config(
    t: Seq<AnswerView>,
    s: Seq<AnswerView>,
    path: Seq<char>,
)
    ensures
        flow_read_config(t, path) !is Asks ==> #[trigger] flow_read_config(t + s, path)
            == flow_read_config(t, path).with_more(s),
{
    broadcast use {
        replay_ask_flag, replay_ask_text, replay_ask_config,
    };
}

pub broadcast proof fn replay_load_config(t: Seq<AnswerView>, s: Seq<AnswerView>)
    ensures
        flow_load_config(t) !is Asks ==> #[trigger] flow_load_config(t + s)
            == flow_load_config(t).with_more(s),
{
    broadcast use {
        replay_ask_place, replay_read_config,
    };
}

pub broadcast proof fn replay_ask_repo(t: Seq<AnswerView>, s: Seq<AnswerView>, a: ActionView)
    ensures
        ask_repo(t, a) !is Asks ==> #[trigger] ask_repo(t + s, a)
            == ask_repo(t, a).with_more(s),
{
    if t.len() > 0 {
        assert((t + s).drop_first() =~= t.drop_first() + s);
    }
}

pub broadcast proof fn replay_create_root(t: Seq<AnswerView>, s: Seq<AnswerView>, root: Seq<char>)
    ensures
        flow_create_root(t, root) !is Asks ==> #[trigger] flow_create_root(t + s, root)
            == flow_create_root(t, root).with_more(s),
{
    broadcast use replay_ask_done;
}

pub broadcast proof fn replay_ask_flag(t: Seq<AnswerView>, s: Seq<AnswerView>, a: ActionView)
    ensures
        ask_flag(t, a) !is Asks ==> #[trigger] ask_flag(t + s, a)
            == ask_flag(t, a).with_more(s),
{
    if t.len() > 0 {
        assert((t + s).drop_first() =~= t.drop_first() + s);
    }
}

pub broadcast proof fn replay_warn(t: Seq<AnswerView>, s: Seq<AnswerView>, text: Seq<char>)
    ensures
        warn(t, text) !is Asks ==> #[trigger] warn(t + s, text)
            == warn(t, text).with_more(s),
{
    broadcast use replay_ask_ack;
}

pub broadcast proof fn replay_detect(
    t: Seq<AnswerView>,
    s: Seq<AnswerView>,
    cwd: Seq<char>,
    origin: Seq<char>,
)
    ensures
        flow_detect(t, cwd, origin) !is Asks ==> #[trigger] flow_detect(t + s, cwd, origin)
            == flow_detect(t, cwd, origin).with_more(s),
{
    broadcast use replay_ask_output;
}

pub broadcast proof fn replay_colocate_clone(
    t: Seq<AnswerView>,
    s: Seq<AnswerView>,
    source: Seq<char>,
    origin: Seq<char>,
)
    ensures
        flow_colocate_clone(t, source, origin) !is Asks
            ==> #[trigger] flow_colocate_clone(t + s, source, origin)
            == flow_colocate_clone(t, source, origin).with_more(s),
{
    broadcast use {
        replay_warn, replay_ask_output, replay_detect,
    };
}

pub broadcast proof fn replay_clone_by_command(
    t: Seq<AnswerView>,
    s: Seq<AnswerView>,
    record: RepoRecordView,
    clone: Seq<char>,
    source: Seq<char>,
    dir: Seq<char>,
)
    ensures
        flow_clone_by_command(t, record, clone, source, dir) !is Asks
            ==> #[trigger] flow_clone_by_command(t + s, record, clone, source, dir)
            == flow_clone_by_command(t, record, clone, source, dir).with_more(s),
{
    broadcast use {
        replay_ask_flag, replay_warn, replay_ask_output, replay_colocate_clone,
    };
}

pub broadcast proof fn replay_track_each(
    t: Seq<AnswerView>,
    s: Seq<AnswerView>,
    path: Seq<char>,
    branches: Seq<Seq<char>>,
    any: bool,
)
    ensures
        flow_track_each(t, path, branches, any) !is Asks
            ==> #[trigger] flow_track_each(t + s, path, branches, any)
            == flow_track_each(t, path, branches, any).with_more(s),
    decreases branches.len(),
{
    broadcast use replay_ask_output;

    if branches.len() > 0 {
        let rest = branches.drop_first();
        let track = ActionView::Run(
            spec_jj(path, seq!["bookmark"@, "track"@, branches[0] + "@origin"@]),
        );
        match ask_output(t, track) {
            Flow::Done(_, t1) => replay_track_each(t1, s, path, rest, true),
            Flow::Failed(_, t1) => replay_track_each(t1, s, path, rest, any),
            Flow::Asks(_) => {},
        }
    }
}

pub broadcast proof fn replay_track(
    t: Seq<AnswerView>,
    s: Seq<AnswerView>,
    path: Seq<char>,
    default: Option<Seq<char>>,
)
    ensures
        flow_track(t, path, default) !is Asks ==> #[trigger] flow_track(t + s, path, default)
            == flow_track(t, path, default).with_more(s),
{
    broadcast use replay_track_each;
}

pub broadcast proof fn replay_clone_by_jj(
    t: Seq<AnswerView>,
    s: Seq<AnswerView>,
    record: RepoRecordView,
    source: Seq<char>,
    dir: Seq<char>,
)
    ensures
        flow_clone_by_jj(t, record, source, dir) !is Asks
            ==> #[trigger] flow_clone_by_jj(t + s, record, source, dir)
            == flow_clone_by_jj(t, record, source, dir).with_more(s),
{
    broadcast use {
        replay_warn, replay_detect, replay_ask_output, replay_track,
    };
}

pub broadcast proof fn replay_clone_into(
    t: Seq<AnswerView>,
    s: Seq<AnswerView>,
    record: RepoRecordView,
    source: Seq<char>,
)
    ensures
        flow_clone_into(t, record, source) !is Asks
            ==> #[trigger] flow_clone_into(t + s, record, source)
            == flow_clone_into(t, record, source).with_more(s),
{
    broadcast use {
        replay_ask_done, replay_clone_by_command, replay_clone_by_jj,
    };
}

pub broadcast proof fn replay_materialize(
    t: Seq<AnswerView>,
    s: Seq<AnswerView>,
    record: RepoRecordView,
)
    ensures
        flow_materialize(t, record) !is Asks ==> #[trigger] flow_materialize(t + s, record)
            == flow_materialize(t, record).with_more(s),
{
    broadcast use {
        replay_ask_flag, replay_clone_into,
    };
}

pub broadcast proof fn replay_reuse(
    t: Seq<AnswerView>,
    s: Seq<AnswerView>,
    record: RepoRecordView,
)
    ensures
        flow_reuse(t, record) !is Asks ==> #[trigger] flow_reuse(t + s, record)
            == flow_reuse(t, record).with_more(s),
{
    broadcast use {
        replay_create_root, replay_materialize,
    };
}

pub broadcast proof fn replay_upsert(
    t: Seq<AnswerView>,
    s: Seq<AnswerView>,
    record: RepoRecordView,
)
    ensures
        flow_upsert(t, record) !is Asks ==> #[trigger] flow_upsert(t + s, record)
            == flow_upsert(t, record).with_more(s),
{
    broadcast use replay_ask_repo;
}

pub broadcast proof fn replay_note_branch(
    t: Seq<AnswerView>,
    s: Seq<AnswerView>,
    record: RepoRecordView,
    branch: Seq<char>,
)
    ensures
        flow_note_branch(t, record, branch) !is Asks
            ==> #[trigger] flow_note_branch(t + s, record, branch)
            == flow_note_branch(t, record, branch).with_more(s),
{
    broadcast use replay_warn;
}

pub broadcast proof fn replay_register(
    t: Seq<AnswerView>,
    s: Seq<AnswerView>,
    record: RepoRecordView,
)
    ensures
        flow_register(t, record) !is Asks ==> #[trigger] flow_register(t + s, record)
            == flow_register(t, record).with_more(s),
{
    broadcast use {
        replay_create_root, replay_materialize, replay_upsert, replay_note_branch,
    };
}

pub broadcast proof fn replay_ensure_core(
    t: Seq<AnswerView>,
    s: Seq<AnswerView>,
    id: Seq<char>,
    origin: Seq<char>,
    clone_command: Option<Seq<char>>,
    defaults: RepoEnsureDefaultsView,
)
    ensures
        flow_ensure_core(t, id, origin, clone_command, defaults) !is Asks
            ==> #[trigger] flow_ensure_core(t + s, id, origin, clone_command, defaults)
            == flow_ensure_core(t, id, origin, clone_command, defaults).with_more(s),
{
    broadcast use {
        replay_ask_repo, replay_reuse, replay_register,
    };
}

pub broadcast proof fn replay_ensure_by_origin(
    t: Seq<AnswerView>,
    s: Seq<AnswerView>,
    given: Seq<char>,
    defaults: RepoEnsureDefaultsView,
)
    ensures
        flow_ensure_by_origin(t, given, defaults) !is Asks
            ==> #[trigger] flow_ensure_by_origin(t + s, given, defaults)
            == flow_ensure_by_origin(t, given, defaults).with_more(s),
{
    broadcast use replay_ensure_core;
}

pub broadcast proof fn replay_from_github(
    t: Seq<AnswerView>,
    s: Seq<AnswerView>,
    org: Seq<char>,
    repo: Seq<char>,
    defaults: RepoEnsureDefaultsView,
)
    ensures
        flow_from_github(t, org, repo, defaults) !is Asks
            ==> #[trigger] flow_from_github(t + s, org, repo, defaults)
            == flow_from_github(t, org, repo, defaults).with_more(s),
{
    broadcast use replay_ensure_core;
}

pub broadcast proof fn replay_ensure_by_name(
    t: Seq<AnswerView>,
    s: Seq<AnswerView>,
    given: Seq<char>,
    defaults: RepoEnsureDefaultsView,
    resolvers: Seq<RepoResolverView>,
)
    ensures
        flow_ensure_by_name(t, given, defaults, resolvers) !is Asks
            ==> #[trigger] flow_ensure_by_name(t + s, given, defaults, resolvers)
            == flow_ensure_by_name(t, given, defaults, resolvers).with_more(s),
{
    broadcast use {
        replay_ask_repo, replay_reuse, replay_ensure_core, replay_from_github,
    };
}

pub broadcast proof fn replay_ensure(
    t: Seq<AnswerView>,
    s: Seq<AnswerView>,
    reponame: Option<Seq<char>>,
    origin: Option<Seq<char>>,
)
    ensures
        flow_ensure(t, reponame, origin) !is Asks
            ==> #[trigger] flow_ensure(t + s, reponame, origin)
            == flow_ensure(t, reponame, origin).with_more(s),
{
    broadcast use {
        replay_ask_output, replay_load_config, replay_ensure_by_origin, replay_ensure_by_name,
    };
}

pub broadcast proof fn replay_add(t: Seq<AnswerView>, s: Seq<AnswerView>, record: RepoRecordView)
    ensures
        flow_add(t, record) !is Asks ==> #[trigger] flow_add(t + s, record)
            == flow_add(t, record).with_more(s),
{
    broadcast use replay_upsert;
}

pub broadcast proof fn replay_ask_repos(t: Seq<AnswerView>, s: Seq<AnswerView>, a: ActionView)
    ensures
        ask_repos(t, a) !is Asks ==> #[trigger] ask_repos(t + s, a)
            == ask_repos(t, a).with_more(s),
{
    if t.len() > 0 {
        assert((t + s).drop_first() =~= t.drop_first() + s);
    }
}

pub broadcast proof fn replay_ask_place(t: Seq<AnswerView>, s: Seq<AnswerView>, a: ActionView)
    ensures
        ask_place(t, a) !is Asks ==> #[trigger] ask_place(t + s, a)
            == ask_place(t, a).with_more(s),
{
    if t.len() > 0 {
        assert((t + s).drop_first() =~= t.drop_first() + s);
    }
}

pub broadcast proof fn replay_list_repos(t: Seq<AnswerView>, s: Seq<AnswerView>)
    ensures
        flow_list_repos(t) !is Asks ==> #[trigger] flow_list_repos(t + s)
            == flow_list_repos(t).with_more(s),
{
    broadcast use {
        replay_ask_repos, replay_ask_place,
    };
}

pub broadcast proof fn replay_known_repo(t: Seq<AnswerView>, s: Seq<AnswerView>, repo: Seq<char>)
    ensures
        flow_known_repo(t, repo) !is Asks ==> #[trigger] flow_known_repo(t + s, repo)
            == flow_known_repo(t, repo).with_more(s),
{
    broadcast use replay_ask_repo;
}

pub broadcast proof fn replay_repo_info(t: Seq<AnswerView>, s: Seq<AnswerView>, repo: Seq<char>)
    ensures
        flow_repo_info(t, repo) !is Asks ==> #[trigger] flow_repo_info(t + s, repo)
            == flow_repo_info(t, repo).with_more(s),
{
    broadcast use {
        replay_known_repo, replay_ask_place,
    };
}

pub broadcast proof fn replay_repo(
    t: Seq<AnswerView>,
    s: Seq<AnswerView>,
    command: RepoCommandView,
)
    ensures
        flow_repo(t, command) !is Asks ==> #[trigger] flow_repo(t + s, command)
            == flow_repo(t, command).with_more(s),
{
    broadcast use {
        replay_ask_saved, replay_ensure, replay_add, replay_list_repos, replay_repo_info,
    };
}

pub broadcast proof fn replay_ask_time(t: Seq<AnswerView>, s: Seq<AnswerView>, a: ActionView)
    ensures
        ask_time(t, a) !is Asks ==> #[trigger] ask_time(t + s, a)
            == ask_time(t, a).with_more(s),
{
    if t.len() > 0 {
        assert((t + s).drop_first() =~= t.drop_first() + s);
    }
}

pub broadcast proof fn replay_ask_number(t: Seq<AnswerView>, s: Seq<AnswerView>, a: ActionView)
    ensures
        ask_number(t, a) !is Asks ==> #[trigger] ask_number(t + s, a)
            == ask_number(t, a).with_more(s),
{
    if t.len() > 0 {
        assert((t + s).drop_first() =~= t.drop_first() + s);
    }
}

pub broadcast proof fn replay_trigger_gc(t: Seq<AnswerView>, s: Seq<AnswerView>, now: i64)
    ensures
        flow_trigger_gc(t, now) !is Asks ==> #[trigger] flow_trigger_gc(t + s, now)
            == flow_trigger_gc(t, now).with_more(s),
{
    broadcast use {
        replay_ask_number, replay_ask_saved, replay_ask_ack,
    };
}

pub broadcast proof fn replay_ask_listed(t: Seq<AnswerView>, s: Seq<AnswerView>, a: ActionView)
    ensures
        ask_listed(t, a) !is Asks ==> #[trigger] ask_listed(t + s, a)
            == ask_listed(t, a).with_more(s),
{
    if t.len() > 0 {
        assert((t + s).drop_first() =~= t.drop_first() + s);
    }
}

pub broadcast proof fn replay_discover(
    t: Seq<AnswerView>,
    s: Seq<AnswerView>,
    repo: RepoRecordView,
)
    ensures
        flow_discover(t, repo) !is Asks ==> #[trigger] flow_discover(t + s, repo)
            == flow_discover(t, repo).with_more(s),
{
    broadcast use {
        replay_ask_flag, replay_ask_listed,
    };
}

pub broadcast proof fn replay_ask_expired(t: Seq<AnswerView>, s: Seq<AnswerView>, a: ActionView)
    ensures
        ask_expired(t, a) !is Asks ==> #[trigger] ask_expired(t + s, a)
            == ask_expired(t, a).with_more(s),
{
    if t.len() > 0 {
        assert((t + s).drop_first() =~= t.drop_first() + s);
    }
}

pub broadcast proof fn replay_note_expired(
    t: Seq<AnswerView>,
    s: Seq<AnswerView>,
    repo: Seq<char>,
    expired: Seq<ExpiredLeaseView>,
)
    ensures
        flow_note_expired(t, repo, expired) !is Asks
            ==> #[trigger] flow_note_expired(t + s, repo, expired)
            == flow_note_expired(t, repo, expired).with_more(s),
    decreases expired.len(),
{
    broadcast use replay_ask_ack;

    if expired.len() > 0 {
        if let Flow::Done(_, t1) = ask_ack(
            t,
            ActionView::Audit(expired_event(repo, expired[0])),
        ) {
            replay_note_expired(t1, s, repo, expired.drop_first());
        }
    }
}

pub broadcast proof fn replay_ask_workspaces(
    t: Seq<AnswerView>,
    s: Seq<AnswerView>,
    a: ActionView,
)
    ensures
        ask_workspaces(t, a) !is Asks ==> #[trigger] ask_workspaces(t + s, a)
            == ask_workspaces(t, a).with_more(s),
{
    if t.len() > 0 {
        assert((t + s).drop_first() =~= t.drop_first() + s);
    }
}

pub broadcast proof fn replay_forget_row(
    t: Seq<AnswerView>,
    s: Seq<AnswerView>,
    row: WorkspaceRecordView,
)
    ensures
        flow_forget_row(t, row) !is Asks ==> #[trigger] flow_forget_row(t + s, row)
            == flow_forget_row(t, row).with_more(s),
{
    broadcast use {
        replay_ask_saved, replay_warn, replay_ask_ack,
    };
}

pub broadcast proof fn replay_hold_row(
    t: Seq<AnswerView>,
    s: Seq<AnswerView>,
    row: WorkspaceRecordView,
)
    ensures
        flow_hold_row(t, row) !is Asks ==> #[trigger] flow_hold_row(t + s, row)
            == flow_hold_row(t, row).with_more(s),
{
    broadcast use {
        replay_warn, replay_ask_ack,
    };
}

pub broadcast proof fn replay_ask_workspace(t: Seq<AnswerView>, s: Seq<AnswerView>, a: ActionView)
    ensures
        ask_workspace(t, a) !is Asks ==> #[trigger] ask_workspace(t + s, a)
            == ask_workspace(t, a).with_more(s),
{
    if t.len() > 0 {
        assert((t + s).drop_first() =~= t.drop_first() + s);
    }
}

pub broadcast proof fn replay_release_missing(
    t: Seq<AnswerView>,
    s: Seq<AnswerView>,
    lease: Option<Seq<char>>,
)
    ensures
        flow_release_missing(t, lease) !is Asks ==> #[trigger] flow_release_missing(t + s, lease)
            == flow_release_missing(t, lease).with_more(s),
{
    broadcast use replay_ask_workspace;
}

pub broadcast proof fn replay_evict_row(
    t: Seq<AnswerView>,
    s: Seq<AnswerView>,
    row: WorkspaceRecordView,
)
    ensures
        flow_evict_row(t, row) !is Asks ==> #[trigger] flow_evict_row(t + s, row)
            == flow_evict_row(t, row).with_more(s),
{
    broadcast use {
        replay_release_missing, replay_ask_saved, replay_warn, replay_ask_ack,
    };
}

pub broadcast proof fn replay_reconcile_row(
    t: Seq<AnswerView>,
    s: Seq<AnswerView>,
    now: i64,
    row: WorkspaceRecordView,
    report: ReconcileReportView,
)
    ensures
        flow_reconcile_row(t, now, row, report) !is Asks
            ==> #[trigger] flow_reconcile_row(t + s, now, row, report)
            == flow_reconcile_row(t, now, row, report).with_more(s),
{
    broadcast use {
        replay_ask_flag, replay_forget_row, replay_hold_row, replay_evict_row,
    };
}

pub broadcast proof fn replay_reconcile_rows(
    t: Seq<AnswerView>,
    s: Seq<AnswerView>,
    now: i64,
    rows: Seq<WorkspaceRecordView>,
    report: ReconcileReportView,
)
    ensures
        flow_reconcile_rows(t, now, rows, report) !is Asks
            ==> #[trigger] flow_reconcile_rows(t + s, now, rows, report)
            == flow_reconcile_rows(t, now, rows, report).with_more(s),
    decreases rows.len(),
{
    broadcast use replay_reconcile_row;

    if rows.len() > 0 {
        if let Flow::Done(after, t1) = flow_reconcile_row(t, now, rows[0], report) {
            replay_reconcile_rows(t1, s, now, rows.drop_first(), after);
        }
    }
}

pub broadcast proof fn replay_reconcile_repo(
    t: Seq<AnswerView>,
    s: Seq<AnswerView>,
    repo: Seq<char>,
    now: i64,
)
    ensures
        flow_reconcile_repo(t, repo, now) !is Asks
            ==> #[trigger] flow_reconcile_repo(t + s, repo, now)
            == flow_reconcile_repo(t, repo, now).with_more(s),
{
    broadcast use {
        replay_ask_workspaces, replay_reconcile_rows,
    };
}

pub broadcast proof fn replay_refresh(
    t: Seq<AnswerView>,
    s: Seq<AnswerView>,
    repo: RepoRecordView,
    name: Seq<char>,
    now: i64,
)
    ensures
        flow_refresh(t, repo, name, now) !is Asks
            ==> #[trigger] flow_refresh(t + s, repo, name, now)
            == flow_refresh(t, repo, name, now).with_more(s),
{
    broadcast use {
        replay_discover, replay_ask_saved, replay_ask_expired, replay_note_expired,
        replay_reconcile_repo,
    };
}

pub broadcast proof fn replay_broken_empty(
    t: Seq<AnswerView>,
    s: Seq<AnswerView>,
    path: Seq<char>,
)
    ensures
        flow_broken_empty(t, path) !is Asks ==> #[trigger] flow_broken_empty(t + s, path)
            == flow_broken_empty(t, path).with_more(s),
{
    broadcast use replay_ask_flag;
}

pub broadcast proof fn replay_reclaimable(
    t: Seq<AnswerView>,
    s: Seq<AnswerView>,
    repo: Seq<char>,
    id: Seq<char>,
)
    ensures
        flow_reclaimable(t, repo, id) !is Asks ==> #[trigger] flow_reclaimable(t + s, repo, id)
            == flow_reclaimable(t, repo, id).with_more(s),
{
    broadcast use {
        replay_ask_workspaces, replay_ask_flag, replay_broken_empty,
    };
}

pub broadcast proof fn replay_claim(
    t: Seq<AnswerView>,
    s: Seq<AnswerView>,
    ticket: TicketView,
    id: Seq<char>,
)
    ensures
        flow_claim(t, ticket, id) !is Asks ==> #[trigger] flow_claim(t + s, ticket, id)
            == flow_claim(t, ticket, id).with_more(s),
{
    broadcast use replay_ask_workspace;
}

pub broadcast proof fn replay_colocate(
    t: Seq<AnswerView>,
    s: Seq<AnswerView>,
    inv: CommandInvocationView,
    err: CubeErrorView,
)
    ensures
        flow_colocate(t, inv, err) !is Asks ==> #[trigger] flow_colocate(t + s, inv, err)
            == flow_colocate(t, inv, err).with_more(s),
{
    broadcast use {
        replay_ask_ack, replay_ask_output,
    };
}

pub broadcast proof fn replay_note_diverged(
    t: Seq<AnswerView>,
    s: Seq<AnswerView>,
    inv: CommandInvocationView,
    kind: Seq<char>,
)
    ensures
        flow_note_diverged(t, inv, kind) !is Asks
            ==> #[trigger] flow_note_diverged(t + s, inv, kind)
            == flow_note_diverged(t, inv, kind).with_more(s),
{
    broadcast use replay_ask_ack;
}

pub broadcast proof fn replay_update_stale(
    t: Seq<AnswerView>,
    s: Seq<AnswerView>,
    inv: CommandInvocationView,
    err: CubeErrorView,
)
    ensures
        flow_update_stale(t, inv, err) !is Asks ==> #[trigger] flow_update_stale(t + s, inv, err)
            == flow_update_stale(t, inv, err).with_more(s),
{
    broadcast use {
        replay_note_diverged, replay_ask_output, replay_ask_ack,
    };
}

pub broadcast proof fn replay_run_jj(
    t: Seq<AnswerView>,
    s: Seq<AnswerView>,
    inv: CommandInvocationView,
)
    ensures
        flow_run_jj(t, inv) !is Asks ==> #[trigger] flow_run_jj(t + s, inv)
            == flow_run_jj(t, inv).with_more(s),
{
    broadcast use {
        replay_ask_output, replay_ask_flag, replay_colocate, replay_update_stale,
    };
}

pub broadcast proof fn replay_current_commit(
    t: Seq<AnswerView>,
    s: Seq<AnswerView>,
    path: Seq<char>,
)
    ensures
        flow_current_commit(t, path) !is Asks ==> #[trigger] flow_current_commit(t + s, path)
            == flow_current_commit(t, path).with_more(s),
{
    broadcast use replay_run_jj;
}

pub broadcast proof fn replay_record_head(
    t: Seq<AnswerView>,
    s: Seq<AnswerView>,
    lease_id: Seq<char>,
    w: WorkspaceRecordView,
)
    ensures
        flow_record_head(t, lease_id, w) !is Asks
            ==> #[trigger] flow_record_head(t + s, lease_id, w)
            == flow_record_head(t, lease_id, w).with_more(s),
{
    broadcast use {
        replay_current_commit, replay_ask_saved,
    };
}

pub broadcast proof fn replay_ask_setup(t: Seq<AnswerView>, s: Seq<AnswerView>, a: ActionView)
    ensures
        ask_setup(t, a) !is Asks ==> #[trigger] ask_setup(t + s, a)
            == ask_setup(t, a).with_more(s),
{
    if t.len() > 0 {
        assert((t + s).drop_first() =~= t.drop_first() + s);
    }
}

pub broadcast proof fn replay_setup(
    t: Seq<AnswerView>,
    s: Seq<AnswerView>,
    workspace: WorkspaceRecordView,
)
    ensures
        flow_setup(t, workspace) !is Asks ==> #[trigger] flow_setup(t + s, workspace)
            == flow_setup(t, workspace).with_more(s),
{
    broadcast use replay_ask_setup;
}

pub broadcast proof fn replay_finish_lease(
    t: Seq<AnswerView>,
    s: Seq<AnswerView>,
    head: Seq<char>,
    w: WorkspaceRecordView,
    checks: Seq<HealthCheckView>,
    resume: Option<PrResumeInfoView>,
)
    ensures
        flow_finish_lease(t, head, w, checks, resume) !is Asks
            ==> #[trigger] flow_finish_lease(t + s, head, w, checks, resume)
            == flow_finish_lease(t, head, w, checks, resume).with_more(s),
{
    broadcast use replay_setup;
}

pub broadcast proof fn replay_lease_dirty(
    t: Seq<AnswerView>,
    s: Seq<AnswerView>,
    ticket: TicketView,
    id: Seq<char>,
)
    ensures
        flow_lease_dirty(t, ticket, id) !is Asks ==> #[trigger] flow_lease_dirty(t + s, ticket, id)
            == flow_lease_dirty(t, ticket, id).with_more(s),
{
    broadcast use {
        replay_reclaimable, replay_claim, replay_record_head, replay_ask_ack, replay_finish_lease,
    };
}

pub broadcast proof fn replay_check_health(
    t: Seq<AnswerView>,
    s: Seq<AnswerView>,
    path: Seq<char>,
)
    ensures
        flow_check_health(t, path) !is Asks ==> #[trigger] flow_check_health(t + s, path)
            == flow_check_health(t, path).with_more(s),
{
    broadcast use {
        replay_broken_empty, replay_run_jj,
    };
}

pub broadcast proof fn replay_note_dirty(
    t: Seq<AnswerView>,
    s: Seq<AnswerView>,
    repo: Seq<char>,
    id: Seq<char>,
)
    ensures
        flow_note_dirty(t, repo, id) !is Asks ==> #[trigger] flow_note_dirty(t + s, repo, id)
            == flow_note_dirty(t, repo, id).with_more(s),
{
    broadcast use {
        replay_ask_saved, replay_ask_ack,
    };
}

pub broadcast proof fn replay_scan_one(
    t: Seq<AnswerView>,
    s: Seq<AnswerView>,
    repo: Seq<char>,
    w: WorkspaceRecordView,
    scan: ScanView,
)
    ensures
        flow_scan_one(t, repo, w, scan) !is Asks ==> #[trigger] flow_scan_one(t + s, repo, w, scan)
            == flow_scan_one(t, repo, w, scan).with_more(s),
{
    broadcast use {
        replay_ask_flag, replay_check_health, replay_ask_saved, replay_note_dirty, replay_ask_ack,
    };
}

pub broadcast proof fn replay_scan(
    t: Seq<AnswerView>,
    s: Seq<AnswerView>,
    repo: Seq<char>,
    ordered: Seq<WorkspaceRecordView>,
    scan: ScanView,
)
    ensures
        flow_scan(t, repo, ordered, scan) !is Asks
            ==> #[trigger] flow_scan(t + s, repo, ordered, scan)
            == flow_scan(t, repo, ordered, scan).with_more(s),
    decreases ordered.len(),
{
    broadcast use replay_scan_one;

    if ordered.len() > 0 && scan.clean is None {
        if let Flow::Done(after, t1) = flow_scan_one(t, repo, ordered[0], scan) {
            replay_scan(t1, s, repo, ordered.drop_first(), after);
        }
    }
}

pub broadcast proof fn replay_clear(t: Seq<AnswerView>, s: Seq<AnswerView>, staging: Seq<char>)
    ensures
        flow_clear(t, staging) !is Asks ==> #[trigger] flow_clear(t + s, staging)
            == flow_clear(t, staging).with_more(s),
{
    broadcast use {
        replay_ask_flag, replay_ask_done,
    };
}

pub broadcast proof fn replay_gc_husk(
    t: Seq<AnswerView>,
    s: Seq<AnswerView>,
    repo: Seq<char>,
    id: Seq<char>,
    path: Seq<char>,
)
    ensures
        flow_gc_husk(t, repo, id, path) !is Asks ==> #[trigger] flow_gc_husk(t + s, repo, id, path)
            == flow_gc_husk(t, repo, id, path).with_more(s),
{
    broadcast use {
        replay_clear, replay_ask_saved, replay_warn, replay_ask_ack,
    };
}

pub broadcast proof fn replay_gc_husks(
    t: Seq<AnswerView>,
    s: Seq<AnswerView>,
    repo: Seq<char>,
    husks: Seq<(Seq<char>, Seq<char>)>,
)
    ensures
        flow_gc_husks(t, repo, husks) !is Asks ==> #[trigger] flow_gc_husks(t + s, repo, husks)
            == flow_gc_husks(t, repo, husks).with_more(s),
    decreases husks.len(),
{
    broadcast use replay_gc_husk;

    if husks.len() > 0 {
        if let Flow::Done(_, t1) = flow_gc_husk(t, repo, husks[0].0, husks[0].1) {
            replay_gc_husks(t1, s, repo, husks.drop_first());
        }
    }
}

pub broadcast proof fn replay_clone_source(
    t: Seq<AnswerView>,
    s: Seq<AnswerView>,
    repo: RepoRecordView,
)
    ensures
        flow_clone_source(t, repo) !is Asks ==> #[trigger] flow_clone_source(t + s, repo)
            == flow_clone_source(t, repo).with_more(s),
{
    broadcast use replay_ask_flag;
}

pub broadcast proof fn replay_publish(
    t: Seq<AnswerView>,
    s: Seq<AnswerView>,
    staging: Seq<char>,
    id: Seq<char>,
    path: Seq<char>,
)
    ensures
        flow_publish(t, staging, id, path) !is Asks
            ==> #[trigger] flow_publish(t + s, staging, id, path)
            == flow_publish(t, staging, id, path).with_more(s),
{
    broadcast use replay_ask_done;
}

pub broadcast proof fn replay_auto_create(
    t: Seq<AnswerView>,
    s: Seq<AnswerView>,
    repo: RepoRecordView,
    existing: Seq<WorkspaceCandidateView>,
)
    ensures
        flow_auto_create(t, repo, existing) !is Asks
            ==> #[trigger] flow_auto_create(t + s, repo, existing)
            == flow_auto_create(t, repo, existing).with_more(s),
{
    broadcast use {
        replay_create_root, replay_clear, replay_clone_source, replay_ask_output, replay_track,
        replay_publish,
    };
}

pub broadcast proof fn replay_provision(
    t: Seq<AnswerView>,
    s: Seq<AnswerView>,
    ticket: TicketView,
    repo: RepoRecordView,
    candidates: Seq<WorkspaceCandidateView>,
    husks: Seq<(Seq<char>, Seq<char>)>,
)
    ensures
        flow_provision(t, ticket, repo, candidates, husks) !is Asks
            ==> #[trigger] flow_provision(t + s, ticket, repo, candidates, husks)
            == flow_provision(t, ticket, repo, candidates, husks).with_more(s),
{
    broadcast use {
        replay_gc_husks, replay_auto_create, replay_ask_saved, replay_claim,
    };
}

pub broadcast proof fn replay_acquire(
    t: Seq<AnswerView>,
    s: Seq<AnswerView>,
    ticket: TicketView,
    repo: RepoRecordView,
    candidates: Seq<WorkspaceCandidateView>,
    scan: ScanView,
)
    ensures
        flow_acquire(t, ticket, repo, candidates, scan) !is Asks
            ==> #[trigger] flow_acquire(t + s, ticket, repo, candidates, scan)
            == flow_acquire(t, ticket, repo, candidates, scan).with_more(s),
{
    broadcast use {
        replay_claim, replay_provision,
    };
}

pub broadcast proof fn replay_vanished<T>(
    t: Seq<AnswerView>,
    s: Seq<AnswerView>,
    ticket: TicketView,
    w: WorkspaceRecordView,
)
    ensures
        flow_vanished::<T>(t, ticket, w) !is Asks
            ==> #[trigger] flow_vanished::<T>(t + s, ticket, w)
            == flow_vanished::<T>(t, ticket, w).with_more(s),
{
    broadcast use {
        replay_warn, replay_ask_ack, replay_ask_saved,
    };
}

pub broadcast proof fn replay_repair(
    t: Seq<AnswerView>,
    s: Seq<AnswerView>,
    path: Seq<char>,
    bookmarks: Seq<Seq<char>>,
)
    ensures
        flow_repair(t, path, bookmarks) !is Asks ==> #[trigger] flow_repair(t + s, path, bookmarks)
            == flow_repair(t, path, bookmarks).with_more(s),
    decreases bookmarks.len(),
{
    broadcast use {
        replay_ask_ack, replay_run_jj,
    };

    if bookmarks.len() > 0 {
        let event = ActionView::Audit(
            AuditEventView::named("workspace.bookmark_forgotten"@).text("workspace_path"@, path).text(
                "bookmark"@,
                bookmarks[0],
            ),
        );
        if let Flow::Done(_, t1) = ask_ack(t, event) {
            let forget = spec_jj(path, seq!["bookmark"@, "forget"@, bookmarks[0]]);
            if let Flow::Done(_, t2) = flow_run_jj(t1, forget) {
                replay_repair(t2, s, path, bookmarks.drop_first());
            }
        }
    }
}

pub broadcast proof fn replay_github_of(t: Seq<AnswerView>, s: Seq<AnswerView>, path: Seq<char>)
    ensures
        flow_github_of(t, path) !is Asks ==> #[trigger] flow_github_of(t + s, path)
            == flow_github_of(t, path).with_more(s),
{
    broadcast use replay_run_jj;
}

pub broadcast proof fn replay_read_head_status(
    t: Seq<AnswerView>,
    s: Seq<AnswerView>,
    path: Seq<char>,
    main_branch: Seq<char>,
)
    ensures
        flow_read_head_status(t, path, main_branch) !is Asks
            ==> #[trigger] flow_read_head_status(t + s, path, main_branch)
            == flow_read_head_status(t, path, main_branch).with_more(s),
{
    broadcast use replay_run_jj;
}

pub broadcast proof fn replay_guard(
    t: Seq<AnswerView>,
    s: Seq<AnswerView>,
    path: Seq<char>,
    main_branch: Seq<char>,
    prior: Option<ExpiredLeaseView>,
)
    ensures
        flow_guard(t, path, main_branch, prior) !is Asks
            ==> #[trigger] flow_guard(t + s, path, main_branch, prior)
            == flow_guard(t, path, main_branch, prior).with_more(s),
{
    broadcast use {
        replay_read_head_status, replay_ask_ack,
    };
}

pub broadcast proof fn replay_head_branch(
    t: Seq<AnswerView>,
    s: Seq<AnswerView>,
    path: Seq<char>,
    slug: Seq<char>,
    n: u64,
)
    ensures
        flow_head_branch(t, path, slug, n) !is Asks
            ==> #[trigger] flow_head_branch(t + s, path, slug, n)
            == flow_head_branch(t, path, slug, n).with_more(s),
{
    broadcast use replay_run;
}

pub broadcast proof fn replay_stand_on(
    t: Seq<AnswerView>,
    s: Seq<AnswerView>,
    path: Seq<char>,
    remote: Seq<char>,
    n: u64,
    branch: Seq<char>,
)
    ensures
        flow_stand_on(t, path, remote, n, branch) !is Asks
            ==> #[trigger] flow_stand_on(t + s, path, remote, n, branch)
            == flow_stand_on(t, path, remote, n, branch).with_more(s),
{
    broadcast use replay_run_jj;
}

pub broadcast proof fn replay_resume(
    t: Seq<AnswerView>,
    s: Seq<AnswerView>,
    path: Seq<char>,
    n: u64,
    prior: Option<ExpiredLeaseView>,
    main_branch: Seq<char>,
)
    ensures
        flow_resume(t, path, n, prior, main_branch) !is Asks
            ==> #[trigger] flow_resume(t + s, path, n, prior, main_branch)
            == flow_resume(t, path, n, prior, main_branch).with_more(s),
{
    broadcast use {
        replay_github_of, replay_run_jj, replay_guard, replay_head_branch, replay_stand_on,
    };
}

pub broadcast proof fn replay_fast_forward(
    t: Seq<AnswerView>,
    s: Seq<AnswerView>,
    path: Seq<char>,
    main_branch: Seq<char>,
    prior: Option<ExpiredLeaseView>,
)
    ensures
        flow_fast_forward(t, path, main_branch, prior) !is Asks
            ==> #[trigger] flow_fast_forward(t + s, path, main_branch, prior)
            == flow_fast_forward(t, path, main_branch, prior).with_more(s),
{
    broadcast use {
        replay_ask_ack, replay_run_jj,
    };
}

pub broadcast proof fn replay_new_on_main(
    t: Seq<AnswerView>,
    s: Seq<AnswerView>,
    path: Seq<char>,
    main_branch: Seq<char>,
    prior: Option<ExpiredLeaseView>,
)
    ensures
        flow_new_on_main(t, path, main_branch, prior) !is Asks
            ==> #[trigger] flow_new_on_main(t + s, path, main_branch, prior)
            == flow_new_on_main(t, path, main_branch, prior).with_more(s),
{
    broadcast use {
        replay_ask_ack, replay_run_jj,
    };
}

pub broadcast proof fn replay_note_look(
    t: Seq<AnswerView>,
    s: Seq<AnswerView>,
    path: Seq<char>,
    prior: Option<ExpiredLeaseView>,
)
    ensures
        flow_note_look(t, path, prior) !is Asks ==> #[trigger] flow_note_look(t + s, path, prior)
            == flow_note_look(t, path, prior).with_more(s),
{
    broadcast use replay_ask_ack;
}

pub broadcast proof fn replay_reset(
    t: Seq<AnswerView>,
    s: Seq<AnswerView>,
    path: Seq<char>,
    main_branch: Seq<char>,
    prior: Option<ExpiredLeaseView>,
)
    ensures
        flow_reset(t, path, main_branch, prior) !is Asks
            ==> #[trigger] flow_reset(t + s, path, main_branch, prior)
            == flow_reset(t, path, main_branch, prior).with_more(s),
{
    broadcast use {
        replay_ask_ack, replay_run_jj, replay_note_look, replay_guard, replay_fast_forward,
        replay_new_on_main,
    };
}

pub broadcast proof fn replay_position(
    t: Seq<AnswerView>,
    s: Seq<AnswerView>,
    path: Seq<char>,
    repairs: Seq<Seq<char>>,
    prior: Option<ExpiredLeaseView>,
    main_branch: Seq<char>,
    resume: Option<u64>,
)
    ensures
        flow_position(t, path, repairs, prior, main_branch, resume) !is Asks
            ==> #[trigger] flow_position(t + s, path, repairs, prior, main_branch, resume)
            == flow_position(t, path, repairs, prior, main_branch, resume).with_more(s),
{
    broadcast use {
        replay_repair, replay_resume, replay_reset,
    };
}

pub broadcast proof fn replay_give_back<T>(
    t: Seq<AnswerView>,
    s: Seq<AnswerView>,
    lease_id: Seq<char>,
    error: CubeErrorView,
)
    ensures
        flow_give_back::<T>(t, lease_id, error) !is Asks
            ==> #[trigger] flow_give_back::<T>(t + s, lease_id, error)
            == flow_give_back::<T>(t, lease_id, error).with_more(s),
{
    broadcast use replay_ask_workspace;
}

pub broadcast proof fn replay_position_or_release(
    t: Seq<AnswerView>,
    s: Seq<AnswerView>,
    lease_id: Seq<char>,
    path: Seq<char>,
    repairs: Seq<Seq<char>>,
    prior: Option<ExpiredLeaseView>,
    main_branch: Seq<char>,
    resume: Option<u64>,
)
    ensures
        flow_position_or_release(t, lease_id, path, repairs, prior, main_branch, resume) !is Asks
            ==> #[trigger] flow_position_or_release(
                t + s,
                lease_id,
                path,
                repairs,
                prior,
                main_branch,
                resume,
            )
            == flow_position_or_release(
                t,
                lease_id,
                path,
                repairs,
                prior,
                main_branch,
                resume,
            ).with_more(s),
{
    broadcast use {
        replay_position, replay_give_back,
    };
}

pub broadcast proof fn replay_rewrite(
    t: Seq<AnswerView>,
    s: Seq<AnswerView>,
    file: Seq<char>,
    existing: Seq<char>,
    workspace_id: Seq<char>,
)
    ensures
        flow_rewrite(t, file, existing, workspace_id) !is Asks
            ==> #[trigger] flow_rewrite(t + s, file, existing, workspace_id)
            == flow_rewrite(t, file, existing, workspace_id).with_more(s),
{
    broadcast use {
        replay_ask_done, replay_warn,
    };
}

pub broadcast proof fn replay_ensure_excluded(
    t: Seq<AnswerView>,
    s: Seq<AnswerView>,
    path: Seq<char>,
    workspace_id: Seq<char>,
)
    ensures
        flow_ensure_excluded(t, path, workspace_id) !is Asks
            ==> #[trigger] flow_ensure_excluded(t + s, path, workspace_id)
            == flow_ensure_excluded(t, path, workspace_id).with_more(s),
{
    broadcast use {
        replay_ask_flag, replay_ask_done, replay_warn, replay_ask_text, replay_rewrite,
    };
}

pub broadcast proof fn replay_hand_over(
    t: Seq<AnswerView>,
    s: Seq<AnswerView>,
    ticket: TicketView,
    w: WorkspaceRecordView,
    checks: Seq<HealthCheckView>,
    resume: Option<PrResumeInfoView>,
)
    ensures
        flow_hand_over(t, ticket, w, checks, resume) !is Asks
            ==> #[trigger] flow_hand_over(t + s, ticket, w, checks, resume)
            == flow_hand_over(t, ticket, w, checks, resume).with_more(s),
{
    broadcast use {
        replay_record_head, replay_ask_ack, replay_ensure_excluded, replay_finish_lease,
    };
}

pub broadcast proof fn replay_settle(
    t: Seq<AnswerView>,
    s: Seq<AnswerView>,
    ticket: TicketView,
    main_branch: Seq<char>,
    expired: Seq<ExpiredLeaseView>,
    resume: Option<u64>,
    got: (WorkspaceRecordView, bool, Seq<Seq<char>>),
    checks: Seq<HealthCheckView>,
)
    ensures
        flow_settle(t, ticket, main_branch, expired, resume, got, checks) !is Asks
            ==> #[trigger] flow_settle(t + s, ticket, main_branch, expired, resume, got, checks)
            == flow_settle(t, ticket, main_branch, expired, resume, got, checks).with_more(s),
{
    broadcast use {
        replay_ask_flag, replay_vanished, replay_position_or_release, replay_hand_over,
    };
}

pub broadcast proof fn replay_lease_clean(
    t: Seq<AnswerView>,
    s: Seq<AnswerView>,
    ticket: TicketView,
    repo: RepoRecordView,
    candidates: Seq<WorkspaceCandidateView>,
    expired: Seq<ExpiredLeaseView>,
    prefer: Option<Seq<char>>,
    resume: Option<u64>,
)
    ensures
        flow_lease_clean(t, ticket, repo, candidates, expired, prefer, resume) !is Asks
            ==> #[trigger] flow_lease_clean(
                t + s,
                ticket,
                repo,
                candidates,
                expired,
                prefer,
                resume,
            )
            == flow_lease_clean(t, ticket, repo, candidates, expired, prefer, resume).with_more(s),
{
    broadcast use {
        replay_ask_workspaces, replay_scan, replay_acquire, replay_settle,
    };
}

pub broadcast proof fn replay_lease_from(
    t: Seq<AnswerView>,
    s: Seq<AnswerView>,
    args: LeaseArgsView,
    repo: RepoRecordView,
    now: i64,
    candidates: Seq<WorkspaceCandidateView>,
    expired: Seq<ExpiredLeaseView>,
)
    ensures
        flow_lease_from(t, args, repo, now, candidates, expired) !is Asks
            ==> #[trigger] flow_lease_from(t + s, args, repo, now, candidates, expired)
            == flow_lease_from(t, args, repo, now, candidates, expired).with_more(s),
{
    broadcast use {
        replay_ask_name, replay_lease_dirty, replay_lease_clean,
    };
}

pub broadcast proof fn replay_lease(t: Seq<AnswerView>, s: Seq<AnswerView>, args: LeaseArgsView)
    ensures
        flow_lease(t, args) !is Asks ==> #[trigger] flow_lease(t + s, args)
            == flow_lease(t, args).with_more(s),
{
    broadcast use {
        replay_known_repo, replay_ask_time, replay_trigger_gc, replay_ask_saved, replay_refresh,
        replay_lease_from,
    };
}

pub broadcast proof fn replay_resolve_lease(
    t: Seq<AnswerView>,
    s: Seq<AnswerView>,
    workspace: Option<Seq<char>>,
    lease: Option<Seq<char>>,
    repo: Option<Seq<char>>,
)
    ensures
        flow_resolve_lease(t, workspace, lease, repo) !is Asks
            ==> #[trigger] flow_resolve_lease(t + s, workspace, lease, repo)
            == flow_resolve_lease(t, workspace, lease, repo).with_more(s),
{
    broadcast use replay_ask_workspaces;
}

pub broadcast proof fn replay_release_gone(
    t: Seq<AnswerView>,
    s: Seq<AnswerView>,
    lease: Seq<char>,
    w: WorkspaceRecordView,
)
    ensures
        flow_release_gone(t, lease, w) !is Asks ==> #[trigger] flow_release_gone(t + s, lease, w)
            == flow_release_gone(t, lease, w).with_more(s),
{
    broadcast use {
        replay_warn, replay_ask_ack, replay_ask_saved,
    };
}

pub broadcast proof fn replay_fetch_if(
    t: Seq<AnswerView>,
    s: Seq<AnswerView>,
    path: Seq<char>,
    fetch: bool,
)
    ensures
        flow_fetch_if(t, path, fetch) !is Asks ==> #[trigger] flow_fetch_if(t + s, path, fetch)
            == flow_fetch_if(t, path, fetch).with_more(s),
{
    broadcast use replay_run_jj;
}

pub broadcast proof fn replay_closed_among(
    t: Seq<AnswerView>,
    s: Seq<AnswerView>,
    path: Seq<char>,
    slug: Seq<char>,
    names: Seq<Seq<char>>,
    found: Seq<Seq<char>>,
)
    ensures
        flow_closed_among(t, path, slug, names, found) !is Asks
            ==> #[trigger] flow_closed_among(t + s, path, slug, names, found)
            == flow_closed_among(t, path, slug, names, found).with_more(s),
    decreases names.len(),
{
    broadcast use replay_ask_output;

    if names.len() > 0 {
        let rest = names.drop_first();
        match spec_strip_prefix(names[0], "pr/"@) {
            None => replay_closed_among(t, s, path, slug, rest, found),
            Some(number) => {
                let query = ActionView::Run(spec_gh(path, state_query(number, slug)));
                match ask_output(t, query) {
                    Flow::Done(_, t1) => {
                        replay_closed_among(t1, s, path, slug, rest, found);
                        replay_closed_among(t1, s, path, slug, rest, found.push(names[0]));
                    },
                    Flow::Failed(_, t1) => replay_closed_among(t1, s, path, slug, rest, found),
                    Flow::Asks(_) => {},
                }
            },
        }
    }
}

pub broadcast proof fn replay_closed_bookmarks(
    t: Seq<AnswerView>,
    s: Seq<AnswerView>,
    path: Seq<char>,
)
    ensures
        flow_closed_bookmarks(t, path) !is Asks ==> #[trigger] flow_closed_bookmarks(t + s, path)
            == flow_closed_bookmarks(t, path).with_more(s),
{
    broadcast use {
        replay_ask_output, replay_run_jj, replay_closed_among,
    };
}

pub broadcast proof fn replay_forget(
    t: Seq<AnswerView>,
    s: Seq<AnswerView>,
    path: Seq<char>,
    names: Seq<Seq<char>>,
    dry_run: bool,
)
    ensures
        flow_forget(t, path, names, dry_run) !is Asks
            ==> #[trigger] flow_forget(t + s, path, names, dry_run)
            == flow_forget(t, path, names, dry_run).with_more(s),
{
    broadcast use replay_run_jj;
}

pub broadcast proof fn replay_gc_bookmarks(
    t: Seq<AnswerView>,
    s: Seq<AnswerView>,
    path: Seq<char>,
    fetch: bool,
    dry_run: bool,
)
    ensures
        flow_gc_bookmarks(t, path, fetch, dry_run) !is Asks
            ==> #[trigger] flow_gc_bookmarks(t + s, path, fetch, dry_run)
            == flow_gc_bookmarks(t, path, fetch, dry_run).with_more(s),
{
    broadcast use {
        replay_fetch_if, replay_run_jj, replay_closed_bookmarks, replay_forget,
    };
}

pub broadcast proof fn replay_release_gc(
    t: Seq<AnswerView>,
    s: Seq<AnswerView>,
    w: WorkspaceRecordView,
)
    ensures
        flow_release_gc(t, w) !is Asks ==> #[trigger] flow_release_gc(t + s, w)
            == flow_release_gc(t, w).with_more(s),
{
    broadcast use {
        replay_gc_bookmarks, replay_warn,
    };
}

pub broadcast proof fn replay_clean_for_release(
    t: Seq<AnswerView>,
    s: Seq<AnswerView>,
    w: WorkspaceRecordView,
    keep_dirty: bool,
)
    ensures
        flow_clean_for_release(t, w, keep_dirty) !is Asks
            ==> #[trigger] flow_clean_for_release(t + s, w, keep_dirty)
            == flow_clean_for_release(t, w, keep_dirty).with_more(s),
{
    broadcast use {
        replay_known_repo, replay_reset, replay_release_gc,
    };
}

pub broadcast proof fn replay_release_slot(
    t: Seq<AnswerView>,
    s: Seq<AnswerView>,
    lease: Seq<char>,
    reason: Option<Seq<char>>,
    keep_dirty: bool,
)
    ensures
        flow_release_slot(t, lease, reason, keep_dirty) !is Asks
            ==> #[trigger] flow_release_slot(t + s, lease, reason, keep_dirty)
            == flow_release_slot(t, lease, reason, keep_dirty).with_more(s),
{
    broadcast use {
        replay_ask_workspace, replay_ask_ack,
    };
}

pub broadcast proof fn replay_release(
    t: Seq<AnswerView>,
    s: Seq<AnswerView>,
    workspace: Option<Seq<char>>,
    lease: Option<Seq<char>>,
    repo: Option<Seq<char>>,
    reason: Option<Seq<char>>,
    keep_dirty: bool,
)
    ensures
        flow_release(t, workspace, lease, repo, reason, keep_dirty) !is Asks
            ==> #[trigger] flow_release(t + s, workspace, lease, repo, reason, keep_dirty)
            == flow_release(t, workspace, lease, repo, reason, keep_dirty).with_more(s),
{
    broadcast use {
        replay_resolve_lease, replay_ask_workspace, replay_ask_saved, replay_ask_flag,
        replay_release_gone, replay_clean_for_release, replay_release_slot,
    };
}

pub broadcast proof fn replay_heartbeat(
    t: Seq<AnswerView>,
    s: Seq<AnswerView>,
    lease: Seq<char>,
    ttl_seconds: Option<u64>,
)
    ensures
        flow_heartbeat(t, lease, ttl_seconds) !is Asks
            ==> #[trigger] flow_heartbeat(t + s, lease, ttl_seconds)
            == flow_heartbeat(t, lease, ttl_seconds).with_more(s),
{
    broadcast use {
        replay_ask_time, replay_ask_workspace,
    };
}

pub broadcast proof fn replay_force_released(
    t: Seq<AnswerView>,
    s: Seq<AnswerView>,
    lease: Seq<char>,
    why: Seq<char>,
    w: WorkspaceRecordView,
)
    ensures
        flow_force_released(t, lease, why, w) !is Asks
            ==> #[trigger] flow_force_released(t + s, lease, why, w)
            == flow_force_released(t, lease, why, w).with_more(s),
{
    broadcast use replay_ask_ack;
}

pub broadcast proof fn replay_force_release(
    t: Seq<AnswerView>,
    s: Seq<AnswerView>,
    workspace: Option<Seq<char>>,
    lease: Option<Seq<char>>,
    repo: Option<Seq<char>>,
    reason: Option<Seq<char>>,
)
    ensures
        flow_force_release(t, workspace, lease, repo, reason) !is Asks
            ==> #[trigger] flow_force_release(t + s, workspace, lease, repo, reason)
            == flow_force_release(t, workspace, lease, repo, reason).with_more(s),
{
    broadcast use {
        replay_resolve_lease, replay_ask_workspace, replay_ask_saved, replay_force_released,
    };
}

pub broadcast proof fn replay_lookup(t: Seq<AnswerView>, s: Seq<AnswerView>, path: Seq<char>)
    ensures
        flow_lookup(t, path) !is Asks ==> #[trigger] flow_lookup(t + s, path)
            == flow_lookup(t, path).with_more(s),
{
    broadcast use {
        replay_ask_workspace, replay_ask_flag, replay_ask_saved,
    };
}

pub broadcast proof fn replay_sync_around(
    t: Seq<AnswerView>,
    s: Seq<AnswerView>,
    path: Seq<char>,
    repos: Seq<RepoRecordView>,
)
    ensures
        flow_sync_around(t, path, repos) !is Asks
            ==> #[trigger] flow_sync_around(t + s, path, repos)
            == flow_sync_around(t, path, repos).with_more(s),
    decreases repos.len(),
{
    broadcast use {
        replay_discover, replay_ask_saved,
    };

    if repos.len() > 0 {
        let rest = repos.drop_first();
        if !spec_under(path, repos[0].workspace_root) {
            replay_sync_around(t, s, path, rest);
        } else if let Flow::Done(candidates, t1) = flow_discover(t, repos[0]) {
            let sync = ActionView::SyncWorkspaces { repo: repos[0].repo, candidates };
            if let Flow::Done(_, t2) = ask_saved(t1, sync) {
                replay_sync_around(t2, s, path, rest);
            }
        }
    }
}

pub broadcast proof fn replay_find_workspace(
    t: Seq<AnswerView>,
    s: Seq<AnswerView>,
    path: Seq<char>,
)
    ensures
        flow_find_workspace(t, path) !is Asks ==> #[trigger] flow_find_workspace(t + s, path)
            == flow_find_workspace(t, path).with_more(s),
{
    broadcast use {
        replay_lookup, replay_ask_repos, replay_sync_around,
    };
}

pub broadcast proof fn replay_known_workspace(
    t: Seq<AnswerView>,
    s: Seq<AnswerView>,
    path: Seq<char>,
)
    ensures
        flow_known_workspace(t, path) !is Asks ==> #[trigger] flow_known_workspace(t + s, path)
            == flow_known_workspace(t, path).with_more(s),
{
    broadcast use replay_find_workspace;
}

pub broadcast proof fn replay_status(t: Seq<AnswerView>, s: Seq<AnswerView>, path: Seq<char>)
    ensures
        flow_status(t, path) !is Asks ==> #[trigger] flow_status(t + s, path)
            == flow_status(t, path).with_more(s),
{
    broadcast use {
        replay_known_workspace, replay_run_jj, replay_ask_place,
    };
}

pub broadcast proof fn replay_set_up(t: Seq<AnswerView>, s: Seq<AnswerView>, path: Seq<char>)
    ensures
        flow_set_up(t, path) !is Asks ==> #[trigger] flow_set_up(t + s, path)
            == flow_set_up(t, path).with_more(s),
{
    broadcast use {
        replay_known_workspace, replay_setup,
    };
}

pub broadcast proof fn replay_repos_to_reconcile(
    t: Seq<AnswerView>,
    s: Seq<AnswerView>,
    rows: Seq<WorkspaceRecordView>,
    found: Seq<Seq<char>>,
)
    ensures
        flow_repos_to_reconcile(t, rows, found) !is Asks
            ==> #[trigger] flow_repos_to_reconcile(t + s, rows, found)
            == flow_repos_to_reconcile(t, rows, found).with_more(s),
    decreases rows.len(),
{
    broadcast use replay_ask_flag;

    if rows.len() > 0 {
        let rest = rows.drop_first();
        if let Flow::Done(_, t1) = ask_flag(t, ActionView::IsDir(rows[0].workspace_path)) {
            replay_repos_to_reconcile(t1, s, rest, found);
            replay_repos_to_reconcile(t1, s, rest, with_name(found, rows[0].repo));
        }
    }
}

pub broadcast proof fn replay_reconcile_each(
    t: Seq<AnswerView>,
    s: Seq<AnswerView>,
    now: i64,
    repos: Seq<Seq<char>>,
    report: ReconcileReportView,
)
    ensures
        flow_reconcile_each(t, now, repos, report) !is Asks
            ==> #[trigger] flow_reconcile_each(t + s, now, repos, report)
            == flow_reconcile_each(t, now, repos, report).with_more(s),
    decreases repos.len(),
{
    broadcast use {
        replay_ask_saved, replay_reconcile_repo, replay_ask_ack,
    };

    if repos.len() > 0 {
        if let Flow::Done(_, t1) = ask_saved(t, ActionView::Lock(repos[0])) {
            if let Flow::Done(sub, t2) = flow_reconcile_repo(t1, repos[0], now) {
                if let Flow::Done(_, t3) = ask_ack(t2, ActionView::Unlock) {
                    replay_reconcile_each(t3, s, now, repos.drop_first(), report.merge(sub));
                }
            }
        }
    }
}

pub broadcast proof fn replay_reconcile(
    t: Seq<AnswerView>,
    s: Seq<AnswerView>,
    repo: Option<Seq<char>>,
    now: i64,
)
    ensures
        flow_reconcile(t, repo, now) !is Asks ==> #[trigger] flow_reconcile(t + s, repo, now)
            == flow_reconcile(t, repo, now).with_more(s),
{
    broadcast use {
        replay_ask_workspaces, replay_repos_to_reconcile, replay_reconcile_each,
    };
}

pub broadcast proof fn replay_list_by(
    t: Seq<AnswerView>,
    s: Seq<AnswerView>,
    repo: Option<Seq<char>>,
    state: Option<EffectiveState>,
    holder: Option<Seq<char>>,
)
    ensures
        flow_list_by(t, repo, state, holder) !is Asks
            ==> #[trigger] flow_list_by(t + s, repo, state, holder)
            == flow_list_by(t, repo, state, holder).with_more(s),
{
    broadcast use {
        replay_ask_time, replay_reconcile, replay_ask_workspaces, replay_ask_place,
    };
}

pub broadcast proof fn replay_list(
    t: Seq<AnswerView>,
    s: Seq<AnswerView>,
    repo: Option<Seq<char>>,
    state: Option<Seq<char>>,
    holder: Option<Seq<char>>,
)
    ensures
        flow_list(t, repo, state, holder) !is Asks
            ==> #[trigger] flow_list(t + s, repo, state, holder)
            == flow_list(t, repo, state, holder).with_more(s),
{
    broadcast use replay_list_by;
}

pub broadcast proof fn replay_gc_one(
    t: Seq<AnswerView>,
    s: Seq<AnswerView>,
    w: WorkspaceRecordView,
    dry_run: bool,
)
    ensures
        flow_gc_one(t, w, dry_run) !is Asks ==> #[trigger] flow_gc_one(t + s, w, dry_run)
            == flow_gc_one(t, w, dry_run).with_more(s),
{
    broadcast use {
        replay_ask_flag, replay_gc_bookmarks,
    };
}

pub broadcast proof fn replay_gc_each(
    t: Seq<AnswerView>,
    s: Seq<AnswerView>,
    records: Seq<WorkspaceRecordView>,
    dry_run: bool,
    results: Seq<WorkspaceGcResultView>,
)
    ensures
        flow_gc_each(t, records, dry_run, results) !is Asks
            ==> #[trigger] flow_gc_each(t + s, records, dry_run, results)
            == flow_gc_each(t, records, dry_run, results).with_more(s),
    decreases records.len(),
{
    broadcast use replay_gc_one;

    if records.len() > 0 {
        if let Flow::Done(one, t1) = flow_gc_one(t, records[0], dry_run) {
            replay_gc_each(t1, s, records.drop_first(), dry_run, results.push(one));
        }
    }
}

pub broadcast proof fn replay_gc(
    t: Seq<AnswerView>,
    s: Seq<AnswerView>,
    id: Option<Seq<char>>,
    dry_run: bool,
)
    ensures
        flow_gc(t, id, dry_run) !is Asks ==> #[trigger] flow_gc(t + s, id, dry_run)
            == flow_gc(t, id, dry_run).with_more(s),
{
    broadcast use {
        replay_ask_workspaces, replay_gc_each,
    };
}

pub broadcast proof fn replay_one_row(
    t: Seq<AnswerView>,
    s: Seq<AnswerView>,
    repo: Option<Seq<char>>,
    id: Seq<char>,
)
    ensures
        flow_one_row(t, repo, id) !is Asks ==> #[trigger] flow_one_row(t + s, repo, id)
            == flow_one_row(t, repo, id).with_more(s),
{
    broadcast use replay_ask_workspaces;
}

pub broadcast proof fn replay_expunge(
    t: Seq<AnswerView>,
    s: Seq<AnswerView>,
    path: Seq<char>,
    expunge: bool,
)
    ensures
        flow_expunge(t, path, expunge) !is Asks ==> #[trigger] flow_expunge(t + s, path, expunge)
            == flow_expunge(t, path, expunge).with_more(s),
{
    broadcast use replay_ask_done;
}

pub broadcast proof fn replay_clean_logs(t: Seq<AnswerView>, s: Seq<AnswerView>, id: Seq<char>)
    ensures
        flow_clean_logs(t, id) !is Asks ==> #[trigger] flow_clean_logs(t + s, id)
            == flow_clean_logs(t, id).with_more(s),
{
    broadcast use {
        replay_ask_place, replay_ask_done, replay_warn,
    };
}

pub broadcast proof fn replay_take_out(
    t: Seq<AnswerView>,
    s: Seq<AnswerView>,
    w: WorkspaceRecordView,
    force: bool,
    expunge: bool,
)
    ensures
        flow_take_out(t, w, force, expunge) !is Asks
            ==> #[trigger] flow_take_out(t + s, w, force, expunge)
            == flow_take_out(t, w, force, expunge).with_more(s),
{
    broadcast use {
        replay_ask_saved, replay_expunge, replay_clean_logs, replay_ask_ack,
    };
}

pub broadcast proof fn replay_remove(
    t: Seq<AnswerView>,
    s: Seq<AnswerView>,
    id: Seq<char>,
    repo: Option<Seq<char>>,
    force: bool,
    expunge: bool,
)
    ensures
        flow_remove(t, id, repo, force, expunge) !is Asks
            ==> #[trigger] flow_remove(t + s, id, repo, force, expunge)
            == flow_remove(t, id, repo, force, expunge).with_more(s),
{
    broadcast use {
        replay_one_row, replay_ask_saved, replay_take_out,
    };
}

pub broadcast proof fn replay_workspace(
    t: Seq<AnswerView>,
    s: Seq<AnswerView>,
    command: WorkspaceCommandView,
)
    ensures
        flow_workspace(t, command) !is Asks ==> #[trigger] flow_workspace(t + s, command)
            == flow_workspace(t, command).with_more(s),
{
    broadcast use {
        replay_ask_saved, replay_lease, replay_release, replay_heartbeat, replay_force_release,
        replay_status, replay_set_up, replay_list, replay_gc, replay_remove,
    };
}

pub broadcast proof fn replay_current_change(
    t: Seq<AnswerView>,
    s: Seq<AnswerView>,
    path: Seq<char>,
)
    ensures
        flow_current_change(t, path) !is Asks ==> #[trigger] flow_current_change(t + s, path)
            == flow_current_change(t, path).with_more(s),
{
    broadcast use replay_run_jj;
}

pub broadcast proof fn replay_ask_change(t: Seq<AnswerView>, s: Seq<AnswerView>, a: ActionView)
    ensures
        ask_change(t, a) !is Asks ==> #[trigger] ask_change(t + s, a)
            == ask_change(t, a).with_more(s),
{
    if t.len() > 0 {
        assert((t + s).drop_first() =~= t.drop_first() + s);
    }
}

pub broadcast proof fn replay_insert_change(
    t: Seq<AnswerView>,
    s: Seq<AnswerView>,
    change: ChangeRecordView,
)
    ensures
        flow_insert_change(t, change) !is Asks ==> #[trigger] flow_insert_change(t + s, change)
            == flow_insert_change(t, change).with_more(s),
{
    broadcast use replay_ask_change;
}

pub broadcast proof fn replay_describe_change(
    t: Seq<AnswerView>,
    s: Seq<AnswerView>,
    repo: Seq<char>,
    path: Seq<char>,
    parent: Option<Seq<char>>,
    title: Seq<char>,
)
    ensures
        flow_describe_change(t, repo, path, parent, title) !is Asks
            ==> #[trigger] flow_describe_change(t + s, repo, path, parent, title)
            == flow_describe_change(t, repo, path, parent, title).with_more(s),
{
    broadcast use {
        replay_current_change, replay_ask_name, replay_ask_time,
    };
}

pub broadcast proof fn replay_create_in(
    t: Seq<AnswerView>,
    s: Seq<AnswerView>,
    workspace: Seq<char>,
    title: Seq<char>,
)
    ensures
        flow_create_in(t, workspace, title) !is Asks
            ==> #[trigger] flow_create_in(t + s, workspace, title)
            == flow_create_in(t, workspace, title).with_more(s),
{
    broadcast use {
        replay_known_workspace, replay_run_jj, replay_describe_change,
    };
}

pub broadcast proof fn replay_known_change(t: Seq<AnswerView>, s: Seq<AnswerView>, id: Seq<char>)
    ensures
        flow_known_change(t, id) !is Asks ==> #[trigger] flow_known_change(t + s, id)
            == flow_known_change(t, id).with_more(s),
{
    broadcast use replay_ask_change;
}

pub broadcast proof fn replay_create_on(
    t: Seq<AnswerView>,
    s: Seq<AnswerView>,
    parent: Seq<char>,
    title: Seq<char>,
)
    ensures
        flow_create_on(t, parent, title) !is Asks
            ==> #[trigger] flow_create_on(t + s, parent, title)
            == flow_create_on(t, parent, title).with_more(s),
{
    broadcast use {
        replay_known_change, replay_run_jj, replay_describe_change,
    };
}

pub broadcast proof fn replay_new_change(
    t: Seq<AnswerView>,
    s: Seq<AnswerView>,
    args: ChangeCreateArgsView,
)
    ensures
        flow_new_change(t, args) !is Asks ==> #[trigger] flow_new_change(t + s, args)
            == flow_new_change(t, args).with_more(s),
{
    broadcast use {
        replay_create_in, replay_create_on,
    };
}

pub broadcast proof fn replay_create_change(
    t: Seq<AnswerView>,
    s: Seq<AnswerView>,
    args: ChangeCreateArgsView,
)
    ensures
        crate::change::flow_create(t, args) !is Asks
            ==> #[trigger] crate::change::flow_create(t + s, args)
            == crate::change::flow_create(t, args).with_more(s),
{
    broadcast use {
        replay_new_change, replay_insert_change,
    };
}

pub broadcast proof fn replay_change_info(t: Seq<AnswerView>, s: Seq<AnswerView>, id: Seq<char>)
    ensures
        flow_change_info(t, id) !is Asks ==> #[trigger] flow_change_info(t + s, id)
            == flow_change_info(t, id).with_more(s),
{
    broadcast use {
        replay_known_change, replay_ask_place,
    };
}

pub broadcast proof fn replay_change(
    t: Seq<AnswerView>,
    s: Seq<AnswerView>,
    command: ChangeCommandView,
)
    ensures
        flow_change(t, command) !is Asks ==> #[trigger] flow_change(t + s, command)
            == flow_change(t, command).with_more(s),
{
    broadcast use {
        replay_ask_saved, replay_create_change, replay_change_info,
    };
}

pub broadcast proof fn replay_command(
    t: Seq<AnswerView>,
    s: Seq<AnswerView>,
    command: CommandView,
)
    ensures
        flow_command(t, command) !is Asks ==> #[trigger] flow_command(t + s, command)
            == flow_command(t, command).with_more(s),
{
    broadcast use {
        replay_repo, replay_workspace, replay_change, replay_pr,
    };
}

pub broadcast proof fn replay_ask_cleared(t: Seq<AnswerView>, s: Seq<AnswerView>, a: ActionView)
    ensures
        ask_cleared(t, a) !is Asks ==> #[trigger] ask_cleared(t + s, a)
            == ask_cleared(t, a).with_more(s),
{
    if t.len() > 0 {
        assert((t + s).drop_first() =~= t.drop_first() + s);
    }
}

pub broadcast proof fn replay_still_free(
    t: Seq<AnswerView>,
    s: Seq<AnswerView>,
    record: WorkspaceRecordView,
)
    ensures
        flow_still_free(t, record) !is Asks ==> #[trigger] flow_still_free(t + s, record)
            == flow_still_free(t, record).with_more(s),
{
    broadcast use replay_ask_workspaces;
}

pub broadcast proof fn replay_main_branch(t: Seq<AnswerView>, s: Seq<AnswerView>, repo: Seq<char>)
    ensures
        flow_main_branch(t, repo) !is Asks ==> #[trigger] flow_main_branch(t + s, repo)
            == flow_main_branch(t, repo).with_more(s),
{
    broadcast use replay_ask_repo;
}

pub broadcast proof fn replay_note_reset(
    t: Seq<AnswerView>,
    s: Seq<AnswerView>,
    now: i64,
    record: WorkspaceRecordView,
)
    ensures
        flow_note_reset(t, now, record) !is Asks ==> #[trigger] flow_note_reset(t + s, now, record)
            == flow_note_reset(t, now, record).with_more(s),
{
    broadcast use {
        replay_ask_ack, replay_warn,
    };
}

pub broadcast proof fn replay_mark_reset(
    t: Seq<AnswerView>,
    s: Seq<AnswerView>,
    now: i64,
    record: WorkspaceRecordView,
)
    ensures
        flow_mark_reset(t, now, record) !is Asks ==> #[trigger] flow_mark_reset(t + s, now, record)
            == flow_mark_reset(t, now, record).with_more(s),
{
    broadcast use {
        replay_ask_cleared, replay_note_reset, replay_warn,
    };
}

pub broadcast proof fn replay_gc_aged_one(
    t: Seq<AnswerView>,
    s: Seq<AnswerView>,
    now: i64,
    threshold: i64,
    record: WorkspaceRecordView,
)
    ensures
        flow_gc_aged_one(t, now, threshold, record) !is Asks
            ==> #[trigger] flow_gc_aged_one(t + s, now, threshold, record)
            == flow_gc_aged_one(t, now, threshold, record).with_more(s),
{
    broadcast use {
        replay_ask_flag, replay_still_free, replay_warn, replay_main_branch, replay_reset,
        replay_mark_reset,
    };
}

pub broadcast proof fn replay_gc_aged_all(
    t: Seq<AnswerView>,
    s: Seq<AnswerView>,
    now: i64,
    threshold: i64,
    records: Seq<WorkspaceRecordView>,
)
    ensures
        flow_gc_aged_all(t, now, threshold, records) !is Asks
            ==> #[trigger] flow_gc_aged_all(t + s, now, threshold, records)
            == flow_gc_aged_all(t, now, threshold, records).with_more(s),
    decreases records.len(),
{
    broadcast use replay_gc_aged_one;

    if records.len() > 0 {
        if let Flow::Done(_, t1) = flow_gc_aged_one(t, now, threshold, records[0]) {
            replay_gc_aged_all(t1, s, now, threshold, records.drop_first());
        }
    }
}

pub broadcast proof fn replay_gc_aged(
    t: Seq<AnswerView>,
    s: Seq<AnswerView>,
    now: i64,
    max_age_secs: i64,
)
    ensures
        flow_gc_aged(t, now, max_age_secs) !is Asks
            ==> #[trigger] flow_gc_aged(t + s, now, max_age_secs)
            == flow_gc_aged(t, now, max_age_secs).with_more(s),
{
    broadcast use {
        replay_ask_workspaces, replay_gc_aged_all, replay_warn,
    };
}

pub broadcast proof fn replay_remove_logs(
    t: Seq<AnswerView>,
    s: Seq<AnswerView>,
    dir: Seq<char>,
    entries: Seq<DirEntryView>,
    records: Seq<WorkspaceRecordView>,
)
    ensures
        flow_remove_logs(t, dir, entries, records) !is Asks
            ==> #[trigger] flow_remove_logs(t + s, dir, entries, records)
            == flow_remove_logs(t, dir, entries, records).with_more(s),
    decreases entries.len(),
{
    broadcast use {
        replay_ask_done, replay_warn,
    };

    if entries.len() > 0 {
        let rest = entries.drop_first();
        match entry_name(entries[0]) {
            Some(name) if !is_registered(records, name) => {
                let path = spec_path_join(dir, name);
                if let Flow::Done(fault, t1) = ask_done(t, ActionView::RemoveTree(path)) {
                    match fault {
                        None => replay_remove_logs(t1, s, dir, rest, records),
                        Some(f) => {
                            let text = "cube: workspace logs gc: failed to remove "@ + path + ": "@
                                + f.text;
                            if let Flow::Done(_, t2) = warn(t1, text) {
                                replay_remove_logs(t2, s, dir, rest, records);
                            }
                        },
                    }
                }
            },
            _ => replay_remove_logs(t, s, dir, rest, records),
        }
    }
}

pub broadcast proof fn replay_gc_logs(t: Seq<AnswerView>, s: Seq<AnswerView>)
    ensures
        flow_gc_logs(t) !is Asks ==> #[trigger] flow_gc_logs(t + s)
            == flow_gc_logs(t).with_more(s),
{
    broadcast use {
        replay_ask_place, replay_ask_flag, replay_ask_listed, replay_warn, replay_ask_workspaces,
        replay_remove_logs,
    };
}

pub broadcast proof fn replay_gc_bookmarks_all(
    t: Seq<AnswerView>,
    s: Seq<AnswerView>,
    records: Seq<WorkspaceRecordView>,
)
    ensures
        flow_gc_bookmarks_all(t, records) !is Asks
            ==> #[trigger] flow_gc_bookmarks_all(t + s, records)
            == flow_gc_bookmarks_all(t, records).with_more(s),
    decreases records.len(),
{
    broadcast use {
        replay_ask_flag, replay_gc_bookmarks, replay_warn,
    };

    if records.len() > 0 {
        let rest = records.drop_first();
        let path = records[0].workspace_path;
        if records[0].state == WorkspaceState::Leased {
            replay_gc_bookmarks_all(t, s, rest);
        } else if let Flow::Done(there, t1) = ask_flag(t, ActionView::IsDir(path)) {
            if !there {
                replay_gc_bookmarks_all(t1, s, rest);
            } else {
                match flow_gc_bookmarks(t1, path, true, false) {
                    Flow::Done(_, t2) => replay_gc_bookmarks_all(t2, s, rest),
                    Flow::Failed(e, t2) => {
                        let text = "cube: auto gc: "@ + records[0].workspace_id + ": "@
                            + e.message();
                        if let Flow::Done(_, t3) = warn(t2, text) {
                            replay_gc_bookmarks_all(t3, s, rest);
                        }
                    },
                    Flow::Asks(_) => {},
                }
            }
        }
    }
}

pub broadcast proof fn replay_gc_rest(t: Seq<AnswerView>, s: Seq<AnswerView>, max_age_secs: i64)
    ensures
        flow_gc_rest(t, max_age_secs) !is Asks ==> #[trigger] flow_gc_rest(t + s, max_age_secs)
            == flow_gc_rest(t, max_age_secs).with_more(s),
{
    broadcast use {
        replay_ask_time, replay_gc_aged, replay_gc_logs,
    };
}

pub broadcast proof fn replay_max_age(t: Seq<AnswerView>, s: Seq<AnswerView>)
    ensures
        flow_max_age(t) !is Asks ==> #[trigger] flow_max_age(t + s)
            == flow_max_age(t).with_more(s),
{
    broadcast use replay_load_config;
}

pub broadcast proof fn replay_pool_gc(t: Seq<AnswerView>, s: Seq<AnswerView>)
    ensures
        flow_pool_gc(t) !is Asks ==> #[trigger] flow_pool_gc(t + s)
            == flow_pool_gc(t).with_more(s),
{
    broadcast use {
        replay_ask_saved, replay_warn, replay_ask_workspaces, replay_gc_bookmarks_all,
        replay_max_age, replay_gc_rest,
    };
}

/// A command line that comes to an end with some answers comes to the same end when
/// more answers follow.
pub proof fn law_commands_are_replayed(
    t: Seq<AnswerView>,
    more: Seq<AnswerView>,
    command: CommandView,
)
    requires
        flow_command(t, command) !is Asks,
    ensures
        flow_command(t + more, command) == flow_command(t, command).with_more(more),
{
    replay_command(t, more, command);
}

/// The pool-wide cleanup that comes to an end with some answers comes to the same end
/// when more answers follow.
pub proof fn law_pool_gc_is_replayed(t: Seq<AnswerView>, more: Seq<AnswerView>)
    requires
        flow_pool_gc(t) !is Asks,
    ensures
        flow_pool_gc(t + more) == flow_pool_gc(t).with_more(more),
{
    replay_pool_gc(t, more);
}

} // verus!
