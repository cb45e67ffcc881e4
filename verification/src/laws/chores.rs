//! Changes, guarded resets and the cleanup of the pool, step by step.

use vstd::prelude::*;

use crate::app::flow_command;
use crate::change::without_hyphens;
use crate::cli::{ChangeCommandView, ChangeCreateArgsView};
use crate::config::CubeConfigView;
use crate::error::CubeErrorView;
use crate::events::AuditEventView;
use crate::exclude::{begin_mark, carries, exclude_block, flow_ensure_excluded, marked, spec_upsert};
use crate::flow::{
    ask_ack, ActionView, AnswerView, ContentView, DirEntryView, DirNameView, Flow, IoFaultView,
    ListingView,
};
use crate::gc::flow_gc_bookmarks;
use crate::jj::{is_no_repo, is_unresolved, recovery};
use crate::laws::exclude::law_upsert_carries_the_block;
use crate::laws::steps::{
    ends_with, fails_with, goes_on_as, group_given, hands_back, jj, named_op, on_change, rows_of,
    rows_with,
};
use crate::lease::{expired_of, flow_settle, TicketView};
use crate::number::spec_signed;
use crate::paths::spec_path_join;
use crate::pool_gc::{
    flow_gc_aged, flow_gc_aged_one, flow_gc_bookmarks_all, flow_gc_logs, flow_pool_gc,
    flow_remove_logs, is_registered,
};
use crate::records::{
    ChangeRecordView, ExpiredLeaseView, RepoRecordView, WorkspaceHealth, WorkspaceRecordView,
    WorkspaceState,
};
use crate::report::{HealthCheckView, PayloadView};
use crate::reset::{filled_lines, flow_reset, head_status_of};
use crate::split::spec_lines;
use crate::text::lemma_find;

verus! {

proof fn lemma_from_nothing(id: Seq<char>)
    ensures
        spec_upsert(""@, exclude_block(id)) == exclude_block(id),
        exclude_block(id).len() > 0,
        ""@.len() == 0,
{
    reveal_strlit("");
    reveal_strlit("# >>> boss-internal infra (managed by cube) >>>");
    let block = exclude_block(id);
    law_upsert_carries_the_block(""@, id);
    lemma_find(""@, block, 0);
    lemma_find(""@, begin_mark(), 0);
    assert(spec_upsert(""@, block) =~= block);
}

/// A change that is created in a workspace gives its working-copy commit the title, and
/// is stored with the ids that `jj` has for that commit, under the repository of the
/// workspace.
pub proof fn law_change_is_created_in_a_workspace(
    title: Seq<char>,
    identity: Seq<char>,
    jj_change_id: Seq<char>,
    head_commit: Seq<char>,
    fresh: Seq<char>,
    now: i64,
    path: Seq<char>,
    w: WorkspaceRecordView,
    o1: Seq<char>,
    more: Seq<AnswerView>,
)
    requires
        filled_lines(spec_lines(identity)) == seq![jj_change_id, head_commit],
    ensures
        ({
            let command = on_change(
                ChangeCommandView::Create(
                    ChangeCreateArgsView { workspace: Some(path), parent: None, title },
                ),
            );
            let change = ChangeRecordView {
                change_id: "chg_"@ + without_hyphens(fresh),
                repo: w.repo,
                workspace_path: path,
                parent_change_id: None,
                title,
                jj_change_id,
                head_commit,
                created_at_epoch_s: now,
            };
            let steps = seq![
                (ActionView::OpenStore, AnswerView::Saved),
                (ActionView::WorkspaceByPath(path), AnswerView::Workspace(Some(w))),
                (ActionView::IsDir(w.workspace_path), AnswerView::Flag(true)),
                (jj(path, seq!["describe"@, "-m"@, title]), AnswerView::Output(o1)),
                (
                    jj(
                        path,
                        seq![
                            "log"@,
                            "--no-graph"@,
                            "-r"@,
                            "@"@,
                            "-T"@,
                            "change_id ++ \"\\n\" ++ commit_id.short()"@,
                        ],
                    ),
                    AnswerView::Output(identity),
                ),
                (ActionView::FreshId, AnswerView::Name(fresh)),
                (ActionView::Clock, AnswerView::Time(now)),
                (ActionView::InsertChange(change), AnswerView::Change(Some(change))),
            ];
            hands_back(command, steps, PayloadView::Change(change), more)
        }),
{
    broadcast use group_given;
    let change = ChangeRecordView {
        change_id: "chg_"@ + without_hyphens(fresh),
        repo: w.repo,
        workspace_path: path,
        parent_change_id: None,
        title,
        jj_change_id,
        head_commit,
        created_at_epoch_s: now,
    };
    assert(
        seq!["log"@, "--no-graph"@, "-r"@, "@"@]
            + seq!["-T"@, "change_id ++ \"\\n\" ++ commit_id.short()"@]
            =~= seq![
                "log"@,
                "--no-graph"@,
                "-r"@,
                "@"@,
                "-T"@,
                "change_id ++ \"\\n\" ++ commit_id.short()"@,
            ]
    );
}

/// A change that is created on top of another starts a new commit on it, in its
/// workspace, and is stored as its child.
pub proof fn law_change_is_created_on_another(
    title: Seq<char>,
    identity: Seq<char>,
    jj_change_id: Seq<char>,
    head_commit: Seq<char>,
    fresh: Seq<char>,
    now: i64,
    id: Seq<char>,
    parent: ChangeRecordView,
    o1: Seq<char>,
    more: Seq<AnswerView>,
)
    requires
        filled_lines(spec_lines(identity)) == seq![jj_change_id, head_commit],
    ensures
        ({
            let command = on_change(
                ChangeCommandView::Create(
                    ChangeCreateArgsView { workspace: None, parent: Some(id), title },
                ),
            );
            let path = parent.workspace_path;
            let change = ChangeRecordView {
                change_id: "chg_"@ + without_hyphens(fresh),
                repo: parent.repo,
                workspace_path: path,
                parent_change_id: Some(parent.change_id),
                title,
                jj_change_id,
                head_commit,
                created_at_epoch_s: now,
            };
            let steps = seq![
                (ActionView::OpenStore, AnswerView::Saved),
                (ActionView::GetChange(id), AnswerView::Change(Some(parent))),
                (ActionView::GetChange(parent.change_id), AnswerView::Change(Some(parent))),
                (jj(path, seq!["new"@, parent.jj_change_id, "-m"@, title]), AnswerView::Output(o1)),
                (
                    jj(
                        path,
                        seq![
                            "log"@,
                            "--no-graph"@,
                            "-r"@,
                            "@"@,
                            "-T"@,
                            "change_id ++ \"\\n\" ++ commit_id.short()"@,
                        ],
                    ),
                    AnswerView::Output(identity),
                ),
                (ActionView::FreshId, AnswerView::Name(fresh)),
                (ActionView::Clock, AnswerView::Time(now)),
                (ActionView::InsertChange(change), AnswerView::Change(Some(change))),
            ];
            hands_back(command, steps, PayloadView::Change(change), more)
        }),
{
    broadcast use group_given;
    let path = parent.workspace_path;
    let change = ChangeRecordView {
        change_id: "chg_"@ + without_hyphens(fresh),
        repo: parent.repo,
        workspace_path: path,
        parent_change_id: Some(parent.change_id),
        title,
        jj_change_id,
        head_commit,
        created_at_epoch_s: now,
    };
    assert(
        seq!["log"@, "--no-graph"@, "-r"@, "@"@]
            + seq!["-T"@, "change_id ++ \"\\n\" ++ commit_id.short()"@]
            =~= seq![
                "log"@,
                "--no-graph"@,
                "-r"@,
                "@"@,
                "-T"@,
                "change_id ++ \"\\n\" ++ commit_id.short()"@,
            ]
    );
}

/// Showing a change hands back the one that was named.
pub proof fn law_change_is_shown(
    id: Seq<char>,
    change: ChangeRecordView,
    home: Option<Seq<char>>,
    more: Seq<AnswerView>,
)
    ensures
        ({
            let command = on_change(ChangeCommandView::Info { change: id });
            let steps = seq![
                (ActionView::OpenStore, AnswerView::Saved),
                (ActionView::GetChange(id), AnswerView::Change(Some(change))),
                (ActionView::HomeDir, AnswerView::Place(home)),
            ];
            hands_back(command, steps, PayloadView::Change(change), more)
        }),
{
    broadcast use group_given;
}

/// A change that the registry does not know cannot be shown.
pub proof fn law_unknown_change_is_a_failure(
    id: Seq<char>,
    more: Seq<AnswerView>,
)
    ensures
        ({
            let command = on_change(ChangeCommandView::Info { change: id });
            let steps = seq![
                (ActionView::OpenStore, AnswerView::Saved),
                (ActionView::GetChange(id), AnswerView::Change(None)),
            ];
            fails_with(
                |t: Seq<AnswerView>| flow_command(t, command),
                steps,
                CubeErrorView::ChangeNotFound(id),
                more,
            )
        }),
{
    broadcast use group_given;
}

/// A change needs a workspace or a parent.
pub proof fn law_change_needs_a_place(
    path: Seq<char>,
    id: Seq<char>,
    title: Seq<char>,
    more: Seq<AnswerView>,
)
    ensures
        ({
            let command = on_change(
                ChangeCommandView::Create(
                    ChangeCreateArgsView { workspace: None, parent: None, title },
                ),
            );
            let steps = seq![
                (ActionView::OpenStore, AnswerView::Saved),
            ];
            fails_with(
                |t: Seq<AnswerView>| flow_command(t, command),
                steps,
                CubeErrorView::InvalidArgument("change create requires --workspace or --parent"@),
                more,
            )
        }),
{
    broadcast use group_given;
}

/// A change takes a workspace or a parent, not both.
pub proof fn law_change_has_one_place(
    path: Seq<char>,
    id: Seq<char>,
    title: Seq<char>,
    more: Seq<AnswerView>,
)
    ensures
        ({
            let command = on_change(
                ChangeCommandView::Create(
                    ChangeCreateArgsView { workspace: Some(path), parent: Some(id), title },
                ),
            );
            let steps = seq![
                (ActionView::OpenStore, AnswerView::Saved),
            ];
            fails_with(
                |t: Seq<AnswerView>| flow_command(t, command),
                steps,
                CubeErrorView::InvalidArgument(
                    "change create accepts either --workspace or --parent, not both"@,
                ),
                more,
            )
        }),
{
    broadcast use group_given;
}

/// A workspace that was taken from an expired lease is fetched and looked at, and reset
/// where it is clean; each command is noted with the lease before it is run.
pub proof fn law_reset_after_an_expired_lease(
    path: Seq<char>,
    main: Seq<char>,
    prior: ExpiredLeaseView,
    o1: Seq<char>,
    seen: Seq<char>,
    o2: Seq<char>,
    o3: Seq<char>,
    more: Seq<AnswerView>,
)
    requires
        head_status_of(seen, main).is_clean_on_main,
    ensures
        ({
            let steps = seq![
                (
                    ActionView::Audit(
                        AuditEventView::named("workspace.jj_op"@).text("workspace_path"@, path)
                            .text("verb"@, "git"@).texts("args"@, seq!["fetch"@])
                            .text("prior_expired_lease_id"@, prior.lease_id)
                            .maybe_text("prior_expired_holder"@, prior.holder),
                    ),
                    AnswerView::Ack,
                ),
                (jj(path, seq!["git"@, "fetch"@]), AnswerView::Output(o1)),
                (
                    ActionView::Audit(
                        AuditEventView::named("workspace.jj_op"@).text("workspace_path"@, path)
                            .text("verb"@, "log"@).texts("args"@, seq!["-r"@, "@"@])
                            .text("prior_expired_lease_id"@, prior.lease_id)
                            .maybe_text("prior_expired_holder"@, prior.holder),
                    ),
                    AnswerView::Ack,
                ),
                (
                    jj(
                        path,
                        seq![
                            "log"@,
                            "--no-graph"@,
                            "-r"@,
                            "@"@,
                            "-T"@,
                            "change_id ++ \"\\t\" ++ empty ++ \"\\t\" ++ parents.map(|p| p.bookmarks().join(\",\")).join(\";\")"@,
                        ],
                    ),
                    AnswerView::Output(seen),
                ),
                (
                    ActionView::Audit(
                        AuditEventView::named("workspace.jj_op"@).text("workspace_path"@, path)
                            .text("verb"@, "bookmark-set"@)
                            .texts("args"@, seq![main, main + "@origin"@])
                            .text("prior_expired_lease_id"@, prior.lease_id)
                            .maybe_text("prior_expired_holder"@, prior.holder),
                    ),
                    AnswerView::Ack,
                ),
                (
                    jj(
                        path,
                        seq![
                            "bookmark"@,
                            "set"@,
                            main,
                            "-r"@,
                            main + "@origin"@,
                            "--allow-backwards"@,
                        ],
                    ),
                    AnswerView::Output(o2),
                ),
                (
                    ActionView::Audit(
                        AuditEventView::named("workspace.jj_op"@).text("workspace_path"@, path)
                            .text("verb"@, "new"@).texts("args"@, seq![main])
                            .text("prior_expired_lease_id"@, prior.lease_id)
                            .maybe_text("prior_expired_holder"@, prior.holder),
                    ),
                    AnswerView::Ack,
                ),
                (jj(path, seq!["new"@, main]), AnswerView::Output(o3)),
            ];
            ends_with(
                |t: Seq<AnswerView>| flow_reset(t, path, main, Some(prior)),
                steps,
                (),
                more,
            )
        }),
{
    broadcast use group_given;
    assert(
        seq!["log"@, "--no-graph"@, "-r"@, "@"@]
            + seq![
                "-T"@,
                "change_id ++ \"\\t\" ++ empty ++ \"\\t\" ++ parents.map(|p| p.bookmarks().join(\",\")).join(\";\")"@,
            ]
            =~= seq![
                "log"@,
                "--no-graph"@,
                "-r"@,
                "@"@,
                "-T"@,
                "change_id ++ \"\\t\" ++ empty ++ \"\\t\" ++ parents.map(|p| p.bookmarks().join(\",\")).join(\";\")"@,
            ]
    );
    assert(
        seq!["bookmark"@, "set"@, main] + seq!["-r"@, main + "@origin"@, "--allow-backwards"@]
            =~= seq!["bookmark"@, "set"@, main, "-r"@, main + "@origin"@, "--allow-backwards"@]
    );
}

/// A default branch that the remote does not have is left where it is, with a warning,
/// and the reset goes on.
pub proof fn law_branch_without_remote_is_left_in_place(
    path: Seq<char>,
    main: Seq<char>,
    o1: Seq<char>,
    error: CubeErrorView,
    o3: Seq<char>,
    more: Seq<AnswerView>,
)
    requires
        is_unresolved(error),
        !is_no_repo(error),
        recovery(error) is None,
    ensures
        ({
            let steps = seq![
                (named_op(path, "git"@, seq!["fetch"@]), AnswerView::Ack),
                (jj(path, seq!["git"@, "fetch"@]), AnswerView::Output(o1)),
                (named_op(path, "bookmark-set"@, seq![main, main + "@origin"@]), AnswerView::Ack),
                (
                    jj(
                        path,
                        seq![
                            "bookmark"@,
                            "set"@,
                            main,
                            "-r"@,
                            main + "@origin"@,
                            "--allow-backwards"@,
                        ],
                    ),
                    AnswerView::Failed(error),
                ),
                (
                    ActionView::Warn(
                        "warning: cube could not fast-forward `"@ + main + "` to `"@
                            + (main + "@origin"@) + "` in "@ + path
                            + ": the remote-tracking bookmark did not resolve. Leaving local `"@
                            + main + "` in place; check the repo's recorded default branch."@,
                    ),
                    AnswerView::Ack,
                ),
                (named_op(path, "new"@, seq![main]), AnswerView::Ack),
                (jj(path, seq!["new"@, main]), AnswerView::Output(o3)),
            ];
            ends_with(
                |t: Seq<AnswerView>| flow_reset(t, path, main, None),
                steps,
                (),
                more,
            )
        }),
{
    broadcast use group_given;
    assert(
        seq!["bookmark"@, "set"@, main] + seq!["-r"@, main + "@origin"@, "--allow-backwards"@]
            =~= seq!["bookmark"@, "set"@, main, "-r"@, main + "@origin"@, "--allow-backwards"@]
    );
}

/// A workspace whose lease ran out in this very lease is reset only past the look at what
/// its holder left there.
pub proof fn law_expired_holder_guards_the_workspace(
    ticket: TicketView,
    main_branch: Seq<char>,
    prior: ExpiredLeaseView,
    claimed: WorkspaceRecordView,
    checks: Seq<HealthCheckView>,
    o1: Seq<char>,
    seen: Seq<char>,
    back: Option<WorkspaceRecordView>,
    more: Seq<AnswerView>,
)
    requires
        prior.workspace_id == claimed.workspace_id,
        !head_status_of(seen, main_branch).is_clean_on_main,
    ensures
        ({
            let path = claimed.workspace_path;
            let head = head_status_of(seen, main_branch);
            let steps = seq![
                (ActionView::IsDir(path), AnswerView::Flag(true)),
                (
                    ActionView::Audit(
                        AuditEventView::named("workspace.jj_op"@).text("workspace_path"@, path)
                            .text("verb"@, "git"@).texts("args"@, seq!["fetch"@])
                            .text("prior_expired_lease_id"@, prior.lease_id)
                            .maybe_text("prior_expired_holder"@, prior.holder),
                    ),
                    AnswerView::Ack,
                ),
                (jj(path, seq!["git"@, "fetch"@]), AnswerView::Output(o1)),
                (
                    ActionView::Audit(
                        AuditEventView::named("workspace.jj_op"@).text("workspace_path"@, path)
                            .text("verb"@, "log"@).texts("args"@, seq!["-r"@, "@"@])
                            .text("prior_expired_lease_id"@, prior.lease_id)
                            .maybe_text("prior_expired_holder"@, prior.holder),
                    ),
                    AnswerView::Ack,
                ),
                (
                    jj(
                        path,
                        seq![
                            "log"@,
                            "--no-graph"@,
                            "-r"@,
                            "@"@,
                            "-T"@,
                            "change_id ++ \"\\t\" ++ empty ++ \"\\t\" ++ parents.map(|p| p.bookmarks().join(\",\")).join(\";\")"@,
                        ],
                    ),
                    AnswerView::Output(seen),
                ),
                (
                    ActionView::Audit(
                        AuditEventView::named("workspace.reset_refused_dirty"@)
                            .text("workspace_path"@, path).text("main_branch"@, main_branch)
                            .text("head_change_id"@, head.head_change_id)
                            .flag("head_is_empty"@, head.head_is_empty)
                            .text("head_parent_bookmarks"@, head.head_parent_bookmarks)
                            .text("prior_lease_id"@, prior.lease_id)
                            .maybe_text("prior_holder"@, prior.holder)
                            .maybe_text("prior_task"@, prior.task),
                    ),
                    AnswerView::Ack,
                ),
                (
                    ActionView::ReleaseWorkspace {
                        lease_id: ticket.lease_id,
                        reason: Some("lease_setup_failed"@),
                    },
                    AnswerView::Workspace(back),
                ),
            ];
            fails_with(
                |t: Seq<AnswerView>| flow_settle(
                    t,
                    ticket,
                    main_branch,
                    seq![prior],
                    None,
                    (claimed, false, Seq::empty()),
                    checks,
                ),
                steps,
                CubeErrorView::LeaseExpiredWorkspaceDirty {
                    workspace_path: path,
                    prior_lease_id: prior.lease_id,
                    prior_holder: match prior.holder { Some(h) => h, None => "<unknown>"@ },
                },
                more,
            )
        }),
{
    broadcast use group_given;
    let path = claimed.workspace_path;
    let head = head_status_of(seen, main_branch);
    assert(
        seq!["log"@, "--no-graph"@, "-r"@, "@"@]
            + seq![
                "-T"@,
                "change_id ++ \"\\t\" ++ empty ++ \"\\t\" ++ parents.map(|p| p.bookmarks().join(\",\")).join(\";\")"@,
            ]
            =~= seq![
                "log"@,
                "--no-graph"@,
                "-r"@,
                "@"@,
                "-T"@,
                "change_id ++ \"\\t\" ++ empty ++ \"\\t\" ++ parents.map(|p| p.bookmarks().join(\",\")).join(\";\")"@,
            ]
    );
    reveal_with_fuel(expired_of, 2);
}

/// The pool-wide cleanup cleans up the bookmarks of the free workspaces that are there,
/// then the workspaces that were unhealthy for longer than the configuration allows, then
/// the logs.
pub proof fn law_pool_cleanup_goes_round(
    dir: Seq<char>,
    body: Seq<char>,
    config: CubeConfigView,
    now: i64,
    leased: WorkspaceRecordView,
    more: Seq<AnswerView>,
)
    requires
        leased.state == WorkspaceState::Leased,
    ensures
        ({
            let file = spec_path_join(dir, "cube.toml"@);
            let steps = seq![
                (ActionView::OpenStore, AnswerView::Saved),
                (rows_of(None, None), AnswerView::Workspaces(seq![leased])),
                (ActionView::Variable("CUBE_CONFIG_DIR"@), AnswerView::Place(Some(dir))),
                (ActionView::Variable("XDG_CONFIG_HOME"@), AnswerView::Place(None)),
                (ActionView::Variable("HOME"@), AnswerView::Place(None)),
                (ActionView::Exists(file), AnswerView::Flag(true)),
                (ActionView::ReadFile(file), AnswerView::Text(ContentView::Text(body))),
                (ActionView::ParseConfig(body), AnswerView::Config(config)),
                (ActionView::Clock, AnswerView::Time(now)),
            ];
            goes_on_as(
                |t: Seq<AnswerView>| flow_pool_gc(t),
                steps,
                |t: Seq<AnswerView>| flow_gc_aged(t, now, (config.unhealthy_gc.max_age_days * 86400) as i64).and(|u: (), t: Seq<AnswerView>| flow_gc_logs(t)),
                more,
            )
        }),
{
    broadcast use group_given;
    reveal_with_fuel(flow_gc_bookmarks_all, 3);
    assert(seq![leased].drop_first() =~= Seq::<WorkspaceRecordView>::empty());
}

/// Without a configuration, the cleanup takes five days for the age.
pub proof fn law_usual_age_is_five_days(
    now: i64,
    more: Seq<AnswerView>,
)
    ensures
        ({
            let steps = seq![
                (ActionView::OpenStore, AnswerView::Saved),
                (rows_of(None, None), AnswerView::Workspaces(Seq::empty())),
                (ActionView::Variable("CUBE_CONFIG_DIR"@), AnswerView::Place(None)),
                (ActionView::Variable("XDG_CONFIG_HOME"@), AnswerView::Place(None)),
                (ActionView::Variable("HOME"@), AnswerView::Place(None)),
                (ActionView::Clock, AnswerView::Time(now)),
            ];
            goes_on_as(
                |t: Seq<AnswerView>| flow_pool_gc(t),
                steps,
                |t: Seq<AnswerView>| flow_gc_aged(t, now, 432000i64).and(|u: (), t: Seq<AnswerView>| flow_gc_logs(t)),
                more,
            )
        }),
{
    broadcast use group_given;
    reveal_with_fuel(flow_gc_bookmarks_all, 2);
}

/// The pool-wide cleanup looks after a free workspace that is there, with a fetch and not
/// as a dry run.
pub proof fn law_bookmarks_of_free_workspaces_are_cleaned_up(
    free: WorkspaceRecordView,
    more: Seq<AnswerView>,
)
    requires
        free.state == WorkspaceState::Free,
    ensures
        ({
            let steps = seq![
                (ActionView::IsDir(free.workspace_path), AnswerView::Flag(true)),
            ];
            goes_on_as(
                |t: Seq<AnswerView>| flow_gc_bookmarks_all(t, seq![free]),
                steps,
                |t: Seq<AnswerView>| match flow_gc_bookmarks(t, free.workspace_path, true, false) {
                    Flow::Done(_, t) => Flow::Done((), t),
                    Flow::Failed(e, t) => ask_ack(
                        t,
                        ActionView::Warn(
                            "cube: auto gc: "@ + free.workspace_id + ": "@ + e.message(),
                        ),
                    ),
                    Flow::Asks(a) => Flow::Asks(a),
                },
                more,
            )
        }),
{
    broadcast use group_given;
    reveal_with_fuel(flow_gc_bookmarks_all, 3);
    assert(seq![free].drop_first() =~= Seq::<WorkspaceRecordView>::empty());
}

/// A workspace that was unhealthy for longer than the age is reset to the default branch
/// of its repository, where it is still there and still free, and marked healthy; and
/// that is noted with how long it had been so.
pub proof fn law_long_unhealthy_workspace_is_reset(
    record: WorkspaceRecordView,
    health: WorkspaceHealth,
    since: i64,
    now: i64,
    max_age_secs: i64,
    row: WorkspaceRecordView,
    repo: RepoRecordView,
    o1: Seq<char>,
    o2: Seq<char>,
    o3: Seq<char>,
    more: Seq<AnswerView>,
)
    requires
        record.state == WorkspaceState::Free,
        record.health_status == Some(health),
        record.unhealthy_since_epoch_s == Some(since),
        now - since > max_age_secs,
        0 <= since <= now,
        0 <= max_age_secs,
        row.state == WorkspaceState::Free,
    ensures
        ({
            let path = record.workspace_path;
            let main = repo.main_branch;
            let named = match health {
                WorkspaceHealth::Dirty => "dirty"@,
                WorkspaceHealth::Conflicted => "conflicted"@,
            };
            let age = (now - since) as i64;
            let steps = seq![
                (ActionView::IsDir(path), AnswerView::Flag(true)),
                (
                    rows_with(Some(record.repo), Some(record.workspace_id)),
                    AnswerView::Workspaces(seq![row]),
                ),
                (ActionView::GetRepo(record.repo), AnswerView::Repo(Some(repo))),
                (named_op(path, "git"@, seq!["fetch"@]), AnswerView::Ack),
                (jj(path, seq!["git"@, "fetch"@]), AnswerView::Output(o1)),
                (named_op(path, "bookmark-set"@, seq![main, main + "@origin"@]), AnswerView::Ack),
                (
                    jj(
                        path,
                        seq![
                            "bookmark"@,
                            "set"@,
                            main,
                            "-r"@,
                            main + "@origin"@,
                            "--allow-backwards"@,
                        ],
                    ),
                    AnswerView::Output(o2),
                ),
                (named_op(path, "new"@, seq![main]), AnswerView::Ack),
                (jj(path, seq!["new"@, main]), AnswerView::Output(o3)),
                (
                    ActionView::ClearUnhealthy {
                        repo: record.repo,
                        workspace_id: record.workspace_id,
                    },
                    AnswerView::Cleared(true),
                ),
                (
                    ActionView::Audit(
                        AuditEventView::named("workspace.unhealthy_gc_reset"@)
                            .text("workspace_id"@, record.workspace_id).text("repo"@, record.repo)
                            .text("prior_health"@, named).maybe_text("prior_holder"@, record.holder)
                            .maybe_text("prior_task"@, record.task)
                            .number("unhealthy_since_epoch_s"@, since).number("age_secs"@, age),
                    ),
                    AnswerView::Ack,
                ),
                (
                    ActionView::Warn(
                        "cube: unhealthy gc: reset "@ + record.workspace_id + " (was "@ + named
                            + " for "@ + spec_signed(age as int) + "s)"@,
                    ),
                    AnswerView::Ack,
                ),
            ];
            ends_with(
                |t: Seq<AnswerView>| flow_gc_aged_one(t, now, (now - max_age_secs) as i64, record),
                steps,
                (),
                more,
            )
        }),
{
    broadcast use group_given;
    let path = record.workspace_path;
    let main = repo.main_branch;
    let named = match health {
        WorkspaceHealth::Dirty => "dirty"@,
        WorkspaceHealth::Conflicted => "conflicted"@,
    };
    let age = (now - since) as i64;
    assert(
        seq!["bookmark"@, "set"@, main] + seq!["-r"@, main + "@origin"@, "--allow-backwards"@]
            =~= seq!["bookmark"@, "set"@, main, "-r"@, main + "@origin"@, "--allow-backwards"@]
    );
}

/// A workspace that was claimed in the meantime is left alone.
pub proof fn law_workspace_claimed_meanwhile_is_left_alone(
    record: WorkspaceRecordView,
    health: WorkspaceHealth,
    since: i64,
    now: i64,
    max_age_secs: i64,
    row: WorkspaceRecordView,
    more: Seq<AnswerView>,
)
    requires
        record.state == WorkspaceState::Free,
        record.health_status == Some(health),
        record.unhealthy_since_epoch_s == Some(since),
        now - since > max_age_secs,
        0 <= since <= now,
        0 <= max_age_secs,
        row.state == WorkspaceState::Leased,
    ensures
        ({
            let path = record.workspace_path;
            let steps = seq![
                (ActionView::IsDir(path), AnswerView::Flag(true)),
                (
                    rows_with(Some(record.repo), Some(record.workspace_id)),
                    AnswerView::Workspaces(seq![row]),
                ),
                (
                    ActionView::Warn(
                        "cube: unhealthy gc: "@ + record.workspace_id
                            + " was claimed mid-pass, skipping"@,
                    ),
                    AnswerView::Ack,
                ),
            ];
            ends_with(
                |t: Seq<AnswerView>| flow_gc_aged_one(t, now, (now - max_age_secs) as i64, record),
                steps,
                (),
                more,
            )
        }),
{
    broadcast use group_given;
}

/// The directory of logs of a workspace that is not registered is deleted, and that of
/// one that is registered stays.
pub proof fn law_logs_of_unknown_workspaces_are_deleted(
    dir: Seq<char>,
    known: DirNameView,
    unknown: DirNameView,
    w: WorkspaceRecordView,
    is_dir: bool,
    more: Seq<AnswerView>,
)
    requires
        known.is_unicode,
        unknown.is_unicode,
        known.text == w.workspace_id,
        unknown.text != w.workspace_id,
    ensures
        ({
            let steps = seq![
                (ActionView::LogsDir, AnswerView::Place(Some(dir))),
                (ActionView::Exists(dir), AnswerView::Flag(true)),
                (
                    ActionView::ReadDir(dir),
                    AnswerView::Listed(
                        ListingView::Entries(
                            seq![
                                DirEntryView::Named { name: known, is_dir },
                                DirEntryView::Named { name: unknown, is_dir },
                            ],
                        ),
                    ),
                ),
                (rows_of(None, None), AnswerView::Workspaces(seq![w])),
                (ActionView::RemoveTree(spec_path_join(dir, unknown.text)), AnswerView::Done(None)),
            ];
            ends_with(
                |t: Seq<AnswerView>| flow_gc_logs(t),
                steps,
                (),
                more,
            )
        }),
{
    broadcast use group_given;
    reveal_with_fuel(flow_remove_logs, 4);
    let a = DirEntryView::Named { name: known, is_dir };
    let b = DirEntryView::Named { name: unknown, is_dir };
    assert(seq![a, b].drop_first() =~= seq![b]);
    assert(seq![b].drop_first() =~= Seq::<DirEntryView>::empty());
    assert(seq![w][0].workspace_id == known.text);
    assert(is_registered(seq![w], known.text));
    assert(!is_registered(seq![w], unknown.text));
}

/// The exclude file of a workspace with a git repository is written with the block of the
/// workspace, where it does not carry it yet.
pub proof fn law_exclude_file_gets_the_block(
    path: Seq<char>,
    id: Seq<char>,
    existing: Seq<char>,
    block: Seq<char>,
    more: Seq<AnswerView>,
)
    requires
        exclude_block(id) == block,
        !carries(existing, block),
        marked(existing) is None,
        existing.len() > 0,
        existing.last() == '\n',
    ensures
        ({
            let file = spec_path_join(
                spec_path_join(spec_path_join(path, ".git"@), "info"@),
                "exclude"@,
            );
            let steps = seq![
                (ActionView::IsDir(spec_path_join(path, ".git"@)), AnswerView::Flag(true)),
                (
                    ActionView::CreateDirs(spec_path_join(spec_path_join(path, ".git"@), "info"@)),
                    AnswerView::Done(None),
                ),
                (ActionView::ReadFile(file), AnswerView::Text(ContentView::Text(existing))),
                (
                    ActionView::WriteFile { path: file, text: existing + block },
                    AnswerView::Done(None),
                ),
            ];
            ends_with(
                |t: Seq<AnswerView>| flow_ensure_excluded(t, path, id),
                steps,
                (),
                more,
            )
        }),
{
    broadcast use group_given;
    law_upsert_carries_the_block(existing, id);
}

/// An exclude file that is not there is made of the block alone.
pub proof fn law_missing_exclude_file_is_made(
    path: Seq<char>,
    id: Seq<char>,
    fault: IoFaultView,
    more: Seq<AnswerView>,
)
    requires
        fault.not_found,
    ensures
        ({
            let file = spec_path_join(
                spec_path_join(spec_path_join(path, ".git"@), "info"@),
                "exclude"@,
            );
            let steps = seq![
                (ActionView::IsDir(spec_path_join(path, ".git"@)), AnswerView::Flag(true)),
                (
                    ActionView::CreateDirs(spec_path_join(spec_path_join(path, ".git"@), "info"@)),
                    AnswerView::Done(None),
                ),
                (ActionView::ReadFile(file), AnswerView::Text(ContentView::Fault(fault))),
                (
                    ActionView::WriteFile { path: file, text: exclude_block(id) },
                    AnswerView::Done(None),
                ),
            ];
            ends_with(
                |t: Seq<AnswerView>| flow_ensure_excluded(t, path, id),
                steps,
                (),
                more,
            )
        }),
{
    broadcast use group_given;
    lemma_from_nothing(id);
}

} // verus!
