//! Repositories step by step: how one is found, cloned and registered.

use vstd::prelude::*;

use crate::app::flow_command;
use crate::cli::RepoCommandView;
use crate::config::{CubeConfigView, RepoResolverView};
use crate::ensure::{
    first_resolved, flow_ensure_by_name, flow_ensure_by_origin, flow_ensure_core,
    RepoEnsureDefaultsView,
};
use crate::error::CubeErrorView;
use crate::flow::{ActionView, AnswerView, ContentView, Flow};
use crate::git::{same_origin, spec_is_slug};
use crate::laws::steps::{
    ends_with, fails_with, goes_on_as, group_given, hands_back, jj, on_repo, runs,
};
use crate::outside::shell_words;
use crate::paths::{spec_parent, spec_path_join};
use crate::pool::{flow_track_each, tracked_branches};
use crate::records::RepoRecordView;
use crate::repo::{flow_materialize, spec_repo_id, symref_in};
use crate::report::{spec_result, PayloadView};
use crate::split::{spec_lines, spec_split};
use crate::text::spec_trim;

verus! {

proof fn lemma_two_tracked()
    ensures
        tracked_branches(Some("main"@)) == seq!["main"@, "master"@],
        seq!["main"@, "master"@].drop_first() == seq!["master"@],
        seq!["master"@].drop_first() == Seq::<Seq<char>>::empty(),
{
    let usual = seq!["main"@, "master"@];
    assert(usual[0] == "main"@);
    assert(usual.contains("main"@));
    assert(usual.drop_first() =~= seq!["master"@]);
    assert(seq!["master"@].drop_first() =~= Seq::<Seq<char>>::empty());
}

/// A repository is ensured by the origin that was given, whatever name stands beside it,
/// with its clone and its pool in the data directory.
pub proof fn law_ensure_by_origin_goes_by_the_origin(
    reponame: Option<Seq<char>>,
    origin: Seq<char>,
    data: Seq<char>,
    more: Seq<AnswerView>,
)
    ensures
        ({
            let command = on_repo(RepoCommandView::Ensure { reponame, origin: Some(origin) });
            let defaults = RepoEnsureDefaultsView {
                repo_root: spec_path_join(data, "repos"@),
                workspace_root: spec_path_join(data, "workspaces"@),
            };
            let steps = seq![
                (ActionView::OpenStore, AnswerView::Saved),
                (ActionView::DataDir, AnswerView::Output(data)),
                (ActionView::Variable("CUBE_CONFIG_DIR"@), AnswerView::Place(None)),
                (ActionView::Variable("XDG_CONFIG_HOME"@), AnswerView::Place(None)),
                (ActionView::Variable("HOME"@), AnswerView::Place(None)),
            ];
            goes_on_as(
                |t: Seq<AnswerView>| flow_command(t, command),
                steps,
                |t: Seq<AnswerView>| flow_ensure_by_origin(t, origin, defaults).and(|record: RepoRecordView, t: Seq<AnswerView>| Flow::Done(spec_result("Ensured repo `"@ + record.repo + "`."@, PayloadView::RepoEnsured(record)), t)),
                more,
            )
        }),
{
    broadcast use group_given;
}

/// Without an origin, a repository is ensured by its name, with the resolvers of the
/// configuration file.
pub proof fn law_ensure_by_name_goes_by_the_name(
    name: Seq<char>,
    data: Seq<char>,
    dir: Seq<char>,
    body: Seq<char>,
    config: CubeConfigView,
    more: Seq<AnswerView>,
)
    ensures
        ({
            let command = on_repo(RepoCommandView::Ensure { reponame: Some(name), origin: None });
            let defaults = RepoEnsureDefaultsView {
                repo_root: spec_path_join(data, "repos"@),
                workspace_root: spec_path_join(data, "workspaces"@),
            };
            let file = spec_path_join(dir, "cube.toml"@);
            let steps = seq![
                (ActionView::OpenStore, AnswerView::Saved),
                (ActionView::DataDir, AnswerView::Output(data)),
                (ActionView::Variable("CUBE_CONFIG_DIR"@), AnswerView::Place(Some(dir))),
                (ActionView::Variable("XDG_CONFIG_HOME"@), AnswerView::Place(None)),
                (ActionView::Variable("HOME"@), AnswerView::Place(None)),
                (ActionView::Exists(file), AnswerView::Flag(true)),
                (ActionView::ReadFile(file), AnswerView::Text(ContentView::Text(body))),
                (ActionView::ParseConfig(body), AnswerView::Config(config)),
            ];
            goes_on_as(
                |t: Seq<AnswerView>| flow_command(t, command),
                steps,
                |t: Seq<AnswerView>| flow_ensure_by_name(t, name, defaults, config.repo_resolvers).and(|record: RepoRecordView, t: Seq<AnswerView>| Flow::Done(spec_result("Ensured repo `"@ + record.repo + "`."@, PayloadView::RepoEnsured(record)), t)),
                more,
            )
        }),
{
    broadcast use group_given;
}

/// An origin that is registered is reused: its pool is made sure of, its clone is there,
/// and the record comes back as it is.
pub proof fn law_registered_origin_is_reused(
    defaults: RepoEnsureDefaultsView,
    id: Seq<char>,
    origin: Seq<char>,
    clone_command: Option<Seq<char>>,
    record: RepoRecordView,
    source: Seq<char>,
    more: Seq<AnswerView>,
)
    requires
        record.source == Some(source),
    ensures
        ({
            let steps = seq![
                (ActionView::GetRepoByOrigin(origin), AnswerView::Repo(Some(record))),
                (ActionView::CreateDirs(record.workspace_root), AnswerView::Done(None)),
                (ActionView::Exists(source), AnswerView::Flag(true)),
                (ActionView::IsDir(source), AnswerView::Flag(true)),
            ];
            ends_with(
                |t: Seq<AnswerView>| flow_ensure_core(t, id, origin, clone_command, defaults),
                steps,
                record,
                more,
            )
        }),
{
    broadcast use group_given;
}

/// An id that is registered is reused where its origin points at the same place.
pub proof fn law_registered_id_is_reused_for_the_same_place(
    defaults: RepoEnsureDefaultsView,
    id: Seq<char>,
    origin: Seq<char>,
    clone_command: Option<Seq<char>>,
    record: RepoRecordView,
    source: Seq<char>,
    more: Seq<AnswerView>,
)
    requires
        record.source == Some(source),
        same_origin(record.origin, origin),
    ensures
        ({
            let steps = seq![
                (ActionView::GetRepoByOrigin(origin), AnswerView::Repo(None)),
                (ActionView::GetRepo(id), AnswerView::Repo(Some(record))),
                (ActionView::CreateDirs(record.workspace_root), AnswerView::Done(None)),
                (ActionView::Exists(source), AnswerView::Flag(true)),
                (ActionView::IsDir(source), AnswerView::Flag(true)),
            ];
            ends_with(
                |t: Seq<AnswerView>| flow_ensure_core(t, id, origin, clone_command, defaults),
                steps,
                record,
                more,
            )
        }),
{
    broadcast use group_given;
}

/// An id that is registered for an origin at another place is refused, and nothing is
/// made or cloned.
pub proof fn law_registered_id_is_refused_for_another_place(
    defaults: RepoEnsureDefaultsView,
    id: Seq<char>,
    origin: Seq<char>,
    clone_command: Option<Seq<char>>,
    record: RepoRecordView,
    more: Seq<AnswerView>,
)
    requires
        !same_origin(record.origin, origin),
        !spec_is_slug(origin),
    ensures
        ({
            let steps = seq![
                (ActionView::GetRepoByOrigin(origin), AnswerView::Repo(None)),
                (ActionView::GetRepo(id), AnswerView::Repo(Some(record))),
            ];
            fails_with(
                |t: Seq<AnswerView>| flow_ensure_core(t, id, origin, clone_command, defaults),
                steps,
                CubeErrorView::InvalidArgument(
                    "repo `"@ + record.repo + "` is already configured for origin `"@
                        + record.origin + "`; cannot ensure `"@ + origin + "`"@,
                ),
                more,
            )
        }),
{
    broadcast use group_given;
}

/// A new repository is cloned with `jj` to a place of its own, its default branch is made
/// local, and it is registered under the id and the origin with the branch that the
/// remote names.
pub proof fn law_new_repository_is_cloned_and_registered(
    defaults: RepoEnsureDefaultsView,
    id: Seq<char>,
    origin: Seq<char>,
    parent: Seq<char>,
    symref: Seq<char>,
    o1: Seq<char>,
    o2: Seq<char>,
    o3: Seq<char>,
    more: Seq<AnswerView>,
)
    requires
        spec_parent(spec_path_join(defaults.repo_root, id)) == Some(parent),
        symref_in(spec_lines(symref)) == Some("main"@),
    ensures
        ({
            let source = spec_path_join(defaults.repo_root, id);
            let record = RepoRecordView {
                repo: id,
                origin,
                main_branch: "main"@,
                workspace_root: defaults.workspace_root,
                workspace_prefix: id + "-agent-"@,
                source: Some(source),
                clone_command: None,
            };
            let steps = seq![
                (ActionView::GetRepoByOrigin(origin), AnswerView::Repo(None)),
                (ActionView::GetRepo(id), AnswerView::Repo(None)),
                (ActionView::CreateDirs(defaults.workspace_root), AnswerView::Done(None)),
                (ActionView::Exists(source), AnswerView::Flag(false)),
                (ActionView::CreateDirs(parent), AnswerView::Done(None)),
                (
                    ActionView::Warn("cube: using `jj git clone` for repo `"@ + id + "`"@),
                    AnswerView::Ack,
                ),
                (
                    runs(parent, "git"@, seq!["ls-remote"@, "--symref"@, origin, "HEAD"@]),
                    AnswerView::Output(symref),
                ),
                (jj(parent, seq!["git"@, "clone"@, origin, source]), AnswerView::Output(o1)),
                (
                    jj(source, seq!["bookmark"@, "track"@, "main"@ + "@origin"@]),
                    AnswerView::Output(o2),
                ),
                (
                    jj(source, seq!["bookmark"@, "track"@, "master"@ + "@origin"@]),
                    AnswerView::Output(o3),
                ),
                (ActionView::UpsertRepo(record), AnswerView::Repo(None)),
            ];
            ends_with(
                |t: Seq<AnswerView>| flow_ensure_core(t, id, origin, None, defaults),
                steps,
                record,
                more,
            )
        }),
{
    broadcast use group_given;
    lemma_two_tracked();
    reveal_with_fuel(flow_track_each, 4);
}

/// A repository with a clone command is cloned with it, in the directory above its place,
/// and `jj` is laid over the result.
pub proof fn law_clone_command_is_used(
    record: RepoRecordView,
    command: Seq<char>,
    source: Seq<char>,
    parent: Seq<char>,
    program: Seq<char>,
    args: Seq<Seq<char>>,
    o1: Seq<char>,
    o2: Seq<char>,
    symref: Seq<char>,
    more: Seq<AnswerView>,
)
    requires
        record.source == Some(source),
        record.clone_command == Some(command),
        spec_parent(source) == Some(parent),
        shell_words(command) == Some(seq![program] + args),
    ensures
        ({
            let origin = record.origin;
            let steps = seq![
                (ActionView::Exists(source), AnswerView::Flag(false)),
                (ActionView::CreateDirs(parent), AnswerView::Done(None)),
                (ActionView::OnPath(program), AnswerView::Flag(true)),
                (
                    ActionView::Warn(
                        "cube: using `"@ + command + "` to clone repo `"@ + record.repo + "`"@,
                    ),
                    AnswerView::Ack,
                ),
                (runs(parent, program, args), AnswerView::Output(o1)),
                (
                    ActionView::Warn("cube: running `jj git init --colocate` in "@ + source),
                    AnswerView::Ack,
                ),
                (jj(source, seq!["git"@, "init"@, "--colocate"@]), AnswerView::Output(o2)),
                (
                    runs(source, "git"@, seq!["ls-remote"@, "--symref"@, origin, "HEAD"@]),
                    AnswerView::Output(symref),
                ),
            ];
            ends_with(
                |t: Seq<AnswerView>| flow_materialize(t, record),
                steps,
                symref_in(spec_lines(symref)),
                more,
            )
        }),
{
    broadcast use group_given;
    assert((seq![program] + args).drop_first() =~= args);
}

/// A clone command whose program is not there fails before anything is run.
pub proof fn law_missing_clone_program_is_a_failure(
    record: RepoRecordView,
    command: Seq<char>,
    source: Seq<char>,
    parent: Seq<char>,
    program: Seq<char>,
    args: Seq<Seq<char>>,
    more: Seq<AnswerView>,
)
    requires
        record.source == Some(source),
        record.clone_command == Some(command),
        spec_parent(source) == Some(parent),
        shell_words(command) == Some(seq![program] + args),
    ensures
        ({
            let steps = seq![
                (ActionView::Exists(source), AnswerView::Flag(false)),
                (ActionView::CreateDirs(parent), AnswerView::Done(None)),
                (ActionView::OnPath(program), AnswerView::Flag(false)),
            ];
            fails_with(
                |t: Seq<AnswerView>| flow_materialize(t, record),
                steps,
                CubeErrorView::InvalidArgument(
                    "`"@ + program + "` (from resolver clone_command `"@ + command
                        + "`) is not on PATH; install it or fix the resolver in your cube config"@,
                ),
                more,
            )
        }),
{
    broadcast use group_given;
}

/// A place for the clone that is taken by a file is a failure.
pub proof fn law_source_that_is_a_file_is_a_failure(
    record: RepoRecordView,
    source: Seq<char>,
    more: Seq<AnswerView>,
)
    requires
        record.source == Some(source),
    ensures
        ({
            let steps = seq![
                (ActionView::Exists(source), AnswerView::Flag(true)),
                (ActionView::IsDir(source), AnswerView::Flag(false)),
            ];
            fails_with(
                |t: Seq<AnswerView>| flow_materialize(t, record),
                steps,
                CubeErrorView::InvalidArgument(
                    "source path "@ + source + " exists and is not a directory"@,
                ),
                more,
            )
        }),
{
    broadcast use group_given;
}

/// A name that is registered is reused before any resolver is tried.
pub proof fn law_registered_name_is_reused(
    defaults: RepoEnsureDefaultsView,
    name: Seq<char>,
    resolvers: Seq<RepoResolverView>,
    record: RepoRecordView,
    source: Seq<char>,
    more: Seq<AnswerView>,
)
    requires
        spec_trim(name) == name,
        name.len() > 0,
        record.source == Some(source),
    ensures
        ({
            let steps = seq![
                (ActionView::GetRepo(name), AnswerView::Repo(Some(record))),
                (ActionView::CreateDirs(record.workspace_root), AnswerView::Done(None)),
                (ActionView::Exists(source), AnswerView::Flag(true)),
                (ActionView::IsDir(source), AnswerView::Flag(true)),
            ];
            ends_with(
                |t: Seq<AnswerView>| flow_ensure_by_name(t, name, defaults, resolvers),
                steps,
                record,
                more,
            )
        }),
{
    broadcast use group_given;
}

/// A name that is not registered is ensured under itself at the origin that the first
/// resolver gives, with the clone command of that resolver.
pub proof fn law_resolver_gives_the_origin(
    defaults: RepoEnsureDefaultsView,
    name: Seq<char>,
    resolvers: Seq<RepoResolverView>,
    origin: Seq<char>,
    clone: Option<Seq<char>>,
    more: Seq<AnswerView>,
)
    requires
        spec_trim(name) == name,
        name.len() > 0,
        first_resolved(resolvers, name) == Some((origin, clone)),
    ensures
        ({
            let steps = seq![
                (ActionView::GetRepo(name), AnswerView::Repo(None)),
            ];
            goes_on_as(
                |t: Seq<AnswerView>| flow_ensure_by_name(t, name, defaults, resolvers),
                steps,
                |t: Seq<AnswerView>| flow_ensure_core(t, name, origin, clone, defaults),
                more,
            )
        }),
{
    broadcast use group_given;
}

/// A name of the form `<org>/<name>` that no resolver knows is looked for on GitHub.
pub proof fn law_unresolved_slug_is_taken_from_github(
    defaults: RepoEnsureDefaultsView,
    org: Seq<char>,
    repo: Seq<char>,
    name: Seq<char>,
    id: Seq<char>,
    record: RepoRecordView,
    source: Seq<char>,
    more: Seq<AnswerView>,
)
    requires
        spec_trim(name) == name,
        name.len() > 0,
        spec_is_slug(name),
        spec_split(name, '/') == seq![org, repo],
        spec_repo_id("git@github.com:"@ + org + "/"@ + repo + ".git"@) == id,
        id.len() > 0,
        record.source == Some(source),
    ensures
        ({
            let steps = seq![
                (ActionView::GetRepo(name), AnswerView::Repo(None)),
                (
                    ActionView::GetRepoByOrigin("git@github.com:"@ + org + "/"@ + repo + ".git"@),
                    AnswerView::Repo(Some(record)),
                ),
                (ActionView::CreateDirs(record.workspace_root), AnswerView::Done(None)),
                (ActionView::Exists(source), AnswerView::Flag(true)),
                (ActionView::IsDir(source), AnswerView::Flag(true)),
            ];
            ends_with(
                |t: Seq<AnswerView>| flow_ensure_by_name(t, name, defaults, Seq::empty()),
                steps,
                record,
                more,
            )
        }),
{
    broadcast use group_given;
    reveal_with_fuel(first_resolved, 2);
}

/// A repository that is added is registered as it was given, without a clone command, and
/// handed back as the registry has it.
pub proof fn law_added_repository_is_registered_as_given(
    repo: Seq<char>,
    origin: Seq<char>,
    main_branch: Seq<char>,
    workspace_root: Seq<char>,
    workspace_prefix: Seq<char>,
    source: Option<Seq<char>>,
    stored: RepoRecordView,
    more: Seq<AnswerView>,
)
    ensures
        ({
            let command = on_repo(
                RepoCommandView::Add {
                    repo,
                    origin,
                    main_branch,
                    workspace_root,
                    workspace_prefix,
                    source,
                },
            );
            let steps = seq![
                (ActionView::OpenStore, AnswerView::Saved),
                (
                    ActionView::UpsertRepo(
                        RepoRecordView {
                            repo,
                            origin,
                            main_branch,
                            workspace_root,
                            workspace_prefix,
                            source,
                            clone_command: None,
                        },
                    ),
                    AnswerView::Repo(Some(stored)),
                ),
            ];
            hands_back(command, steps, PayloadView::Repo(stored), more)
        }),
{
    broadcast use group_given;
}

/// Listing hands back what the registry lists.
pub proof fn law_repositories_are_listed(
    repos: Seq<RepoRecordView>,
    home: Option<Seq<char>>,
    more: Seq<AnswerView>,
)
    ensures
        ({
            let command = on_repo(RepoCommandView::List);
            let steps = seq![
                (ActionView::OpenStore, AnswerView::Saved),
                (ActionView::ListRepos, AnswerView::Repos(repos)),
                (ActionView::HomeDir, AnswerView::Place(home)),
            ];
            hands_back(command, steps, PayloadView::Repos(repos), more)
        }),
{
    broadcast use group_given;
}

/// Showing a repository hands back the one that was named.
pub proof fn law_repository_is_shown(
    repo: Seq<char>,
    record: RepoRecordView,
    home: Option<Seq<char>>,
    more: Seq<AnswerView>,
)
    ensures
        ({
            let command = on_repo(RepoCommandView::Info { repo });
            let steps = seq![
                (ActionView::OpenStore, AnswerView::Saved),
                (ActionView::GetRepo(repo), AnswerView::Repo(Some(record))),
                (ActionView::HomeDir, AnswerView::Place(home)),
            ];
            hands_back(command, steps, PayloadView::Repo(record), more)
        }),
{
    broadcast use group_given;
}

/// A repository that is not registered cannot be shown.
pub proof fn law_unknown_repository_is_a_failure(
    repo: Seq<char>,
    more: Seq<AnswerView>,
)
    ensures
        ({
            let command = on_repo(RepoCommandView::Info { repo });
            let steps = seq![
                (ActionView::OpenStore, AnswerView::Saved),
                (ActionView::GetRepo(repo), AnswerView::Repo(None)),
            ];
            fails_with(
                |t: Seq<AnswerView>| flow_command(t, command),
                steps,
                CubeErrorView::RepoNotFound(repo),
                more,
            )
        }),
{
    broadcast use group_given;
}

/// Both conventional branches are made local, and the branch that the remote names, each
/// once.
pub proof fn law_tracked_branches(default: Option<Seq<char>>)
    ensures
        tracked_branches(default).contains("main"@),
        tracked_branches(default).contains("master"@),
        default matches Some(branch) ==> tracked_branches(default).contains(branch),
        forall|i: int|
            0 <= i < tracked_branches(default).len() ==> #[trigger] tracked_branches(default)[i]
                == "main"@ || tracked_branches(default)[i] == "master"@ || Some(
                tracked_branches(default)[i],
            ) == default,
        tracked_branches(default).no_duplicates(),
{
    reveal_strlit("main");
    reveal_strlit("master");
    assert("main"@.len() == 4 && "master"@.len() == 6);
    let usual = seq!["main"@, "master"@];
    let all = tracked_branches(default);
    assert(usual[0] == "main"@ && usual[1] == "master"@);
    assert(all[0] == "main"@ && all[1] == "master"@);
    if let Some(branch) = default {
        if !usual.contains(branch) {
            assert(all[2] == branch);
            assert(usual.contains(usual[0]) && usual.contains(usual[1]));
        } else {
            let i = choose|i: int| 0 <= i < usual.len() && usual[i] == branch;
            assert(all[i] == branch);
        }
    }
}

} // verus!
