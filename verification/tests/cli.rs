use cube::cli::{
    ChangeCommand, Cli, Command, PrCommand, PrEnsureArgs, PrPushArgs, RepoCommand, WorkspaceCommand,
};

fn parse(argv: &[&str]) -> Cli {
    Cli::try_parse_from(argv).expect("a command line of the tool")
}

#[test]
fn repo_ensure_matches_phase_a_shape() {
    let cli = parse(&["cube", "repo", "ensure", "--origin", "git@github.com:spinyfin/mono.git"]);

    match cli.command {
        Command::Repo {
            command: RepoCommand::Ensure { reponame, origin },
        } => {
            assert!(reponame.is_none());
            assert_eq!(origin.as_deref(), Some("git@github.com:spinyfin/mono.git"));
        }
        _ => panic!("expected repo ensure command"),
    }
}

#[test]
fn repo_ensure_accepts_positional_reponame() {
    let cli = parse(&["cube", "repo", "ensure", "bduff"]);

    match cli.command {
        Command::Repo {
            command: RepoCommand::Ensure { reponame, origin },
        } => {
            assert_eq!(reponame.as_deref(), Some("bduff"));
            assert!(origin.is_none());
        }
        _ => panic!("expected repo ensure command"),
    }
}

#[test]
fn repo_ensure_rejects_both_or_neither() {
    let both = Cli::try_parse_from(&["cube", "repo", "ensure", "bduff", "--origin", "git@github.com:o/r.git"]);
    assert!(both.is_err());

    let neither = Cli::try_parse_from(&["cube", "repo", "ensure"]);
    assert!(neither.is_err());
}

#[test]
fn workspace_lease_matches_docs_shape() {
    let cli = parse(&["cube", "workspace", "lease", "mono", "--task", "implement parser"]);

    match cli.command {
        Command::Workspace {
            command:
                WorkspaceCommand::Lease {
                    repo,
                    task,
                    prefer,
                    allow_dirty,
                    resume_pr,
                },
        } => {
            assert_eq!(repo, "mono");
            assert_eq!(task, "implement parser");
            assert!(prefer.is_none());
            assert!(!allow_dirty);
            assert!(resume_pr.is_none());
        }
        _ => panic!("expected workspace lease command"),
    }
}

#[test]
fn workspace_lease_accepts_prefer_flag() {
    let cli = parse(&[
        "cube",
        "workspace",
        "lease",
        "mono",
        "--task",
        "resume parser work",
        "--prefer",
        "mono-agent-007",
    ]);

    match cli.command {
        Command::Workspace {
            command:
                WorkspaceCommand::Lease {
                    repo,
                    task,
                    prefer,
                    allow_dirty,
                    resume_pr,
                },
        } => {
            assert_eq!(repo, "mono");
            assert_eq!(task, "resume parser work");
            assert_eq!(prefer.as_deref(), Some("mono-agent-007"));
            assert!(!allow_dirty);
            assert!(resume_pr.is_none());
        }
        _ => panic!("expected workspace lease command"),
    }
}

#[test]
fn workspace_lease_accepts_allow_dirty_with_prefer() {
    let cli = parse(&[
        "cube",
        "workspace",
        "lease",
        "mono",
        "--task",
        "recover stranded work",
        "--prefer",
        "mono-agent-007",
        "--allow-dirty",
    ]);

    match cli.command {
        Command::Workspace {
            command: WorkspaceCommand::Lease {
                prefer, allow_dirty, ..
            },
        } => {
            assert_eq!(prefer.as_deref(), Some("mono-agent-007"));
            assert!(allow_dirty);
        }
        _ => panic!("expected workspace lease command"),
    }
}

#[test]
fn workspace_lease_allow_dirty_requires_prefer() {
    let result = Cli::try_parse_from(&[
        "cube",
        "workspace",
        "lease",
        "mono",
        "--task",
        "recover stranded work",
        "--allow-dirty",
    ]);
    assert!(result.is_err());
}

#[test]
fn workspace_lease_accepts_resume_pr_flag() {
    let cli = parse(&[
        "cube",
        "workspace",
        "lease",
        "mono",
        "--task",
        "resume PR 1364",
        "--resume-pr",
        "1364",
    ]);

    match cli.command {
        Command::Workspace {
            command:
                WorkspaceCommand::Lease {
                    repo,
                    task,
                    prefer,
                    allow_dirty,
                    resume_pr,
                },
        } => {
            assert_eq!(repo, "mono");
            assert_eq!(task, "resume PR 1364");
            assert!(prefer.is_none());
            assert!(!allow_dirty);
            assert_eq!(resume_pr, Some(1364));
        }
        _ => panic!("expected workspace lease command"),
    }
}

#[test]
fn workspace_lease_resume_pr_composes_with_prefer() {
    let cli = parse(&[
        "cube",
        "workspace",
        "lease",
        "mono",
        "--task",
        "resume PR 42 on warm workspace",
        "--prefer",
        "mono-agent-007",
        "--resume-pr",
        "42",
    ]);

    match cli.command {
        Command::Workspace {
            command:
                WorkspaceCommand::Lease {
                    prefer,
                    resume_pr,
                    allow_dirty,
                    ..
                },
        } => {
            assert_eq!(prefer.as_deref(), Some("mono-agent-007"));
            assert_eq!(resume_pr, Some(42));
            assert!(!allow_dirty);
        }
        _ => panic!("expected workspace lease command"),
    }
}

#[test]
fn workspace_lease_resume_pr_conflicts_with_allow_dirty() {
    let result = Cli::try_parse_from(&[
        "cube",
        "workspace",
        "lease",
        "mono",
        "--task",
        "bad flags",
        "--prefer",
        "mono-agent-007",
        "--allow-dirty",
        "--resume-pr",
        "42",
    ]);
    assert!(
        result.is_err(),
        "--allow-dirty and --resume-pr must be mutually exclusive"
    );
}

#[test]
fn workspace_release_accepts_lease_or_workspace_id() {
    let by_lease = parse(&["cube", "workspace", "release", "--lease", "abc-123"]);
    match by_lease.command {
        Command::Workspace {
            command: WorkspaceCommand::Release {
                workspace, lease, repo, ..
            },
        } => {
            assert!(workspace.is_none());
            assert_eq!(lease.as_deref(), Some("abc-123"));
            assert!(repo.is_none());
        }
        _ => panic!("expected release command"),
    }

    let by_id = parse(&["cube", "workspace", "release", "mono-agent-004"]);
    match by_id.command {
        Command::Workspace {
            command: WorkspaceCommand::Release {
                workspace, lease, repo, ..
            },
        } => {
            assert_eq!(workspace.as_deref(), Some("mono-agent-004"));
            assert!(lease.is_none());
            assert!(repo.is_none());
        }
        _ => panic!("expected release command"),
    }

    let by_id_with_repo = parse(&["cube", "workspace", "release", "mono-agent-004", "--repo", "mono"]);
    match by_id_with_repo.command {
        Command::Workspace {
            command: WorkspaceCommand::Release { workspace, repo, .. },
        } => {
            assert_eq!(workspace.as_deref(), Some("mono-agent-004"));
            assert_eq!(repo.as_deref(), Some("mono"));
        }
        _ => panic!("expected release command"),
    }
}

#[test]
fn workspace_release_accepts_reason_and_keep_dirty() {
    let cli = parse(&[
        "cube",
        "workspace",
        "release",
        "--lease",
        "abc",
        "--reason",
        "crash",
        "--keep-dirty",
    ]);
    match cli.command {
        Command::Workspace {
            command: WorkspaceCommand::Release { reason, keep_dirty, .. },
        } => {
            assert_eq!(reason.as_deref(), Some("crash"));
            assert!(keep_dirty);
        }
        _ => panic!("expected release command"),
    }
}

#[test]
fn workspace_heartbeat_parses() {
    let cli = parse(&[
        "cube",
        "workspace",
        "heartbeat",
        "--lease",
        "abc-123",
        "--ttl-seconds",
        "600",
    ]);
    match cli.command {
        Command::Workspace {
            command: WorkspaceCommand::Heartbeat { lease, ttl_seconds },
        } => {
            assert_eq!(lease, "abc-123");
            assert_eq!(ttl_seconds, Some(600));
        }
        _ => panic!("expected heartbeat command"),
    }
}

#[test]
fn workspace_force_release_parses_both_forms() {
    let by_id = parse(&["cube", "workspace", "force-release", "mono-agent-004"]);
    match by_id.command {
        Command::Workspace {
            command:
                WorkspaceCommand::ForceRelease {
                    workspace,
                    lease,
                    reason,
                    ..
                },
        } => {
            assert_eq!(workspace.as_deref(), Some("mono-agent-004"));
            assert!(lease.is_none());
            assert!(reason.is_none());
        }
        _ => panic!("expected force-release command"),
    }

    let by_lease = parse(&[
        "cube",
        "workspace",
        "force-release",
        "--lease",
        "abc",
        "--reason",
        "stuck",
    ]);
    match by_lease.command {
        Command::Workspace {
            command:
                WorkspaceCommand::ForceRelease {
                    workspace,
                    lease,
                    reason,
                    ..
                },
        } => {
            assert!(workspace.is_none());
            assert_eq!(lease.as_deref(), Some("abc"));
            assert_eq!(reason.as_deref(), Some("stuck"));
        }
        _ => panic!("expected force-release command"),
    }
}

#[test]
fn workspace_release_rejects_both_or_neither() {
    // Both forms together
    let both = Cli::try_parse_from(&["cube", "workspace", "release", "mono-agent-004", "--lease", "abc-123"]);
    assert!(both.is_err());

    // Neither
    let neither = Cli::try_parse_from(&["cube", "workspace", "release"]);
    assert!(neither.is_err());

    // --repo without workspace id is also rejected (requires)
    let lonely_repo = Cli::try_parse_from(&["cube", "workspace", "release", "--repo", "mono"]);
    assert!(lonely_repo.is_err());
}

#[test]
fn workspace_list_accepts_filters() {
    let cli = parse(&[
        "cube",
        "workspace",
        "list",
        "--repo",
        "mono",
        "--state",
        "leased",
        "--holder",
        "boss/*",
    ]);

    match cli.command {
        Command::Workspace {
            command: WorkspaceCommand::List { repo, state, holder },
        } => {
            assert_eq!(repo.as_deref(), Some("mono"));
            assert_eq!(state.as_deref(), Some("leased"));
            assert_eq!(holder.as_deref(), Some("boss/*"));
        }
        _ => panic!("expected workspace list command"),
    }
}

#[test]
fn workspace_list_with_no_flags_is_global() {
    let cli = parse(&["cube", "workspace", "list"]);
    match cli.command {
        Command::Workspace {
            command: WorkspaceCommand::List { repo, state, holder },
        } => {
            assert!(repo.is_none());
            assert!(state.is_none());
            assert!(holder.is_none());
        }
        _ => panic!("expected workspace list command"),
    }
}

#[test]
fn workspace_remove_parses_basic_form() {
    let cli = parse(&["cube", "workspace", "remove", "mono-agent-004"]);
    match cli.command {
        Command::Workspace {
            command:
                WorkspaceCommand::Remove {
                    workspace,
                    repo,
                    force,
                    expunge,
                },
        } => {
            assert_eq!(workspace, "mono-agent-004");
            assert!(repo.is_none());
            assert!(!force);
            assert!(!expunge);
        }
        _ => panic!("expected workspace remove command"),
    }
}

#[test]
fn workspace_remove_accepts_repo_and_force() {
    let cli = parse(&[
        "cube",
        "workspace",
        "remove",
        "mono-agent-004",
        "--repo",
        "mono",
        "--force",
    ]);
    match cli.command {
        Command::Workspace {
            command:
                WorkspaceCommand::Remove {
                    workspace,
                    repo,
                    force,
                    expunge,
                },
        } => {
            assert_eq!(workspace, "mono-agent-004");
            assert_eq!(repo.as_deref(), Some("mono"));
            assert!(force);
            assert!(!expunge);
        }
        _ => panic!("expected workspace remove command"),
    }
}

#[test]
fn workspace_remove_accepts_expunge_flag() {
    let cli = parse(&["cube", "workspace", "remove", "mono-agent-004", "--expunge"]);
    match cli.command {
        Command::Workspace {
            command:
                WorkspaceCommand::Remove {
                    workspace,
                    force,
                    expunge,
                    ..
                },
        } => {
            assert_eq!(workspace, "mono-agent-004");
            assert!(!force);
            assert!(expunge);
        }
        _ => panic!("expected workspace remove command"),
    }
}

#[test]
fn workspace_remove_requires_workspace_id() {
    let result = Cli::try_parse_from(&["cube", "workspace", "remove"]);
    assert!(result.is_err());
}

#[test]
fn workspace_gc_parses_default() {
    let cli = parse(&["cube", "workspace", "gc"]);
    match cli.command {
        Command::Workspace {
            command: WorkspaceCommand::Gc { workspace, dry_run },
        } => {
            assert!(workspace.is_none());
            assert!(!dry_run);
        }
        _ => panic!("expected workspace gc command"),
    }
}

#[test]
fn workspace_gc_parses_with_workspace_and_dry_run() {
    let cli = parse(&["cube", "workspace", "gc", "--workspace", "mono-agent-001", "--dry-run"]);
    match cli.command {
        Command::Workspace {
            command: WorkspaceCommand::Gc { workspace, dry_run },
        } => {
            assert_eq!(workspace.as_deref(), Some("mono-agent-001"));
            assert!(dry_run);
        }
        _ => panic!("expected workspace gc command"),
    }
}

#[test]
fn change_create_accepts_workspace_or_parent() {
    let cli = parse(&[
        "cube",
        "change",
        "create",
        "--workspace",
        "/ws/mono-agent-007",
        "--title",
        "Add parser model",
    ]);

    match cli.command {
        Command::Change {
            command: ChangeCommand::Create(args),
        } => {
            assert_eq!(args.workspace.as_deref(), Some("/ws/mono-agent-007"));
            assert_eq!(args.parent, None);
            assert_eq!(args.title, "Add parser model");
        }
        _ => panic!("expected change create command"),
    }
}

#[test]
fn pr_merge_requires_one_selector() {
    let cli = parse(&["cube", "pr", "merge", "--change", "chg_a"]);

    match cli.command {
        Command::Pr {
            command: PrCommand::Merge(args),
        } => {
            assert_eq!(args.change.as_deref(), Some("chg_a"));
            assert_eq!(args.stack, None);
        }
        _ => panic!("expected pr merge command"),
    }
}

#[test]
fn pr_ensure_accepts_all_flags() {
    let cli = parse(&[
        "cube",
        "pr",
        "ensure",
        "--branch",
        "boss/exec_abc123_01",
        "--title",
        "My PR",
        "--body",
        "A description",
        "--draft",
    ]);

    match cli.command {
        Command::Pr {
            command:
                PrCommand::Ensure(PrEnsureArgs {
                    branch,
                    title,
                    body,
                    body_file,
                    draft,
                }),
        } => {
            assert_eq!(branch.as_deref(), Some("boss/exec_abc123_01"));
            assert_eq!(title.as_deref(), Some("My PR"));
            assert_eq!(body.as_deref(), Some("A description"));
            assert!(body_file.is_none());
            assert!(draft);
        }
        _ => panic!("expected pr ensure command"),
    }
}

#[test]
fn pr_ensure_branch_is_optional() {
    let cli = parse(&["cube", "pr", "ensure"]);

    match cli.command {
        Command::Pr {
            command:
                PrCommand::Ensure(PrEnsureArgs {
                    branch,
                    title,
                    body,
                    body_file,
                    draft,
                }),
        } => {
            assert!(branch.is_none());
            assert!(title.is_none());
            assert!(body.is_none());
            assert!(body_file.is_none());
            assert!(!draft);
        }
        _ => panic!("expected pr ensure command"),
    }
}

#[test]
fn pr_ensure_accepts_body_file_flag() {
    let cli = parse(&[
        "cube",
        "pr",
        "ensure",
        "--branch",
        "boss/exec_abc123_01",
        "--title",
        "My PR",
        "--body-file",
        "/tmp/pr-body.md",
    ]);

    match cli.command {
        Command::Pr {
            command:
                PrCommand::Ensure(PrEnsureArgs {
                    branch,
                    title,
                    body,
                    body_file,
                    draft,
                }),
        } => {
            assert_eq!(branch.as_deref(), Some("boss/exec_abc123_01"));
            assert_eq!(title.as_deref(), Some("My PR"));
            assert!(body.is_none());
            assert_eq!(body_file.as_deref(), Some("/tmp/pr-body.md"));
            assert!(!draft);
        }
        _ => panic!("expected pr ensure command"),
    }
}

#[test]
fn pr_push_parses_explicit_pr_and_branch() {
    let cli = parse(&["cube", "pr", "push", "--pr", "42", "--branch", "boss/exec_abc123_01"]);
    match cli.command {
        Command::Pr {
            command:
                PrCommand::Push(PrPushArgs {
                    pr,
                    branch,
                    force_with_lease,
                }),
        } => {
            assert_eq!(pr, Some(42));
            assert_eq!(branch.as_deref(), Some("boss/exec_abc123_01"));
            assert!(!force_with_lease);
        }
        _ => panic!("expected pr push command"),
    }
}

#[test]
fn pr_push_accepts_force_with_lease() {
    let cli = parse(&[
        "cube",
        "pr",
        "push",
        "--pr",
        "42",
        "--branch",
        "boss/exec_abc",
        "--force-with-lease",
    ]);
    match cli.command {
        Command::Pr {
            command:
                PrCommand::Push(PrPushArgs {
                    pr,
                    branch,
                    force_with_lease,
                }),
        } => {
            assert_eq!(pr, Some(42));
            assert_eq!(branch.as_deref(), Some("boss/exec_abc"));
            assert!(force_with_lease);
        }
        _ => panic!("expected pr push command"),
    }
}

#[test]
fn pr_push_all_args_optional() {
    let cli = parse(&["cube", "pr", "push"]);
    match cli.command {
        Command::Pr {
            command:
                PrCommand::Push(PrPushArgs {
                    pr,
                    branch,
                    force_with_lease,
                }),
        } => {
            assert!(pr.is_none());
            assert!(branch.is_none());
            assert!(!force_with_lease);
        }
        _ => panic!("expected pr push command"),
    }
}
