# cube

Manages pools of reusable workspaces for agents: registers repositories, leases clean
workspaces, resets them when they come back, and moves their commits to pull requests.

The library under `src/` is verified with Verus. It never touches the disk, the network
or the clock. Every command is a procedure over a tape of answers:

- it takes the answers it needs, in order, from the tape;
- where the tape runs out, it stops and names the next action to perform;
- whoever drives it performs the action, appends the answer, and runs it again.

`laws::replay` proves that running a command again with more answers goes on from where
it stopped.

## Layout

- `src/flow.rs`: actions, answers, tapes, and the flows that contracts speak of
- `src/cli.rs`, `args.rs`, `grammar.rs`: commands, and how command lines are read
- `src/app.rs`: from a command to its procedure
- `src/repo.rs`, `ensure.rs`, `config.rs`, `git.rs`: repositories and their origins
- `src/lease.rs`, `scan.rs`, `health.rs`, `pool.rs`, `reset.rs`, `resume.rs`,
  `reconcile.rs`, `workspace.rs`, `setup.rs`, `exclude.rs`: workspaces
- `src/gc.rs`, `pool_gc.rs`: cleaning up
- `src/change.rs`, `pr.rs`, `pr_ensure.rs`, `pr_push.rs`: changes and pull requests
- `src/jj.rs`, `command_runner.rs`: running commands and reading their failures
- `src/audit.rs`, `events.rs`, `calendar.rs`: the audit log
- `src/records.rs`, `report.rs`, `render.rs`, `json.rs`, `error.rs`: what commands work on
  and hand back
- `src/text.rs`, `split.rs`, `number.rs`, `order.rs`, `paths.rs`: text
- `src/outside.rs`: the calls into other crates
- `src/laws/`: what holds of the procedures whatever they are answered
- `app/`: the program, which performs the actions
- `tests/`: the commands run against a world in memory, and tests of the parts
