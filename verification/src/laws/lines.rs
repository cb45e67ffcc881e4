//! How command lines are read.

use vstd::prelude::*;

use crate::args::{is_dashed, name_in, scan, value_in, value_under, GivenView, ShapeView};
use crate::cli::{
    ChangeCommandView, ChangeCreateArgsView, CliView, CommandView, PrCommandView, PrEnsureArgsView,
    PrPushArgsView, RepoCommandView, WorkspaceCommandView,
};
use crate::grammar::{
    given_for, spec_change, spec_change_checkout, spec_change_create, spec_change_info, spec_cli,
    spec_force_release, spec_gc, spec_heartbeat, spec_lease, spec_pr, spec_pr_ensure, spec_pr_merge,
    spec_pr_push, spec_pr_sync, spec_release, spec_repo, spec_repo_add, spec_repo_ensure,
    spec_repo_info, spec_repo_list, spec_repo_remove, spec_setup, spec_status, spec_workspace,
    spec_workspace_list, spec_workspace_rebase, spec_workspace_remove,
};
use crate::number::{digit, lemma_decimal, spec_decimal};
use crate::split::{lemma_upto, upto};
use crate::text::spec_starts;

verus! {

/// A name of an option or a flag: two hyphens, something behind them, and no equals sign.
pub open spec fn is_plain_name(name: Seq<char>) -> bool {
    &&& name.len() > 2
    &&& name[0] == '-'
    &&& name[1] == '-'
    &&& forall|i: int| 0 <= i < name.len() ==> name[i] != '='
}

proof fn lemma_plain(name: Seq<char>)
    requires
        is_plain_name(name),
    ensures
        name != "--"@,
        spec_starts(name, "--"@),
        name_in(name) == name,
        value_in(name) is None,
{
    reveal_strlit("--");
    assert(name.subrange(0, 2) =~= "--"@);
    lemma_upto(name, '=');
    assert(name.subrange(0, name.len() as int) =~= name);
}

proof fn lemma_free(arg: Seq<char>)
    requires
        !is_dashed(arg),
    ensures
        arg != "--"@,
        !spec_starts(arg, "--"@),
{
    reveal_strlit("--");
    assert("--"@[0] == '-' && "--"@.len() == 2);
    if spec_starts(arg, "--"@) {
        assert(arg.subrange(0, 2)[0] == arg[0]);
    }
}

/// A flag is taken, and what stands behind it is read on.
pub proof fn lemma_flag_read(
    name: Seq<char>,
    rest: Seq<Seq<char>>,
    shape: ShapeView,
    given: GivenView,
)
    requires
        is_plain_name(name),
        shape.flags.contains(name),
        !given.has(name),
    ensures
        scan(seq![name] + rest, shape, given) == scan(rest, shape, given.with_flag(name)),
{
    lemma_plain(name);
    let args = seq![name] + rest;
    assert(args[0] == name);
    assert(args.drop_first() =~= rest);
}

/// An option is taken with the value behind it, and what stands behind that is read on.
pub proof fn lemma_option_read(
    name: Seq<char>,
    value: Seq<char>,
    rest: Seq<Seq<char>>,
    shape: ShapeView,
    given: GivenView,
)
    requires
        is_plain_name(name),
        !shape.flags.contains(name),
        shape.options.contains(name),
        given.value(name) is None,
        !is_dashed(value),
    ensures
        scan(seq![name, value] + rest, shape, given) == scan(
            rest,
            shape,
            given.with_option(name, value),
        ),
{
    lemma_plain(name);
    let args = seq![name, value] + rest;
    assert(args[0] == name);
    assert(args.drop_first() =~= seq![value] + rest);
    assert(args.drop_first()[0] == value);
    assert(args.drop_first().drop_first() =~= rest);
}

/// An option may be written in one argument with its value, behind an equals sign; then
/// the value may begin with a hyphen.
pub proof fn law_option_with_an_equals_sign(
    name: Seq<char>,
    value: Seq<char>,
    rest: Seq<Seq<char>>,
    shape: ShapeView,
    given: GivenView,
)
    requires
        is_plain_name(name),
        !shape.flags.contains(name),
        shape.options.contains(name),
        given.value(name) is None,
    ensures
        scan(seq![name.push('=') + value] + rest, shape, given) == scan(
            rest,
            shape,
            given.with_option(name, value),
        ),
{
    let arg = name.push('=') + value;
    let args = seq![arg] + rest;
    reveal_strlit("--");
    lemma_upto(arg, '=');
    assert(arg[name.len() as int] == '=');
    assert forall|i: int| 0 <= i < name.len() implies arg[i] != '=' by {
        assert(arg[i] == name[i]);
    }
    assert(upto(arg, '=') == name.len());
    assert(arg.len() > 2);
    assert(arg.subrange(0, 2) =~= "--"@);
    assert(arg.subrange(0, name.len() as int) =~= name);
    assert(arg.subrange(name.len() as int + 1, arg.len() as int) =~= value);
    assert(args[0] == arg);
    assert(args.drop_first() =~= rest);
}

/// An argument that begins with no hyphen is taken as it is, where there is room for it.
pub proof fn lemma_positional_read(
    arg: Seq<char>,
    rest: Seq<Seq<char>>,
    shape: ShapeView,
    given: GivenView,
)
    requires
        !is_dashed(arg),
        given.positionals.len() < shape.positionals,
    ensures
        scan(seq![arg] + rest, shape, given) == scan(rest, shape, given.with_positional(arg)),
{
    lemma_free(arg);
    let args = seq![arg] + rest;
    assert(args[0] == arg);
    assert(args.drop_first() =~= rest);
}

/// A flag or an option that the command does not have, or had before, is refused.
pub proof fn law_strange_and_repeated_names_are_refused(
    name: Seq<char>,
    rest: Seq<Seq<char>>,
    shape: ShapeView,
    given: GivenView,
)
    requires
        is_plain_name(name),
        (!shape.flags.contains(name) && !shape.options.contains(name)) || (shape.flags.contains(
            name,
        ) && given.has(name)) || (!shape.flags.contains(name) && given.value(name) is Some),
    ensures
        scan(seq![name] + rest, shape, given) is None,
{
    lemma_plain(name);
    let args = seq![name] + rest;
    assert(args[0] == name);
    assert(args.drop_first() =~= rest);
}

broadcast proof fn lemma_value_behind(
    options: Seq<(Seq<char>, Seq<char>)>,
    option: (Seq<char>, Seq<char>),
    name: Seq<char>,
)
    ensures
        #[trigger] value_under(options.push(option), name) == if value_under(
            options,
            name,
        ) is Some {
            value_under(options, name)
        } else if option.0 == name {
            Some(option.1)
        } else {
            None
        },
    decreases options.len(),
{
    let all = options.push(option);
    if options.len() == 0 {
        reveal_with_fuel(value_under, 2);
        assert(all.drop_first() =~= Seq::<(Seq<char>, Seq<char>)>::empty());
    } else {
        lemma_value_behind(options.drop_first(), option, name);
        assert(all.drop_first() =~= options.drop_first().push(option));
    }
}

broadcast proof fn lemma_flag_behind(flags: Seq<Seq<char>>, flag: Seq<char>, name: Seq<char>)
    ensures
        #[trigger] flags.push(flag).contains(name) <==> flags.contains(name) || flag == name,
{
    let all = flags.push(flag);
    assert(all[flags.len() as int] == flag);
    if flags.contains(name) {
        let i = choose|i: int| 0 <= i < flags.len() && flags[i] == name;
        assert(all[i] == name);
    }
}

broadcast proof fn lemma_no_value(name: Seq<char>)
    ensures
        #[trigger] value_under(Seq::empty(), name) is None,
{
}

broadcast proof fn lemma_no_flag(name: Seq<char>)
    ensures
        !(#[trigger] Seq::<Seq<char>>::empty().contains(name)),
{
}

proof fn lemma_plain_numeral(n: nat)
    ensures
        !is_dashed(spec_decimal(n)),
    decreases n,
{
    lemma_decimal(n);
    if n >= 10 {
        lemma_plain_numeral(n / 10);
        assert(spec_decimal(n)[0] == spec_decimal(n / 10)[0]);
        lemma_first_digit(n / 10);
    } else {
        lemma_first_digit(n);
    }
}

proof fn lemma_first_digit(n: nat)
    ensures
        spec_decimal(n).len() > 0,
        spec_decimal(n)[0] != '-',
    decreases n,
{
    if n >= 10 {
        lemma_first_digit(n / 10);
        assert(spec_decimal(n)[0] == spec_decimal(n / 10)[0]);
    } else {
        assert(digit(n) != '-');
    }
}

proof fn lemma_allow_dirty()
    ensures
        is_plain_name("--allow-dirty"@),
        "--allow-dirty"@.len() == 13,
        "--allow-dirty"@[2] == 'a',
{
    reveal_strlit("--allow-dirty");
    let name = "--allow-dirty"@;
    assert forall|i: int| 0 <= i < name.len() implies name[i] != '=' by {
        assert(
            i == 0 || i == 1 || i == 2 || i == 3 || i == 4 || i == 5 || i == 6 || i == 7
                || i == 8 || i == 9 || i == 10 || i == 11 || i == 12
        );
    }
}

proof fn lemma_body()
    ensures
        is_plain_name("--body"@),
        "--body"@.len() == 6,
        "--body"@[2] == 'b',
{
    reveal_strlit("--body");
    let name = "--body"@;
    assert forall|i: int| 0 <= i < name.len() implies name[i] != '=' by {
        assert(i == 0 || i == 1 || i == 2 || i == 3 || i == 4 || i == 5);
    }
}

proof fn lemma_body_file()
    ensures
        is_plain_name("--body-file"@),
        "--body-file"@.len() == 11,
        "--body-file"@[2] == 'b',
{
    reveal_strlit("--body-file");
    let name = "--body-file"@;
    assert forall|i: int| 0 <= i < name.len() implies name[i] != '=' by {
        assert(
            i == 0 || i == 1 || i == 2 || i == 3 || i == 4 || i == 5 || i == 6 || i == 7
                || i == 8 || i == 9 || i == 10
        );
    }
}

proof fn lemma_branch()
    ensures
        is_plain_name("--branch"@),
        "--branch"@.len() == 8,
        "--branch"@[2] == 'b',
{
    reveal_strlit("--branch");
    let name = "--branch"@;
    assert forall|i: int| 0 <= i < name.len() implies name[i] != '=' by {
        assert(i == 0 || i == 1 || i == 2 || i == 3 || i == 4 || i == 5 || i == 6 || i == 7);
    }
}

proof fn lemma_draft()
    ensures
        is_plain_name("--draft"@),
        "--draft"@.len() == 7,
        "--draft"@[2] == 'd',
{
    reveal_strlit("--draft");
    let name = "--draft"@;
    assert forall|i: int| 0 <= i < name.len() implies name[i] != '=' by {
        assert(i == 0 || i == 1 || i == 2 || i == 3 || i == 4 || i == 5 || i == 6);
    }
}

proof fn lemma_dry_run()
    ensures
        is_plain_name("--dry-run"@),
        "--dry-run"@.len() == 9,
        "--dry-run"@[2] == 'd',
{
    reveal_strlit("--dry-run");
    let name = "--dry-run"@;
    assert forall|i: int| 0 <= i < name.len() implies name[i] != '=' by {
        assert(
            i == 0 || i == 1 || i == 2 || i == 3 || i == 4 || i == 5 || i == 6 || i == 7 || i == 8
        );
    }
}

proof fn lemma_expunge()
    ensures
        is_plain_name("--expunge"@),
        "--expunge"@.len() == 9,
        "--expunge"@[2] == 'e',
{
    reveal_strlit("--expunge");
    let name = "--expunge"@;
    assert forall|i: int| 0 <= i < name.len() implies name[i] != '=' by {
        assert(
            i == 0 || i == 1 || i == 2 || i == 3 || i == 4 || i == 5 || i == 6 || i == 7 || i == 8
        );
    }
}

proof fn lemma_force()
    ensures
        is_plain_name("--force"@),
        "--force"@.len() == 7,
        "--force"@[2] == 'f',
{
    reveal_strlit("--force");
    let name = "--force"@;
    assert forall|i: int| 0 <= i < name.len() implies name[i] != '=' by {
        assert(i == 0 || i == 1 || i == 2 || i == 3 || i == 4 || i == 5 || i == 6);
    }
}

proof fn lemma_force_with_lease()
    ensures
        is_plain_name("--force-with-lease"@),
        "--force-with-lease"@.len() == 18,
        "--force-with-lease"@[2] == 'f',
{
    reveal_strlit("--force-with-lease");
    let name = "--force-with-lease"@;
    assert forall|i: int| 0 <= i < name.len() implies name[i] != '=' by {
        assert(
            i == 0 || i == 1 || i == 2 || i == 3 || i == 4 || i == 5 || i == 6 || i == 7
                || i == 8 || i == 9 || i == 10 || i == 11 || i == 12 || i == 13 || i == 14 || i == 15
                || i == 16 || i == 17
        );
    }
}

proof fn lemma_holder()
    ensures
        is_plain_name("--holder"@),
        "--holder"@.len() == 8,
        "--holder"@[2] == 'h',
{
    reveal_strlit("--holder");
    let name = "--holder"@;
    assert forall|i: int| 0 <= i < name.len() implies name[i] != '=' by {
        assert(i == 0 || i == 1 || i == 2 || i == 3 || i == 4 || i == 5 || i == 6 || i == 7);
    }
}

proof fn lemma_json()
    ensures
        is_plain_name("--json"@),
        "--json"@.len() == 6,
        "--json"@[2] == 'j',
{
    reveal_strlit("--json");
    let name = "--json"@;
    assert forall|i: int| 0 <= i < name.len() implies name[i] != '=' by {
        assert(i == 0 || i == 1 || i == 2 || i == 3 || i == 4 || i == 5);
    }
}

proof fn lemma_keep_dirty()
    ensures
        is_plain_name("--keep-dirty"@),
        "--keep-dirty"@.len() == 12,
        "--keep-dirty"@[2] == 'k',
{
    reveal_strlit("--keep-dirty");
    let name = "--keep-dirty"@;
    assert forall|i: int| 0 <= i < name.len() implies name[i] != '=' by {
        assert(
            i == 0 || i == 1 || i == 2 || i == 3 || i == 4 || i == 5 || i == 6 || i == 7
                || i == 8 || i == 9 || i == 10 || i == 11
        );
    }
}

proof fn lemma_lease()
    ensures
        is_plain_name("--lease"@),
        "--lease"@.len() == 7,
        "--lease"@[2] == 'l',
{
    reveal_strlit("--lease");
    let name = "--lease"@;
    assert forall|i: int| 0 <= i < name.len() implies name[i] != '=' by {
        assert(i == 0 || i == 1 || i == 2 || i == 3 || i == 4 || i == 5 || i == 6);
    }
}

proof fn lemma_main_branch()
    ensures
        is_plain_name("--main-branch"@),
        "--main-branch"@.len() == 13,
        "--main-branch"@[2] == 'm',
{
    reveal_strlit("--main-branch");
    let name = "--main-branch"@;
    assert forall|i: int| 0 <= i < name.len() implies name[i] != '=' by {
        assert(
            i == 0 || i == 1 || i == 2 || i == 3 || i == 4 || i == 5 || i == 6 || i == 7
                || i == 8 || i == 9 || i == 10 || i == 11 || i == 12
        );
    }
}

proof fn lemma_origin()
    ensures
        is_plain_name("--origin"@),
        "--origin"@.len() == 8,
        "--origin"@[2] == 'o',
{
    reveal_strlit("--origin");
    let name = "--origin"@;
    assert forall|i: int| 0 <= i < name.len() implies name[i] != '=' by {
        assert(i == 0 || i == 1 || i == 2 || i == 3 || i == 4 || i == 5 || i == 6 || i == 7);
    }
}

proof fn lemma_parent()
    ensures
        is_plain_name("--parent"@),
        "--parent"@.len() == 8,
        "--parent"@[2] == 'p',
{
    reveal_strlit("--parent");
    let name = "--parent"@;
    assert forall|i: int| 0 <= i < name.len() implies name[i] != '=' by {
        assert(i == 0 || i == 1 || i == 2 || i == 3 || i == 4 || i == 5 || i == 6 || i == 7);
    }
}

proof fn lemma_pr()
    ensures
        is_plain_name("--pr"@),
        "--pr"@.len() == 4,
        "--pr"@[2] == 'p',
{
    reveal_strlit("--pr");
    let name = "--pr"@;
    assert forall|i: int| 0 <= i < name.len() implies name[i] != '=' by {
        assert(i == 0 || i == 1 || i == 2 || i == 3);
    }
}

proof fn lemma_prefer()
    ensures
        is_plain_name("--prefer"@),
        "--prefer"@.len() == 8,
        "--prefer"@[2] == 'p',
{
    reveal_strlit("--prefer");
    let name = "--prefer"@;
    assert forall|i: int| 0 <= i < name.len() implies name[i] != '=' by {
        assert(i == 0 || i == 1 || i == 2 || i == 3 || i == 4 || i == 5 || i == 6 || i == 7);
    }
}

proof fn lemma_reason()
    ensures
        is_plain_name("--reason"@),
        "--reason"@.len() == 8,
        "--reason"@[2] == 'r',
{
    reveal_strlit("--reason");
    let name = "--reason"@;
    assert forall|i: int| 0 <= i < name.len() implies name[i] != '=' by {
        assert(i == 0 || i == 1 || i == 2 || i == 3 || i == 4 || i == 5 || i == 6 || i == 7);
    }
}

proof fn lemma_repo()
    ensures
        is_plain_name("--repo"@),
        "--repo"@.len() == 6,
        "--repo"@[2] == 'r',
{
    reveal_strlit("--repo");
    let name = "--repo"@;
    assert forall|i: int| 0 <= i < name.len() implies name[i] != '=' by {
        assert(i == 0 || i == 1 || i == 2 || i == 3 || i == 4 || i == 5);
    }
}

proof fn lemma_resume_pr()
    ensures
        is_plain_name("--resume-pr"@),
        "--resume-pr"@.len() == 11,
        "--resume-pr"@[2] == 'r',
{
    reveal_strlit("--resume-pr");
    let name = "--resume-pr"@;
    assert forall|i: int| 0 <= i < name.len() implies name[i] != '=' by {
        assert(
            i == 0 || i == 1 || i == 2 || i == 3 || i == 4 || i == 5 || i == 6 || i == 7
                || i == 8 || i == 9 || i == 10
        );
    }
}

proof fn lemma_source()
    ensures
        is_plain_name("--source"@),
        "--source"@.len() == 8,
        "--source"@[2] == 's',
{
    reveal_strlit("--source");
    let name = "--source"@;
    assert forall|i: int| 0 <= i < name.len() implies name[i] != '=' by {
        assert(i == 0 || i == 1 || i == 2 || i == 3 || i == 4 || i == 5 || i == 6 || i == 7);
    }
}

proof fn lemma_state()
    ensures
        is_plain_name("--state"@),
        "--state"@.len() == 7,
        "--state"@[2] == 's',
{
    reveal_strlit("--state");
    let name = "--state"@;
    assert forall|i: int| 0 <= i < name.len() implies name[i] != '=' by {
        assert(i == 0 || i == 1 || i == 2 || i == 3 || i == 4 || i == 5 || i == 6);
    }
}

proof fn lemma_task()
    ensures
        is_plain_name("--task"@),
        "--task"@.len() == 6,
        "--task"@[2] == 't',
{
    reveal_strlit("--task");
    let name = "--task"@;
    assert forall|i: int| 0 <= i < name.len() implies name[i] != '=' by {
        assert(i == 0 || i == 1 || i == 2 || i == 3 || i == 4 || i == 5);
    }
}

proof fn lemma_title()
    ensures
        is_plain_name("--title"@),
        "--title"@.len() == 7,
        "--title"@[2] == 't',
{
    reveal_strlit("--title");
    let name = "--title"@;
    assert forall|i: int| 0 <= i < name.len() implies name[i] != '=' by {
        assert(i == 0 || i == 1 || i == 2 || i == 3 || i == 4 || i == 5 || i == 6);
    }
}

proof fn lemma_ttl_seconds()
    ensures
        is_plain_name("--ttl-seconds"@),
        "--ttl-seconds"@.len() == 13,
        "--ttl-seconds"@[2] == 't',
{
    reveal_strlit("--ttl-seconds");
    let name = "--ttl-seconds"@;
    assert forall|i: int| 0 <= i < name.len() implies name[i] != '=' by {
        assert(
            i == 0 || i == 1 || i == 2 || i == 3 || i == 4 || i == 5 || i == 6 || i == 7
                || i == 8 || i == 9 || i == 10 || i == 11 || i == 12
        );
    }
}

proof fn lemma_workspace()
    ensures
        is_plain_name("--workspace"@),
        "--workspace"@.len() == 11,
        "--workspace"@[2] == 'w',
{
    reveal_strlit("--workspace");
    let name = "--workspace"@;
    assert forall|i: int| 0 <= i < name.len() implies name[i] != '=' by {
        assert(
            i == 0 || i == 1 || i == 2 || i == 3 || i == 4 || i == 5 || i == 6 || i == 7
                || i == 8 || i == 9 || i == 10
        );
    }
}

proof fn lemma_workspace_prefix()
    ensures
        is_plain_name("--workspace-prefix"@),
        "--workspace-prefix"@.len() == 18,
        "--workspace-prefix"@[2] == 'w',
{
    reveal_strlit("--workspace-prefix");
    let name = "--workspace-prefix"@;
    assert forall|i: int| 0 <= i < name.len() implies name[i] != '=' by {
        assert(
            i == 0 || i == 1 || i == 2 || i == 3 || i == 4 || i == 5 || i == 6 || i == 7
                || i == 8 || i == 9 || i == 10 || i == 11 || i == 12 || i == 13 || i == 14 || i == 15
                || i == 16 || i == 17
        );
    }
}

proof fn lemma_workspace_root()
    ensures
        is_plain_name("--workspace-root"@),
        "--workspace-root"@.len() == 16,
        "--workspace-root"@[2] == 'w',
{
    reveal_strlit("--workspace-root");
    let name = "--workspace-root"@;
    assert forall|i: int| 0 <= i < name.len() implies name[i] != '=' by {
        assert(
            i == 0 || i == 1 || i == 2 || i == 3 || i == 4 || i == 5 || i == 6 || i == 7
                || i == 8 || i == 9 || i == 10 || i == 11 || i == 12 || i == 13 || i == 14 || i == 15
        );
    }
}

/// A lease is read with its repository, its task, the workspace that is preferred and the
/// pull request to resume.
pub proof fn law_lease_is_read(
    repo: Seq<char>,
    task: Seq<char>,
    prefer: Seq<char>,
    n: u64,
)
    requires
        !is_dashed(repo),
        !is_dashed(task),
        !is_dashed(prefer),
    ensures
        spec_lease(
            seq![repo]
                + (seq!["--task"@, task]
                + (seq!["--prefer"@, prefer]
                + (seq!["--resume-pr"@, spec_decimal(n as nat)]))),
        ) == Some(
            (
                false, WorkspaceCommandView::Lease {
                    repo,
                    task,
                    prefer: Some(prefer),
                    allow_dirty: false,
                    resume_pr: Some(n),
                }
            ),
        ),
{
    broadcast use {lemma_value_behind, lemma_flag_behind, lemma_no_value, lemma_no_flag};
    lemma_json();
    lemma_allow_dirty();
    lemma_task();
    lemma_prefer();
    lemma_resume_pr();
    let shape = ShapeView {
        flags: seq!["--json"@, "--allow-dirty"@],
        options: seq!["--task"@, "--prefer"@, "--resume-pr"@],
        positionals: 1,
    };
    assert(shape.flags[0] == "--json"@);
    assert(shape.flags[1] == "--allow-dirty"@);
    assert(shape.options[0] == "--task"@);
    assert(shape.options[1] == "--prefer"@);
    assert(shape.options[2] == "--resume-pr"@);
    lemma_decimal(n as nat);
    lemma_plain_numeral(n as nat);
    let g0 = GivenView::nothing();
    let none = Seq::<Seq<char>>::empty();
    let rest3 = seq!["--resume-pr"@, spec_decimal(n as nat)];
    assert(rest3 =~= seq!["--resume-pr"@, spec_decimal(n as nat)] + none);
    let rest2 = seq!["--prefer"@, prefer] + rest3;
    let rest1 = seq!["--task"@, task] + rest2;
    let rest0 = seq![repo] + rest1;
    lemma_positional_read(repo, rest1, shape, g0);
    let g1 = g0.with_positional(repo);
    lemma_option_read("--task"@, task, rest2, shape, g1);
    let g2 = g1.with_option("--task"@, task);
    lemma_option_read("--prefer"@, prefer, rest3, shape, g2);
    let g3 = g2.with_option("--prefer"@, prefer);
    lemma_option_read("--resume-pr"@, spec_decimal(n as nat), none, shape, g3);
    let g4 = g3.with_option("--resume-pr"@, spec_decimal(n as nat));
    assert(scan(none, shape, g4) == Some(g4));
    assert(given_for(rest0, shape.flags, shape.options, shape.positionals) == Some(g4));
}

/// A lease of a workspace as it is is read with its name.
pub proof fn law_dirty_lease_is_read(
    repo: Seq<char>,
    task: Seq<char>,
    prefer: Seq<char>,
)
    requires
        !is_dashed(repo),
        !is_dashed(task),
        !is_dashed(prefer),
    ensures
        spec_lease(
            seq![repo]
                + (seq!["--task"@, task]
                + (seq!["--json"@]
                + (seq!["--prefer"@, prefer]
                + (seq!["--allow-dirty"@])))),
        ) == Some(
            (
                true, WorkspaceCommandView::Lease {
                    repo,
                    task,
                    prefer: Some(prefer),
                    allow_dirty: true,
                    resume_pr: None,
                }
            ),
        ),
{
    broadcast use {lemma_value_behind, lemma_flag_behind, lemma_no_value, lemma_no_flag};
    lemma_json();
    lemma_allow_dirty();
    lemma_task();
    lemma_prefer();
    lemma_resume_pr();
    let shape = ShapeView {
        flags: seq!["--json"@, "--allow-dirty"@],
        options: seq!["--task"@, "--prefer"@, "--resume-pr"@],
        positionals: 1,
    };
    assert(shape.flags[0] == "--json"@);
    assert(shape.flags[1] == "--allow-dirty"@);
    assert(shape.options[0] == "--task"@);
    assert(shape.options[1] == "--prefer"@);
    assert(shape.options[2] == "--resume-pr"@);
    let g0 = GivenView::nothing();
    let none = Seq::<Seq<char>>::empty();
    let rest4 = seq!["--allow-dirty"@];
    assert(rest4 =~= seq!["--allow-dirty"@] + none);
    let rest3 = seq!["--prefer"@, prefer] + rest4;
    let rest2 = seq!["--json"@] + rest3;
    let rest1 = seq!["--task"@, task] + rest2;
    let rest0 = seq![repo] + rest1;
    lemma_positional_read(repo, rest1, shape, g0);
    let g1 = g0.with_positional(repo);
    lemma_option_read("--task"@, task, rest2, shape, g1);
    let g2 = g1.with_option("--task"@, task);
    lemma_flag_read("--json"@, rest3, shape, g2);
    let g3 = g2.with_flag("--json"@);
    lemma_option_read("--prefer"@, prefer, rest4, shape, g3);
    let g4 = g3.with_option("--prefer"@, prefer);
    lemma_flag_read("--allow-dirty"@, none, shape, g4);
    let g5 = g4.with_flag("--allow-dirty"@);
    assert(scan(none, shape, g5) == Some(g5));
    assert(given_for(rest0, shape.flags, shape.options, shape.positionals) == Some(g5));
}

/// A release is read with the workspace, its repository and the reason.
pub proof fn law_release_is_read(
    id: Seq<char>,
    repo: Seq<char>,
    reason: Seq<char>,
)
    requires
        !is_dashed(id),
        !is_dashed(repo),
        !is_dashed(reason),
    ensures
        spec_release(
            seq![id]
                + (seq!["--repo"@, repo]
                + (seq!["--reason"@, reason]
                + (seq!["--keep-dirty"@]))),
        ) == Some(
            (
                false, WorkspaceCommandView::Release {
                    workspace: Some(id),
                    lease: None,
                    repo: Some(repo),
                    reason: Some(reason),
                    keep_dirty: true,
                }
            ),
        ),
{
    broadcast use {lemma_value_behind, lemma_flag_behind, lemma_no_value, lemma_no_flag};
    lemma_json();
    lemma_keep_dirty();
    lemma_lease();
    lemma_repo();
    lemma_reason();
    let shape = ShapeView {
        flags: seq!["--json"@, "--keep-dirty"@],
        options: seq!["--lease"@, "--repo"@, "--reason"@],
        positionals: 1,
    };
    assert(shape.flags[0] == "--json"@);
    assert(shape.flags[1] == "--keep-dirty"@);
    assert(shape.options[0] == "--lease"@);
    assert(shape.options[1] == "--repo"@);
    assert(shape.options[2] == "--reason"@);
    let g0 = GivenView::nothing();
    let none = Seq::<Seq<char>>::empty();
    let rest3 = seq!["--keep-dirty"@];
    assert(rest3 =~= seq!["--keep-dirty"@] + none);
    let rest2 = seq!["--reason"@, reason] + rest3;
    let rest1 = seq!["--repo"@, repo] + rest2;
    let rest0 = seq![id] + rest1;
    lemma_positional_read(id, rest1, shape, g0);
    let g1 = g0.with_positional(id);
    lemma_option_read("--repo"@, repo, rest2, shape, g1);
    let g2 = g1.with_option("--repo"@, repo);
    lemma_option_read("--reason"@, reason, rest3, shape, g2);
    let g3 = g2.with_option("--reason"@, reason);
    lemma_flag_read("--keep-dirty"@, none, shape, g3);
    let g4 = g3.with_flag("--keep-dirty"@);
    assert(scan(none, shape, g4) == Some(g4));
    assert(given_for(rest0, shape.flags, shape.options, shape.positionals) == Some(g4));
}

/// A release by its lease is read, and resets the tree.
pub proof fn law_release_by_lease_is_read(
    lease: Seq<char>,
)
    requires
        !is_dashed(lease),
    ensures
        spec_release(seq!["--lease"@, lease] + (seq!["--json"@])) == Some(
            (
                true, WorkspaceCommandView::Release {
                    workspace: None,
                    lease: Some(lease),
                    repo: None,
                    reason: None,
                    keep_dirty: false,
                }
            ),
        ),
{
    broadcast use {lemma_value_behind, lemma_flag_behind, lemma_no_value, lemma_no_flag};
    lemma_json();
    lemma_keep_dirty();
    lemma_lease();
    lemma_repo();
    lemma_reason();
    let shape = ShapeView {
        flags: seq!["--json"@, "--keep-dirty"@],
        options: seq!["--lease"@, "--repo"@, "--reason"@],
        positionals: 1,
    };
    assert(shape.flags[0] == "--json"@);
    assert(shape.flags[1] == "--keep-dirty"@);
    assert(shape.options[0] == "--lease"@);
    assert(shape.options[1] == "--repo"@);
    assert(shape.options[2] == "--reason"@);
    let g0 = GivenView::nothing();
    let none = Seq::<Seq<char>>::empty();
    let rest1 = seq!["--json"@];
    assert(rest1 =~= seq!["--json"@] + none);
    let rest0 = seq!["--lease"@, lease] + rest1;
    lemma_option_read("--lease"@, lease, rest1, shape, g0);
    let g1 = g0.with_option("--lease"@, lease);
    lemma_flag_read("--json"@, none, shape, g1);
    let g2 = g1.with_flag("--json"@);
    assert(scan(none, shape, g2) == Some(g2));
    assert(given_for(rest0, shape.flags, shape.options, shape.positionals) == Some(g2));
}

/// A forced release is read with the workspace, its repository and the reason.
pub proof fn law_forced_release_is_read(
    id: Seq<char>,
    repo: Seq<char>,
    reason: Seq<char>,
)
    requires
        !is_dashed(id),
        !is_dashed(repo),
        !is_dashed(reason),
    ensures
        spec_force_release(
            seq![id]
                + (seq!["--repo"@, repo]
                + (seq!["--reason"@, reason])),
        ) == Some(
            (
                false, WorkspaceCommandView::ForceRelease {
                    workspace: Some(id),
                    lease: None,
                    repo: Some(repo),
                    reason: Some(reason),
                }
            ),
        ),
{
    broadcast use {lemma_value_behind, lemma_flag_behind, lemma_no_value, lemma_no_flag};
    lemma_json();
    lemma_lease();
    lemma_repo();
    lemma_reason();
    let shape = ShapeView {
        flags: seq!["--json"@],
        options: seq!["--lease"@, "--repo"@, "--reason"@],
        positionals: 1,
    };
    assert(shape.flags[0] == "--json"@);
    assert(shape.options[0] == "--lease"@);
    assert(shape.options[1] == "--repo"@);
    assert(shape.options[2] == "--reason"@);
    let g0 = GivenView::nothing();
    let none = Seq::<Seq<char>>::empty();
    let rest2 = seq!["--reason"@, reason];
    assert(rest2 =~= seq!["--reason"@, reason] + none);
    let rest1 = seq!["--repo"@, repo] + rest2;
    let rest0 = seq![id] + rest1;
    lemma_positional_read(id, rest1, shape, g0);
    let g1 = g0.with_positional(id);
    lemma_option_read("--repo"@, repo, rest2, shape, g1);
    let g2 = g1.with_option("--repo"@, repo);
    lemma_option_read("--reason"@, reason, none, shape, g2);
    let g3 = g2.with_option("--reason"@, reason);
    assert(scan(none, shape, g3) == Some(g3));
    assert(given_for(rest0, shape.flags, shape.options, shape.positionals) == Some(g3));
}

/// A heartbeat is read with its lease and its seconds.
pub proof fn law_heartbeat_is_read(
    lease: Seq<char>,
    n: u64,
)
    requires
        !is_dashed(lease),
    ensures
        spec_heartbeat(
            seq!["--lease"@, lease]
                + (seq!["--ttl-seconds"@, spec_decimal(n as nat)]),
        ) == Some(
            (false, WorkspaceCommandView::Heartbeat { lease, ttl_seconds: Some(n) }),
        ),
{
    broadcast use {lemma_value_behind, lemma_flag_behind, lemma_no_value, lemma_no_flag};
    lemma_json();
    lemma_lease();
    lemma_ttl_seconds();
    let shape = ShapeView {
        flags: seq!["--json"@],
        options: seq!["--lease"@, "--ttl-seconds"@],
        positionals: 0,
    };
    assert(shape.flags[0] == "--json"@);
    assert(shape.options[0] == "--lease"@);
    assert(shape.options[1] == "--ttl-seconds"@);
    lemma_decimal(n as nat);
    lemma_plain_numeral(n as nat);
    let g0 = GivenView::nothing();
    let none = Seq::<Seq<char>>::empty();
    let rest1 = seq!["--ttl-seconds"@, spec_decimal(n as nat)];
    assert(rest1 =~= seq!["--ttl-seconds"@, spec_decimal(n as nat)] + none);
    let rest0 = seq!["--lease"@, lease] + rest1;
    lemma_option_read("--lease"@, lease, rest1, shape, g0);
    let g1 = g0.with_option("--lease"@, lease);
    lemma_option_read("--ttl-seconds"@, spec_decimal(n as nat), none, shape, g1);
    let g2 = g1.with_option("--ttl-seconds"@, spec_decimal(n as nat));
    assert(scan(none, shape, g2) == Some(g2));
    assert(given_for(rest0, shape.flags, shape.options, shape.positionals) == Some(g2));
}

/// The status of a workspace is read with its path.
pub proof fn law_status_is_read(
    path: Seq<char>,
)
    requires
        !is_dashed(path),
    ensures
        spec_status(seq!["--workspace"@, path]) == Some(
            (false, WorkspaceCommandView::Status { workspace: path }),
        ),
{
    broadcast use {lemma_value_behind, lemma_flag_behind, lemma_no_value, lemma_no_flag};
    lemma_json();
    lemma_workspace();
    let shape = ShapeView { flags: seq!["--json"@], options: seq!["--workspace"@], positionals: 0 };
    assert(shape.flags[0] == "--json"@);
    assert(shape.options[0] == "--workspace"@);
    let g0 = GivenView::nothing();
    let none = Seq::<Seq<char>>::empty();
    let rest0 = seq!["--workspace"@, path];
    assert(rest0 =~= seq!["--workspace"@, path] + none);
    lemma_option_read("--workspace"@, path, none, shape, g0);
    let g1 = g0.with_option("--workspace"@, path);
    assert(scan(none, shape, g1) == Some(g1));
    assert(given_for(rest0, shape.flags, shape.options, shape.positionals) == Some(g1));
}

/// The setup of a workspace is read with its path.
pub proof fn law_setup_is_read(
    path: Seq<char>,
)
    requires
        !is_dashed(path),
    ensures
        spec_setup(seq!["--workspace"@, path]) == Some(
            (false, WorkspaceCommandView::Setup { workspace: path }),
        ),
{
    broadcast use {lemma_value_behind, lemma_flag_behind, lemma_no_value, lemma_no_flag};
    lemma_json();
    lemma_workspace();
    let shape = ShapeView { flags: seq!["--json"@], options: seq!["--workspace"@], positionals: 0 };
    assert(shape.flags[0] == "--json"@);
    assert(shape.options[0] == "--workspace"@);
    let g0 = GivenView::nothing();
    let none = Seq::<Seq<char>>::empty();
    let rest0 = seq!["--workspace"@, path];
    assert(rest0 =~= seq!["--workspace"@, path] + none);
    lemma_option_read("--workspace"@, path, none, shape, g0);
    let g1 = g0.with_option("--workspace"@, path);
    assert(scan(none, shape, g1) == Some(g1));
    assert(given_for(rest0, shape.flags, shape.options, shape.positionals) == Some(g1));
}

/// A list is read with its filters.
pub proof fn law_list_is_read(
    repo: Seq<char>,
    state: Seq<char>,
    holder: Seq<char>,
)
    requires
        !is_dashed(repo),
        !is_dashed(state),
        !is_dashed(holder),
    ensures
        spec_workspace_list(
            seq!["--repo"@, repo]
                + (seq!["--state"@, state]
                + (seq!["--holder"@, holder])),
        ) == Some(
            (
                false, WorkspaceCommandView::List {
                    repo: Some(repo),
                    state: Some(state),
                    holder: Some(holder),
                }
            ),
        ),
{
    broadcast use {lemma_value_behind, lemma_flag_behind, lemma_no_value, lemma_no_flag};
    lemma_json();
    lemma_repo();
    lemma_state();
    lemma_holder();
    let shape = ShapeView {
        flags: seq!["--json"@],
        options: seq!["--repo"@, "--state"@, "--holder"@],
        positionals: 0,
    };
    assert(shape.flags[0] == "--json"@);
    assert(shape.options[0] == "--repo"@);
    assert(shape.options[1] == "--state"@);
    assert(shape.options[2] == "--holder"@);
    let g0 = GivenView::nothing();
    let none = Seq::<Seq<char>>::empty();
    let rest2 = seq!["--holder"@, holder];
    assert(rest2 =~= seq!["--holder"@, holder] + none);
    let rest1 = seq!["--state"@, state] + rest2;
    let rest0 = seq!["--repo"@, repo] + rest1;
    lemma_option_read("--repo"@, repo, rest1, shape, g0);
    let g1 = g0.with_option("--repo"@, repo);
    lemma_option_read("--state"@, state, rest2, shape, g1);
    let g2 = g1.with_option("--state"@, state);
    lemma_option_read("--holder"@, holder, none, shape, g2);
    let g3 = g2.with_option("--holder"@, holder);
    assert(scan(none, shape, g3) == Some(g3));
    assert(given_for(rest0, shape.flags, shape.options, shape.positionals) == Some(g3));
}

/// A cleanup is read with the workspace, and whether it is only tried.
pub proof fn law_cleanup_is_read(
    id: Seq<char>,
)
    requires
        !is_dashed(id),
    ensures
        spec_gc(seq!["--workspace"@, id] + (seq!["--dry-run"@])) == Some(
            (false, WorkspaceCommandView::Gc { workspace: Some(id), dry_run: true }),
        ),
{
    broadcast use {lemma_value_behind, lemma_flag_behind, lemma_no_value, lemma_no_flag};
    lemma_json();
    lemma_dry_run();
    lemma_workspace();
    let shape = ShapeView {
        flags: seq!["--json"@, "--dry-run"@],
        options: seq!["--workspace"@],
        positionals: 0,
    };
    assert(shape.flags[0] == "--json"@);
    assert(shape.flags[1] == "--dry-run"@);
    assert(shape.options[0] == "--workspace"@);
    let g0 = GivenView::nothing();
    let none = Seq::<Seq<char>>::empty();
    let rest1 = seq!["--dry-run"@];
    assert(rest1 =~= seq!["--dry-run"@] + none);
    let rest0 = seq!["--workspace"@, id] + rest1;
    lemma_option_read("--workspace"@, id, rest1, shape, g0);
    let g1 = g0.with_option("--workspace"@, id);
    lemma_flag_read("--dry-run"@, none, shape, g1);
    let g2 = g1.with_flag("--dry-run"@);
    assert(scan(none, shape, g2) == Some(g2));
    assert(given_for(rest0, shape.flags, shape.options, shape.positionals) == Some(g2));
}

/// A forced removal leaves the directory.
pub proof fn law_forced_removal_is_read(
    id: Seq<char>,
    repo: Seq<char>,
)
    requires
        !is_dashed(id),
        !is_dashed(repo),
    ensures
        spec_workspace_remove(seq![id] + (seq!["--repo"@, repo] + (seq!["--force"@]))) == Some(
            (
                false, WorkspaceCommandView::Remove {
                    workspace: id,
                    repo: Some(repo),
                    force: true,
                    expunge: false,
                }
            ),
        ),
{
    broadcast use {lemma_value_behind, lemma_flag_behind, lemma_no_value, lemma_no_flag};
    lemma_json();
    lemma_force();
    lemma_expunge();
    lemma_repo();
    let shape = ShapeView {
        flags: seq!["--json"@, "--force"@, "--expunge"@],
        options: seq!["--repo"@],
        positionals: 1,
    };
    assert(shape.flags[0] == "--json"@);
    assert(shape.flags[1] == "--force"@);
    assert(shape.flags[2] == "--expunge"@);
    assert(shape.options[0] == "--repo"@);
    let g0 = GivenView::nothing();
    let none = Seq::<Seq<char>>::empty();
    let rest2 = seq!["--force"@];
    assert(rest2 =~= seq!["--force"@] + none);
    let rest1 = seq!["--repo"@, repo] + rest2;
    let rest0 = seq![id] + rest1;
    lemma_positional_read(id, rest1, shape, g0);
    let g1 = g0.with_positional(id);
    lemma_option_read("--repo"@, repo, rest2, shape, g1);
    let g2 = g1.with_option("--repo"@, repo);
    lemma_flag_read("--force"@, none, shape, g2);
    let g3 = g2.with_flag("--force"@);
    assert(scan(none, shape, g3) == Some(g3));
    assert(given_for(rest0, shape.flags, shape.options, shape.positionals) == Some(g3));
}

/// A removal that deletes the directory is not forced by that.
pub proof fn law_expunging_removal_is_read(
    id: Seq<char>,
    repo: Seq<char>,
)
    requires
        !is_dashed(id),
        !is_dashed(repo),
    ensures
        spec_workspace_remove(seq![id] + (seq!["--repo"@, repo] + (seq!["--expunge"@]))) == Some(
            (
                false, WorkspaceCommandView::Remove {
                    workspace: id,
                    repo: Some(repo),
                    force: false,
                    expunge: true,
                }
            ),
        ),
{
    broadcast use {lemma_value_behind, lemma_flag_behind, lemma_no_value, lemma_no_flag};
    lemma_json();
    lemma_force();
    lemma_expunge();
    lemma_repo();
    let shape = ShapeView {
        flags: seq!["--json"@, "--force"@, "--expunge"@],
        options: seq!["--repo"@],
        positionals: 1,
    };
    assert(shape.flags[0] == "--json"@);
    assert(shape.flags[1] == "--force"@);
    assert(shape.flags[2] == "--expunge"@);
    assert(shape.options[0] == "--repo"@);
    let g0 = GivenView::nothing();
    let none = Seq::<Seq<char>>::empty();
    let rest2 = seq!["--expunge"@];
    assert(rest2 =~= seq!["--expunge"@] + none);
    let rest1 = seq!["--repo"@, repo] + rest2;
    let rest0 = seq![id] + rest1;
    lemma_positional_read(id, rest1, shape, g0);
    let g1 = g0.with_positional(id);
    lemma_option_read("--repo"@, repo, rest2, shape, g1);
    let g2 = g1.with_option("--repo"@, repo);
    lemma_flag_read("--expunge"@, none, shape, g2);
    let g3 = g2.with_flag("--expunge"@);
    assert(scan(none, shape, g3) == Some(g3));
    assert(given_for(rest0, shape.flags, shape.options, shape.positionals) == Some(g3));
}

/// A new change is read with its workspace, its parent and its title.
pub proof fn law_change_is_read(
    path: Seq<char>,
    parent: Seq<char>,
    title: Seq<char>,
)
    requires
        !is_dashed(path),
        !is_dashed(parent),
        !is_dashed(title),
    ensures
        spec_change_create(
            seq!["--workspace"@, path]
                + (seq!["--parent"@, parent]
                + (seq!["--title"@, title])),
        ) == Some(
            (
                false, ChangeCommandView::Create(
                    ChangeCreateArgsView { workspace: Some(path), parent: Some(parent), title },
                )
            ),
        ),
{
    broadcast use {lemma_value_behind, lemma_flag_behind, lemma_no_value, lemma_no_flag};
    lemma_json();
    lemma_workspace();
    lemma_parent();
    lemma_title();
    let shape = ShapeView {
        flags: seq!["--json"@],
        options: seq!["--workspace"@, "--parent"@, "--title"@],
        positionals: 0,
    };
    assert(shape.flags[0] == "--json"@);
    assert(shape.options[0] == "--workspace"@);
    assert(shape.options[1] == "--parent"@);
    assert(shape.options[2] == "--title"@);
    let g0 = GivenView::nothing();
    let none = Seq::<Seq<char>>::empty();
    let rest2 = seq!["--title"@, title];
    assert(rest2 =~= seq!["--title"@, title] + none);
    let rest1 = seq!["--parent"@, parent] + rest2;
    let rest0 = seq!["--workspace"@, path] + rest1;
    lemma_option_read("--workspace"@, path, rest1, shape, g0);
    let g1 = g0.with_option("--workspace"@, path);
    lemma_option_read("--parent"@, parent, rest2, shape, g1);
    let g2 = g1.with_option("--parent"@, parent);
    lemma_option_read("--title"@, title, none, shape, g2);
    let g3 = g2.with_option("--title"@, title);
    assert(scan(none, shape, g3) == Some(g3));
    assert(given_for(rest0, shape.flags, shape.options, shape.positionals) == Some(g3));
}

/// A pull request is read with its branch, its title, its body and whether it is a draft.
pub proof fn law_pull_request_is_read(
    branch: Seq<char>,
    title: Seq<char>,
    body: Seq<char>,
)
    requires
        !is_dashed(branch),
        !is_dashed(title),
        !is_dashed(body),
    ensures
        spec_pr_ensure(
            seq!["--branch"@, branch]
                + (seq!["--title"@, title]
                + (seq!["--body"@, body]
                + (seq!["--draft"@]))),
        ) == Some(
            (
                false, PrCommandView::Ensure(
                    PrEnsureArgsView {
                        branch: Some(branch),
                        title: Some(title),
                        body: Some(body),
                        body_file: None,
                        draft: true,
                    },
                )
            ),
        ),
{
    broadcast use {lemma_value_behind, lemma_flag_behind, lemma_no_value, lemma_no_flag};
    lemma_json();
    lemma_draft();
    lemma_branch();
    lemma_title();
    lemma_body();
    lemma_body_file();
    let shape = ShapeView {
        flags: seq!["--json"@, "--draft"@],
        options: seq!["--branch"@, "--title"@, "--body"@, "--body-file"@],
        positionals: 0,
    };
    assert(shape.flags[0] == "--json"@);
    assert(shape.flags[1] == "--draft"@);
    assert(shape.options[0] == "--branch"@);
    assert(shape.options[1] == "--title"@);
    assert(shape.options[2] == "--body"@);
    assert(shape.options[3] == "--body-file"@);
    let g0 = GivenView::nothing();
    let none = Seq::<Seq<char>>::empty();
    let rest3 = seq!["--draft"@];
    assert(rest3 =~= seq!["--draft"@] + none);
    let rest2 = seq!["--body"@, body] + rest3;
    let rest1 = seq!["--title"@, title] + rest2;
    let rest0 = seq!["--branch"@, branch] + rest1;
    lemma_option_read("--branch"@, branch, rest1, shape, g0);
    let g1 = g0.with_option("--branch"@, branch);
    lemma_option_read("--title"@, title, rest2, shape, g1);
    let g2 = g1.with_option("--title"@, title);
    lemma_option_read("--body"@, body, rest3, shape, g2);
    let g3 = g2.with_option("--body"@, body);
    lemma_flag_read("--draft"@, none, shape, g3);
    let g4 = g3.with_flag("--draft"@);
    assert(scan(none, shape, g4) == Some(g4));
    assert(given_for(rest0, shape.flags, shape.options, shape.positionals) == Some(g4));
}

/// The body of a pull request may stand in a file; without the flag it is no draft.
pub proof fn law_pull_request_with_a_file_is_read(
    title: Seq<char>,
    file: Seq<char>,
)
    requires
        !is_dashed(title),
        !is_dashed(file),
    ensures
        spec_pr_ensure(seq!["--title"@, title] + (seq!["--body-file"@, file])) == Some(
            (
                false, PrCommandView::Ensure(
                    PrEnsureArgsView {
                        branch: None,
                        title: Some(title),
                        body: None,
                        body_file: Some(file),
                        draft: false,
                    },
                )
            ),
        ),
{
    broadcast use {lemma_value_behind, lemma_flag_behind, lemma_no_value, lemma_no_flag};
    lemma_json();
    lemma_draft();
    lemma_branch();
    lemma_title();
    lemma_body();
    lemma_body_file();
    let shape = ShapeView {
        flags: seq!["--json"@, "--draft"@],
        options: seq!["--branch"@, "--title"@, "--body"@, "--body-file"@],
        positionals: 0,
    };
    assert(shape.flags[0] == "--json"@);
    assert(shape.flags[1] == "--draft"@);
    assert(shape.options[0] == "--branch"@);
    assert(shape.options[1] == "--title"@);
    assert(shape.options[2] == "--body"@);
    assert(shape.options[3] == "--body-file"@);
    let g0 = GivenView::nothing();
    let none = Seq::<Seq<char>>::empty();
    let rest1 = seq!["--body-file"@, file];
    assert(rest1 =~= seq!["--body-file"@, file] + none);
    let rest0 = seq!["--title"@, title] + rest1;
    lemma_option_read("--title"@, title, rest1, shape, g0);
    let g1 = g0.with_option("--title"@, title);
    lemma_option_read("--body-file"@, file, none, shape, g1);
    let g2 = g1.with_option("--body-file"@, file);
    assert(scan(none, shape, g2) == Some(g2));
    assert(given_for(rest0, shape.flags, shape.options, shape.positionals) == Some(g2));
}

/// A push is read with its pull request, its branch and whether it may be forced.
pub proof fn law_push_is_read(
    branch: Seq<char>,
    n: u64,
)
    requires
        !is_dashed(branch),
    ensures
        spec_pr_push(
            seq!["--pr"@, spec_decimal(n as nat)]
                + (seq!["--branch"@, branch]
                + (seq!["--force-with-lease"@])),
        ) == Some(
            (
                false, PrCommandView::Push(
                    PrPushArgsView { pr: Some(n), branch: Some(branch), force_with_lease: true },
                )
            ),
        ),
{
    broadcast use {lemma_value_behind, lemma_flag_behind, lemma_no_value, lemma_no_flag};
    lemma_json();
    lemma_force_with_lease();
    lemma_pr();
    lemma_branch();
    let shape = ShapeView {
        flags: seq!["--json"@, "--force-with-lease"@],
        options: seq!["--pr"@, "--branch"@],
        positionals: 0,
    };
    assert(shape.flags[0] == "--json"@);
    assert(shape.flags[1] == "--force-with-lease"@);
    assert(shape.options[0] == "--pr"@);
    assert(shape.options[1] == "--branch"@);
    lemma_decimal(n as nat);
    lemma_plain_numeral(n as nat);
    let g0 = GivenView::nothing();
    let none = Seq::<Seq<char>>::empty();
    let rest2 = seq!["--force-with-lease"@];
    assert(rest2 =~= seq!["--force-with-lease"@] + none);
    let rest1 = seq!["--branch"@, branch] + rest2;
    let rest0 = seq!["--pr"@, spec_decimal(n as nat)] + rest1;
    lemma_option_read("--pr"@, spec_decimal(n as nat), rest1, shape, g0);
    let g1 = g0.with_option("--pr"@, spec_decimal(n as nat));
    lemma_option_read("--branch"@, branch, rest2, shape, g1);
    let g2 = g1.with_option("--branch"@, branch);
    lemma_flag_read("--force-with-lease"@, none, shape, g2);
    let g3 = g2.with_flag("--force-with-lease"@);
    assert(scan(none, shape, g3) == Some(g3));
    assert(given_for(rest0, shape.flags, shape.options, shape.positionals) == Some(g3));
}

/// A repository is read with its origin, its branch, its root, its prefix and its source.
pub proof fn law_new_repo_is_read(
    repo: Seq<char>,
    origin: Seq<char>,
    branch: Seq<char>,
    root: Seq<char>,
    prefix: Seq<char>,
    source: Seq<char>,
)
    requires
        !is_dashed(repo),
        !is_dashed(origin),
        !is_dashed(branch),
        !is_dashed(root),
        !is_dashed(prefix),
        !is_dashed(source),
    ensures
        spec_repo_add(
            seq![repo]
                + (seq!["--origin"@, origin]
                + (seq!["--main-branch"@, branch]
                + (seq!["--workspace-root"@, root]
                + (seq!["--workspace-prefix"@, prefix]
                + (seq!["--source"@, source]))))),
        ) == Some(
            (
                false, RepoCommandView::Add {
                    repo,
                    origin,
                    main_branch: branch,
                    workspace_root: root,
                    workspace_prefix: prefix,
                    source: Some(source),
                }
            ),
        ),
{
    broadcast use {lemma_value_behind, lemma_flag_behind, lemma_no_value, lemma_no_flag};
    lemma_json();
    lemma_origin();
    lemma_main_branch();
    lemma_workspace_root();
    lemma_workspace_prefix();
    lemma_source();
    let shape = ShapeView {
        flags: seq!["--json"@],
        options: seq![
            "--origin"@,
            "--main-branch"@,
            "--workspace-root"@,
            "--workspace-prefix"@,
            "--source"@,
        ],
        positionals: 1,
    };
    assert(shape.flags[0] == "--json"@);
    assert(shape.options[0] == "--origin"@);
    assert(shape.options[1] == "--main-branch"@);
    assert(shape.options[2] == "--workspace-root"@);
    assert(shape.options[3] == "--workspace-prefix"@);
    assert(shape.options[4] == "--source"@);
    assert(
        seq!["--origin"@, "--main-branch"@, "--workspace-root"@, "--workspace-prefix"@]
            + seq!["--source"@]
            =~= shape.options
    );
    let g0 = GivenView::nothing();
    let none = Seq::<Seq<char>>::empty();
    let rest5 = seq!["--source"@, source];
    assert(rest5 =~= seq!["--source"@, source] + none);
    let rest4 = seq!["--workspace-prefix"@, prefix] + rest5;
    let rest3 = seq!["--workspace-root"@, root] + rest4;
    let rest2 = seq!["--main-branch"@, branch] + rest3;
    let rest1 = seq!["--origin"@, origin] + rest2;
    let rest0 = seq![repo] + rest1;
    lemma_positional_read(repo, rest1, shape, g0);
    let g1 = g0.with_positional(repo);
    lemma_option_read("--origin"@, origin, rest2, shape, g1);
    let g2 = g1.with_option("--origin"@, origin);
    lemma_option_read("--main-branch"@, branch, rest3, shape, g2);
    let g3 = g2.with_option("--main-branch"@, branch);
    lemma_option_read("--workspace-root"@, root, rest4, shape, g3);
    let g4 = g3.with_option("--workspace-root"@, root);
    lemma_option_read("--workspace-prefix"@, prefix, rest5, shape, g4);
    let g5 = g4.with_option("--workspace-prefix"@, prefix);
    lemma_option_read("--source"@, source, none, shape, g5);
    let g6 = g5.with_option("--source"@, source);
    assert(scan(none, shape, g6) == Some(g6));
    assert(given_for(rest0, shape.flags, shape.options, shape.positionals) == Some(g6));
}

/// A repository is on `main` where no branch is given.
pub proof fn law_new_repo_is_on_main(
    repo: Seq<char>,
    origin: Seq<char>,
    root: Seq<char>,
    prefix: Seq<char>,
)
    requires
        !is_dashed(repo),
        !is_dashed(origin),
        !is_dashed(root),
        !is_dashed(prefix),
    ensures
        spec_repo_add(
            seq![repo]
                + (seq!["--origin"@, origin]
                + (seq!["--workspace-root"@, root]
                + (seq!["--workspace-prefix"@, prefix]))),
        ) == Some(
            (
                false, RepoCommandView::Add {
                    repo,
                    origin,
                    main_branch: "main"@,
                    workspace_root: root,
                    workspace_prefix: prefix,
                    source: None,
                }
            ),
        ),
{
    broadcast use {lemma_value_behind, lemma_flag_behind, lemma_no_value, lemma_no_flag};
    lemma_json();
    lemma_origin();
    lemma_main_branch();
    lemma_workspace_root();
    lemma_workspace_prefix();
    lemma_source();
    let shape = ShapeView {
        flags: seq!["--json"@],
        options: seq![
            "--origin"@,
            "--main-branch"@,
            "--workspace-root"@,
            "--workspace-prefix"@,
            "--source"@,
        ],
        positionals: 1,
    };
    assert(shape.flags[0] == "--json"@);
    assert(shape.options[0] == "--origin"@);
    assert(shape.options[1] == "--main-branch"@);
    assert(shape.options[2] == "--workspace-root"@);
    assert(shape.options[3] == "--workspace-prefix"@);
    assert(shape.options[4] == "--source"@);
    assert(
        seq!["--origin"@, "--main-branch"@, "--workspace-root"@, "--workspace-prefix"@]
            + seq!["--source"@]
            =~= shape.options
    );
    let g0 = GivenView::nothing();
    let none = Seq::<Seq<char>>::empty();
    let rest3 = seq!["--workspace-prefix"@, prefix];
    assert(rest3 =~= seq!["--workspace-prefix"@, prefix] + none);
    let rest2 = seq!["--workspace-root"@, root] + rest3;
    let rest1 = seq!["--origin"@, origin] + rest2;
    let rest0 = seq![repo] + rest1;
    lemma_positional_read(repo, rest1, shape, g0);
    let g1 = g0.with_positional(repo);
    lemma_option_read("--origin"@, origin, rest2, shape, g1);
    let g2 = g1.with_option("--origin"@, origin);
    lemma_option_read("--workspace-root"@, root, rest3, shape, g2);
    let g3 = g2.with_option("--workspace-root"@, root);
    lemma_option_read("--workspace-prefix"@, prefix, none, shape, g3);
    let g4 = g3.with_option("--workspace-prefix"@, prefix);
    assert(scan(none, shape, g4) == Some(g4));
    assert(given_for(rest0, shape.flags, shape.options, shape.positionals) == Some(g4));
}

/// A repository to ensure is read by its name.
pub proof fn law_repo_by_name_is_read(
    name: Seq<char>,
)
    requires
        !is_dashed(name),
    ensures
        spec_repo_ensure(seq![name]) == Some(
            (false, RepoCommandView::Ensure { reponame: Some(name), origin: None }),
        ),
{
    broadcast use {lemma_value_behind, lemma_flag_behind, lemma_no_value, lemma_no_flag};
    lemma_json();
    lemma_origin();
    let shape = ShapeView { flags: seq!["--json"@], options: seq!["--origin"@], positionals: 1 };
    assert(shape.flags[0] == "--json"@);
    assert(shape.options[0] == "--origin"@);
    let g0 = GivenView::nothing();
    let none = Seq::<Seq<char>>::empty();
    let rest0 = seq![name];
    assert(rest0 =~= seq![name] + none);
    lemma_positional_read(name, none, shape, g0);
    let g1 = g0.with_positional(name);
    assert(scan(none, shape, g1) == Some(g1));
    assert(given_for(rest0, shape.flags, shape.options, shape.positionals) == Some(g1));
}

/// A repository to ensure is read by its origin.
pub proof fn law_repo_by_origin_is_read(
    origin: Seq<char>,
)
    requires
        !is_dashed(origin),
    ensures
        spec_repo_ensure(seq!["--origin"@, origin]) == Some(
            (false, RepoCommandView::Ensure { reponame: None, origin: Some(origin) }),
        ),
{
    broadcast use {lemma_value_behind, lemma_flag_behind, lemma_no_value, lemma_no_flag};
    lemma_json();
    lemma_origin();
    let shape = ShapeView { flags: seq!["--json"@], options: seq!["--origin"@], positionals: 1 };
    assert(shape.flags[0] == "--json"@);
    assert(shape.options[0] == "--origin"@);
    let g0 = GivenView::nothing();
    let none = Seq::<Seq<char>>::empty();
    let rest0 = seq!["--origin"@, origin];
    assert(rest0 =~= seq!["--origin"@, origin] + none);
    lemma_option_read("--origin"@, origin, none, shape, g0);
    let g1 = g0.with_option("--origin"@, origin);
    assert(scan(none, shape, g1) == Some(g1));
    assert(given_for(rest0, shape.flags, shape.options, shape.positionals) == Some(g1));
}

/// What a command line is read as where its last part is read as a command of a group.
pub open spec fn as_cli<C>(
    json: bool,
    found: Option<(bool, C)>,
    group: spec_fn(C) -> CommandView,
) -> Option<CliView> {
    match found {
        Some((j, c)) => Some(CliView { json: json || j, command: group(c) }),
        None => None,
    }
}

proof fn lemma_word_add()
    ensures
        "add"@.len() == 3,
        "add"@[0] == 'a',
        "add"@[1] == 'd',
        "add"@[2] == 'd',
{
    reveal_strlit("add");
}

proof fn lemma_word_change()
    ensures
        "change"@.len() == 6,
        "change"@[0] == 'c',
        "change"@[1] == 'h',
        "change"@[2] == 'a',
{
    reveal_strlit("change");
}

proof fn lemma_word_checkout()
    ensures
        "checkout"@.len() == 8,
        "checkout"@[0] == 'c',
        "checkout"@[1] == 'h',
        "checkout"@[2] == 'e',
{
    reveal_strlit("checkout");
}

proof fn lemma_word_create()
    ensures
        "create"@.len() == 6,
        "create"@[0] == 'c',
        "create"@[1] == 'r',
        "create"@[2] == 'e',
{
    reveal_strlit("create");
}

proof fn lemma_word_doctor()
    ensures
        "doctor"@.len() == 6,
        "doctor"@[0] == 'd',
        "doctor"@[1] == 'o',
        "doctor"@[2] == 'c',
{
    reveal_strlit("doctor");
}

proof fn lemma_word_ensure()
    ensures
        "ensure"@.len() == 6,
        "ensure"@[0] == 'e',
        "ensure"@[1] == 'n',
        "ensure"@[2] == 's',
{
    reveal_strlit("ensure");
}

proof fn lemma_word_force_release()
    ensures
        "force-release"@.len() == 13,
        "force-release"@[0] == 'f',
        "force-release"@[1] == 'o',
        "force-release"@[2] == 'r',
{
    reveal_strlit("force-release");
}

proof fn lemma_word_gc()
    ensures
        "gc"@.len() == 2,
        "gc"@[0] == 'g',
        "gc"@[1] == 'c',
{
    reveal_strlit("gc");
}

proof fn lemma_word_graph()
    ensures
        "graph"@.len() == 5,
        "graph"@[0] == 'g',
        "graph"@[1] == 'r',
        "graph"@[2] == 'a',
{
    reveal_strlit("graph");
}

proof fn lemma_word_heartbeat()
    ensures
        "heartbeat"@.len() == 9,
        "heartbeat"@[0] == 'h',
        "heartbeat"@[1] == 'e',
        "heartbeat"@[2] == 'a',
{
    reveal_strlit("heartbeat");
}

proof fn lemma_word_info()
    ensures
        "info"@.len() == 4,
        "info"@[0] == 'i',
        "info"@[1] == 'n',
        "info"@[2] == 'f',
{
    reveal_strlit("info");
}

proof fn lemma_word_lease()
    ensures
        "lease"@.len() == 5,
        "lease"@[0] == 'l',
        "lease"@[1] == 'e',
        "lease"@[2] == 'a',
{
    reveal_strlit("lease");
}

proof fn lemma_word_list()
    ensures
        "list"@.len() == 4,
        "list"@[0] == 'l',
        "list"@[1] == 'i',
        "list"@[2] == 's',
{
    reveal_strlit("list");
}

proof fn lemma_word_merge()
    ensures
        "merge"@.len() == 5,
        "merge"@[0] == 'm',
        "merge"@[1] == 'e',
        "merge"@[2] == 'r',
{
    reveal_strlit("merge");
}

proof fn lemma_word_pr()
    ensures
        "pr"@.len() == 2,
        "pr"@[0] == 'p',
        "pr"@[1] == 'r',
{
    reveal_strlit("pr");
}

proof fn lemma_word_push()
    ensures
        "push"@.len() == 4,
        "push"@[0] == 'p',
        "push"@[1] == 'u',
        "push"@[2] == 's',
{
    reveal_strlit("push");
}

proof fn lemma_word_rebase()
    ensures
        "rebase"@.len() == 6,
        "rebase"@[0] == 'r',
        "rebase"@[1] == 'e',
        "rebase"@[2] == 'b',
{
    reveal_strlit("rebase");
}

proof fn lemma_word_release()
    ensures
        "release"@.len() == 7,
        "release"@[0] == 'r',
        "release"@[1] == 'e',
        "release"@[2] == 'l',
{
    reveal_strlit("release");
}

proof fn lemma_word_remove()
    ensures
        "remove"@.len() == 6,
        "remove"@[0] == 'r',
        "remove"@[1] == 'e',
        "remove"@[2] == 'm',
{
    reveal_strlit("remove");
}

proof fn lemma_word_repo()
    ensures
        "repo"@.len() == 4,
        "repo"@[0] == 'r',
        "repo"@[1] == 'e',
        "repo"@[2] == 'p',
{
    reveal_strlit("repo");
}

proof fn lemma_word_setup()
    ensures
        "setup"@.len() == 5,
        "setup"@[0] == 's',
        "setup"@[1] == 'e',
        "setup"@[2] == 't',
{
    reveal_strlit("setup");
}

proof fn lemma_word_stack()
    ensures
        "stack"@.len() == 5,
        "stack"@[0] == 's',
        "stack"@[1] == 't',
        "stack"@[2] == 'a',
{
    reveal_strlit("stack");
}

proof fn lemma_word_status()
    ensures
        "status"@.len() == 6,
        "status"@[0] == 's',
        "status"@[1] == 't',
        "status"@[2] == 'a',
{
    reveal_strlit("status");
}

proof fn lemma_word_sync()
    ensures
        "sync"@.len() == 4,
        "sync"@[0] == 's',
        "sync"@[1] == 'y',
        "sync"@[2] == 'n',
{
    reveal_strlit("sync");
}

proof fn lemma_word_workspace()
    ensures
        "workspace"@.len() == 9,
        "workspace"@[0] == 'w',
        "workspace"@[1] == 'o',
        "workspace"@[2] == 'r',
{
    reveal_strlit("workspace");
}

/// Each command of `repo` is read by its name, and `--json` counts wherever it stands.
pub proof fn law_repo_commands_are_told_apart(program: Seq<char>, rest: Seq<Seq<char>>)
    ensures
        spec_cli(seq![program, "repo"@, "ensure"@] + rest) == as_cli(
            false,
            spec_repo_ensure(rest),
            |command: RepoCommandView| CommandView::Repo { command },
        ),
        spec_cli(seq![program, "--json"@, "repo"@, "ensure"@] + rest) == as_cli(
            true,
            spec_repo_ensure(rest),
            |command: RepoCommandView| CommandView::Repo { command },
        ),
        spec_cli(seq![program, "repo"@, "add"@] + rest) == as_cli(
            false,
            spec_repo_add(rest),
            |command: RepoCommandView| CommandView::Repo { command },
        ),
        spec_cli(seq![program, "--json"@, "repo"@, "add"@] + rest) == as_cli(
            true,
            spec_repo_add(rest),
            |command: RepoCommandView| CommandView::Repo { command },
        ),
        spec_cli(seq![program, "repo"@, "list"@] + rest) == as_cli(
            false,
            spec_repo_list(rest),
            |command: RepoCommandView| CommandView::Repo { command },
        ),
        spec_cli(seq![program, "--json"@, "repo"@, "list"@] + rest) == as_cli(
            true,
            spec_repo_list(rest),
            |command: RepoCommandView| CommandView::Repo { command },
        ),
        spec_cli(seq![program, "repo"@, "info"@] + rest) == as_cli(
            false,
            spec_repo_info(rest),
            |command: RepoCommandView| CommandView::Repo { command },
        ),
        spec_cli(seq![program, "--json"@, "repo"@, "info"@] + rest) == as_cli(
            true,
            spec_repo_info(rest),
            |command: RepoCommandView| CommandView::Repo { command },
        ),
        spec_cli(seq![program, "repo"@, "remove"@] + rest) == as_cli(
            false,
            spec_repo_remove(rest),
            |command: RepoCommandView| CommandView::Repo { command },
        ),
        spec_cli(seq![program, "--json"@, "repo"@, "remove"@] + rest) == as_cli(
            true,
            spec_repo_remove(rest),
            |command: RepoCommandView| CommandView::Repo { command },
        ),
{
    lemma_json();
    assert("--json"@[0] == '-');
    lemma_word_add();
    lemma_word_change();
    lemma_word_doctor();
    lemma_word_ensure();
    lemma_word_graph();
    lemma_word_info();
    lemma_word_list();
    lemma_word_pr();
    lemma_word_remove();
    lemma_word_repo();
    lemma_word_stack();
    lemma_word_workspace();
    lemma_repo_line(program, "ensure"@, rest);
    lemma_repo_line(program, "add"@, rest);
    lemma_repo_line(program, "list"@, rest);
    lemma_repo_line(program, "info"@, rest);
    lemma_repo_line(program, "remove"@, rest);
}

proof fn lemma_repo_line(program: Seq<char>, name: Seq<char>, rest: Seq<Seq<char>>)
    requires
        name != "--json"@,
    ensures
        spec_cli(seq![program, "repo"@, name] + rest) == as_cli(
            false,
            spec_repo(seq![name] + rest),
            |command: RepoCommandView| CommandView::Repo { command },
        ),
        spec_cli(seq![program, "--json"@, "repo"@, name] + rest) == as_cli(
            true,
            spec_repo(seq![name] + rest),
            |command: RepoCommandView| CommandView::Repo { command },
        ),
        (seq![name] + rest)[0] == name,
        (seq![name] + rest).drop_first() == rest,
{
    lemma_json();
    assert("--json"@[0] == '-');
    lemma_word_change();
    lemma_word_doctor();
    lemma_word_graph();
    lemma_word_pr();
    lemma_word_repo();
    lemma_word_stack();
    lemma_word_workspace();
    let last = seq![name] + rest;
    let line = seq![program, "repo"@, name] + rest;
    let noted = seq![program, "--json"@, "repo"@, name] + rest;
    assert(last.drop_first() =~= rest);
    assert(line.drop_first().drop_first() =~= last);
    assert(noted.drop_first().drop_first().drop_first() =~= last);
}

/// Each command of `workspace` is read by its name, and `--json` counts wherever it stands.
pub proof fn law_workspace_commands_are_told_apart(program: Seq<char>, rest: Seq<Seq<char>>)
    ensures
        spec_cli(seq![program, "workspace"@, "lease"@] + rest) == as_cli(
            false,
            spec_lease(rest),
            |command: WorkspaceCommandView| CommandView::Workspace { command },
        ),
        spec_cli(seq![program, "--json"@, "workspace"@, "lease"@] + rest) == as_cli(
            true,
            spec_lease(rest),
            |command: WorkspaceCommandView| CommandView::Workspace { command },
        ),
        spec_cli(seq![program, "workspace"@, "release"@] + rest) == as_cli(
            false,
            spec_release(rest),
            |command: WorkspaceCommandView| CommandView::Workspace { command },
        ),
        spec_cli(seq![program, "--json"@, "workspace"@, "release"@] + rest) == as_cli(
            true,
            spec_release(rest),
            |command: WorkspaceCommandView| CommandView::Workspace { command },
        ),
        spec_cli(seq![program, "workspace"@, "heartbeat"@] + rest) == as_cli(
            false,
            spec_heartbeat(rest),
            |command: WorkspaceCommandView| CommandView::Workspace { command },
        ),
        spec_cli(seq![program, "--json"@, "workspace"@, "heartbeat"@] + rest) == as_cli(
            true,
            spec_heartbeat(rest),
            |command: WorkspaceCommandView| CommandView::Workspace { command },
        ),
        spec_cli(seq![program, "workspace"@, "force-release"@] + rest) == as_cli(
            false,
            spec_force_release(rest),
            |command: WorkspaceCommandView| CommandView::Workspace { command },
        ),
        spec_cli(seq![program, "--json"@, "workspace"@, "force-release"@] + rest) == as_cli(
            true,
            spec_force_release(rest),
            |command: WorkspaceCommandView| CommandView::Workspace { command },
        ),
        spec_cli(seq![program, "workspace"@, "status"@] + rest) == as_cli(
            false,
            spec_status(rest),
            |command: WorkspaceCommandView| CommandView::Workspace { command },
        ),
        spec_cli(seq![program, "--json"@, "workspace"@, "status"@] + rest) == as_cli(
            true,
            spec_status(rest),
            |command: WorkspaceCommandView| CommandView::Workspace { command },
        ),
        spec_cli(seq![program, "workspace"@, "setup"@] + rest) == as_cli(
            false,
            spec_setup(rest),
            |command: WorkspaceCommandView| CommandView::Workspace { command },
        ),
        spec_cli(seq![program, "--json"@, "workspace"@, "setup"@] + rest) == as_cli(
            true,
            spec_setup(rest),
            |command: WorkspaceCommandView| CommandView::Workspace { command },
        ),
        spec_cli(seq![program, "workspace"@, "list"@] + rest) == as_cli(
            false,
            spec_workspace_list(rest),
            |command: WorkspaceCommandView| CommandView::Workspace { command },
        ),
        spec_cli(seq![program, "--json"@, "workspace"@, "list"@] + rest) == as_cli(
            true,
            spec_workspace_list(rest),
            |command: WorkspaceCommandView| CommandView::Workspace { command },
        ),
        spec_cli(seq![program, "workspace"@, "gc"@] + rest) == as_cli(
            false,
            spec_gc(rest),
            |command: WorkspaceCommandView| CommandView::Workspace { command },
        ),
        spec_cli(seq![program, "--json"@, "workspace"@, "gc"@] + rest) == as_cli(
            true,
            spec_gc(rest),
            |command: WorkspaceCommandView| CommandView::Workspace { command },
        ),
        spec_cli(seq![program, "workspace"@, "rebase"@] + rest) == as_cli(
            false,
            spec_workspace_rebase(rest),
            |command: WorkspaceCommandView| CommandView::Workspace { command },
        ),
        spec_cli(seq![program, "--json"@, "workspace"@, "rebase"@] + rest) == as_cli(
            true,
            spec_workspace_rebase(rest),
            |command: WorkspaceCommandView| CommandView::Workspace { command },
        ),
        spec_cli(seq![program, "workspace"@, "remove"@] + rest) == as_cli(
            false,
            spec_workspace_remove(rest),
            |command: WorkspaceCommandView| CommandView::Workspace { command },
        ),
        spec_cli(seq![program, "--json"@, "workspace"@, "remove"@] + rest) == as_cli(
            true,
            spec_workspace_remove(rest),
            |command: WorkspaceCommandView| CommandView::Workspace { command },
        ),
{
    lemma_json();
    assert("--json"@[0] == '-');
    lemma_word_change();
    lemma_word_doctor();
    lemma_word_force_release();
    lemma_word_gc();
    lemma_word_graph();
    lemma_word_heartbeat();
    lemma_word_lease();
    lemma_word_list();
    lemma_word_pr();
    lemma_word_rebase();
    lemma_word_release();
    lemma_word_remove();
    lemma_word_repo();
    lemma_word_setup();
    lemma_word_stack();
    lemma_word_status();
    lemma_word_workspace();
    lemma_workspace_line(program, "lease"@, rest);
    lemma_workspace_line(program, "release"@, rest);
    lemma_workspace_line(program, "heartbeat"@, rest);
    lemma_workspace_line(program, "force-release"@, rest);
    lemma_workspace_line(program, "status"@, rest);
    lemma_workspace_line(program, "setup"@, rest);
    lemma_workspace_line(program, "list"@, rest);
    lemma_workspace_line(program, "gc"@, rest);
    lemma_workspace_line(program, "rebase"@, rest);
    lemma_workspace_line(program, "remove"@, rest);
}

proof fn lemma_workspace_line(program: Seq<char>, name: Seq<char>, rest: Seq<Seq<char>>)
    requires
        name != "--json"@,
    ensures
        spec_cli(seq![program, "workspace"@, name] + rest) == as_cli(
            false,
            spec_workspace(seq![name] + rest),
            |command: WorkspaceCommandView| CommandView::Workspace { command },
        ),
        spec_cli(seq![program, "--json"@, "workspace"@, name] + rest) == as_cli(
            true,
            spec_workspace(seq![name] + rest),
            |command: WorkspaceCommandView| CommandView::Workspace { command },
        ),
        (seq![name] + rest)[0] == name,
        (seq![name] + rest).drop_first() == rest,
{
    lemma_json();
    assert("--json"@[0] == '-');
    lemma_word_change();
    lemma_word_doctor();
    lemma_word_graph();
    lemma_word_pr();
    lemma_word_repo();
    lemma_word_stack();
    lemma_word_workspace();
    let last = seq![name] + rest;
    let line = seq![program, "workspace"@, name] + rest;
    let noted = seq![program, "--json"@, "workspace"@, name] + rest;
    assert(last.drop_first() =~= rest);
    assert(line.drop_first().drop_first() =~= last);
    assert(noted.drop_first().drop_first().drop_first() =~= last);
}

/// Each command of `change` is read by its name, and `--json` counts wherever it stands.
pub proof fn law_change_commands_are_told_apart(program: Seq<char>, rest: Seq<Seq<char>>)
    ensures
        spec_cli(seq![program, "change"@, "create"@] + rest) == as_cli(
            false,
            spec_change_create(rest),
            |command: ChangeCommandView| CommandView::Change { command },
        ),
        spec_cli(seq![program, "--json"@, "change"@, "create"@] + rest) == as_cli(
            true,
            spec_change_create(rest),
            |command: ChangeCommandView| CommandView::Change { command },
        ),
        spec_cli(seq![program, "change"@, "checkout"@] + rest) == as_cli(
            false,
            spec_change_checkout(rest),
            |command: ChangeCommandView| CommandView::Change { command },
        ),
        spec_cli(seq![program, "--json"@, "change"@, "checkout"@] + rest) == as_cli(
            true,
            spec_change_checkout(rest),
            |command: ChangeCommandView| CommandView::Change { command },
        ),
        spec_cli(seq![program, "change"@, "info"@] + rest) == as_cli(
            false,
            spec_change_info(rest),
            |command: ChangeCommandView| CommandView::Change { command },
        ),
        spec_cli(seq![program, "--json"@, "change"@, "info"@] + rest) == as_cli(
            true,
            spec_change_info(rest),
            |command: ChangeCommandView| CommandView::Change { command },
        ),
{
    lemma_json();
    assert("--json"@[0] == '-');
    lemma_word_change();
    lemma_word_checkout();
    lemma_word_create();
    lemma_word_doctor();
    lemma_word_graph();
    lemma_word_info();
    lemma_word_pr();
    lemma_word_repo();
    lemma_word_stack();
    lemma_word_workspace();
    lemma_change_line(program, "create"@, rest);
    lemma_change_line(program, "checkout"@, rest);
    lemma_change_line(program, "info"@, rest);
}

proof fn lemma_change_line(program: Seq<char>, name: Seq<char>, rest: Seq<Seq<char>>)
    requires
        name != "--json"@,
    ensures
        spec_cli(seq![program, "change"@, name] + rest) == as_cli(
            false,
            spec_change(seq![name] + rest),
            |command: ChangeCommandView| CommandView::Change { command },
        ),
        spec_cli(seq![program, "--json"@, "change"@, name] + rest) == as_cli(
            true,
            spec_change(seq![name] + rest),
            |command: ChangeCommandView| CommandView::Change { command },
        ),
        (seq![name] + rest)[0] == name,
        (seq![name] + rest).drop_first() == rest,
{
    lemma_json();
    assert("--json"@[0] == '-');
    lemma_word_change();
    lemma_word_doctor();
    lemma_word_graph();
    lemma_word_pr();
    lemma_word_repo();
    lemma_word_stack();
    lemma_word_workspace();
    let last = seq![name] + rest;
    let line = seq![program, "change"@, name] + rest;
    let noted = seq![program, "--json"@, "change"@, name] + rest;
    assert(last.drop_first() =~= rest);
    assert(line.drop_first().drop_first() =~= last);
    assert(noted.drop_first().drop_first().drop_first() =~= last);
}

/// Each command of `pr` is read by its name, and `--json` counts wherever it stands.
pub proof fn law_pr_commands_are_told_apart(program: Seq<char>, rest: Seq<Seq<char>>)
    ensures
        spec_cli(seq![program, "pr"@, "ensure"@] + rest) == as_cli(
            false,
            spec_pr_ensure(rest),
            |command: PrCommandView| CommandView::Pr { command },
        ),
        spec_cli(seq![program, "--json"@, "pr"@, "ensure"@] + rest) == as_cli(
            true,
            spec_pr_ensure(rest),
            |command: PrCommandView| CommandView::Pr { command },
        ),
        spec_cli(seq![program, "pr"@, "push"@] + rest) == as_cli(
            false,
            spec_pr_push(rest),
            |command: PrCommandView| CommandView::Pr { command },
        ),
        spec_cli(seq![program, "--json"@, "pr"@, "push"@] + rest) == as_cli(
            true,
            spec_pr_push(rest),
            |command: PrCommandView| CommandView::Pr { command },
        ),
        spec_cli(seq![program, "pr"@, "sync"@] + rest) == as_cli(
            false,
            spec_pr_sync(rest),
            |command: PrCommandView| CommandView::Pr { command },
        ),
        spec_cli(seq![program, "--json"@, "pr"@, "sync"@] + rest) == as_cli(
            true,
            spec_pr_sync(rest),
            |command: PrCommandView| CommandView::Pr { command },
        ),
        spec_cli(seq![program, "pr"@, "merge"@] + rest) == as_cli(
            false,
            spec_pr_merge(rest),
            |command: PrCommandView| CommandView::Pr { command },
        ),
        spec_cli(seq![program, "--json"@, "pr"@, "merge"@] + rest) == as_cli(
            true,
            spec_pr_merge(rest),
            |command: PrCommandView| CommandView::Pr { command },
        ),
{
    lemma_json();
    assert("--json"@[0] == '-');
    lemma_word_change();
    lemma_word_doctor();
    lemma_word_ensure();
    lemma_word_graph();
    lemma_word_merge();
    lemma_word_pr();
    lemma_word_push();
    lemma_word_repo();
    lemma_word_stack();
    lemma_word_sync();
    lemma_word_workspace();
    lemma_pr_line(program, "ensure"@, rest);
    lemma_pr_line(program, "push"@, rest);
    lemma_pr_line(program, "sync"@, rest);
    lemma_pr_line(program, "merge"@, rest);
}

proof fn lemma_pr_line(program: Seq<char>, name: Seq<char>, rest: Seq<Seq<char>>)
    requires
        name != "--json"@,
    ensures
        spec_cli(seq![program, "pr"@, name] + rest) == as_cli(
            false,
            spec_pr(seq![name] + rest),
            |command: PrCommandView| CommandView::Pr { command },
        ),
        spec_cli(seq![program, "--json"@, "pr"@, name] + rest) == as_cli(
            true,
            spec_pr(seq![name] + rest),
            |command: PrCommandView| CommandView::Pr { command },
        ),
        (seq![name] + rest)[0] == name,
        (seq![name] + rest).drop_first() == rest,
{
    lemma_json();
    assert("--json"@[0] == '-');
    lemma_word_change();
    lemma_word_doctor();
    lemma_word_graph();
    lemma_word_pr();
    lemma_word_repo();
    lemma_word_stack();
    lemma_word_workspace();
    let last = seq![name] + rest;
    let line = seq![program, "pr"@, name] + rest;
    let noted = seq![program, "--json"@, "pr"@, name] + rest;
    assert(last.drop_first() =~= rest);
    assert(line.drop_first().drop_first() =~= last);
    assert(noted.drop_first().drop_first().drop_first() =~= last);
}

} // verus!
