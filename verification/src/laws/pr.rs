//! What is pushed, and when a push is reported.

use vstd::prelude::*;

use crate::cli::{PrEnsureArgsView, PrPushArgsView};
use crate::command_runner::{spec_command, CommandInvocationView};
use crate::flow::{ask_output, ActionView, AnswerView, Flow};
use crate::git::{spec_is_pr_bookmark, spec_pr_bookmark};
use crate::jj::spec_jj;
use crate::laws::jj::{
    leaves_some, left_of, lemma_left_all, lemma_left_on, lemma_output_left,
};
use crate::outside::json_parsed;
use crate::pr::{commit_args, flow_here, flow_run, flow_verify_push, head_args, spec_gh};
use crate::pr_ensure::{flow_branch, flow_ensure_pr, push_new_args};
use crate::pr_push::{
    bookmarks_of, flow_advance, flow_advance_one, flow_check_open, flow_force_push,
    flow_forward_push, flow_github_sha, flow_land, flow_nothing_to_land, flow_pr_push, flow_target,
    force_args, push_args, push_result, spec_named_state, state_args,
};
use crate::report::{PayloadView, RunResultView};
use crate::text::spec_trim;

verus! {

/// A command that pushes.
pub open spec fn is_push(c: CommandInvocationView) -> bool {
    ||| c.program == "jj"@ && c.args.len() > 3 && c.args[0] == "git"@ && c.args[1] == "push"@
    ||| c.program == "git"@ && c.args.len() > 3 && c.args[0] == "push"@
}

/// The branch that a push is of.
pub open spec fn pushed_branch(c: CommandInvocationView) -> Seq<char> {
    c.args[3]
}

/// GitHub said of a pull request that it is open.
pub open spec fn says_open(json: Seq<char>) -> bool {
    match json_parsed(json) {
        Ok(said) => spec_named_state(said) == "OPEN"@,
        Err(_) => false,
    }
}

proof fn lemma_words()
    ensures
        "gh"@ != "jj"@,
        "gh"@ != "git"@,
        "jj"@ != "git"@,
        "log"@ != "git"@,
        "bookmark"@ != "git"@,
        "remote"@ != "push"@,
        "ls-remote"@ != "push"@,
{
    reveal_strlit("gh");
    reveal_strlit("jj");
    reveal_strlit("git");
    reveal_strlit("log");
    reveal_strlit("bookmark");
    reveal_strlit("remote");
    reveal_strlit("push");
    reveal_strlit("ls-remote");
    assert("gh"@[0] == 'g' && "gh"@.len() == 2);
    assert("jj"@[0] == 'j');
    assert("git"@[0] == 'g' && "git"@.len() == 3);
    assert("log"@[0] == 'l');
    assert("bookmark"@[0] == 'b');
    assert("remote"@[0] == 'r');
    assert("push"@[0] == 'p');
    assert("ls-remote"@[0] == 'l');
}

proof fn lemma_gh_is_no_push(cwd: Seq<char>, args: Seq<Seq<char>>)
    ensures
        !is_push(spec_gh(cwd, args)),
{
    lemma_words();
}

proof fn lemma_log_is_no_push(cwd: Seq<char>, rev: Seq<char>, more: Seq<Seq<char>>)
    ensures
        !is_push(spec_jj(cwd, seq!["log"@, "-r"@, rev] + more)),
{
    lemma_words();
    assert((seq!["log"@, "-r"@, rev] + more)[0] == "log"@);
}

proof fn lemma_bookmark_is_no_push(cwd: Seq<char>, name: Seq<char>, more: Seq<Seq<char>>)
    ensures
        !is_push(spec_jj(cwd, seq!["bookmark"@, "set"@, name] + more)),
{
    lemma_words();
    assert((seq!["bookmark"@, "set"@, name] + more)[0] == "bookmark"@);
}

/// What a command that is run as it is takes and leaves.
proof fn lemma_run(
    t: Seq<AnswerView>,
    inv: CommandInvocationView,
    before: Seq<char>,
    after: Seq<char>,
)
    ensures
        leaves_some(flow_run(t, inv, before, after), t),
        match flow_run(t, inv, before, after) {
            Flow::Done(o, rest) => t.len() > 0 && t[0] == AnswerView::Output(o) && t.contains(
                AnswerView::Output(o),
            ) && rest == t.drop_first(),
            Flow::Failed(_, _) => true,
            Flow::Asks(a) => a == ActionView::Run(inv),
        },
{
    lemma_output_left(t, ActionView::Run(inv));
}

/// The flow asks for no push.
pub open spec fn no_push<T>(flow: Flow<T>) -> bool {
    match flow {
        Flow::Asks(ActionView::Run(c)) => !is_push(c),
        _ => true,
    }
}

proof fn lemma_here(t: Seq<AnswerView>)
    ensures
        leaves_some(flow_here(t), t),
        no_push(flow_here(t)),
{
    lemma_words();
    lemma_output_left(t, ActionView::CurrentDir);
    if let Flow::Done(cwd, t1) = ask_output(t, ActionView::CurrentDir) {
        let inv = spec_jj(cwd, seq!["git"@, "remote"@, "list"@]);
        assert(inv.args[1] == "remote"@);
        lemma_run(t1, inv, "failed to list jj remotes (is this a jj workspace?): "@, ""@);
        match flow_run(t1, inv, "failed to list jj remotes (is this a jj workspace?): "@, ""@) {
            Flow::Done(_, t2) => lemma_left_on(t2, t1, t),
            Flow::Failed(_, t2) => lemma_left_on(t2, t1, t),
            Flow::Asks(_) => {},
        }
    }
}

proof fn lemma_target(t: Seq<AnswerView>, args: PrPushArgsView, cwd: Seq<char>, slug: Seq<char>)
    ensures
        leaves_some(flow_target(t, args, cwd, slug), t),
        no_push(flow_target(t, args, cwd, slug)),
{
    lemma_left_all(t);
    let more = seq!["--no-graph"@, "-T"@, "bookmarks.map(|b| b.name()).join(\"\\n\")"@];
    match (args.pr, args.branch) {
        (Some(n), None) => {
            let bookmark = spec_pr_bookmark(n);
            lemma_log_is_no_push(cwd, bookmark, more);
            lemma_run(
                t,
                spec_jj(cwd, bookmarks_of(bookmark)),
                "could not find `"@ + bookmark + "` bookmark locally: "@,
                "; run `cube workspace lease --resume_pr "@ + crate::number::spec_decimal(
                    n as nat,
                ) + "` first or pass --branch"@,
            );
        },
        (None, Some(b)) => {
            let list = seq!["pr"@, "list"@, "-R"@, slug] + seq![
                "--head"@,
                b,
                "--state"@,
                "open"@,
            ] + seq!["--json"@, "number"@];
            lemma_gh_is_no_push(cwd, list);
            lemma_run(
                t,
                spec_gh(cwd, list),
                "failed to look up open PR for branch `"@ + b + "`: "@,
                ""@,
            );
        },
        (None, None) => {
            let rev = "latest(ancestors(@) & bookmarks(glob:\"pr/*\"))"@;
            lemma_log_is_no_push(cwd, rev, more);
            lemma_run(
                t,
                spec_jj(cwd, bookmarks_of(rev)),
                "failed to infer PR from ancestry: "@,
                ""@,
            );
        },
        _ => {},
    }
}

/// A pull request is taken to be open just where GitHub says so; until then nothing is
/// pushed, and the answers that are left are some of those that were given.
pub proof fn law_open_means_github_says_so(
    t: Seq<AnswerView>,
    cwd: Seq<char>,
    slug: Seq<char>,
    n: u64,
)
    ensures
        leaves_some(flow_check_open(t, cwd, slug, n), t),
        no_push(flow_check_open(t, cwd, slug, n)),
        flow_check_open(t, cwd, slug, n) is Done <==> t.len() > 0 && (t[0] matches
            AnswerView::Output(json) && says_open(json)),
{
    lemma_gh_is_no_push(cwd, state_args(n, slug));
    let before = "failed to check state of PR #"@ + crate::number::spec_decimal(n as nat) + ": "@;
    lemma_run(t, spec_gh(cwd, state_args(n, slug)), before, ""@);
}

proof fn lemma_github_sha(t: Seq<AnswerView>, cwd: Seq<char>, slug: Seq<char>, branch: Seq<char>)
    ensures
        leaves_some(flow_github_sha(t, cwd, slug, branch), t),
        no_push(flow_github_sha(t, cwd, slug, branch)),
        flow_github_sha(t, cwd, slug, branch) matches Flow::Done(o, rest) ==> t.len() > 0 && t[0]
            == AnswerView::Output(o) && rest == t.drop_first(),
{
    lemma_gh_is_no_push(cwd, head_args(slug, branch));
    lemma_run(
        t,
        spec_gh(cwd, head_args(slug, branch)),
        "failed to fetch GitHub head sha for `"@ + branch + "`: "@,
        ""@,
    );
}

proof fn lemma_advance(
    t: Seq<AnswerView>,
    cwd: Seq<char>,
    branch: Seq<char>,
    bookmark: Seq<char>,
)
    ensures
        leaves_some(flow_advance(t, cwd, branch, bookmark), t),
        no_push(flow_advance(t, cwd, branch, bookmark)),
{
    let at = seq!["-r"@, "@"@];
    lemma_bookmark_is_no_push(cwd, branch, at);
    lemma_bookmark_is_no_push(cwd, bookmark, at);
    lemma_run(
        t,
        spec_jj(cwd, seq!["bookmark"@, "set"@, branch] + at),
        "failed to advance `"@ + branch + "` bookmark to @: "@,
        ""@,
    );
    if let Flow::Done(_, t1) = flow_advance_one(t, cwd, branch) {
        lemma_run(
            t1,
            spec_jj(cwd, seq!["bookmark"@, "set"@, bookmark] + at),
            "failed to advance `"@ + bookmark + "` bookmark to @: "@,
            ""@,
        );
        match flow_advance_one(t1, cwd, bookmark) {
            Flow::Done(_, t2) => lemma_left_on(t2, t1, t),
            Flow::Failed(_, t2) => lemma_left_on(t2, t1, t),
            Flow::Asks(_) => {},
        }
    }
}

/// The flow asks for no push but of `branch`.
pub open spec fn pushes_only<T>(flow: Flow<T>, branch: Seq<char>) -> bool {
    match flow {
        Flow::Asks(ActionView::Run(c)) => is_push(c) ==> pushed_branch(c) == branch,
        _ => true,
    }
}

/// A push is forced only where the commit that was last fetched is the one that
/// GitHub has the branch at.
pub proof fn law_force_needs_the_lease(
    t: Seq<AnswerView>,
    cwd: Seq<char>,
    remote: Seq<char>,
    slug: Seq<char>,
    n: u64,
    branch: Seq<char>,
)
    ensures
        leaves_some(flow_force_push(t, cwd, remote, slug, n, branch), t),
        pushes_only(flow_force_push(t, cwd, remote, slug, n, branch), branch),
        flow_force_push(t, cwd, remote, slug, n, branch) matches Flow::Asks(ActionView::Run(c))
            ==> is_push(c) ==> t.len() >= 2 && (t[0] matches AnswerView::Output(fetched) && t[1]
            matches AnswerView::Output(github) && spec_trim(fetched) == spec_trim(github)),
{
    let seen = branch + "@"@ + remote;
    let more = seq!["--no-graph"@, "-T"@, "commit_id"@];
    lemma_log_is_no_push(cwd, seen, more);
    let before = "failed to read last-fetched state of `"@ + seen + "`: "@;
    let after = "; run `jj git fetch` before `cube pr push --force-with-lease`"@;
    lemma_run(t, spec_jj(cwd, commit_args(seen)), before, after);
    if let Flow::Done(fetched, t1) = flow_run(
        t,
        spec_jj(cwd, commit_args(seen)),
        before,
        after,
    ) {
        lemma_github_sha(t1, cwd, slug, branch);
        match flow_github_sha(t1, cwd, slug, branch) {
            Flow::Done(github, t2) => {
                lemma_left_on(t2, t1, t);
                assert(t1[0] == t[1]);
                if spec_trim(fetched) == spec_trim(github) {
                    let bookmark = spec_pr_bookmark(n);
                    lemma_advance(t2, cwd, branch, bookmark);
                    match flow_advance(t2, cwd, branch, bookmark) {
                        Flow::Done(_, t3) => {
                            lemma_left_on(t3, t2, t);
                            let inv = spec_command(cwd, "git"@, force_args(remote, branch));
                            let why = "force-with-lease push of `"@ + branch + "` failed: "@;
                            lemma_run(t3, inv, why, ""@);
                            match flow_run(t3, inv, why, ""@) {
                                Flow::Done(_, t4) => lemma_left_on(t4, t3, t),
                                Flow::Failed(_, t4) => lemma_left_on(t4, t3, t),
                                Flow::Asks(_) => {
                                    assert(inv.args[3] == branch);
                                },
                            }
                        },
                        Flow::Failed(_, t3) => lemma_left_on(t3, t2, t),
                        Flow::Asks(_) => {},
                    }
                }
            },
            Flow::Failed(_, t2) => lemma_left_on(t2, t1, t),
            Flow::Asks(_) => {},
        }
    }
}

/// A branch is moved forward only where the working-copy commit was seen to descend
/// from the bookmark of the pull request.
pub proof fn law_forward_needs_descent(
    t: Seq<AnswerView>,
    cwd: Seq<char>,
    remote: Seq<char>,
    n: u64,
    branch: Seq<char>,
)
    ensures
        leaves_some(flow_forward_push(t, cwd, remote, n, branch), t),
        pushes_only(flow_forward_push(t, cwd, remote, n, branch), branch),
        flow_forward_push(t, cwd, remote, n, branch) matches Flow::Asks(ActionView::Run(c))
            ==> is_push(c) ==> t.len() > 0 && (t[0] matches AnswerView::Output(o) && spec_trim(
            o,
        ).len() > 0),
{
    let rev = spec_pr_bookmark(n) + " & ancestors(@)"@;
    let more = seq!["--no-graph"@, "-T"@, "commit_id"@];
    lemma_log_is_no_push(cwd, rev, more);
    let before = "failed to check ancestry of `"@ + spec_pr_bookmark(n) + "`: "@;
    lemma_run(t, spec_jj(cwd, commit_args(rev)), before, ""@);
    if let Flow::Done(o, t1) = flow_run(t, spec_jj(cwd, commit_args(rev)), before, ""@) {
        if spec_trim(o).len() > 0 {
            let bookmark = spec_pr_bookmark(n);
            lemma_advance(t1, cwd, branch, bookmark);
            match flow_advance(t1, cwd, branch, bookmark) {
                Flow::Done(_, t2) => {
                    lemma_left_on(t2, t1, t);
                    let inv = spec_jj(cwd, push_args(branch, remote));
                    let why = "failed to push `"@ + branch + "`: "@;
                    lemma_run(t2, inv, why, ""@);
                    match flow_run(t2, inv, why, ""@) {
                        Flow::Done(_, t3) => lemma_left_on(t3, t2, t),
                        Flow::Failed(_, t3) => lemma_left_on(t3, t2, t),
                        Flow::Asks(_) => {
                            assert(inv.args[3] == branch);
                        },
                    }
                },
                Flow::Failed(_, t2) => lemma_left_on(t2, t1, t),
                Flow::Asks(_) => {},
            }
        }
    }
}

/// Two answers in a row name the same commit: the one that the branch is at here,
/// and the one that GitHub has it at.
pub open spec fn is_verified(t: Seq<AnswerView>) -> bool {
    &&& t.len() >= 2
    &&& t[0] matches AnswerView::Output(local) && t[1] matches AnswerView::Output(remote)
        && spec_trim(local) == spec_trim(remote)
}

/// A push is taken to have reached GitHub only where GitHub has the branch at the
/// commit that it is at here.
pub proof fn law_verified_means_same_commit(
    t: Seq<AnswerView>,
    cwd: Seq<char>,
    slug: Seq<char>,
    branch: Seq<char>,
)
    ensures
        leaves_some(flow_verify_push(t, cwd, slug, branch), t),
        no_push(flow_verify_push(t, cwd, slug, branch)),
        flow_verify_push(t, cwd, slug, branch) matches Flow::Done(_, rest) ==> is_verified(t)
            && rest == t.drop_first().drop_first(),
{
    let more = seq!["--no-graph"@, "-T"@, "commit_id"@];
    lemma_log_is_no_push(cwd, branch, more);
    lemma_gh_is_no_push(cwd, head_args(slug, branch));
    let before = "could not resolve local commit for `"@ + branch + "` to verify the push: "@;
    lemma_run(t, spec_jj(cwd, commit_args(branch)), before, ""@);
    if let Flow::Done(local, t1) = flow_run(t, spec_jj(cwd, commit_args(branch)), before, ""@) {
        let why = "push verification failed: could not read branch `"@ + branch
            + "` from GitHub ("@ + slug
            + "). The push may have gone to a local mirror remote instead of GitHub — in cube workspaces the real upstream is the github.com remote, not necessarily `origin`. Underlying error: "@;
        lemma_run(t1, spec_gh(cwd, head_args(slug, branch)), why, ""@);
        match flow_run(t1, spec_gh(cwd, head_args(slug, branch)), why, ""@) {
            Flow::Done(remote, t2) => {
                lemma_left_on(t2, t1, t);
                assert(t1[0] == t[1]);
            },
            Flow::Failed(_, t2) => lemma_left_on(t2, t1, t),
            Flow::Asks(_) => {},
        }
    }
}

proof fn lemma_nothing_to_land(
    t: Seq<AnswerView>,
    cwd: Seq<char>,
    slug: Seq<char>,
    n: u64,
    branch: Seq<char>,
)
    ensures
        no_push(flow_nothing_to_land(t, cwd, slug, n, branch)),
        flow_nothing_to_land(t, cwd, slug, n, branch) matches Flow::Done(r, _) ==> r
            == push_result(slug, n, false),
{
    lemma_github_sha(t, cwd, slug, branch);
    if let Flow::Done(_, t1) = flow_github_sha(t, cwd, slug, branch) {
        let more = seq!["--no-graph"@, "-T"@, "commit_id"@];
        lemma_log_is_no_push(cwd, spec_pr_bookmark(n), more);
        lemma_output_left(
            t1,
            ActionView::Run(spec_jj(cwd, commit_args(spec_pr_bookmark(n)))),
        );
    }
}

/// Landing a commit pushes nothing but the given branch, and only after GitHub said
/// that the pull request is open. That it was pushed is reported only after GitHub
/// was seen to have the branch at the commit that it is at here.
pub proof fn law_land(
    t: Seq<AnswerView>,
    cwd: Seq<char>,
    remote: Seq<char>,
    slug: Seq<char>,
    n: u64,
    branch: Seq<char>,
    force: bool,
)
    ensures
        pushes_only(flow_land(t, cwd, remote, slug, n, branch, force), branch),
        flow_land(t, cwd, remote, slug, n, branch, force) matches Flow::Asks(ActionView::Run(c))
            ==> is_push(c) ==> flow_check_open(t, cwd, slug, n) is Done,
        flow_land(t, cwd, remote, slug, n, branch, force) matches Flow::Done(r, _) ==> r
            == push_result(slug, n, true) || r == push_result(slug, n, false),
        flow_land(t, cwd, remote, slug, n, branch, force) matches Flow::Done(r, rest) ==> r
            == push_result(slug, n, true) ==> exists|seen: Seq<AnswerView>| #[trigger]
            left_of(seen, t) && is_verified(seen) && rest == seen.drop_first().drop_first(),
{
    law_open_means_github_says_so(t, cwd, slug, n);
    if let Flow::Done(_, t1) = flow_check_open(t, cwd, slug, n) {
        let more = seq!["--no-graph"@, "-T"@, "empty"@];
        lemma_log_is_no_push(cwd, "@"@, more);
        let look = spec_jj(cwd, seq!["log"@, "-r"@, "@"@] + more);
        lemma_run(t1, look, "failed to inspect working copy: "@, ""@);
        if let Flow::Done(empty, t2) = flow_run(
            t1,
            look,
            "failed to inspect working copy: "@,
            ""@,
        ) {
            lemma_left_on(t2, t1, t);
            if spec_trim(empty) == "true"@ {
                lemma_nothing_to_land(t2, cwd, slug, n, branch);
            } else {
                law_force_needs_the_lease(t2, cwd, remote, slug, n, branch);
                law_forward_needs_descent(t2, cwd, remote, n, branch);
                let pushed = if force {
                    flow_force_push(t2, cwd, remote, slug, n, branch)
                } else {
                    flow_forward_push(t2, cwd, remote, n, branch)
                };
                if let Flow::Done(_, t3) = pushed {
                    lemma_left_on(t3, t2, t);
                    law_verified_means_same_commit(t3, cwd, slug, branch);
                    if flow_verify_push(t3, cwd, slug, branch) is Done {
                        assert(left_of(t3, t) && is_verified(t3));
                    }
                }
            }
        }
    }
}

/// A result that says that a pull request was pushed.
pub open spec fn reports_push(r: RunResultView) -> bool {
    r.payload matches PayloadView::PrPushed { pushed, .. } && pushed
}

/// Advancing a pull request pushes nothing but the branch that was found to be its
/// own, which is no bookmark reserved for pull requests, and only after GitHub said
/// that the pull request is open. That it was pushed is reported only after GitHub
/// was seen to have the branch at the commit that it is at here.
pub proof fn law_pr_push(t: Seq<AnswerView>, args: PrPushArgsView)
    ensures
        flow_pr_push(t, args) matches Flow::Asks(ActionView::Run(c)) ==> is_push(c)
            ==> !spec_is_pr_bookmark(pushed_branch(c)) && (flow_here(t) matches Flow::Done(
            place,
            t1,
        ) && flow_target(t1, args, place.0, place.2) matches Flow::Done(target, t2)
            && pushed_branch(c) == target.1 && flow_check_open(
            t2,
            place.0,
            place.2,
            target.0,
        ) is Done),
        flow_pr_push(t, args) matches Flow::Done(r, rest) ==> reports_push(r) ==> exists|
            seen: Seq<AnswerView>,
        | #[trigger]
            left_of(seen, t) && is_verified(seen) && rest == seen.drop_first().drop_first(),
{
    lemma_here(t);
    if let Flow::Done(place, t1) = flow_here(t) {
        lemma_target(t1, args, place.0, place.2);
        if let Flow::Done(target, t2) = flow_target(t1, args, place.0, place.2) {
            lemma_left_on(t2, t1, t);
            if !spec_is_pr_bookmark(target.1) {
                let force = args.force_with_lease;
                law_land(t2, place.0, place.1, place.2, target.0, target.1, force);
                if let Flow::Done(r, rest) = flow_land(
                    t2,
                    place.0,
                    place.1,
                    place.2,
                    target.0,
                    target.1,
                    force,
                ) {
                    if reports_push(r) {
                        let seen = choose|seen: Seq<AnswerView>| #[trigger]
                            left_of(seen, t2) && is_verified(seen) && rest
                                == seen.drop_first().drop_first();
                        lemma_left_on(seen, t2, t);
                    }
                }
            }
        }
    }
}

/// Ensuring a pull request never pushes a bookmark that is reserved for pull
/// requests. It opens a pull request, or comes to an end, only after GitHub was seen
/// to have the branch at the commit that it is at here.
pub proof fn law_ensure_pr(t: Seq<AnswerView>, args: PrEnsureArgsView)
    ensures
        flow_ensure_pr(t, args) matches Flow::Asks(ActionView::Run(c)) ==> is_push(c)
            ==> !spec_is_pr_bookmark(pushed_branch(c)),
        flow_ensure_pr(t, args) is Done || (flow_ensure_pr(t, args) matches Flow::Asks(
            ActionView::Run(c),
        ) && opens_pr(c)) ==> exists|seen: Seq<AnswerView>| #[trigger]
            left_of(seen, t) && is_verified(seen),
{
    lemma_words();
    lemma_here(t);
    lemma_here_opens_no_pr(t);
    if let Flow::Done(place, t1) = flow_here(t) {
        let more = seq!["--no-graph"@, "-T"@, "bookmarks.map(|b| b.name()).join(\"\\n\")"@];
        lemma_log_is_no_push(place.0, "@"@, more);
        lemma_left_all(t1);
        lemma_run(
            t1,
            spec_jj(place.0, seq!["log"@, "-r"@, "@"@] + more),
            "failed to detect current jj bookmark: "@,
            ""@,
        );
        if let Flow::Done(branch, t2) = flow_branch(t1, place.0, args.branch) {
            lemma_left_on(t2, t1, t);
            if !spec_is_pr_bookmark(branch) {
                let inv = spec_jj(place.0, push_new_args(branch, place.1));
                assert(inv.args[3] == branch);
                let why = "failed to push branch `"@ + branch + "`: "@;
                lemma_run(t2, inv, why, ""@);
                if let Flow::Done(_, t3) = flow_run(t2, inv, why, ""@) {
                    lemma_left_on(t3, t2, t);
                    law_verified_means_same_commit(t3, place.0, place.2, branch);
                    lemma_verify_opens_no_pr(t3, place.0, place.2, branch);
                    if let Flow::Done(_, t4) = flow_verify_push(t3, place.0, place.2, branch) {
                        assert(left_of(t3, t) && is_verified(t3));
                        lemma_find_or_create(t4, place.0, place.2, branch, args);
                    }
                }
            }
        }
    }
}

/// A command that opens a pull request.
pub open spec fn opens_pr(c: CommandInvocationView) -> bool {
    c.program == "gh"@ && c.args.len() > 1 && c.args[0] == "pr"@ && c.args[1] == "create"@
}

proof fn lemma_here_opens_no_pr(t: Seq<AnswerView>)
    ensures
        !(flow_here(t) matches Flow::Asks(ActionView::Run(c)) && opens_pr(c)),
{
    lemma_words();
}

proof fn lemma_verify_opens_no_pr(
    t: Seq<AnswerView>,
    cwd: Seq<char>,
    slug: Seq<char>,
    branch: Seq<char>,
)
    ensures
        !(flow_verify_push(t, cwd, slug, branch) matches Flow::Asks(ActionView::Run(c))
            && opens_pr(c)),
{
    lemma_words();
    let c = spec_gh(cwd, head_args(slug, branch));
    assert(c.args[0] != "pr"@) by {
        reveal_strlit("pr");
        reveal_strlit("api");
        assert("pr"@[0] == 'p' && "api"@[0] == 'a');
    }
}

proof fn lemma_set_pr_bookmark(
    t: Seq<AnswerView>,
    cwd: Seq<char>,
    number: Option<u64>,
    branch: Seq<char>,
)
    ensures
        no_push(crate::pr::flow_set_pr_bookmark(t, cwd, number, branch)),
{
    if let Some(n) = number {
        lemma_bookmark_is_no_push(cwd, spec_pr_bookmark(n), seq!["-r"@, branch]);
        lemma_run(
            t,
            spec_jj(
                cwd,
                seq!["bookmark"@, "set"@, spec_pr_bookmark(n)] + seq!["-r"@, branch],
            ),
            "failed to set local bookmark `"@ + spec_pr_bookmark(n) + "`: "@,
            ""@,
        );
    }
}

proof fn lemma_find_or_create(
    t: Seq<AnswerView>,
    cwd: Seq<char>,
    slug: Seq<char>,
    branch: Seq<char>,
    args: PrEnsureArgsView,
)
    ensures
        no_push(crate::pr_ensure::flow_find_or_create(t, cwd, slug, branch, args)),
{
    let list = seq!["pr"@, "list"@, "-R"@, slug] + seq!["--head"@, branch, "--state"@, "open"@]
        + seq!["--json"@, "url"@];
    lemma_gh_is_no_push(cwd, list);
    lemma_run(t, spec_gh(cwd, list), "failed to check for existing PR: "@, ""@);
    if let Flow::Done(json, t1) = flow_run(
        t,
        spec_gh(cwd, list),
        "failed to check for existing PR: "@,
        ""@,
    ) {
        let prs = crate::pr_ensure::listed(json);
        let url = prs[0].text_at("url"@);
        if prs.len() == 1 && url is Some {
            lemma_set_pr_bookmark(t1, cwd, crate::pr::pr_number(url->0), branch);
        } else if prs.len() <= 1 {
            let body = crate::pr_ensure::flow_body_of(t1, args.body_file);
            if let Flow::Done(b, t2) = body {
                let create = crate::pr_ensure::create_args(
                    slug,
                    branch,
                    args.title,
                    args.body,
                    b.0,
                    args.draft,
                );
                lemma_gh_is_no_push(cwd, create);
                lemma_run(t2, spec_gh(cwd, create), "failed to create PR: "@, ""@);
                if let Flow::Done(out, t3) = flow_run(
                    t2,
                    spec_gh(cwd, create),
                    "failed to create PR: "@,
                    ""@,
                ) {
                    if let Flow::Done(_, t4) = crate::pr_ensure::flow_remove_temp(t3, b.1) {
                        lemma_set_pr_bookmark(
                            t4,
                            cwd,
                            crate::pr::pr_number(spec_trim(out)),
                            branch,
                        );
                    }
                }
            }
        }
    }
}

} // verus!
