//! The block of ignore patterns that keeps infrastructure files out of a
//! workspace's commits.

use vstd::prelude::*;
use vstd::slice::slice_subrange;

use crate::flow::{
    ask_done, ask_flag, ask_text, follows, Action, ActionView, AnswerView, Content, ContentView,
    Flow, IoFaultView, Stop, Tape,
};
use crate::paths::{path_join, spec_path_join};
use crate::pool_gc::warn;
use crate::text::{
    cat, find_chars, from_chars, lemma_find, same, spec_find, spec_starts, stands_at, starts,
    to_chars,
};

verus! {

/// The line that opens the block.
pub open spec fn begin_mark() -> Seq<char> {
    "# >>> boss-internal infra (managed by cube) >>>"@
}

/// The line that closes the block.
pub open spec fn end_mark() -> Seq<char> {
    "# <<< boss-internal infra (managed by cube) <<<"@
}

/// The block up to the name of the workspace.
pub open spec fn block_head() -> Seq<char> {
    begin_mark()
        + "\n# Keeps Boss/host infra files out of the worker's jj snapshot so they\n"@
        + "# never land in a PR (issue #1174). cube rewrites this block on every\n"@
        + "# lease; edit patterns above/below it, not inside.\n"@ + ".boss/\n/logs/"@
}

/// The block for a workspace.
pub open spec fn exclude_block(workspace_id: Seq<char>) -> Seq<char> {
    block_head() + workspace_id + ".log\n"@ + end_mark() + "\n"@
}

pub fn render_boss_infra_exclude_block(workspace_id: &str) -> (r: String)
    ensures
        r@ == exclude_block(workspace_id@),
{
    let head: String = cat(
        cat(
            cat(
                cat(
                    "# >>> boss-internal infra (managed by cube) >>>".to_string(),
                    "\n# Keeps Boss/host infra files out of the worker's jj snapshot so they\n",
                ),
                "# never land in a PR (issue #1174). cube rewrites this block on every\n",
            ),
            "# lease; edit patterns above/below it, not inside.\n",
        ),
        ".boss/\n/logs/",
    );
    cat(
        cat(
            cat(cat(head, workspace_id), ".log\n"),
            "# <<< boss-internal infra (managed by cube) <<<",
        ),
        "\n",
    )
}

/// Where the text behind the closing mark at `i` begins: a line feed right behind
/// the mark belongs to the block.
pub open spec fn tail_start(existing: Seq<char>, i: int) -> int {
    let end = i + end_mark().len();
    if end < existing.len() && existing[end] == '\n' {
        end + 1
    } else {
        end
    }
}

/// The text carries the block as it is: a block begins with the opening mark.
pub open spec fn carries(existing: Seq<char>, block: Seq<char>) -> bool {
    spec_starts(block, begin_mark()) && spec_find(existing, block, 0) is Some
}

/// Where the block to replace begins, and where its closing mark stands: the first
/// opening mark, and the first closing mark behind it.
pub open spec fn marked(existing: Seq<char>) -> Option<(int, int)> {
    match spec_find(existing, begin_mark(), 0) {
        None => None,
        Some(start) => match spec_find(existing, end_mark(), start) {
            None => None,
            Some(end) => Some((start, end)),
        },
    }
}

/// The text as it is where it carries the block; else with the block put in place of
/// what stands between the marks, or put behind it on a line of its own where it has
/// not both marks.
pub open spec fn spec_upsert(existing: Seq<char>, block: Seq<char>) -> Seq<char> {
    if carries(existing, block) {
        existing
    } else {
        match marked(existing) {
            Some((start, end)) => existing.subrange(0, start) + block + existing.subrange(
                tail_start(existing, end),
                existing.len() as int,
            ),
            None => on_own_line(existing) + block,
        }
    }
}

/// The text with a line feed behind it, unless it is empty or has one.
pub open spec fn on_own_line(existing: Seq<char>) -> Seq<char> {
    if existing.len() > 0 && existing.last() != '\n' {
        existing.push('\n')
    } else {
        existing
    }
}

pub fn upsert_managed_exclude(existing: &str, block: &str) -> (r: String)
    ensures
        r@ == spec_upsert(existing@, block@),
{
    let v: Vec<char> = to_chars(existing);
    let begin: Vec<char> = to_chars("# >>> boss-internal infra (managed by cube) >>>");
    let end: Vec<char> = to_chars("# <<< boss-internal infra (managed by cube) <<<");
    let wanted: Vec<char> = to_chars(block);
    let n: usize = v.len();
    if starts(block, "# >>> boss-internal infra (managed by cube) >>>") {
        if find_chars(v.as_slice(), wanted.as_slice(), 0).is_some() {
            return existing.to_string();
        }
    }
    proof {
        lemma_find(existing@, begin_mark(), 0);
    }
    if let Some(start) = find_chars(v.as_slice(), begin.as_slice(), 0) {
        assert(stands_at(existing@, begin_mark(), start as int));
        proof {
            lemma_find(existing@, end_mark(), start as int);
        }
        if let Some(mark) = find_chars(v.as_slice(), end.as_slice(), start) {
            assert(stands_at(existing@, end_mark(), mark as int));
            let stop: usize = mark + end.len();
            let tail: usize = if stop < n && v[stop] == '\n' {
                stop + 1
            } else {
                stop
            };
            let head: String = from_chars(slice_subrange(v.as_slice(), 0, start));
            let rest: String = from_chars(slice_subrange(v.as_slice(), tail, n));
            return cat(cat(head, block), rest.as_str());
        }
    }
    let mut out: String = existing.to_string();
    if n > 0 && v[n - 1] != '\n' {
        out.push('\n');
    }
    cat(out, block)
}

/// What is warned of where the exclude file cannot be dealt with.
pub open spec fn guard_warning(what: Seq<char>, path: Seq<char>, cause: Seq<char>) -> Seq<char> {
    "warning: cube could not "@ + what + " "@ + path + " for the Boss-infra exclude guard: "@
        + cause
}

fn guard_text(what: &str, path: &str, cause: &str) -> (r: String)
    ensures
        r@ == guard_warning(what@, path@, cause@),
{
    cat(
        cat(
            cat(cat(cat("warning: cube could not ".to_string(), what), " "), path),
            " for the Boss-infra exclude guard: ",
        ),
        cause,
    )
}

/// Writes the exclude file where the block is not in it as it should be.
pub open spec fn flow_rewrite(
    t: Seq<AnswerView>,
    file: Seq<char>,
    existing: Seq<char>,
    workspace_id: Seq<char>,
) -> Flow<()> {
    let next = spec_upsert(existing, exclude_block(workspace_id));
    if next == existing {
        Flow::Done((), t)
    } else {
        ask_done(t, ActionView::WriteFile { path: file, text: next }).and(
            |fault: Option<IoFaultView>, t: Seq<AnswerView>|
                match fault {
                    None => Flow::Done((), t),
                    Some(f) => warn(t, guard_warning("write"@, file, f.text)),
                },
        )
    }
}

fn rewrite(tape: &mut Tape, file: &str, existing: &str, workspace_id: &str) -> (r: Result<
    (),
    Stop,
>)
    ensures
        follows(
            r,
            final(tape)@,
            flow_rewrite(old(tape)@, file@, existing@, workspace_id@),
        ),
{
    let block: String = render_boss_infra_exclude_block(workspace_id);
    let next: String = upsert_managed_exclude(existing, block.as_str());
    if same(next.as_str(), existing) {
        return Ok(());
    }
    match tape.ask_done(Action::WriteFile { path: file.to_string(), text: next })? {
        None => Ok(()),
        Some(f) => tape.ask_ack(Action::Warn(guard_text("write", file, f.text.as_str()))),
    }
}

/// Sees to it that the exclude file of a workspace with a git repository holds the
/// block. Nothing that goes wrong here is an error.
pub open spec fn flow_ensure_excluded(
    t: Seq<AnswerView>,
    path: Seq<char>,
    workspace_id: Seq<char>,
) -> Flow<()> {
    let git = spec_path_join(path, ".git"@);
    let info = spec_path_join(git, "info"@);
    let file = spec_path_join(info, "exclude"@);
    ask_flag(t, ActionView::IsDir(git)).and(
        |there: bool, t: Seq<AnswerView>|
            if !there {
                Flow::Done((), t)
            } else {
                ask_done(t, ActionView::CreateDirs(info)).and(
                    |fault: Option<IoFaultView>, t: Seq<AnswerView>|
                        match fault {
                            Some(f) => warn(t, guard_warning("create"@, info, f.text)),
                            None => ask_text(t, ActionView::ReadFile(file)).and(
                                |content: ContentView, t: Seq<AnswerView>|
                                    match content {
                                        ContentView::Text(body) => flow_rewrite(
                                            t,
                                            file,
                                            body,
                                            workspace_id,
                                        ),
                                        ContentView::Fault(f) => if f.not_found {
                                            flow_rewrite(t, file, ""@, workspace_id)
                                        } else {
                                            warn(t, guard_warning("read"@, file, f.text))
                                        },
                                    },
                            ),
                        },
                )
            },
    )
}

pub fn ensure_boss_infra_excluded(tape: &mut Tape, path: &str, workspace_id: &str) -> (r: Result<
    (),
    Stop,
>)
    ensures
        follows(r, final(tape)@, flow_ensure_excluded(old(tape)@, path@, workspace_id@)),
{
    let git: String = path_join(path, ".git");
    let there: bool = tape.ask_flag(Action::IsDir(git.clone()))?;
    if !there {
        return Ok(());
    }
    let info: String = path_join(git.as_str(), "info");
    match tape.ask_done(Action::CreateDirs(info.clone()))? {
        None => {},
        Some(f) => {
            return tape.ask_ack(
                Action::Warn(guard_text("create", info.as_str(), f.text.as_str())),
            );
        },
    }
    let file: String = path_join(info.as_str(), "exclude");
    match tape.ask_text(Action::ReadFile(file.clone()))? {
        Content::Text(body) => rewrite(tape, file.as_str(), body.as_str(), workspace_id),
        Content::Fault(f) => {
            if f.not_found {
                rewrite(tape, file.as_str(), "", workspace_id)
            } else {
                tape.ask_ack(
                    Action::Warn(guard_text("read", file.as_str(), f.text.as_str())),
                )
            }
        },
    }
}

} // verus!
