//! The commands on repositories: resolving a name or an origin, cloning, and
//! registering.

use vstd::prelude::*;
use vstd::slice::slice_subrange;

use crate::command_runner::{command, spec_command, CommandInvocation};
use crate::error::{CubeError, CubeErrorView};
use crate::flow::{
    ask_ack, ask_done, ask_flag, ask_output, follows, Action, ActionView, AnswerView, Flow,
    IoFaultView, Stop, Tape,
};
use crate::git::{without_git, without_slashes};
use crate::jj::{jj, spec_jj};
use crate::outside::{shell_split, shell_words};
use crate::paths::{parent, spec_parent};
use crate::pool::{flow_track, track_remote_bookmarks};
use crate::pool_gc::warn;
use crate::records::{RepoRecord, RepoRecordView};
use crate::split::{lines, spec_lines, spec_words, words};
use crate::text::{
    cat, copy, from_chars, list3, list4, spec_strip_prefix, spec_trim, spec_trim_start,
    strip_prefix, strip_suffix, to_chars, trim, trim_start,
};

verus! {

// ---------------------------------------------------------------------------
// Ids
// ---------------------------------------------------------------------------

/// A lowercase letter of the English alphabet or a digit.
pub open spec fn is_id_char(c: char) -> bool {
    ('a' <= c && c <= 'z') || ('0' <= c && c <= '9')
}

pub open spec fn is_upper(c: char) -> bool {
    'A' <= c && c <= 'Z'
}

/// The lowercase letter for an uppercase one.
pub open spec fn lower_letter(c: char) -> char {
    ((c as u8) + 32) as char
}

/// What separates the words of an id.
pub open spec fn is_separator(c: char) -> bool {
    c == '-' || c == '_' || c == '.'
}

/// Letters in lowercase and digits, with one dash for each run of separators; all
/// else is left out.
pub open spec fn dashed(raw: Seq<char>) -> Seq<char>
    decreases raw.len(),
{
    if raw.len() == 0 {
        Seq::empty()
    } else {
        let before = dashed(raw.drop_last());
        let c = raw.last();
        if is_id_char(c) {
            before.push(c)
        } else if is_upper(c) {
            before.push(lower_letter(c))
        } else if is_separator(c) && !(before.len() > 0 && before.last() == '-') {
            before.push('-')
        } else {
            before
        }
    }
}

/// `s` without the dashes in front.
pub open spec fn without_front_dashes(s: Seq<char>) -> Seq<char>
    decreases s.len(),
{
    if s.len() > 0 && s[0] == '-' {
        without_front_dashes(s.drop_first())
    } else {
        s
    }
}

/// `s` without the dashes behind.
pub open spec fn without_end_dashes(s: Seq<char>) -> Seq<char>
    decreases s.len(),
{
    if s.len() > 0 && s.last() == '-' {
        without_end_dashes(s.drop_last())
    } else {
        s
    }
}

/// The id made of a name.
pub open spec fn spec_sanitize(raw: Seq<char>) -> Seq<char> {
    without_end_dashes(without_front_dashes(dashed(raw)))
}

pub fn sanitize_repo_id(raw: &str) -> (r: String)
    ensures
        r@ == spec_sanitize(raw@),
{
    let v: Vec<char> = to_chars(raw);
    let mut out: Vec<char> = Vec::new();
    let mut i: usize = 0;
    while i < v.len()
        invariant
            i <= v@.len(),
            v@ == raw@,
            out@ == dashed(raw@.subrange(0, i as int)),
        decreases v@.len() - i,
    {
        let c: char = v[i];
        proof {
            assert(raw@.subrange(0, i + 1).last() == c);
            assert(raw@.subrange(0, i + 1).drop_last() =~= raw@.subrange(0, i as int));
        }
        let n: usize = out.len();
        if ('a' <= c && c <= 'z') || ('0' <= c && c <= '9') {
            out.push(c);
        } else if 'A' <= c && c <= 'Z' {
            out.push(((c as u8) + 32) as char);
        } else if (c == '-' || c == '_' || c == '.') && !(n > 0 && out[n - 1] == '-') {
            out.push('-');
        }
        i += 1;
    }
    assert(raw@.subrange(0, i as int) =~= raw@);
    let all: &[char] = out.as_slice();
    let mut start: usize = 0;
    assert(all@.subrange(0, all@.len() as int) =~= all@);
    while start < all.len() && all[start] == '-'
        invariant
            start <= all@.len(),
            without_front_dashes(all@) == without_front_dashes(
                all@.subrange(start as int, all@.len() as int),
            ),
        decreases all@.len() - start,
    {
        assert(all@.subrange(start as int, all@.len() as int).drop_first() =~= all@.subrange(
            start + 1,
            all@.len() as int,
        ));
        start += 1;
    }
    let rest: &[char] = slice_subrange(all, start, all.len());
    let mut end: usize = rest.len();
    assert(rest@.subrange(0, rest@.len() as int) =~= rest@);
    while end > 0 && rest[end - 1] == '-'
        invariant
            end <= rest@.len(),
            without_end_dashes(rest@) == without_end_dashes(rest@.subrange(0, end as int)),
        decreases end,
    {
        assert(rest@.subrange(0, end as int).drop_last() =~= rest@.subrange(0, end - 1));
        end -= 1;
    }
    from_chars(slice_subrange(rest, 0, end))
}

/// What follows the last slash or colon.
pub open spec fn last_piece(s: Seq<char>) -> Seq<char>
    decreases s.len(),
{
    if s.len() == 0 || s.last() == '/' || s.last() == ':' {
        Seq::empty()
    } else {
        last_piece(s.drop_last()).push(s.last())
    }
}

/// The id of the repository at an origin: its last name, without `.git`.
pub open spec fn spec_repo_id(origin: Seq<char>) -> Seq<char> {
    spec_sanitize(without_git(last_piece(without_slashes(spec_trim(origin)))))
}

fn tail_piece(s: &str) -> (r: String)
    ensures
        r@ == last_piece(without_slashes(s@)),
{
    let v: Vec<char> = to_chars(s);
    let mut n: usize = v.len();
    assert(v@.subrange(0, v@.len() as int) =~= v@);
    while n > 0 && v[n - 1] == '/'
        invariant
            n <= v@.len(),
            v@ == s@,
            without_slashes(v@) == without_slashes(v@.subrange(0, n as int)),
        decreases n,
    {
        assert(v@.subrange(0, n as int).drop_last() =~= v@.subrange(0, n - 1));
        n -= 1;
    }
    let ghost bare = v@.subrange(0, n as int);
    let mut i: usize = n;
    assert(last_piece(bare) + Seq::<char>::empty() =~= last_piece(bare));
    assert(v@.subrange(n as int, n as int) =~= Seq::<char>::empty());
    while i > 0 && v[i - 1] != '/' && v[i - 1] != ':'
        invariant
            i <= n <= v@.len(),
            bare == v@.subrange(0, n as int),
            last_piece(bare) == last_piece(v@.subrange(0, i as int)) + v@.subrange(
                i as int,
                n as int,
            ),
        decreases i,
    {
        proof {
            let front = v@.subrange(0, i as int);
            assert(front.drop_last() =~= v@.subrange(0, i - 1));
            assert(last_piece(front.drop_last()).push(front.last()) + v@.subrange(
                i as int,
                n as int,
            ) =~= last_piece(v@.subrange(0, i - 1)) + v@.subrange(i - 1, n as int));
        }
        i -= 1;
    }
    proof {
        assert(last_piece(v@.subrange(0, i as int)) =~= Seq::<char>::empty());
        assert(Seq::<char>::empty() + v@.subrange(i as int, n as int) =~= v@.subrange(
            i as int,
            n as int,
        ));
    }
    from_chars(slice_subrange(v.as_slice(), i, n))
}

pub open spec fn no_id_error(origin: Seq<char>) -> CubeErrorView {
    CubeErrorView::InvalidArgument(
        "could not infer repo id from origin `"@ + origin + "`"@,
    )
}

/// The id of the repository at an origin; an origin that names none is an error.
pub fn repo_id_from_origin(origin: &str) -> (r: Result<String, CubeError>)
    ensures
        match r {
            Ok(id) => id@ == spec_repo_id(origin@) && id@.len() > 0,
            Err(e) => spec_repo_id(origin@).len() == 0 && e.deep_view() == no_id_error(origin@),
        },
{
    let bare: String = trim(origin);
    let tail: String = tail_piece(bare.as_str());
    let name: String = match strip_suffix(tail.as_str(), ".git") {
        Some(rest) => rest,
        None => tail,
    };
    let id: String = sanitize_repo_id(name.as_str());
    if id.as_str().is_empty() {
        Err(
            CubeError::InvalidArgument(
                cat(cat("could not infer repo id from origin `".to_string(), origin), "`"),
            ),
        )
    } else {
        Ok(id)
    }
}

/// The origin without the whitespace round it; nothing else is an error.
pub fn normalize_origin(origin: &str) -> (r: Result<String, CubeError>)
    ensures
        match r {
            Ok(s) => s@ == spec_trim(origin@) && s@.len() > 0,
            Err(e) => spec_trim(origin@).len() == 0 && e.deep_view()
                == CubeErrorView::InvalidArgument("origin must not be empty"@),
        },
{
    let bare: String = trim(origin);
    if bare.as_str().is_empty() {
        Err(CubeError::InvalidArgument("origin must not be empty".to_string()))
    } else {
        Ok(bare)
    }
}

// ---------------------------------------------------------------------------
// The default branch
// ---------------------------------------------------------------------------

/// The branch that a line of `git ls-remote --symref` says the remote's head is.
pub open spec fn symref_on_line(line: Seq<char>) -> Option<Seq<char>> {
    match spec_strip_prefix(spec_trim(line), "ref:"@) {
        None => None,
        Some(rest) => match spec_strip_prefix(spec_trim_start(rest), "refs/heads/"@) {
            None => None,
            Some(rest) => if spec_words(rest).len() > 0 {
                Some(spec_words(rest)[0])
            } else {
                None
            },
        },
    }
}

/// The branch on the first line that names one.
pub open spec fn symref_in(all: Seq<Seq<char>>) -> Option<Seq<char>>
    decreases all.len(),
{
    if all.len() == 0 {
        None
    } else if symref_on_line(all[0]) is Some {
        symref_on_line(all[0])
    } else {
        symref_in(all.drop_first())
    }
}

fn symref_of(line: &str) -> (r: Option<String>)
    ensures
        r.deep_view() == symref_on_line(line@),
{
    let bare: String = trim(line);
    if let Some(rest) = strip_prefix(bare.as_str(), "ref:") {
        let rest: String = trim_start(rest.as_str());
        if let Some(rest) = strip_prefix(rest.as_str(), "refs/heads/") {
            let mut found: Vec<String> = words(rest.as_str());
            if found.len() > 0 {
                assert(found.deep_view()[0] == found@[0]@);
                return Some(found.remove(0));
            }
        }
    }
    None
}

pub fn parse_symref_default_branch(output: &str) -> (r: Option<String>)
    ensures
        r.deep_view() == symref_in(spec_lines(output@)),
{
    let all: Vec<String> = lines(output);
    let ghost whole = all.deep_view();
    let mut i: usize = 0;
    assert(whole.subrange(0, whole.len() as int) =~= whole);
    while i < all.len()
        invariant
            i <= all@.len(),
            whole == all.deep_view(),
            whole == spec_lines(output@),
            symref_in(whole.subrange(i as int, whole.len() as int)) == symref_in(whole),
        decreases all@.len() - i,
    {
        proof {
            let rest = whole.subrange(i as int, whole.len() as int);
            assert(rest[0] == all@[i as int]@);
            assert(rest.drop_first() =~= whole.subrange(i + 1, whole.len() as int));
        }
        let found: Option<String> = symref_of(all[i].as_str());
        if found.is_some() {
            return found;
        }
        i += 1;
    }
    None
}

/// Asks the remote for its default branch; whatever goes wrong, it is then not
/// known.
pub open spec fn flow_detect(t: Seq<AnswerView>, cwd: Seq<char>, origin: Seq<char>) -> Flow<
    Option<Seq<char>>,
> {
    match ask_output(
        t,
        ActionView::Run(
            spec_command(cwd, "git"@, seq!["ls-remote"@, "--symref"@, origin, "HEAD"@]),
        ),
    ) {
        Flow::Done(output, t) => Flow::Done(symref_in(spec_lines(output)), t),
        Flow::Failed(_, t) => Flow::Done(None, t),
        Flow::Asks(a) => Flow::Asks(a),
    }
}

pub fn detect_remote_default_branch(tape: &mut Tape, cwd: &str, origin: &str) -> (r: Result<
    Option<String>,
    Stop,
>)
    ensures
        follows(r, final(tape)@, flow_detect(old(tape)@, cwd@, origin@)),
{
    match tape.ask_output(
        Action::Run(command(cwd, "git", list4("ls-remote", "--symref", origin, "HEAD"))),
    ) {
        Ok(output) => Ok(parse_symref_default_branch(output.as_str())),
        Err(Stop::Fail(_)) => Ok(None),
        Err(stop) => Err(stop),
    }
}

// ---------------------------------------------------------------------------
// Cloning
// ---------------------------------------------------------------------------

/// `` resolver clone_command `<command>`<rest> ``
pub open spec fn clone_error(command: Seq<char>, rest: Seq<char>) -> CubeErrorView {
    CubeErrorView::InvalidArgument("resolver clone_command `"@ + command + "`"@ + rest)
}

fn clone_failure(command: &str, rest: &str) -> (r: CubeError)
    ensures
        r.deep_view() == clone_error(command@, rest@),
{
    CubeError::InvalidArgument(
        cat(cat(cat("resolver clone_command `".to_string(), command), "`"), rest),
    )
}

/// The program and the arguments of a clone command, from its words.
pub open spec fn clone_plan_of(
    command: Seq<char>,
    words: Option<Seq<Seq<char>>>,
) -> Result<(Seq<char>, Seq<Seq<char>>), CubeErrorView> {
    match words {
        None => Err(clone_error(command, " is not a parseable shell command"@)),
        Some(w) => if w.len() == 0 {
            Err(clone_error(command, " is empty"@))
        } else {
            Ok((w[0], w.drop_first()))
        },
    }
}

/// Takes the words of a clone command apart.
pub fn clone_plan(command: &str, words: Option<Vec<String>>) -> (r: Result<
    (String, Vec<String>),
    CubeError,
>)
    ensures
        match r {
            Ok(plan) => clone_plan_of(command@, words.deep_view()) == Ok::<
                (Seq<char>, Seq<Seq<char>>),
                CubeErrorView,
            >((plan.0@, plan.1.deep_view())),
            Err(e) => clone_plan_of(command@, words.deep_view()) == Err::<
                (Seq<char>, Seq<Seq<char>>),
                CubeErrorView,
            >(e.deep_view()),
        },
{
    let mut words: Vec<String> = match words {
        None => {
            return Err(clone_failure(command, " is not a parseable shell command"));
        },
        Some(words) => words,
    };
    if words.len() == 0 {
        return Err(clone_failure(command, " is empty"));
    }
    let ghost all = words.deep_view();
    let ghost whole = words@;
    let program: String = words.remove(0);
    proof {
        assert(all[0] == whole[0]@);
        assert forall|i: int| 0 <= i < words@.len() implies #[trigger] words.deep_view()[i]
            == all.drop_first()[i] by {
            assert(words@[i] == whole[i + 1]);
        }
        assert(words.deep_view() =~= all.drop_first());
    }
    Ok((program, words))
}

/// The failure of the clone command itself.
pub open spec fn clone_blame(command: Seq<char>, e: CubeErrorView) -> CubeErrorView {
    match e {
        CubeErrorView::CommandFailed { stderr, .. } => clone_error(
            command,
            " failed: "@ + stderr,
        ),
        other => other,
    }
}

/// The failure for a clone program that is not there.
pub open spec fn no_program(program: Seq<char>, command: Seq<char>) -> CubeErrorView {
    CubeErrorView::InvalidArgument(
        "`"@ + program + "` (from resolver clone_command `"@ + command
            + "`) is not on PATH; install it or fix the resolver in your cube config"@,
    )
}

/// Clones with the resolver's own command, and lays jj over the result.
pub open spec fn flow_clone_by_command(
    t: Seq<AnswerView>,
    record: RepoRecordView,
    clone: Seq<char>,
    source: Seq<char>,
    dir: Seq<char>,
) -> Flow<Option<Seq<char>>> {
    match clone_plan_of(clone, shell_words(clone)) {
        Err(e) => Flow::Failed(e, t),
        Ok((program, args)) => ask_flag(t, ActionView::OnPath(program)).and(
            |there: bool, t: Seq<AnswerView>|
                if !there {
                    Flow::Failed(no_program(program, clone), t)
                } else {
                    warn(t, "cube: using `"@ + clone + "` to clone repo `"@ + record.repo + "`"@).and(
                        |u: (), t: Seq<AnswerView>|
                            ask_output(t, ActionView::Run(spec_command(dir, program, args))).blame(
                                |e: CubeErrorView| clone_blame(clone, e),
                            ).and(
                                |o: Seq<char>, t: Seq<AnswerView>|
                                    flow_colocate_clone(t, source, record.origin),
                            ),
                    )
                },
        ),
    }
}

pub open spec fn flow_colocate_clone(
    t: Seq<AnswerView>,
    source: Seq<char>,
    origin: Seq<char>,
) -> Flow<Option<Seq<char>>> {
    warn(t, "cube: running `jj git init --colocate` in "@ + source).and(
        |u: (), t: Seq<AnswerView>|
            ask_output(
                t,
                ActionView::Run(spec_jj(source, seq!["git"@, "init"@, "--colocate"@])),
            ).and(|o: Seq<char>, t: Seq<AnswerView>| flow_detect(t, source, origin)),
    )
}

fn clone_by_command(
    tape: &mut Tape,
    record: &RepoRecord,
    clone: &str,
    source: &str,
    dir: &str,
) -> (r: Result<Option<String>, Stop>)
    ensures
        follows(
            r,
            final(tape)@,
            flow_clone_by_command(old(tape)@, record.deep_view(), clone@, source@, dir@),
        ),
{
    let plan: (String, Vec<String>) = match clone_plan(clone, shell_split(clone)) {
        Ok(plan) => plan,
        Err(e) => {
            return Err(Stop::Fail(e));
        },
    };
    let there: bool = tape.ask_flag(Action::OnPath(copy(&plan.0)))?;
    if !there {
        return Err(
            Stop::Fail(
                CubeError::InvalidArgument(
                    cat(
                        cat(
                            cat(
                                cat("`".to_string(), plan.0.as_str()),
                                "` (from resolver clone_command `",
                            ),
                            clone,
                        ),
                        "`) is not on PATH; install it or fix the resolver in your cube config",
                    ),
                ),
            ),
        );
    }
    let head: String = cat(
        cat("cube: using `".to_string(), clone),
        "` to clone repo `",
    );
    tape.ask_ack(Action::Warn(cat(cat(head, record.repo.as_str()), "`")))?;
    let inv: CommandInvocation = CommandInvocation {
        cwd: dir.to_string(),
        program: plan.0,
        args: plan.1,
    };
    match tape.ask_output(Action::Run(inv)) {
        Ok(_) => {},
        Err(Stop::Fail(CubeError::CommandFailed { stderr, program, args, status })) => {
            return Err(
                Stop::Fail(
                    clone_failure(
                        clone,
                        cat(" failed: ".to_string(), stderr.as_str()).as_str(),
                    ),
                ),
            );
        },
        Err(stop) => {
            return Err(stop);
        },
    }
    tape.ask_ack(
        Action::Warn(cat("cube: running `jj git init --colocate` in ".to_string(), source)),
    )?;
    tape.ask_output(Action::Run(jj(source, list3("git", "init", "--colocate"))))?;
    detect_remote_default_branch(tape, source, record.origin.as_str())
}

/// Clones with `jj`, and makes the default branches local.
pub open spec fn flow_clone_by_jj(
    t: Seq<AnswerView>,
    record: RepoRecordView,
    source: Seq<char>,
    dir: Seq<char>,
) -> Flow<Option<Seq<char>>> {
    warn(t, "cube: using `jj git clone` for repo `"@ + record.repo + "`"@).and(
        |u: (), t: Seq<AnswerView>|
            flow_detect(t, dir, record.origin).and(
                |branch: Option<Seq<char>>, t: Seq<AnswerView>|
                    ask_output(
                        t,
                        ActionView::Run(
                            spec_jj(dir, seq!["git"@, "clone"@, record.origin, source]),
                        ),
                    ).and(
                        |o: Seq<char>, t: Seq<AnswerView>|
                            flow_track(t, source, branch).and(
                                |u: (), t: Seq<AnswerView>| Flow::Done(branch, t),
                            ),
                    ),
            ),
    )
}

fn clone_by_jj(tape: &mut Tape, record: &RepoRecord, source: &str, dir: &str) -> (r: Result<
    Option<String>,
    Stop,
>)
    ensures
        follows(
            r,
            final(tape)@,
            flow_clone_by_jj(old(tape)@, record.deep_view(), source@, dir@),
        ),
{
    tape.ask_ack(
        Action::Warn(
            cat(
                cat(
                    "cube: using `jj git clone` for repo `".to_string(),
                    record.repo.as_str(),
                ),
                "`",
            ),
        ),
    )?;
    let branch: Option<String> = detect_remote_default_branch(
        tape,
        dir,
        record.origin.as_str(),
    )?;
    tape.ask_output(
        Action::Run(jj(dir, list4("git", "clone", record.origin.as_str(), source))),
    )?;
    track_remote_bookmarks(tape, source, &branch)?;
    Ok(branch)
}

/// Clones the repository to where its record says, where it is not there yet, and
/// tells the default branch that was found on the way.
pub open spec fn flow_materialize(t: Seq<AnswerView>, record: RepoRecordView) -> Flow<
    Option<Seq<char>>,
> {
    match record.source {
        None => Flow::Done(None, t),
        Some(source) => ask_flag(t, ActionView::Exists(source)).and(
            |there: bool, t: Seq<AnswerView>|
                if there {
                    ask_flag(t, ActionView::IsDir(source)).and(
                        |dir: bool, t: Seq<AnswerView>|
                            if dir {
                                Flow::Done(None, t)
                            } else {
                                Flow::Failed(
                                    CubeErrorView::InvalidArgument(
                                        "source path "@ + source
                                            + " exists and is not a directory"@,
                                    ),
                                    t,
                                )
                            },
                    )
                } else {
                    flow_clone_into(t, record, source)
                },
        ),
    }
}

pub open spec fn flow_clone_into(t: Seq<AnswerView>, record: RepoRecordView, source: Seq<char>) -> Flow<
    Option<Seq<char>>,
> {
    match spec_parent(source) {
        None => Flow::Failed(
            CubeErrorView::InvalidArgument(
                "cannot infer parent directory for source path "@ + source,
            ),
            t,
        ),
        Some(dir) => ask_done(t, ActionView::CreateDirs(dir)).and(
            |fault: Option<IoFaultView>, t: Seq<AnswerView>|
                match fault {
                    Some(f) => Flow::Failed(
                        CubeErrorView::RepoSourceDirCreate { path: dir, source: f.text },
                        t,
                    ),
                    None => match record.clone_command {
                        Some(clone) => flow_clone_by_command(t, record, clone, source, dir),
                        None => flow_clone_by_jj(t, record, source, dir),
                    },
                },
        ),
    }
}

pub fn materialize_repo_source_if_missing(tape: &mut Tape, record: &RepoRecord) -> (r: Result<
    Option<String>,
    Stop,
>)
    ensures
        follows(r, final(tape)@, flow_materialize(old(tape)@, record.deep_view())),
{
    let source: &str = match &record.source {
        None => {
            return Ok(None);
        },
        Some(source) => source.as_str(),
    };
    let there: bool = tape.ask_flag(Action::Exists(source.to_string()))?;
    if there {
        let dir: bool = tape.ask_flag(Action::IsDir(source.to_string()))?;
        if dir {
            return Ok(None);
        }
        return Err(
            Stop::Fail(
                CubeError::InvalidArgument(
                    cat(
                        cat("source path ".to_string(), source),
                        " exists and is not a directory",
                    ),
                ),
            ),
        );
    }
    let dir: String = match parent(source) {
        Some(dir) => dir,
        None => {
            return Err(
                Stop::Fail(
                    CubeError::InvalidArgument(
                        cat(
                            "cannot infer parent directory for source path ".to_string(),
                            source,
                        ),
                    ),
                ),
            );
        },
    };
    match tape.ask_done(Action::CreateDirs(copy(&dir)))? {
        None => {},
        Some(f) => {
            return Err(
                Stop::Fail(CubeError::RepoSourceDirCreate { path: dir, source: f.text }),
            );
        },
    }
    match &record.clone_command {
        Some(clone) => clone_by_command(tape, record, clone.as_str(), source, dir.as_str()),
        None => clone_by_jj(tape, record, source, dir.as_str()),
    }
}

} // verus!
