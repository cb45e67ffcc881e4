//! What a reader is shown: lists, details, times and errors.

use vstd::prelude::*;

use crate::audit::{day_text, spec_iso8601, stamped, with_field};
use crate::calendar::{month_len, two_digits};
use crate::error::CubeErrorView;
use crate::events::{AuditEventView, FieldValueView};
use crate::laws::log::{field, law_fields_are_found};
use crate::number::spec_signed;
use crate::records::{
    effective_name, ChangeRecordView, EffectiveState, RepoRecordView, WorkspaceHealth,
    WorkspaceRecordView, WorkspaceState,
};
use crate::render::{
    detail, joined, maybe_detail, name_width, repo_line, repo_width, root_width, spec_abbreviate,
    spec_change_detail, spec_pad_right, spec_repo_detail, spec_workspace_detail, state_style,
    state_width, width, workspace_line, workspace_lines,
};
use crate::report::{unstyled, SpanView, Style};
use crate::split::spec_join;

verus! {

// ---------------------------------------------------------------------------
// Lines
// ---------------------------------------------------------------------------

/// The text of one list behind another.
proof fn lemma_unstyled(a: Seq<SpanView>, b: Seq<SpanView>)
    ensures
        unstyled(a + b) == unstyled(a) + unstyled(b),
    decreases b.len(),
{
    if b.len() == 0 {
        assert(a + b =~= a);
        assert(unstyled(a) + Seq::<char>::empty() =~= unstyled(a));
    } else {
        lemma_unstyled(a, b.drop_last());
        assert((a + b).drop_last() =~= a + b.drop_last());
        assert(unstyled(a + b) =~= unstyled(a) + unstyled(b));
    }
}

proof fn lemma_unstyled_one(span: SpanView)
    ensures
        unstyled(seq![span]) == span.text,
{
    reveal_with_fuel(unstyled, 2);
    assert(seq![span].drop_last() =~= Seq::<SpanView>::empty());
    assert(unstyled(seq![span]) =~= span.text);
}

/// The texts of the lines.
pub open spec fn texts_of(lines: Seq<Seq<SpanView>>) -> Seq<Seq<char>> {
    Seq::new(lines.len(), |i: int| unstyled(lines[i]))
}

/// Joined lines read as the lines, with a line break between each two.
pub proof fn law_lines_are_broken_between(lines: Seq<Seq<SpanView>>)
    ensures
        unstyled(joined(lines)) == spec_join(texts_of(lines), "\n"@),
    decreases lines.len(),
{
    let texts = texts_of(lines);
    if lines.len() > 1 {
        let front = lines.drop_last();
        law_lines_are_broken_between(front);
        assert(texts.drop_last() =~= texts_of(front));
        let span = SpanView { style: Style::Plain, text: "\n"@ };
        assert(joined(front).push(span) =~= joined(front) + seq![span]);
        lemma_unstyled(joined(front), seq![span]);
        lemma_unstyled_one(span);
        lemma_unstyled(joined(front) + seq![span], lines.last());
    }
}

/// What a line of a detail reads as.
pub open spec fn reads(label: Seq<char>, value: Seq<char>) -> Seq<char> {
    label + " "@ + value
}

/// What a line reads as where there is a value; else there is no line.
pub open spec fn reads_where(label: Seq<char>, value: Option<Seq<char>>) -> Seq<Seq<char>> {
    match value {
        Some(v) => seq![reads(label, v)],
        None => Seq::empty(),
    }
}

proof fn lemma_detail(label: Seq<char>, style: Style, value: Seq<char>)
    ensures
        unstyled(detail(label, style, value)) == reads(label, value),
{
    let line = detail(label, style, value);
    reveal_with_fuel(unstyled, 4);
    assert(line.drop_last().drop_last().drop_last() =~= Seq::<SpanView>::empty());
    assert(unstyled(line) =~= reads(label, value));
}

proof fn lemma_maybe_detail(
    label: Seq<char>,
    style: Style,
    value: Option<Seq<char>>,
)
    ensures
        texts_of(maybe_detail(label, style, value)) == reads_where(label, value),
{
    if let Some(v) = value {
        lemma_detail(label, style, v);
    }
    assert(texts_of(maybe_detail(label, style, value)) =~= reads_where(label, value));
}

proof fn lemma_texts(a: Seq<Seq<SpanView>>, b: Seq<Seq<SpanView>>)
    ensures
        texts_of(a + b) == texts_of(a) + texts_of(b),
{
    assert(texts_of(a + b) =~= texts_of(a) + texts_of(b));
}

/// The detail of a repository gives each part of its record on a line of its own, with
/// the home written as a tilde.
pub proof fn law_repo_detail_reads(repo: RepoRecordView, home: Option<Seq<char>>)
    ensures
        unstyled(spec_repo_detail(repo, home)) == spec_join(
            seq![
                reads("repo:"@, repo.repo),
                reads("origin:"@, repo.origin),
                reads("main_branch:"@, repo.main_branch),
                reads("workspace_root:"@, spec_abbreviate(repo.workspace_root, home)),
                reads("workspace_prefix:"@, repo.workspace_prefix),
            ] + reads_where(
                "source:"@,
                match repo.source {
                    Some(source) => Some(spec_abbreviate(source, home)),
                    None => None,
                },
            ),
            "\n"@,
        ),
{
    let plain = Style::Plain;
    let root = spec_abbreviate(repo.workspace_root, home);
    let source = match repo.source {
        Some(source) => Some(spec_abbreviate(source, home)),
        None => None,
    };
    let first = seq![
        detail("repo:"@, Style::Name, repo.repo),
        detail("origin:"@, plain, repo.origin),
        detail("main_branch:"@, plain, repo.main_branch),
        detail("workspace_root:"@, plain, root),
        detail("workspace_prefix:"@, plain, repo.workspace_prefix),
    ];
    let last = maybe_detail("source:"@, plain, source);
    lemma_detail("repo:"@, Style::Name, repo.repo);
    lemma_detail("origin:"@, plain, repo.origin);
    lemma_detail("main_branch:"@, plain, repo.main_branch);
    lemma_detail("workspace_root:"@, plain, root);
    lemma_detail("workspace_prefix:"@, plain, repo.workspace_prefix);
    lemma_maybe_detail("source:"@, plain, source);
    lemma_texts(first, last);
    law_lines_are_broken_between(first + last);
    assert(texts_of(first) =~= seq![
        reads("repo:"@, repo.repo),
        reads("origin:"@, repo.origin),
        reads("main_branch:"@, repo.main_branch),
        reads("workspace_root:"@, root),
        reads("workspace_prefix:"@, repo.workspace_prefix),
    ]);
}

/// The detail of a change gives each part of its record on a line of its own.
pub proof fn law_change_detail_reads(c: ChangeRecordView, home: Option<Seq<char>>)
    ensures
        unstyled(spec_change_detail(c, home)) == spec_join(
            seq![
                reads("change_id:"@, c.change_id),
                reads("repo:"@, c.repo),
                reads("workspace_path:"@, spec_abbreviate(c.workspace_path, home)),
                reads("title:"@, c.title),
                reads("jj_change_id:"@, c.jj_change_id),
                reads("head_commit:"@, c.head_commit),
            ] + reads_where("parent_change_id:"@, c.parent_change_id) + seq![
                reads("created_at_epoch_s:"@, spec_signed(c.created_at_epoch_s as int)),
            ],
            "\n"@,
        ),
{
    let plain = Style::Plain;
    let dim = Style::Dim;
    let path = spec_abbreviate(c.workspace_path, home);
    let time = spec_signed(c.created_at_epoch_s as int);
    let first = seq![
        detail("change_id:"@, Style::Name, c.change_id),
        detail("repo:"@, plain, c.repo),
        detail("workspace_path:"@, plain, path),
        detail("title:"@, plain, c.title),
        detail("jj_change_id:"@, dim, c.jj_change_id),
        detail("head_commit:"@, dim, c.head_commit),
    ];
    let parent = maybe_detail("parent_change_id:"@, plain, c.parent_change_id);
    let last = detail("created_at_epoch_s:"@, plain, time);
    lemma_detail("change_id:"@, Style::Name, c.change_id);
    lemma_detail("repo:"@, plain, c.repo);
    lemma_detail("workspace_path:"@, plain, path);
    lemma_detail("title:"@, plain, c.title);
    lemma_detail("jj_change_id:"@, dim, c.jj_change_id);
    lemma_detail("head_commit:"@, dim, c.head_commit);
    lemma_detail("created_at_epoch_s:"@, plain, time);
    lemma_maybe_detail("parent_change_id:"@, plain, c.parent_change_id);
    lemma_texts(first, parent);
    lemma_texts(first + parent, seq![last]);
    law_lines_are_broken_between(first + parent + seq![last]);
    assert((first + parent).push(last) =~= first + parent + seq![last]);
    assert(texts_of(seq![last]) =~= seq![reads("created_at_epoch_s:"@, time)]);
    assert(texts_of(first) =~= seq![
        reads("change_id:"@, c.change_id),
        reads("repo:"@, c.repo),
        reads("workspace_path:"@, path),
        reads("title:"@, c.title),
        reads("jj_change_id:"@, c.jj_change_id),
        reads("head_commit:"@, c.head_commit),
    ]);
}

/// The detail of a workspace gives each part of its record that there is on a line of its
/// own, and what `jj` says below.
pub proof fn law_workspace_detail_reads(
    w: WorkspaceRecordView,
    jj_status: Seq<char>,
    home: Option<Seq<char>>,
)
    ensures
        unstyled(spec_workspace_detail(w, jj_status, home)) == spec_join(
            seq![
                reads("repo:"@, w.repo),
                reads("workspace_id:"@, w.workspace_id),
                reads("workspace_path:"@, spec_abbreviate(w.workspace_path, home)),
                reads(
                    "state:"@,
                    if w.state == WorkspaceState::Leased {
                        "leased"@
                    } else {
                        "free"@
                    },
                ),
            ] + reads_where("lease_id:"@, w.lease_id) + reads_where("holder:"@, w.holder)
                + reads_where("task:"@, w.task) + reads_where("head_commit:"@, w.head_commit)
                + seq!["jj_status:"@, jj_status],
            "\n"@,
        ),
{
    let plain = Style::Plain;
    let dim = Style::Dim;
    let path = spec_abbreviate(w.workspace_path, home);
    let state = if w.state == WorkspaceState::Leased {
        "leased"@
    } else {
        "free"@
    };
    let style = state_style(w.state);
    let first = seq![
        detail("repo:"@, plain, w.repo),
        detail("workspace_id:"@, Style::Name, w.workspace_id),
        detail("workspace_path:"@, plain, path),
        detail("state:"@, style, state),
    ];
    let lease = maybe_detail("lease_id:"@, dim, w.lease_id);
    let holder = maybe_detail("holder:"@, plain, w.holder);
    let task = maybe_detail("task:"@, plain, w.task);
    let head = maybe_detail("head_commit:"@, dim, w.head_commit);
    let label = SpanView { style: dim, text: "jj_status:"@ };
    let said = SpanView { style: plain, text: jj_status };
    let last = seq![seq![label], seq![said]];
    lemma_detail("repo:"@, plain, w.repo);
    lemma_detail("workspace_id:"@, Style::Name, w.workspace_id);
    lemma_detail("workspace_path:"@, plain, path);
    lemma_detail("state:"@, style, state);
    lemma_maybe_detail("lease_id:"@, dim, w.lease_id);
    lemma_maybe_detail("holder:"@, plain, w.holder);
    lemma_maybe_detail("task:"@, plain, w.task);
    lemma_maybe_detail("head_commit:"@, dim, w.head_commit);
    lemma_unstyled_one(label);
    lemma_unstyled_one(said);
    lemma_texts(first, lease);
    lemma_texts(first + lease, holder);
    lemma_texts(first + lease + holder, task);
    lemma_texts(first + lease + holder + task, head);
    lemma_texts(first + lease + holder + task + head, last);
    law_lines_are_broken_between(first + lease + holder + task + head + last);
    assert(texts_of(last) =~= seq!["jj_status:"@, jj_status]);
    assert(texts_of(first) =~= seq![
        reads("repo:"@, w.repo),
        reads("workspace_id:"@, w.workspace_id),
        reads("workspace_path:"@, path),
        reads("state:"@, state),
    ]);
}

// ---------------------------------------------------------------------------
// Lists
// ---------------------------------------------------------------------------

/// The columns of a list are as wide as the widest entry, and no wider.
pub proof fn law_columns_are_as_wide_as_the_widest(records: Seq<WorkspaceRecordView>)
    ensures
        forall|i: int|
            0 <= i < records.len() ==> {
                let w = #[trigger] records[i];
                width(w.repo + "/"@ + w.workspace_id) <= name_width(records)
                    && width(effective_name(w.effective_state()))
                    <= state_width(records)
            },
        records.len() > 0 ==> exists|i: int|
            0 <= i < records.len() && width(
                (#[trigger] records[i]).repo + "/"@ + records[i].workspace_id,
            ) == name_width(records),
        records.len() > 0 ==> exists|i: int|
            0 <= i < records.len() && width(
                effective_name((#[trigger] records[i]).effective_state()),
            ) == state_width(records),
    decreases records.len(),
{
    if records.len() > 0 {
        let front = records.drop_last();
        let n = records.len() - 1;
        law_columns_are_as_wide_as_the_widest(front);
        assert forall|i: int| 0 <= i < records.len() implies ({
            let w = #[trigger] records[i];
            width(w.repo + "/"@ + w.workspace_id) <= name_width(records) && width(
                effective_name(w.effective_state()),
            ) <= state_width(records)
        }) by {
            if i < n {
                assert(front[i] == records[i]);
            }
        }
        let last = records[n];
        if width(last.repo + "/"@ + last.workspace_id) == name_width(records) {
        } else {
            let i = choose|i: int|
                0 <= i < front.len() && width(
                    (#[trigger] front[i]).repo + "/"@ + front[i].workspace_id,
                ) == name_width(front);
            assert(records[i] == front[i]);
        }
        if width(effective_name(last.effective_state())) == state_width(records) {
        } else {
            let i = choose|i: int|
                0 <= i < front.len() && width(
                    effective_name((#[trigger] front[i]).effective_state()),
                ) == state_width(front);
            assert(records[i] == front[i]);
        }
    }
}

/// The columns of the repositories are wide enough for each.
pub proof fn law_repo_columns_are_wide_enough(
    records: Seq<RepoRecordView>,
    home: Option<Seq<char>>,
    i: int,
)
    requires
        0 <= i < records.len(),
    ensures
        width(records[i].repo) <= repo_width(records),
        width(spec_abbreviate(records[i].workspace_root, home)) <= root_width(records, home),
    decreases records.len(),
{
    if i < records.len() - 1 {
        law_repo_columns_are_wide_enough(records.drop_last(), home, i);
    }
}

/// The line of a workspace gives its name, its state and where it is, in columns.
pub proof fn law_workspace_line_reads(
    w: WorkspaceRecordView,
    names: nat,
    states: nat,
    home: Option<Seq<char>>,
)
    ensures
        ({
            let line = workspace_line(w, names, states, home);
            &&& line.len() == 5
            &&& line[0].text == spec_pad_right(w.repo + "/"@ + w.workspace_id, names)
            &&& line[1].text == "  "@
            &&& line[2].text == spec_pad_right(
                match (w.state, w.health_status) {
                    (WorkspaceState::Leased, _) => "leased"@,
                    (WorkspaceState::Free, Some(WorkspaceHealth::Dirty)) => "free-dirty"@,
                    (WorkspaceState::Free, Some(WorkspaceHealth::Conflicted)) => {
                        "free-conflicted"@
                    },
                    (WorkspaceState::Free, None) => "free"@,
                },
                states,
            )
            &&& line[3].text == "  "@
            &&& line[4].text == spec_abbreviate(w.workspace_path, home)
        }),
{
}

/// A free workspace takes one line; a leased one shows who holds it, for what, and under
/// which lease.
pub proof fn law_leased_workspace_shows_its_lease(
    w: WorkspaceRecordView,
    names: nat,
    states: nat,
    home: Option<Seq<char>>,
    holder: Seq<char>,
    task: Seq<char>,
    lease: Seq<char>,
)
    ensures
        w.state == WorkspaceState::Free ==> workspace_lines(w, names, states, home).len() == 1,
        w.state == WorkspaceState::Leased && w.holder == Some(holder) && w.task == Some(task)
            && w.lease_id == Some(lease) ==> {
            let lines = workspace_lines(w, names, states, home);
            &&& lines.len() == 4
            &&& lines[1][1].text == "holder"@ && lines[1][3].text == holder
            &&& lines[2][1].text == "task  "@ && lines[2][3].text == task
            &&& lines[3][1].text == "lease "@ && lines[3][3].text == lease
        },
        workspace_lines(w, names, states, home)[0] == workspace_line(w, names, states, home),
{
}

/// The line of a repository gives its name, its root, its branch and its prefix.
pub proof fn law_repo_line_reads(
    r: RepoRecordView,
    names: nat,
    roots: nat,
    home: Option<Seq<char>>,
)
    ensures
        ({
            let line = repo_line(r, names, roots, home);
            &&& line.len() == 11
            &&& line[0].text == spec_pad_right(r.repo, names)
            &&& line[2].text == spec_pad_right(spec_abbreviate(r.workspace_root, home), roots)
            &&& line[4].text == "branch"@ && line[6].text == r.main_branch
            &&& line[8].text == "prefix"@ && line[10].text == r.workspace_prefix
        }),
{
}

/// A workspace is effectively leased just where it is leased; else its health tells.
pub proof fn law_effective_state(w: WorkspaceRecordView)
    ensures
        w.effective_state() == EffectiveState::Leased <==> w.state == WorkspaceState::Leased,
        w.effective_state() == EffectiveState::Free <==> w.state == WorkspaceState::Free
            && w.health_status is None,
        w.effective_state() == EffectiveState::FreeDirty <==> w.state == WorkspaceState::Free
            && w.health_status == Some(WorkspaceHealth::Dirty),
        w.effective_state() == EffectiveState::FreeConflicted <==> w.state == WorkspaceState::Free
            && w.health_status == Some(WorkspaceHealth::Conflicted),
{
}

// ---------------------------------------------------------------------------
// Times
// ---------------------------------------------------------------------------

/// A time is written as its day and the hours, minutes and seconds into it.
pub proof fn law_time_of_day_is_written(day: int, h: int, m: int, s: int)
    requires
        0 <= h < 24,
        0 <= m < 60,
        0 <= s < 60,
    ensures
        spec_iso8601(day * 86400 + h * 3600 + m * 60 + s) == day_text(day) + "T"@ + two_digits(h)
            + ":"@ + two_digits(m) + ":"@ + two_digits(s) + "Z"@,
{
    let e = day * 86400 + h * 3600 + m * 60 + s;
    let t = h * 3600 + m * 60 + s;
    assert(e == day * 86400 + t && 0 <= t < 86400);
    assert(e / 86400 == day && e % 86400 == t) by (nonlinear_arith)
        requires
            e == day * 86400 + t,
            0 <= t < 86400,
    ;
    assert(t / 3600 == h);
    assert(t / 60 == h * 60 + m);
    assert((t / 60) % 60 == m);
    assert(t % 60 == s);
}

/// Months are as long as the calendar says, and a leap year comes every four years but
/// for the centuries that four hundred does not divide.
pub proof fn law_lengths_of_months(y: int)
    ensures
        forall|m: int|
            #![trigger month_len(y, m)]
            m == 1 || m == 3 || m == 5 || m == 7 || m == 8 || m == 10 || m == 12 ==> month_len(y, m)
                == 31,
        forall|m: int|
            #![trigger month_len(y, m)]
            m == 4 || m == 6 || m == 9 || m == 11 ==> month_len(y, m) == 30,
        y % 4 != 0 ==> month_len(y, 2) == 28,
        y % 4 == 0 && y % 100 != 0 ==> month_len(y, 2) == 29,
        y % 100 == 0 && y % 400 != 0 ==> month_len(y, 2) == 28,
        y % 400 == 0 ==> month_len(y, 2) == 29,
        month_len(y + 400, 2) == month_len(y, 2),
{
}

/// A noted event carries its name and its time, both for a reader and as a number,
/// beside its own fields.
pub proof fn law_events_are_stamped(event: AuditEventView, now: i64, key: Seq<char>)
    ensures
        field(stamped(event, now), "ts"@) == Some(
            FieldValueView::Text(spec_iso8601(now as int)),
        ),
        field(stamped(event, now), "ts_epoch_s"@) == Some(FieldValueView::Int(now)),
        field(stamped(event, now), "event"@) == Some(FieldValueView::Text(event.event)),
        key != "ts"@ && key != "ts_epoch_s"@ && key != "event"@ ==> field(
            stamped(event, now),
            key,
        ) == field(event.fields, key),
{
    reveal_strlit("ts");
    reveal_strlit("ts_epoch_s");
    reveal_strlit("event");
    assert("ts"@.len() == 2 && "ts_epoch_s"@.len() == 10 && "event"@.len() == 5);
    let time = FieldValueView::Text(spec_iso8601(now as int));
    let a = with_field(event.fields, "ts"@, time);
    let b = with_field(a, "ts_epoch_s"@, FieldValueView::Int(now));
    law_fields_are_found(event.fields, "ts"@, time, key);
    law_fields_are_found(a, "ts_epoch_s"@, FieldValueView::Int(now), key);
    law_fields_are_found(a, "ts_epoch_s"@, FieldValueView::Int(now), "ts"@);
    law_fields_are_found(b, "event"@, FieldValueView::Text(event.event), key);
    law_fields_are_found(b, "event"@, FieldValueView::Text(event.event), "ts"@);
    law_fields_are_found(b, "event"@, FieldValueView::Text(event.event), "ts_epoch_s"@);
}

// ---------------------------------------------------------------------------
// Errors
// ---------------------------------------------------------------------------

/// An error names what is missing.
pub proof fn law_errors_name_what_is_missing(s: Seq<char>)
    ensures
        CubeErrorView::InvalidArgument(s).message() == s,
        CubeErrorView::NotImplemented(s).message() == s,
        CubeErrorView::RepoNotFound(s).message() == "repo `"@ + s + "` is not configured"@,
        CubeErrorView::WorkspaceNotFound(s).message() == "workspace `"@ + s
            + "` is not tracked"@,
        CubeErrorView::LeaseNotFound(s).message() == "lease `"@ + s + "` is not tracked"@,
        CubeErrorView::ChangeNotFound(s).message() == "change `"@ + s + "` is not tracked"@,
        CubeErrorView::NoAvailableWorkspace(s).message()
            == "no free workspace is available for repo `"@ + s + "`"@,
{
}

/// An error of a program names the program with its arguments, its exit code where it has
/// one, and what it complained of.
pub proof fn law_errors_of_programs_name_them(
    program: Seq<char>,
    args: Seq<Seq<char>>,
    code: i32,
    stderr: Seq<char>,
)
    ensures
        ({
            let line = "command `"@ + program + " "@ + spec_join(args, " "@) + "` failed"@;
            let with_code = line + (" with exit code "@ + spec_signed(code as int));
            &&& stderr.len() > 0 ==> CubeErrorView::CommandFailed {
                program,
                args,
                status: Some(code),
                stderr,
            }.message() == with_code + (": "@ + stderr)
            &&& CubeErrorView::CommandFailed {
                program,
                args,
                status: Some(code),
                stderr: Seq::empty(),
            }.message() == with_code
            &&& CubeErrorView::CommandFailed {
                program,
                args,
                status: None,
                stderr: Seq::empty(),
            }.message() == line
        }),
{
    let line = "command `"@ + program + " "@ + spec_join(args, " "@) + "` failed"@;
    let with_code = line + (" with exit code "@ + spec_signed(code as int));
    reveal_strlit("");
    assert(with_code + ""@ =~= with_code);
    assert(line + ""@ + ""@ =~= line);
}

} // verus!
