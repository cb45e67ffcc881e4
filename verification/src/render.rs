//! Lists and details for a reader.

use vstd::prelude::*;

use crate::number::{signed, spec_signed};
use crate::records::{
    effective_name, state_name, ChangeRecord, ChangeRecordView, RepoRecord, RepoRecordView,
    WorkspaceRecord, WorkspaceRecordView, WorkspaceState,
};
use crate::report::{plain, plain_message, Span, SpanView, Style};
use crate::text::{cat, copy, same, spec_starts, spec_strip_prefix, starts, strip_prefix};

verus! {

// ---------------------------------------------------------------------------
// Pieces
// ---------------------------------------------------------------------------

pub open spec fn spec_span(style: Style, text: Seq<char>) -> SpanView {
    SpanView { style, text }
}

fn span(style: Style, text: &str) -> (r: Span)
    ensures
        r.deep_view() == spec_span(style, text@),
{
    Span { style, text: text.to_string() }
}

/// The lines with line feeds between them.
pub open spec fn joined(lines: Seq<Seq<SpanView>>) -> Seq<SpanView>
    decreases lines.len(),
{
    if lines.len() == 0 {
        Seq::empty()
    } else if lines.len() == 1 {
        lines[0]
    } else {
        joined(lines.drop_last()).push(spec_span(Style::Plain, "\n"@)) + lines.last()
    }
}

/// Adds a line to a message.
fn add_line(out: &mut Vec<Span>, line: Vec<Span>, first: bool)
    ensures
        final(out).deep_view() == (if first {
            old(out).deep_view() + line.deep_view()
        } else {
            old(out).deep_view().push(spec_span(Style::Plain, "\n"@)) + line.deep_view()
        }),
{
    let ghost added = line.deep_view();
    let mut line: Vec<Span> = line;
    if !first {
        out.push(span(Style::Plain, "\n"));
    }
    let ghost before = out.deep_view();
    assert(!first ==> before =~= old(out).deep_view().push(spec_span(Style::Plain, "\n"@)));
    out.append(&mut line);
    assert(out.deep_view() =~= before + added);
}

fn join_lines(lines: Vec<Vec<Span>>) -> (r: Vec<Span>)
    ensures
        r.deep_view() == joined(lines.deep_view()),
{
    let ghost all = lines.deep_view();
    let mut lines: Vec<Vec<Span>> = lines;
    let mut out: Vec<Span> = Vec::new();
    assert(out.deep_view() =~= Seq::<SpanView>::empty());
    let mut n: usize = 0;
    let total: usize = lines.len();
    while n < total
        invariant
            n <= total,
            total == all.len(),
            lines.deep_view() == all.subrange(n as int, total as int),
            out.deep_view() == joined(all.subrange(0, n as int)),
        decreases total - n,
    {
        proof {
            assert(lines@.len() == lines.deep_view().len());
            assert(lines.deep_view()[0] == lines@[0].deep_view());
            assert(lines.deep_view()[0] == all[n as int]);
            assert(all.subrange(0, n + 1).drop_last() =~= all.subrange(0, n as int));
            assert(all.subrange(0, n + 1).last() == all[n as int]);
        }
        let ghost before = out.deep_view();
        let ghost left = lines@;
        let ghost deep = lines.deep_view();
        let line: Vec<Span> = lines.remove(0);
        add_line(&mut out, line, n == 0);
        proof {
            assert forall|i: int| 0 <= i < lines@.len() implies #[trigger] lines.deep_view()[i]
                == all[n + 1 + i] by {
                assert(lines@[i] == left[i + 1]);
                assert(deep[i + 1] == left[i + 1].deep_view());
            }
            assert(lines.deep_view() =~= all.subrange(n + 1, total as int));
            if n == 0 {
                assert(before =~= Seq::<SpanView>::empty());
                assert(out.deep_view() =~= all[0]);
            }
        }
        n += 1;
    }
    assert(all.subrange(0, n as int) =~= all);
    out
}

/// How many bytes a text takes.
pub open spec fn width(s: Seq<char>) -> nat {
    vstd::utf8::encode_utf8(s).len()
}

/// The larger of two widths.
pub open spec fn wider(a: nat, b: nat) -> nat {
    if a >= b {
        a
    } else {
        b
    }
}

/// `s` with spaces behind, up to `width` characters.
pub open spec fn spec_pad_right(s: Seq<char>, width: nat) -> Seq<char>
    decreases width - s.len(),
{
    if s.len() >= width {
        s
    } else {
        spec_pad_right(s.push(' '), width)
    }
}

fn pad_right(s: &str, width: usize) -> (r: String)
    ensures
        r@ == spec_pad_right(s@, width as nat),
{
    let mut out: String = s.to_string();
    let mut n: usize = s.unicode_len();
    while n < width
        invariant
            n == out@.len(),
            spec_pad_right(s@, width as nat) == spec_pad_right(out@, width as nat),
        decreases width - n,
    {
        out.push(' ');
        n += 1;
    }
    out
}

fn measure(s: &str) -> (r: usize)
    ensures
        r == width(s@),
{
    s.as_bytes().len()
}

// ---------------------------------------------------------------------------
// Paths
// ---------------------------------------------------------------------------

/// The path with the home directory written as `~`.
pub open spec fn spec_abbreviate(path: Seq<char>, home: Option<Seq<char>>) -> Seq<char> {
    match home {
        Some(home) if home.len() > 0 => if path == home {
            "~"@
        } else {
            match spec_strip_prefix(path, home) {
                Some(rest) if spec_starts(rest, "/"@) => "~"@ + rest,
                _ => path,
            }
        },
        _ => path,
    }
}

pub fn abbreviate_path(path: &str, home: &Option<String>) -> (r: String)
    ensures
        r@ == spec_abbreviate(path@, home.deep_view()),
{
    if let Some(home) = home {
        if !home.as_str().is_empty() {
            if same(path, home.as_str()) {
                return "~".to_string();
            }
            if let Some(rest) = strip_prefix(path, home.as_str()) {
                if starts(rest.as_str(), "/") {
                    return cat("~".to_string(), rest.as_str());
                }
            }
        }
    }
    path.to_string()
}

// ---------------------------------------------------------------------------
// Workspaces
// ---------------------------------------------------------------------------

pub open spec fn state_style(state: WorkspaceState) -> Style {
    match state {
        WorkspaceState::Free => Style::Free,
        WorkspaceState::Leased => Style::Leased,
    }
}

fn style_of(state: WorkspaceState) -> (r: Style)
    ensures
        r == state_style(state),
{
    match state {
        WorkspaceState::Free => Style::Free,
        WorkspaceState::Leased => Style::Leased,
    }
}

/// The name a workspace is listed under.
pub open spec fn listed_name(w: WorkspaceRecordView) -> Seq<char> {
    w.repo + "/"@ + w.workspace_id
}

fn name_text(w: &WorkspaceRecord) -> (r: String)
    ensures
        r@ == listed_name(w.deep_view()),
{
    cat(cat(copy(&w.repo), "/"), w.workspace_id.as_str())
}

/// The effective state, as it is listed.
pub open spec fn listed_state(w: WorkspaceRecordView) -> Seq<char> {
    effective_name(w.effective_state())
}

pub fn effective_state_display(w: &WorkspaceRecord) -> (r: String)
    ensures
        r@ == listed_state(w.deep_view()),
{
    w.effective_state().as_str().to_string()
}

/// The widest name.
pub open spec fn name_width(records: Seq<WorkspaceRecordView>) -> nat
    decreases records.len(),
{
    if records.len() == 0 {
        0
    } else {
        wider(name_width(records.drop_last()), width(listed_name(records.last())))
    }
}

/// The widest state.
pub open spec fn state_width(records: Seq<WorkspaceRecordView>) -> nat
    decreases records.len(),
{
    if records.len() == 0 {
        0
    } else {
        wider(state_width(records.drop_last()), width(listed_state(records.last())))
    }
}

fn column_widths(records: &Vec<WorkspaceRecord>) -> (r: (usize, usize))
    ensures
        r.0 == name_width(records.deep_view()),
        r.1 == state_width(records.deep_view()),
{
    let ghost all = records.deep_view();
    let mut names: usize = 0;
    let mut states: usize = 0;
    let mut i: usize = 0;
    while i < records.len()
        invariant
            i <= records@.len(),
            all == records.deep_view(),
            names == name_width(all.subrange(0, i as int)),
            states == state_width(all.subrange(0, i as int)),
        decreases records@.len() - i,
    {
        proof {
            assert(all.subrange(0, i + 1).last() == records@[i as int].deep_view());
            assert(all.subrange(0, i + 1).drop_last() =~= all.subrange(0, i as int));
        }
        let name: usize = measure(name_text(&records[i]).as_str());
        let state: usize = measure(effective_state_display(&records[i]).as_str());
        if name > names {
            names = name;
        }
        if state > states {
            states = state;
        }
        i += 1;
    }
    assert(all.subrange(0, i as int) =~= all);
    (names, states)
}

/// The line for a workspace.
pub open spec fn workspace_line(
    w: WorkspaceRecordView,
    names: nat,
    states: nat,
    home: Option<Seq<char>>,
) -> Seq<SpanView> {
    seq![
        spec_span(Style::Name, spec_pad_right(listed_name(w), names)),
        spec_span(Style::Plain, "  "@),
        spec_span(state_style(w.state), spec_pad_right(listed_state(w), states)),
        spec_span(Style::Plain, "  "@),
        spec_span(Style::Dim, spec_abbreviate(w.workspace_path, home)),
    ]
}

/// An indented line for a part of a lease, where there is one.
pub open spec fn lease_part(label: Seq<char>, style: Style, value: Option<Seq<char>>) -> Seq<
    Seq<SpanView>,
> {
    match value {
        None => Seq::empty(),
        Some(v) => seq![
            seq![
                spec_span(Style::Plain, "    "@),
                spec_span(Style::Dim, label),
                spec_span(Style::Plain, "  "@),
                spec_span(style, v),
            ],
        ],
    }
}

/// The lines for a workspace: one, and one each for holder, task and lease where it
/// is leased.
pub open spec fn workspace_lines(
    w: WorkspaceRecordView,
    names: nat,
    states: nat,
    home: Option<Seq<char>>,
) -> Seq<Seq<SpanView>> {
    seq![workspace_line(w, names, states, home)] + (if w.state == WorkspaceState::Leased {
        lease_part("holder"@, Style::Plain, w.holder) + lease_part(
            "task  "@,
            Style::Plain,
            w.task,
        ) + lease_part("lease "@, Style::Dim, w.lease_id)
    } else {
        Seq::empty()
    })
}

/// The lines for all of the workspaces.
pub open spec fn all_workspace_lines(
    records: Seq<WorkspaceRecordView>,
    names: nat,
    states: nat,
    home: Option<Seq<char>>,
) -> Seq<Seq<SpanView>>
    decreases records.len(),
{
    if records.len() == 0 {
        Seq::empty()
    } else {
        all_workspace_lines(records.drop_last(), names, states, home) + workspace_lines(
            records.last(),
            names,
            states,
            home,
        )
    }
}

/// The list of workspaces.
pub open spec fn spec_workspace_list(
    records: Seq<WorkspaceRecordView>,
    home: Option<Seq<char>>,
) -> Seq<SpanView> {
    if records.len() == 0 {
        plain("No workspaces match."@)
    } else {
        joined(all_workspace_lines(records, name_width(records), state_width(records), home))
    }
}

fn add_lease_part(lines: &mut Vec<Vec<Span>>, label: &str, style: Style, value: &Option<String>)
    ensures
        final(lines).deep_view() == old(lines).deep_view() + lease_part(
            label@,
            style,
            value.deep_view(),
        ),
{
    let ghost before = lines.deep_view();
    match value {
        None => {
            assert(before + Seq::<Seq<SpanView>>::empty() =~= before);
        },
        Some(v) => {
            let line: Vec<Span> = vec![
                span(Style::Plain, "    "),
                span(Style::Dim, label),
                span(Style::Plain, "  "),
                span(style, v.as_str()),
            ];
            assert(line.deep_view() =~= lease_part(label@, style, value.deep_view())[0]);
            lines.push(line);
            assert(lines.deep_view() =~= before + lease_part(label@, style, value.deep_view()));
        },
    }
}

fn add_workspace(
    lines: &mut Vec<Vec<Span>>,
    w: &WorkspaceRecord,
    names: usize,
    states: usize,
    home: &Option<String>,
)
    ensures
        final(lines).deep_view() == old(lines).deep_view() + workspace_lines(
            w.deep_view(),
            names as nat,
            states as nat,
            home.deep_view(),
        ),
{
    let ghost before = lines.deep_view();
    let line: Vec<Span> = vec![
        span(Style::Name, pad_right(name_text(w).as_str(), names).as_str()),
        span(Style::Plain, "  "),
        span(
            style_of(w.state),
            pad_right(effective_state_display(w).as_str(), states).as_str(),
        ),
        span(Style::Plain, "  "),
        span(Style::Dim, abbreviate_path(w.workspace_path.as_str(), home).as_str()),
    ];
    let ghost expected = workspace_line(
        w.deep_view(),
        names as nat,
        states as nat,
        home.deep_view(),
    );
    assert(line.deep_view() =~= expected);
    lines.push(line);
    assert(lines.deep_view() =~= before + seq![expected]);
    let ghost head = lines.deep_view();
    if let WorkspaceState::Leased = w.state {
        add_lease_part(lines, "holder", Style::Plain, &w.holder);
        add_lease_part(lines, "task  ", Style::Plain, &w.task);
        add_lease_part(lines, "lease ", Style::Dim, &w.lease_id);
    }
    assert(lines.deep_view() =~= before + workspace_lines(
        w.deep_view(),
        names as nat,
        states as nat,
        home.deep_view(),
    ));
}

pub fn format_workspace_list(records: &Vec<WorkspaceRecord>, home: &Option<String>) -> (r: Vec<
    Span,
>)
    ensures
        r.deep_view() == spec_workspace_list(records.deep_view(), home.deep_view()),
{
    if records.len() == 0 {
        return plain_message("No workspaces match.".to_string());
    }
    let widths: (usize, usize) = column_widths(records);
    let mut lines: Vec<Vec<Span>> = Vec::new();
    let ghost all = records.deep_view();
    let mut i: usize = 0;
    assert(lines.deep_view() =~= Seq::<Seq<SpanView>>::empty());
    while i < records.len()
        invariant
            i <= records@.len(),
            all == records.deep_view(),
            lines.deep_view() == all_workspace_lines(
                all.subrange(0, i as int),
                widths.0 as nat,
                widths.1 as nat,
                home.deep_view(),
            ),
        decreases records@.len() - i,
    {
        proof {
            assert(all.subrange(0, i + 1).last() == records@[i as int].deep_view());
            assert(all.subrange(0, i + 1).drop_last() =~= all.subrange(0, i as int));
        }
        add_workspace(&mut lines, &records[i], widths.0, widths.1, home);
        i += 1;
    }
    assert(all.subrange(0, i as int) =~= all);
    join_lines(lines)
}

// ---------------------------------------------------------------------------
// Details
// ---------------------------------------------------------------------------

/// A label and a value.
pub open spec fn detail(label: Seq<char>, style: Style, value: Seq<char>) -> Seq<SpanView> {
    seq![
        spec_span(Style::Dim, label),
        spec_span(Style::Plain, " "@),
        spec_span(style, value),
    ]
}

/// A label and a value, where there is one.
pub open spec fn maybe_detail(label: Seq<char>, style: Style, value: Option<Seq<char>>) -> Seq<
    Seq<SpanView>,
> {
    match value {
        None => Seq::empty(),
        Some(v) => seq![detail(label, style, v)],
    }
}

fn add_detail(lines: &mut Vec<Vec<Span>>, label: &str, style: Style, value: &str)
    ensures
        final(lines).deep_view() == old(lines).deep_view().push(detail(label@, style, value@)),
{
    let ghost before = lines.deep_view();
    let line: Vec<Span> = vec![
        span(Style::Dim, label),
        span(Style::Plain, " "),
        span(style, value),
    ];
    assert(line.deep_view() =~= detail(label@, style, value@));
    lines.push(line);
    assert(lines.deep_view() =~= before.push(detail(label@, style, value@)));
}

fn add_maybe_detail(lines: &mut Vec<Vec<Span>>, label: &str, style: Style, value: &Option<String>)
    ensures
        final(lines).deep_view() == old(lines).deep_view() + maybe_detail(
            label@,
            style,
            value.deep_view(),
        ),
{
    let ghost before = lines.deep_view();
    match value {
        None => {
            assert(before + Seq::<Seq<SpanView>>::empty() =~= before);
        },
        Some(v) => {
            add_detail(lines, label, style, v.as_str());
            assert(before.push(detail(label@, style, v@)) =~= before + seq![
                detail(label@, style, v@),
            ]);
        },
    }
}

fn no_lines() -> (r: Vec<Vec<Span>>)
    ensures
        r.deep_view() == Seq::<Seq<SpanView>>::empty(),
{
    let none: Vec<Vec<Span>> = Vec::new();
    assert(none.deep_view() =~= Seq::<Seq<SpanView>>::empty());
    none
}

/// The details of a workspace, with what `jj status` says of it.
pub open spec fn spec_workspace_detail(
    w: WorkspaceRecordView,
    jj_status: Seq<char>,
    home: Option<Seq<char>>,
) -> Seq<SpanView> {
    joined(
        seq![
            detail("repo:"@, Style::Plain, w.repo),
            detail("workspace_id:"@, Style::Name, w.workspace_id),
            detail("workspace_path:"@, Style::Plain, spec_abbreviate(w.workspace_path, home)),
            detail("state:"@, state_style(w.state), state_name(w.state)),
        ] + maybe_detail("lease_id:"@, Style::Dim, w.lease_id) + maybe_detail(
            "holder:"@,
            Style::Plain,
            w.holder,
        ) + maybe_detail("task:"@, Style::Plain, w.task) + maybe_detail(
            "head_commit:"@,
            Style::Dim,
            w.head_commit,
        ) + seq![
            seq![spec_span(Style::Dim, "jj_status:"@)],
            seq![spec_span(Style::Plain, jj_status)],
        ],
    )
}

pub fn human_workspace_detail(w: &WorkspaceRecord, jj_status: &str, home: &Option<String>) -> (r:
    Vec<Span>)
    ensures
        r.deep_view() == spec_workspace_detail(w.deep_view(), jj_status@, home.deep_view()),
{
    let mut lines: Vec<Vec<Span>> = no_lines();
    add_detail(&mut lines, "repo:", Style::Plain, w.repo.as_str());
    add_detail(&mut lines, "workspace_id:", Style::Name, w.workspace_id.as_str());
    let path: String = abbreviate_path(w.workspace_path.as_str(), home);
    add_detail(&mut lines, "workspace_path:", Style::Plain, path.as_str());
    add_detail(&mut lines, "state:", style_of(w.state), w.state.as_str());
    let ghost v = w.deep_view();
    assert(lines.deep_view() =~= seq![
        detail("repo:"@, Style::Plain, v.repo),
        detail("workspace_id:"@, Style::Name, v.workspace_id),
        detail("workspace_path:"@, Style::Plain, path@),
        detail("state:"@, state_style(v.state), state_name(v.state)),
    ]);
    add_maybe_detail(&mut lines, "lease_id:", Style::Dim, &w.lease_id);
    add_maybe_detail(&mut lines, "holder:", Style::Plain, &w.holder);
    add_maybe_detail(&mut lines, "task:", Style::Plain, &w.task);
    add_maybe_detail(&mut lines, "head_commit:", Style::Dim, &w.head_commit);
    let ghost before = lines.deep_view();
    let label: Vec<Span> = vec![span(Style::Dim, "jj_status:")];
    assert(label.deep_view() =~= seq![spec_span(Style::Dim, "jj_status:"@)]);
    let status: Vec<Span> = vec![span(Style::Plain, jj_status)];
    assert(status.deep_view() =~= seq![spec_span(Style::Plain, jj_status@)]);
    lines.push(label);
    lines.push(status);
    assert(lines.deep_view() =~= before + seq![
        seq![spec_span(Style::Dim, "jj_status:"@)],
        seq![spec_span(Style::Plain, jj_status@)],
    ]);
    join_lines(lines)
}

/// The details of a repository.
pub open spec fn spec_repo_detail(repo: RepoRecordView, home: Option<Seq<char>>) -> Seq<SpanView> {
    joined(
        seq![
            detail("repo:"@, Style::Name, repo.repo),
            detail("origin:"@, Style::Plain, repo.origin),
            detail("main_branch:"@, Style::Plain, repo.main_branch),
            detail("workspace_root:"@, Style::Plain, spec_abbreviate(repo.workspace_root, home)),
            detail("workspace_prefix:"@, Style::Plain, repo.workspace_prefix),
        ] + maybe_detail(
            "source:"@,
            Style::Plain,
            match repo.source {
                Some(source) => Some(spec_abbreviate(source, home)),
                None => None,
            },
        ),
    )
}

pub fn human_repo_detail(repo: &RepoRecord, home: &Option<String>) -> (r: Vec<Span>)
    ensures
        r.deep_view() == spec_repo_detail(repo.deep_view(), home.deep_view()),
{
    let mut lines: Vec<Vec<Span>> = no_lines();
    add_detail(&mut lines, "repo:", Style::Name, repo.repo.as_str());
    add_detail(&mut lines, "origin:", Style::Plain, repo.origin.as_str());
    add_detail(&mut lines, "main_branch:", Style::Plain, repo.main_branch.as_str());
    let root: String = abbreviate_path(repo.workspace_root.as_str(), home);
    add_detail(&mut lines, "workspace_root:", Style::Plain, root.as_str());
    add_detail(&mut lines, "workspace_prefix:", Style::Plain, repo.workspace_prefix.as_str());
    let ghost v = repo.deep_view();
    assert(lines.deep_view() =~= seq![
        detail("repo:"@, Style::Name, v.repo),
        detail("origin:"@, Style::Plain, v.origin),
        detail("main_branch:"@, Style::Plain, v.main_branch),
        detail("workspace_root:"@, Style::Plain, root@),
        detail("workspace_prefix:"@, Style::Plain, v.workspace_prefix),
    ]);
    let source: Option<String> = match &repo.source {
        Some(source) => Some(abbreviate_path(source.as_str(), home)),
        None => None,
    };
    add_maybe_detail(&mut lines, "source:", Style::Plain, &source);
    join_lines(lines)
}

/// The details of a change.
pub open spec fn spec_change_detail(c: ChangeRecordView, home: Option<Seq<char>>) -> Seq<SpanView> {
    joined(
        (seq![
            detail("change_id:"@, Style::Name, c.change_id),
            detail("repo:"@, Style::Plain, c.repo),
            detail("workspace_path:"@, Style::Plain, spec_abbreviate(c.workspace_path, home)),
            detail("title:"@, Style::Plain, c.title),
            detail("jj_change_id:"@, Style::Dim, c.jj_change_id),
            detail("head_commit:"@, Style::Dim, c.head_commit),
        ] + maybe_detail("parent_change_id:"@, Style::Plain, c.parent_change_id)).push(
            detail(
                "created_at_epoch_s:"@,
                Style::Plain,
                spec_signed(c.created_at_epoch_s as int),
            ),
        ),
    )
}

pub fn human_change_detail(c: &ChangeRecord, home: &Option<String>) -> (r: Vec<Span>)
    ensures
        r.deep_view() == spec_change_detail(c.deep_view(), home.deep_view()),
{
    let mut lines: Vec<Vec<Span>> = no_lines();
    add_detail(&mut lines, "change_id:", Style::Name, c.change_id.as_str());
    add_detail(&mut lines, "repo:", Style::Plain, c.repo.as_str());
    let path: String = abbreviate_path(c.workspace_path.as_str(), home);
    add_detail(&mut lines, "workspace_path:", Style::Plain, path.as_str());
    add_detail(&mut lines, "title:", Style::Plain, c.title.as_str());
    add_detail(&mut lines, "jj_change_id:", Style::Dim, c.jj_change_id.as_str());
    add_detail(&mut lines, "head_commit:", Style::Dim, c.head_commit.as_str());
    let ghost v = c.deep_view();
    assert(lines.deep_view() =~= seq![
        detail("change_id:"@, Style::Name, v.change_id),
        detail("repo:"@, Style::Plain, v.repo),
        detail("workspace_path:"@, Style::Plain, path@),
        detail("title:"@, Style::Plain, v.title),
        detail("jj_change_id:"@, Style::Dim, v.jj_change_id),
        detail("head_commit:"@, Style::Dim, v.head_commit),
    ]);
    add_maybe_detail(&mut lines, "parent_change_id:", Style::Plain, &c.parent_change_id);
    let time: String = signed(c.created_at_epoch_s);
    add_detail(&mut lines, "created_at_epoch_s:", Style::Plain, time.as_str());
    join_lines(lines)
}

// ---------------------------------------------------------------------------
// Repositories
// ---------------------------------------------------------------------------

/// The widest repository id.
pub open spec fn repo_width(records: Seq<RepoRecordView>) -> nat
    decreases records.len(),
{
    if records.len() == 0 {
        0
    } else {
        wider(repo_width(records.drop_last()), width(records.last().repo))
    }
}

/// The widest pool directory.
pub open spec fn root_width(records: Seq<RepoRecordView>, home: Option<Seq<char>>) -> nat
    decreases records.len(),
{
    if records.len() == 0 {
        0
    } else {
        wider(
            root_width(records.drop_last(), home),
            width(spec_abbreviate(records.last().workspace_root, home)),
        )
    }
}

/// The line for a repository.
pub open spec fn repo_line(
    r: RepoRecordView,
    names: nat,
    roots: nat,
    home: Option<Seq<char>>,
) -> Seq<SpanView> {
    seq![
        spec_span(Style::Name, spec_pad_right(r.repo, names)),
        spec_span(Style::Plain, "  "@),
        spec_span(Style::Dim, spec_pad_right(spec_abbreviate(r.workspace_root, home), roots)),
        spec_span(Style::Plain, "  "@),
        spec_span(Style::Dim, "branch"@),
        spec_span(Style::Plain, " "@),
        spec_span(Style::Plain, r.main_branch),
        spec_span(Style::Plain, " "@),
        spec_span(Style::Dim, "prefix"@),
        spec_span(Style::Plain, " "@),
        spec_span(Style::Plain, r.workspace_prefix),
    ]
}

/// The list of repositories.
pub open spec fn spec_repo_list(records: Seq<RepoRecordView>, home: Option<Seq<char>>) -> Seq<
    SpanView,
> {
    if records.len() == 0 {
        plain("No repos configured."@)
    } else {
        joined(
            Seq::new(
                records.len(),
                |i: int|
                    repo_line(records[i], repo_width(records), root_width(records, home), home),
            ),
        )
    }
}

fn repo_widths(records: &Vec<RepoRecord>, home: &Option<String>) -> (r: (usize, usize))
    ensures
        r.0 == repo_width(records.deep_view()),
        r.1 == root_width(records.deep_view(), home.deep_view()),
{
    let ghost all = records.deep_view();
    let mut names: usize = 0;
    let mut roots: usize = 0;
    let mut i: usize = 0;
    while i < records.len()
        invariant
            i <= records@.len(),
            all == records.deep_view(),
            names == repo_width(all.subrange(0, i as int)),
            roots == root_width(all.subrange(0, i as int), home.deep_view()),
        decreases records@.len() - i,
    {
        proof {
            assert(all.subrange(0, i + 1).last() == records@[i as int].deep_view());
            assert(all.subrange(0, i + 1).drop_last() =~= all.subrange(0, i as int));
        }
        let name: usize = measure(records[i].repo.as_str());
        let root: String = abbreviate_path(records[i].workspace_root.as_str(), home);
        let wide: usize = measure(root.as_str());
        if name > names {
            names = name;
        }
        if wide > roots {
            roots = wide;
        }
        i += 1;
    }
    assert(all.subrange(0, i as int) =~= all);
    (names, roots)
}

pub fn format_repo_list(records: &Vec<RepoRecord>, home: &Option<String>) -> (r: Vec<Span>)
    ensures
        r.deep_view() == spec_repo_list(records.deep_view(), home.deep_view()),
{
    if records.len() == 0 {
        return plain_message("No repos configured.".to_string());
    }
    let widths: (usize, usize) = repo_widths(records, home);
    let ghost all = records.deep_view();
    let mut lines: Vec<Vec<Span>> = Vec::new();
    let mut i: usize = 0;
    while i < records.len()
        invariant
            i <= records@.len(),
            all == records.deep_view(),
            lines@.len() == i,
            forall|j: int|
                0 <= j < i ==> #[trigger] lines@[j].deep_view() == repo_line(
                    all[j],
                    widths.0 as nat,
                    widths.1 as nat,
                    home.deep_view(),
                ),
        decreases records@.len() - i,
    {
        let r: &RepoRecord = &records[i];
        let root: String = abbreviate_path(r.workspace_root.as_str(), home);
        let line: Vec<Span> = vec![
            span(Style::Name, pad_right(r.repo.as_str(), widths.0).as_str()),
            span(Style::Plain, "  "),
            span(Style::Dim, pad_right(root.as_str(), widths.1).as_str()),
            span(Style::Plain, "  "),
            span(Style::Dim, "branch"),
            span(Style::Plain, " "),
            span(Style::Plain, r.main_branch.as_str()),
            span(Style::Plain, " "),
            span(Style::Dim, "prefix"),
            span(Style::Plain, " "),
            span(Style::Plain, r.workspace_prefix.as_str()),
        ];
        assert(line.deep_view() =~= repo_line(
            all[i as int],
            widths.0 as nat,
            widths.1 as nat,
            home.deep_view(),
        ));
        lines.push(line);
        i += 1;
    }
    assert(lines.deep_view() =~= Seq::new(
        all.len(),
        |i: int|
            repo_line(
                all[i],
                repo_width(all),
                root_width(all, home.deep_view()),
                home.deep_view(),
            ),
    ));
    join_lines(lines)
}

} // verus!
