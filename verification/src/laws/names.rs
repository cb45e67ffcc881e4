//! Ids, states, origins and resolvers.

use vstd::prelude::*;

use crate::config::RepoResolverView;
use crate::ensure::{first_resolved, flow_reuse};
use crate::error::CubeErrorView;
use crate::flow::{AnswerView, Flow};
use crate::git::{host_len, locate, same_origin, without_scheme, without_user};
use crate::records::{effective_from_name, effective_name, EffectiveState, RepoRecordView};
use crate::repo::{
    dashed, is_id_char, is_upper, lower_letter, spec_sanitize, without_end_dashes,
    without_front_dashes,
};
use crate::split::{lemma_upto, upto};
use crate::text::{lemma_find, spec_contains, spec_ends, stands_at};

verus! {

// ---------------------------------------------------------------------------
// Repository ids
// ---------------------------------------------------------------------------

/// Lowercase letters, digits and dashes, no two dashes in a row.
pub open spec fn is_dashed_text(s: Seq<char>) -> bool {
    &&& forall|i: int| 0 <= i < s.len() ==> is_id_char(#[trigger] s[i]) || s[i] == '-'
    &&& forall|i: int| 0 <= i < s.len() - 1 ==> !(#[trigger] s[i] == '-' && s[i + 1] == '-')
}

/// An id: no dash at either end.
pub open spec fn is_id(s: Seq<char>) -> bool {
    &&& is_dashed_text(s)
    &&& s.len() > 0 ==> s[0] != '-' && s.last() != '-'
}

proof fn lemma_lower(c: char)
    requires
        is_upper(c),
    ensures
        is_id_char(lower_letter(c)),
{
}

proof fn lemma_dashed(raw: Seq<char>)
    ensures
        is_dashed_text(dashed(raw)),
    decreases raw.len(),
{
    if raw.len() > 0 {
        lemma_dashed(raw.drop_last());
        if is_upper(raw.last()) {
            lemma_lower(raw.last());
        }
    }
}

proof fn lemma_front(s: Seq<char>)
    requires
        is_dashed_text(s),
    ensures
        is_dashed_text(without_front_dashes(s)),
        without_front_dashes(s).len() > 0 ==> without_front_dashes(s)[0] != '-',
    decreases s.len(),
{
    if s.len() > 0 && s[0] == '-' {
        let rest = s.drop_first();
        assert forall|i: int| 0 <= i < rest.len() implies is_id_char(#[trigger] rest[i]) || rest[i]
            == '-' by {
            assert(rest[i] == s[i + 1]);
        }
        assert forall|i: int| 0 <= i < rest.len() - 1 implies !(#[trigger] rest[i] == '-' && rest[i
            + 1] == '-') by {
            assert(rest[i] == s[i + 1]);
        }
        lemma_front(rest);
    }
}

proof fn lemma_end(s: Seq<char>)
    requires
        is_dashed_text(s),
        s.len() > 0 ==> s[0] != '-',
    ensures
        is_id(without_end_dashes(s)),
    decreases s.len(),
{
    if s.len() > 0 && s.last() == '-' {
        lemma_end(s.drop_last());
    }
}

/// The id made of a name holds nothing but lowercase letters, digits and single
/// dashes, and none at either end.
pub proof fn law_sanitized_is_an_id(raw: Seq<char>)
    ensures
        is_id(spec_sanitize(raw)),
{
    lemma_dashed(raw);
    lemma_front(dashed(raw));
    lemma_end(without_front_dashes(dashed(raw)));
}

proof fn lemma_dashed_keeps(s: Seq<char>)
    requires
        is_dashed_text(s),
    ensures
        dashed(s) == s,
    decreases s.len(),
{
    if s.len() > 0 {
        let front = s.drop_last();
        lemma_dashed_keeps(front);
        if front.len() > 0 && s.last() == '-' {
            assert(s[front.len() - 1] != '-');
        }
        assert(front.push(s.last()) =~= s);
    } else {
        assert(dashed(s) =~= s);
    }
}

/// An id stays as it is, so that making an id of an id changes nothing.
pub proof fn law_sanitizing_keeps_ids(id: Seq<char>)
    requires
        is_id(id),
    ensures
        spec_sanitize(id) == id,
{
    lemma_dashed_keeps(id);
}

// ---------------------------------------------------------------------------
// States and exit codes
// ---------------------------------------------------------------------------

/// The name of an effective state stands for that state.
pub proof fn law_state_names_are_read_back(state: EffectiveState)
    ensures
        effective_from_name(effective_name(state)) == Some(state),
{
    reveal_strlit("free");
    reveal_strlit("free-dirty");
    reveal_strlit("free-conflicted");
    reveal_strlit("leased");
    assert("free"@.len() == 4);
    assert("free-dirty"@.len() == 10);
    assert("free-conflicted"@.len() == 15);
    assert("leased"@.len() == 6);
}

/// The exit code for a workspace that still holds the work of an expired lease stands
/// for that alone, and no failure ends with the code of success.
pub proof fn law_exit_codes_tell(error: CubeErrorView)
    ensures
        error.exit_code() == 7 <==> error is LeaseExpiredWorkspaceDirty,
        error.exit_code() == 6 <==> error is SetupStepFailed,
        error.exit_code() == 4 <==> error is NoAvailableWorkspace,
        error.exit_code() == 3 <==> error is RepoNotFound,
        error.exit_code() != 0,
{
}

// ---------------------------------------------------------------------------
// Resolvers
// ---------------------------------------------------------------------------

/// The first resolver that yields an origin wins, with its own clone command; and
/// where none yields one, nothing is resolved.
pub proof fn law_first_resolver_wins(resolvers: Seq<RepoResolverView>, name: Seq<char>)
    ensures
        match first_resolved(resolvers, name) {
            Some((origin, clone)) => exists|i: int|
                0 <= i < resolvers.len() && (#[trigger] resolvers[i]).origin(name) == Some(origin)
                    && resolvers[i].clone(name) == clone && forall|j: int|
                    0 <= j < i ==> (#[trigger] resolvers[j]).origin(name) is None,
            None => forall|j: int|
                0 <= j < resolvers.len() ==> (#[trigger] resolvers[j]).origin(name) is None,
        },
    decreases resolvers.len(),
{
    if resolvers.len() > 0 && resolvers[0].origin(name) is None {
        let rest = resolvers.drop_first();
        law_first_resolver_wins(rest, name);
        match first_resolved(rest, name) {
            Some((origin, clone)) => {
                let i = choose|i: int|
                    0 <= i < rest.len() && (#[trigger] rest[i]).origin(name) == Some(origin)
                        && rest[i].clone(name) == clone && forall|j: int|
                        0 <= j < i ==> (#[trigger] rest[j]).origin(name) is None;
                assert(resolvers[i + 1] == rest[i]);
                assert forall|j: int| 0 <= j < i + 1 implies (#[trigger] resolvers[j]).origin(
                    name,
                ) is None by {
                    if j > 0 {
                        assert(resolvers[j] == rest[j - 1]);
                    }
                }
            },
            None => {
                assert forall|j: int| 0 <= j < resolvers.len() implies (
                #[trigger] resolvers[j]).origin(name) is None by {
                    if j > 0 {
                        assert(resolvers[j] == rest[j - 1]);
                    }
                }
            },
        }
    }
}

/// A repository that is registered comes out of being ensured as it is registered.
pub proof fn law_registered_repos_stay(t: Seq<AnswerView>, record: RepoRecordView)
    ensures
        flow_reuse(t, record) matches Flow::Done(after, _) ==> after == record,
{
}

/// Where its pool and its clone are there already, ensuring a registered repository
/// runs nothing.
pub proof fn law_ensuring_again_runs_nothing(record: RepoRecordView, rest: Seq<AnswerView>)
    requires
        record.source is Some,
    ensures
        flow_reuse(
            seq![AnswerView::Done(None), AnswerView::Flag(true), AnswerView::Flag(true)] + rest,
            record,
        ) == Flow::Done(record, rest),
{
    let t = seq![AnswerView::Done(None), AnswerView::Flag(true), AnswerView::Flag(true)] + rest;
    assert(t.drop_first()[0] == AnswerView::Flag(true));
    assert(t.drop_first().drop_first()[0] == AnswerView::Flag(true));
    assert(t.drop_first().drop_first().drop_first() =~= rest);
}

// ---------------------------------------------------------------------------
// Origins
// ---------------------------------------------------------------------------

/// No character of `s` is `c`.
pub open spec fn lacks(s: Seq<char>, c: char) -> bool {
    forall|i: int| 0 <= i < s.len() ==> s[i] != c
}

proof fn lemma_upto_is(s: Seq<char>, c: char, n: int)
    requires
        0 <= n < s.len(),
        s[n] == c,
        forall|i: int| 0 <= i < n ==> s[i] != c,
    ensures
        upto(s, c) == n,
{
    lemma_upto(s, c);
}

proof fn lemma_user_goes(user: Seq<char>, place: Seq<char>)
    requires
        lacks(user, '@'),
        lacks(user, '/'),
        !spec_contains(user + "@"@ + place, "://"@),
    ensures
        without_user(without_scheme(user + "@"@ + place)) == place,
{
    reveal_strlit("@");
    let s = user + "@"@ + place;
    lemma_find(s, "://"@, 0);
    assert(without_scheme(s) == s);
    let n = user.len() as int;
    assert(s[n] == '@');
    assert forall|i: int| 0 <= i < n implies s[i] != '@' && s[i] != '/' by {
        assert(s[i] == user[i]);
    }
    lemma_upto_is(s, '@', n);
    lemma_upto(s, '/');
    if upto(s, '/') <= n {
        assert(s[upto(s, '/') as int] == '/');
    }
    assert(s.subrange(n + 1, s.len() as int) =~= place);
}

/// Two origins that differ only in the user in front are equivalent, as long as there
/// is no scheme in them.
pub proof fn law_user_does_not_matter(user: Seq<char>, other: Seq<char>, place: Seq<char>)
    requires
        lacks(user, '@'),
        lacks(user, '/'),
        lacks(other, '@'),
        lacks(other, '/'),
        !spec_contains(user + "@"@ + place, "://"@),
        !spec_contains(other + "@"@ + place, "://"@),
    ensures
        same_origin(user + "@"@ + place, other + "@"@ + place),
{
    lemma_user_goes(user, place);
    lemma_user_goes(other, place);
}

proof fn lemma_host_len(host: Seq<char>, path: Seq<char>)
    requires
        lacks(host, '/'),
        lacks(host, ':'),
    ensures
        host_len(host + ":"@ + path) == host.len(),
    decreases host.len(),
{
    reveal_strlit(":");
    let s = host + ":"@ + path;
    if host.len() > 0 {
        assert(s[0] == host[0]);
        let rest = host.drop_first();
        assert forall|i: int| 0 <= i < rest.len() implies rest[i] != '/' by {
            assert(rest[i] == host[i + 1]);
        }
        assert forall|i: int| 0 <= i < rest.len() implies rest[i] != ':' by {
            assert(rest[i] == host[i + 1]);
        }
        lemma_host_len(rest, path);
        assert(s.drop_first() =~= rest + ":"@ + path);
    } else {
        assert(s[0] == ':');
    }
}

/// An origin of the form `<user>@<host>:<path>` points at the path on the host, and a
/// `.git` behind the path makes no difference.
pub proof fn law_git_suffix_does_not_matter(user: Seq<char>, host: Seq<char>, path: Seq<char>)
    requires
        lacks(user, '@'),
        lacks(user, '/'),
        lacks(host, '/'),
        lacks(host, ':'),
        path.len() > 0,
        path.last() != '/',
        !spec_ends(path, ".git"@),
        !spec_contains(user + "@"@ + (host + ":"@ + path), "://"@),
        !spec_contains(user + "@"@ + (host + ":"@ + (path + ".git"@)), "://"@),
    ensures
        locate(user + "@"@ + (host + ":"@ + path)).host == host,
        locate(user + "@"@ + (host + ":"@ + path)).path == path,
        same_origin(
            user + "@"@ + (host + ":"@ + path),
            user + "@"@ + (host + ":"@ + (path + ".git"@)),
        ),
{
    reveal_strlit(":");
    reveal_strlit(".git");
    let longer = path + ".git"@;
    lemma_user_goes(user, host + ":"@ + path);
    lemma_user_goes(user, host + ":"@ + longer);
    lemma_host_len(host, path);
    lemma_host_len(host, longer);
    let s = host + ":"@ + path;
    let l = host + ":"@ + longer;
    let n = host.len() as int;
    assert(s.subrange(0, n) =~= host);
    assert(l.subrange(0, n) =~= host);
    assert(s.subrange(n + 1, s.len() as int) =~= path);
    assert(l.subrange(n + 1, l.len() as int) =~= longer);
    assert(longer.last() == 't');
    assert(longer.subrange(longer.len() - 4, longer.len() as int) =~= ".git"@);
    assert(stands_at(longer, ".git"@, longer.len() - 4));
    assert(longer.subrange(0, longer.len() - 4) =~= path);
}

} // verus!
