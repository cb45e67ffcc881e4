//! Texts in order: comparing them character by character, and sorting.

use vstd::prelude::*;

use crate::records::{WorkspaceCandidate, WorkspaceCandidateView};
use crate::text::{copy, to_chars};

verus! {

/// `a` comes before `b`, or is the same text.
pub open spec fn not_after(a: Seq<char>, b: Seq<char>) -> bool
    decreases a.len(),
{
    if a.len() == 0 {
        true
    } else if b.len() == 0 {
        false
    } else if a[0] == b[0] {
        not_after(a.drop_first(), b.drop_first())
    } else {
        (a[0] as u32) < (b[0] as u32)
    }
}

pub fn in_order(a: &str, b: &str) -> (r: bool)
    ensures
        r == not_after(a@, b@),
{
    let x: Vec<char> = to_chars(a);
    let y: Vec<char> = to_chars(b);
    let mut i: usize = 0;
    assert(a@.subrange(0, a@.len() as int) =~= a@);
    assert(b@.subrange(0, b@.len() as int) =~= b@);
    while i < x.len() && i < y.len() && x[i] == y[i]
        invariant
            i <= x@.len(),
            i <= y@.len(),
            x@ == a@,
            y@ == b@,
            not_after(a@, b@) == not_after(
                a@.subrange(i as int, a@.len() as int),
                b@.subrange(i as int, b@.len() as int),
            ),
        decreases x@.len() - i,
    {
        proof {
            assert(a@.subrange(i as int, a@.len() as int).drop_first() =~= a@.subrange(
                i + 1,
                a@.len() as int,
            ));
            assert(b@.subrange(i as int, b@.len() as int).drop_first() =~= b@.subrange(
                i + 1,
                b@.len() as int,
            ));
        }
        i += 1;
    }
    if i == x.len() {
        true
    } else if i == y.len() {
        false
    } else {
        (x[i] as u32) < (y[i] as u32)
    }
}

proof fn lemma_char_order(a: char, b: char)
    ensures
        (a as u32) == (b as u32) ==> a == b,
{
}

/// Of two texts, at least one is not after the other.
pub proof fn lemma_total(a: Seq<char>, b: Seq<char>)
    ensures
        not_after(a, b) || not_after(b, a),
    decreases a.len(),
{
    if a.len() > 0 && b.len() > 0 {
        lemma_char_order(a[0], b[0]);
        lemma_total(a.drop_first(), b.drop_first());
    }
}

/// The order is transitive.
pub proof fn lemma_transitive(a: Seq<char>, b: Seq<char>, c: Seq<char>)
    requires
        not_after(a, b),
        not_after(b, c),
    ensures
        not_after(a, c),
    decreases a.len(),
{
    if a.len() > 0 && b.len() > 0 && c.len() > 0 {
        if a[0] == b[0] && b[0] == c[0] {
            lemma_transitive(a.drop_first(), b.drop_first(), c.drop_first());
        }
    }
}

// ---------------------------------------------------------------------------
// Names, each once
// ---------------------------------------------------------------------------

/// How many of the sorted names come before `name`.
pub open spec fn name_rank(sorted: Seq<Seq<char>>, name: Seq<char>) -> nat
    decreases sorted.len(),
{
    if sorted.len() == 0 || not_after(name, sorted[0]) {
        0
    } else {
        1 + name_rank(sorted.drop_first(), name)
    }
}

/// The sorted names with `name` among them.
pub open spec fn with_name(sorted: Seq<Seq<char>>, name: Seq<char>) -> Seq<Seq<char>> {
    if sorted.contains(name) {
        sorted
    } else {
        sorted.insert(name_rank(sorted, name) as int, name)
    }
}

/// The names in order, each once.
pub open spec fn sorted_names(names: Seq<Seq<char>>) -> Seq<Seq<char>>
    decreases names.len(),
{
    if names.len() == 0 {
        Seq::empty()
    } else {
        with_name(sorted_names(names.drop_last()), names.last())
    }
}

proof fn lemma_name_rank(sorted: Seq<Seq<char>>, name: Seq<char>)
    ensures
        name_rank(sorted, name) <= sorted.len(),
        forall|i: int| 0 <= i < name_rank(sorted, name) ==> !not_after(name, #[trigger] sorted[i]),
        name_rank(sorted, name) < sorted.len() ==> not_after(
            name,
            sorted[name_rank(sorted, name) as int],
        ),
    decreases sorted.len(),
{
    if sorted.len() > 0 && !not_after(name, sorted[0]) {
        lemma_name_rank(sorted.drop_first(), name);
        assert forall|i: int| 0 <= i < name_rank(sorted, name) implies !not_after(
            name,
            #[trigger] sorted[i],
        ) by {
            if i > 0 {
                assert(sorted.drop_first()[i - 1] == sorted[i]);
            }
        }
    }
}

/// Puts a name among sorted names, unless it is there.
pub fn insert_name(sorted: &mut Vec<String>, name: &String)
    ensures
        final(sorted).deep_view() == with_name(old(sorted).deep_view(), name@),
{
    if crate::text::holds(sorted, name.as_str()) {
        return;
    }
    let ghost whole = sorted.deep_view();
    let mut i: usize = 0;
    assert(whole.subrange(0, whole.len() as int) =~= whole);
    while i < sorted.len() && !in_order(name.as_str(), sorted[i].as_str())
        invariant
            i <= sorted@.len(),
            sorted.deep_view() == whole,
            *sorted == *old(sorted),
            name_rank(whole, name@) == i + name_rank(
                whole.subrange(i as int, whole.len() as int),
                name@,
            ),
        decreases sorted@.len() - i,
    {
        proof {
            let rest = whole.subrange(i as int, whole.len() as int);
            assert(rest[0] == sorted@[i as int]@);
            assert(rest.drop_first() =~= whole.subrange(i + 1, whole.len() as int));
        }
        i += 1;
    }
    proof {
        if i < whole.len() {
            assert(whole.subrange(i as int, whole.len() as int)[0] == sorted@[i as int]@);
        }
    }
    sorted.insert(i, copy(name));
    assert(sorted.deep_view() =~= whole.insert(i as int, name@));
}

/// Sorted names are in order.
pub open spec fn names_in_order(names: Seq<Seq<char>>) -> bool {
    forall|i: int, j: int| 0 <= i < j < names.len() ==> not_after(names[i], names[j])
}

/// The sorted names of a list are in order, without repetition, and the same names
/// as in the list.
pub proof fn law_sorted_names(names: Seq<Seq<char>>)
    ensures
        names_in_order(sorted_names(names)),
        sorted_names(names).no_duplicates(),
        forall|name: Seq<char>| sorted_names(names).contains(name) <==> names.contains(name),
    decreases names.len(),
{
    if names.len() > 0 {
        let name = names.last();
        let before = sorted_names(names.drop_last());
        let after = sorted_names(names);
        law_sorted_names(names.drop_last());
        let k = name_rank(before, name) as int;
        lemma_name_rank(before, name);
        if !before.contains(name) {
            assert forall|i: int, j: int| 0 <= i < j < after.len() implies not_after(
                after[i],
                after[j],
            ) by {
                if j == k {
                    lemma_total(before[i], name);
                } else if i == k {
                    if j > k + 1 {
                        lemma_transitive(name, before[k], before[j - 1]);
                    }
                }
            }
        }
        assert forall|other: Seq<char>|
            sorted_names(names).contains(other) <==> names.contains(other) by {
            if names.contains(other) {
                let i = choose|i: int| 0 <= i < names.len() && names[i] == other;
                if i < names.len() - 1 {
                    assert(names.drop_last()[i] == other);
                    assert(names.drop_last().contains(other));
                    assert(before.contains(other));
                    let m = choose|m: int| 0 <= m < before.len() && before[m] == other;
                    if !before.contains(name) {
                        if m < k {
                            assert(after[m] == other);
                        } else {
                            assert(after[m + 1] == other);
                        }
                    }
                } else if !before.contains(name) {
                    assert(after[k] == other);
                }
            }
            if after.contains(other) {
                let m = choose|m: int| 0 <= m < after.len() && after[m] == other;
                if before.contains(name) {
                    assert(before.contains(other));
                    assert(names.drop_last().contains(other));
                    let i = choose|i: int|
                        0 <= i < names.drop_last().len() && names.drop_last()[i] == other;
                    assert(names[i] == other);
                } else if m == k {
                    assert(names[names.len() - 1] == other);
                } else {
                    if m < k {
                        assert(before[m] == other);
                    } else {
                        assert(before[m - 1] == other);
                    }
                    assert(names.drop_last().contains(other));
                    let i = choose|i: int|
                        0 <= i < names.drop_last().len() && names.drop_last()[i] == other;
                    assert(names[i] == other);
                }
            }
        }
    }
}

// ---------------------------------------------------------------------------
// Candidates
// ---------------------------------------------------------------------------

/// How many of the sorted candidates stay in front of one with the given id: those
/// that do not come after it.
pub open spec fn candidate_rank(sorted: Seq<WorkspaceCandidateView>, id: Seq<char>) -> nat
    decreases sorted.len(),
{
    if sorted.len() == 0 || !not_after(sorted[0].workspace_id, id) {
        0
    } else {
        1 + candidate_rank(sorted.drop_first(), id)
    }
}

/// The candidates in the order of their ids; those with the same id stay in the
/// order in which they came.
pub open spec fn sorted_candidates(all: Seq<WorkspaceCandidateView>) -> Seq<WorkspaceCandidateView>
    decreases all.len(),
{
    if all.len() == 0 {
        Seq::empty()
    } else {
        let before = sorted_candidates(all.drop_last());
        before.insert(candidate_rank(before, all.last().workspace_id) as int, all.last())
    }
}

/// Puts a candidate among sorted candidates.
pub fn insert_candidate(sorted: &mut Vec<WorkspaceCandidate>, one: WorkspaceCandidate)
    ensures
        final(sorted).deep_view() == old(sorted).deep_view().insert(
            candidate_rank(old(sorted).deep_view(), one.workspace_id@) as int,
            one.deep_view(),
        ),
{
    let ghost whole = sorted.deep_view();
    let ghost added = one.deep_view();
    let mut i: usize = 0;
    assert(whole.subrange(0, whole.len() as int) =~= whole);
    while i < sorted.len() && in_order(
        sorted[i].workspace_id.as_str(),
        one.workspace_id.as_str(),
    )
        invariant
            i <= sorted@.len(),
            sorted.deep_view() == whole,
            candidate_rank(whole, one.workspace_id@) == i + candidate_rank(
                whole.subrange(i as int, whole.len() as int),
                one.workspace_id@,
            ),
        decreases sorted@.len() - i,
    {
        proof {
            let rest = whole.subrange(i as int, whole.len() as int);
            assert(rest[0] == sorted@[i as int].deep_view());
            assert(rest.drop_first() =~= whole.subrange(i + 1, whole.len() as int));
        }
        i += 1;
    }
    proof {
        if i < whole.len() {
            assert(whole.subrange(i as int, whole.len() as int)[0]
                == sorted@[i as int].deep_view());
        }
    }
    sorted.insert(i, one);
    assert(sorted.deep_view() =~= whole.insert(i as int, added));
}

pub open spec fn candidates_in_order(all: Seq<WorkspaceCandidateView>) -> bool {
    forall|i: int, j: int|
        0 <= i < j < all.len() ==> not_after(all[i].workspace_id, all[j].workspace_id)
}

proof fn lemma_candidate_rank(sorted: Seq<WorkspaceCandidateView>, id: Seq<char>)
    ensures
        candidate_rank(sorted, id) <= sorted.len(),
        forall|i: int|
            0 <= i < candidate_rank(sorted, id) ==> not_after(
                (#[trigger] sorted[i]).workspace_id,
                id,
            ),
        candidate_rank(sorted, id) < sorted.len() ==> !not_after(
            sorted[candidate_rank(sorted, id) as int].workspace_id,
            id,
        ),
    decreases sorted.len(),
{
    if sorted.len() > 0 && not_after(sorted[0].workspace_id, id) {
        lemma_candidate_rank(sorted.drop_first(), id);
        assert forall|i: int| 0 <= i < candidate_rank(sorted, id) implies not_after(
            (#[trigger] sorted[i]).workspace_id,
            id,
        ) by {
            if i > 0 {
                assert(sorted.drop_first()[i - 1] == sorted[i]);
            }
        }
    }
}

/// Sorting candidates puts them in the order of their ids, and loses and adds none.
pub proof fn law_sorted_candidates(all: Seq<WorkspaceCandidateView>)
    ensures
        candidates_in_order(sorted_candidates(all)),
        sorted_candidates(all).to_multiset() == all.to_multiset(),
    decreases all.len(),
{
    broadcast use vstd::seq_lib::group_to_multiset_ensures;

    if all.len() > 0 {
        let one = all.last();
        let before = sorted_candidates(all.drop_last());
        let after = sorted_candidates(all);
        let k = candidate_rank(before, one.workspace_id) as int;
        law_sorted_candidates(all.drop_last());
        lemma_candidate_rank(before, one.workspace_id);
        assert forall|i: int, j: int| 0 <= i < j < after.len() implies not_after(
            after[i].workspace_id,
            after[j].workspace_id,
        ) by {
            if i == k {
                lemma_total(one.workspace_id, before[k].workspace_id);
                if j > k + 1 {
                    lemma_transitive(
                        one.workspace_id,
                        before[k].workspace_id,
                        before[j - 1].workspace_id,
                    );
                }
            }
        }
        assert(all =~= all.drop_last().push(one));
        assert(after.to_multiset() =~= before.to_multiset().insert(one));
        assert(all.to_multiset() =~= all.drop_last().to_multiset().insert(one));
    } else {
        assert(all =~= Seq::<WorkspaceCandidateView>::empty());
    }
}

} // verus!
