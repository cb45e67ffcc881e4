//! The block of ignore patterns: writing it twice is writing it once, one block is
//! left, and what stands outside it is kept.

use vstd::prelude::*;

use crate::exclude::{
    begin_mark, block_head, carries, end_mark, exclude_block, marked, on_own_line, spec_upsert,
    tail_start,
};
use crate::text::{lemma_find, spec_contains, spec_find, stands_at};

verus! {

// ---------------------------------------------------------------------------
// The block
// ---------------------------------------------------------------------------

/// What both marks have in common: their length, one `#` in front, and neither line
/// feeds, dots nor slashes.
spec fn is_mark(mark: Seq<char>) -> bool {
    &&& mark.len() == 47
    &&& mark[0] == '#'
    &&& forall|i: int| 1 <= i < 47 ==> mark[i] != '#'
    &&& forall|i: int| 0 <= i < 47 ==> mark[i] != '\n' && mark[i] != '.' && mark[i] != '/'
}

proof fn lemma_marks()
    ensures
        is_mark(begin_mark()),
        is_mark(end_mark()),
        begin_mark()[46] == '>',
        end_mark()[46] == '<',
        forall|i: int| 0 <= i < 47 ==> begin_mark()[i] != '<',
        forall|i: int| 0 <= i < 47 ==> end_mark()[i] != '>',
{
    reveal_strlit("# >>> boss-internal infra (managed by cube) >>>");
    reveal_strlit("# <<< boss-internal infra (managed by cube) <<<");
}

proof fn lemma_head()
    ensures
        block_head().len() > 47,
        forall|i: int| 0 <= i < block_head().len() ==> block_head()[i] != '<',
        forall|i: int| 47 <= i < block_head().len() ==> block_head()[i] != '>',
        block_head()[block_head().len() - 1] == '/',
        block_head().subrange(0, 47) == begin_mark(),
{
    lemma_marks();
    let l1 = "\n# Keeps Boss/host infra files out of the worker's jj snapshot so they\n"@;
    let l2 = "# never land in a PR (issue #1174). cube rewrites this block on every\n"@;
    let l3 = "# lease; edit patterns above/below it, not inside.\n"@;
    let l4 = ".boss/\n/logs/"@;
    assert(forall|i: int| 0 <= i < l1.len() ==> l1[i] != '<' && l1[i] != '>') by {
        reveal_strlit(
            "\n# Keeps Boss/host infra files out of the worker's jj snapshot so they\n",
        );
    }
    assert(forall|i: int| 0 <= i < l2.len() ==> l2[i] != '<' && l2[i] != '>') by {
        reveal_strlit(
            "# never land in a PR (issue #1174). cube rewrites this block on every\n",
        );
    }
    assert(forall|i: int| 0 <= i < l3.len() ==> l3[i] != '<' && l3[i] != '>') by {
        reveal_strlit("# lease; edit patterns above/below it, not inside.\n");
    }
    reveal_strlit(".boss/\n/logs/");
    assert(l4.len() == 13);
    assert(forall|i: int| 0 <= i < l4.len() ==> l4[i] != '<' && l4[i] != '>');
    assert(block_head() == begin_mark() + l1 + l2 + l3 + l4);
    assert(block_head().subrange(0, 47) =~= begin_mark());
}

/// Where the closing mark stands in the block.
spec fn mark_at(id: Seq<char>) -> int {
    block_head().len() as int + id.len() + 5
}

proof fn lemma_block(id: Seq<char>)
    ensures
        stands_at(exclude_block(id), begin_mark(), 0),
        stands_at(exclude_block(id), end_mark(), mark_at(id)),
        exclude_block(id).len() == mark_at(id) + 48,
        exclude_block(id)[0] == '#',
        exclude_block(id).last() == '\n',
{
    lemma_marks();
    lemma_head();
    reveal_strlit(".log\n");
    reveal_strlit("\n");
    let block = exclude_block(id);
    let off = mark_at(id);
    assert(block.len() == off + 48);
    assert(block.subrange(0, 47) =~= begin_mark()) by {
        assert forall|k: int| 0 <= k < 47 implies block[k] == begin_mark()[k] by {
            assert(block[k] == block_head()[k]);
            assert(block_head().subrange(0, 47)[k] == block_head()[k]);
        }
    }
    assert(block.subrange(0, 47)[0] == block[0]);
    assert(block.subrange(off, off + 47) =~= end_mark());
}

/// The only place in `s` where `p` stands is `at`.
pub open spec fn only_at(s: Seq<char>, p: Seq<char>, at: int) -> bool {
    stands_at(s, p, at) && forall|i: int| #[trigger] stands_at(s, p, i) ==> i == at
}

/// A mark that does not stand in the name of the workspace stands in the block at one
/// place only, since a mark that ends with a character of neither the head nor the
/// rest of the block lies in the name.
proof fn lemma_mark_in_block(id: Seq<char>, mark: Seq<char>, i: int)
    requires
        mark == begin_mark() || mark == end_mark(),
        !spec_contains(id, mark),
        stands_at(exclude_block(id), mark, i),
    ensures
        mark == begin_mark() ==> i == 0,
        mark == end_mark() ==> i == mark_at(id),
{
    lemma_marks();
    lemma_head();
    lemma_block(id);
    reveal_strlit(".log\n");
    reveal_strlit("\n");
    let block = exclude_block(id);
    let h = block_head().len() as int;
    let k = h + id.len();
    let off = mark_at(id);
    let here = block.subrange(i, i + 47);
    assert(forall|j: int| 0 <= j < 47 ==> #[trigger] here[j] == block[i + j]);
    assert(here[46] == block[i + 46]);
    assert(block[h - 1] == block_head()[h - 1]);
    assert(block[k] == '.');
    assert(block[off - 1] == '\n');
    assert(block[off + 47] == '\n');
    if i + 46 < h {
        assert(block[i + 46] == block_head()[i + 46]);
    } else if i < h {
        assert(here[h - 1 - i] == block[h - 1]);
    } else if i + 46 < k {
        assert(id.subrange(i - h, i - h + 47) =~= here) by {
            assert forall|j: int| 0 <= j < 47 implies id.subrange(i - h, i - h + 47)[j]
                == here[j] by {
                assert(block[i + j] == id[i - h + j]);
            }
        }
        assert(stands_at(id, mark, i - h));
    } else if i <= k {
        assert(here[k - i] == block[k]);
    } else if i < off {
        assert(here[off - 1 - i] == block[off - 1]);
    } else if i > off {
        assert(here[off + 47 - i] == block[off + 47]);
    } else {
        assert(block.subrange(off, off + 47) == end_mark());
        assert(here[46] == end_mark()[46]);
    }
}

// ---------------------------------------------------------------------------
// The whole text
// ---------------------------------------------------------------------------

/// Between texts that hold no mark, the marks of a block are the only ones: no mark
/// reaches into the block from the front, since it would hold a second `#`, nor out of
/// it, since it would hold a line feed.
proof fn lemma_only(
    front: Seq<char>,
    block: Seq<char>,
    rest: Seq<char>,
    mark: Seq<char>,
    at: int,
)
    requires
        is_mark(mark),
        block.len() > 0,
        block[0] == '#',
        block.last() == '\n',
        only_at(block, mark, at),
        forall|i: int| !stands_at(front, mark, i),
        forall|i: int| !stands_at(rest, mark, i),
    ensures
        only_at(front + block + rest, mark, front.len() + at),
{
    let r = front + block + rest;
    let n = front.len() as int;
    let m = n + block.len();
    assert(r.subrange(n + at, n + at + 47) =~= block.subrange(at, at + 47));
    assert forall|j: int| #[trigger] stands_at(r, mark, j) implies j == n + at by {
        let here = r.subrange(j, j + 47);
        if j + 47 <= n {
            assert(front.subrange(j, j + 47) =~= here);
            assert(stands_at(front, mark, j));
        } else if j < n {
            assert(r[n] == block[0]);
            assert(here[n - j] == r[n]);
        } else if j >= m {
            assert(rest.subrange(j - m, j - m + 47) =~= here);
            assert(stands_at(rest, mark, j - m));
        } else if j + 47 > m {
            assert(r[m - 1] == block.last());
            assert(here[m - 1 - j] == r[m - 1]);
        } else {
            assert(block.subrange(j - n, j - n + 47) =~= here);
            assert(stands_at(block, mark, j - n));
        }
    }
}

/// A line feed behind a text makes no mark.
proof fn lemma_own_line(existing: Seq<char>, mark: Seq<char>)
    requires
        is_mark(mark),
        forall|i: int| !stands_at(existing, mark, i),
    ensures
        forall|i: int| !stands_at(on_own_line(existing), mark, i),
{
    let p = on_own_line(existing);
    assert forall|i: int| !stands_at(p, mark, i) by {
        if stands_at(p, mark, i) {
            let here = p.subrange(i, i + 47);
            if i + 47 <= existing.len() {
                assert(existing.subrange(i, i + 47) =~= here);
                assert(stands_at(existing, mark, i));
            } else {
                assert(here[46] == p[i + 46]);
            }
        }
    }
}

/// A mark that stands at one place only stands nowhere in front of it, nor behind it.
proof fn lemma_outside(existing: Seq<char>, mark: Seq<char>, at: int, from: int, to: int)
    requires
        is_mark(mark),
        only_at(existing, mark, at),
        0 <= from <= to <= existing.len(),
        at < from || to < at + 47,
    ensures
        forall|i: int| !stands_at(existing.subrange(from, to), mark, i),
{
    let part = existing.subrange(from, to);
    assert forall|i: int| !stands_at(part, mark, i) by {
        if stands_at(part, mark, i) {
            assert(existing.subrange(from + i, from + i + 47) =~= part.subrange(i, i + 47));
            assert(stands_at(existing, mark, from + i));
        }
    }
}

/// The text holds neither mark, or the opening one once and behind it the closing one
/// once.
pub open spec fn has_one_block_at_most(existing: Seq<char>) -> bool {
    ||| !spec_contains(existing, begin_mark()) && !spec_contains(existing, end_mark())
    ||| exists|start: int, end: int| #[trigger]
        only_at(existing, begin_mark(), start) && #[trigger] only_at(existing, end_mark(), end)
            && start < end
}

/// A text that carries the block of a workspace stays as it is.
pub proof fn law_identical_block_stays(existing: Seq<char>, id: Seq<char>)
    requires
        spec_find(existing, exclude_block(id), 0) is Some,
    ensures
        spec_upsert(existing, exclude_block(id)) == existing,
{
    lemma_block(id);
}

/// The text that comes out carries the block.
pub proof fn law_upsert_carries_the_block(existing: Seq<char>, id: Seq<char>)
    ensures
        carries(spec_upsert(existing, exclude_block(id)), exclude_block(id)),
{
    lemma_marks();
    lemma_block(id);
    let block = exclude_block(id);
    let once = spec_upsert(existing, block);
    lemma_find(existing, begin_mark(), 0);
    if !carries(existing, block) {
        let at = match marked(existing) {
            Some((start, end)) => {
                lemma_find(existing, end_mark(), start);
                start
            },
            None => on_own_line(existing).len() as int,
        };
        assert(once.subrange(at, at + block.len()) =~= block);
        assert(stands_at(once, block, at));
        lemma_find(once, block, 0);
    }
}

/// Bringing the block up to date twice is bringing it up to date once.
pub proof fn law_upsert_is_idempotent(existing: Seq<char>, id: Seq<char>)
    ensures
        ({
            let once = spec_upsert(existing, exclude_block(id));
            spec_upsert(once, exclude_block(id)) == once
        }),
{
    law_upsert_carries_the_block(existing, id);
}

/// Where there was one block at most, there is one afterwards: each mark stands in the
/// text once, the opening one first. The name of the workspace must hold neither mark.
pub proof fn law_upsert_leaves_one_block(existing: Seq<char>, id: Seq<char>)
    requires
        has_one_block_at_most(existing),
        !spec_contains(id, begin_mark()),
        !spec_contains(id, end_mark()),
    ensures
        exists|start: int, end: int| #[trigger]
            only_at(spec_upsert(existing, exclude_block(id)), begin_mark(), start)
                && #[trigger] only_at(
                spec_upsert(existing, exclude_block(id)),
                end_mark(),
                end,
            ) && start < end,
{
    lemma_marks();
    lemma_block(id);
    let block = exclude_block(id);
    let off = mark_at(id);
    let once = spec_upsert(existing, block);
    assert forall|i: int| #[trigger] stands_at(block, begin_mark(), i) implies i == 0 by {
        lemma_mark_in_block(id, begin_mark(), i);
    }
    assert forall|i: int| #[trigger] stands_at(block, end_mark(), i) implies i == off by {
        lemma_mark_in_block(id, end_mark(), i);
    }
    lemma_find(existing, begin_mark(), 0);
    if spec_contains(existing, begin_mark()) || spec_contains(existing, end_mark()) {
        let (start, end) = choose|start: int, end: int| #[trigger]
            only_at(existing, begin_mark(), start) && #[trigger] only_at(
                existing,
                end_mark(),
                end,
            ) && start < end;
        lemma_find(existing, end_mark(), start);
        assert(marked(existing) == Some((start, end)));
        if !carries(existing, block) {
            let n = existing.len() as int;
            let tail = tail_start(existing, end);
            let front = existing.subrange(0, start);
            let rest = existing.subrange(tail, n);
            lemma_outside(existing, begin_mark(), start, 0, start);
            lemma_outside(existing, begin_mark(), start, tail, n);
            lemma_outside(existing, end_mark(), end, 0, start);
            lemma_outside(existing, end_mark(), end, tail, n);
            lemma_only(front, block, rest, begin_mark(), 0);
            lemma_only(front, block, rest, end_mark(), off);
            assert(once == front + block + rest);
            assert(only_at(once, begin_mark(), start));
            assert(only_at(once, end_mark(), start + off));
        }
    } else {
        if carries(existing, block) {
            lemma_find(existing, block, 0);
            let i = spec_find(existing, block, 0)->0;
            assert(existing.subrange(i, i + 47) =~= block.subrange(0, 47)) by {
                assert(existing.subrange(i, i + block.len()).subrange(0, 47)
                    =~= existing.subrange(i, i + 47));
            }
            assert(stands_at(existing, begin_mark(), i));
        }
        let front = on_own_line(existing);
        let rest = Seq::<char>::empty();
        lemma_own_line(existing, begin_mark());
        lemma_own_line(existing, end_mark());
        lemma_only(front, block, rest, begin_mark(), 0);
        lemma_only(front, block, rest, end_mark(), off);
        assert(front + block + rest =~= once);
        assert(only_at(once, begin_mark(), front.len() as int));
        assert(only_at(once, end_mark(), front.len() + off));
    }
}

/// What stands before the block that is replaced and behind it is kept, and a text
/// without such a block is kept whole.
pub proof fn law_upsert_keeps_the_rest(existing: Seq<char>, block: Seq<char>)
    ensures
        match marked(existing) {
            Some((start, end)) => {
                let after = spec_upsert(existing, block);
                let rest = existing.subrange(
                    tail_start(existing, end),
                    existing.len() as int,
                );
                &&& after.subrange(0, start) == existing.subrange(0, start)
                &&& after.subrange(after.len() - rest.len(), after.len() as int) == rest
            },
            None => spec_upsert(existing, block).subrange(0, existing.len() as int) == existing,
        },
{
    lemma_marks();
    lemma_find(existing, begin_mark(), 0);
    let after = spec_upsert(existing, block);
    match marked(existing) {
        Some((start, end)) => {
            lemma_find(existing, end_mark(), start);
            let rest = existing.subrange(tail_start(existing, end), existing.len() as int);
            assert(after.subrange(0, start) =~= existing.subrange(0, start));
            assert(after.subrange(after.len() - rest.len(), after.len() as int) =~= rest);
        },
        None => {
            assert(after.subrange(0, existing.len() as int) =~= existing);
        },
    }
}

} // verus!
