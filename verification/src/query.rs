//! How rows are ordered and cut when a table is read: a stable ordering by
//! a "goes before" relation, and a limit on the number of rows.

use vstd::prelude::*;
use vstd::seq_lib::*;

verus! {

/// The index of the first row that `row` goes before, or the length of
/// `sorted` where there is none.
pub open spec fn slot<T>(sorted: Seq<T>, row: T, before: spec_fn(T, T) -> bool) -> int
    decreases sorted.len(),
{
    if sorted.len() == 0 {
        0
    } else if before(row, sorted[0]) {
        0
    } else {
        1 + slot(sorted.drop_first(), row, before)
    }
}

/// `sorted` with `row` put in at its slot.
pub open spec fn place<T>(sorted: Seq<T>, row: T, before: spec_fn(T, T) -> bool) -> Seq<T> {
    sorted.insert(slot(sorted, row, before), row)
}

/// The rows in stable order: each row is placed, in turn, among those that
/// came earlier, so rows of which neither goes before the other keep the
/// order they had.
pub open spec fn arrange<T>(rows: Seq<T>, before: spec_fn(T, T) -> bool) -> Seq<T>
    decreases rows.len(),
{
    if rows.len() == 0 {
        rows
    } else {
        place(arrange(rows.drop_last(), before), rows.last(), before)
    }
}

/// The index of the first row that `hit` holds of, or the length of `rows`
/// where it holds of none.
pub open spec fn first_index<T>(rows: Seq<T>, hit: spec_fn(T) -> bool) -> int
    decreases rows.len(),
{
    if rows.len() == 0 {
        0
    } else if hit(rows[0]) {
        0
    } else {
        1 + first_index(rows.drop_first(), hit)
    }
}

/// At most the first `max` rows.
pub open spec fn limit<T>(rows: Seq<T>, max: nat) -> Seq<T> {
    if rows.len() <= max {
        rows
    } else {
        rows.take(max as int)
    }
}

/// No row stands behind one that it goes before.
pub open spec fn ordered<T>(rows: Seq<T>, before: spec_fn(T, T) -> bool) -> bool {
    forall|i: int, j: int| 0 <= i < j < rows.len() ==> !before(rows[j], rows[i])
}

/// What an ordering by a key needs of "goes before": no row goes before
/// itself, and a row that does not go before `b` does not go before a row
/// that itself goes before `b`.
pub open spec fn ranks<T>(before: spec_fn(T, T) -> bool) -> bool {
    &&& forall|a: T| !#[trigger] before(a, a)
    &&& forall|a: T, b: T, c: T| #[trigger] before(a, b) && !#[trigger] before(c, b) ==> !before(c, a)
}

/// Every row in front stands to every row behind it as `apart` says.
pub open spec fn pairwise<T>(rows: Seq<T>, apart: spec_fn(T, T) -> bool) -> bool {
    forall|i: int, j: int| 0 <= i < j < rows.len() ==> apart(rows[i], rows[j])
}

/// Reading one row more: the rows kept of the first `i + 1` are those kept
/// of the first `i`, and row `i` behind them where it is kept.
pub proof fn lemma_filter_step<T>(rows: Seq<T>, keep: spec_fn(T) -> bool, i: int)
    requires
        0 <= i < rows.len(),
    ensures
        rows.take(i + 1).filter(keep) == if keep(rows[i]) {
            rows.take(i).filter(keep).push(rows[i])
        } else {
            rows.take(i).filter(keep)
        },
{
    reveal(Seq::filter);
    assert(rows.take(i + 1).drop_last() =~= rows.take(i));
}

/// Each row that a filter keeps is a row of the table.
pub proof fn lemma_filter_source<T>(rows: Seq<T>, keep: spec_fn(T) -> bool, at: int) -> (from: int)
    requires
        0 <= at < rows.filter(keep).len(),
    ensures
        0 <= from < rows.len(),
        rows[from] == rows.filter(keep)[at],
    decreases rows.len(),
{
    reveal(Seq::filter);
    let front = rows.drop_last();
    if keep(rows.last()) && at == front.filter(keep).len() {
        rows.len() - 1
    } else {
        lemma_filter_source(front, keep, at)
    }
}

/// A filter keeps rows apart that were apart.
pub proof fn lemma_filter_pairwise<T>(
    rows: Seq<T>,
    keep: spec_fn(T) -> bool,
    apart: spec_fn(T, T) -> bool,
)
    requires
        pairwise(rows, apart),
    ensures
        pairwise(rows.filter(keep), apart),
    decreases rows.len(),
{
    reveal(Seq::filter);
    if rows.len() > 0 {
        let front = rows.drop_last();
        assert(pairwise(front, apart)) by {
            assert forall|i: int, j: int| 0 <= i < j < front.len() implies apart(
                front[i],
                front[j],
            ) by {
                assert(front[i] == rows[i] && front[j] == rows[j]);
            }
        }
        lemma_filter_pairwise(front, keep, apart);
        let kept = rows.filter(keep);
        assert forall|i: int, j: int| 0 <= i < j < kept.len() implies apart(kept[i], kept[j]) by {
            if j < front.filter(keep).len() {
            } else {
                let from = lemma_filter_source(front, keep, i);
                assert(apart(rows[from], rows[rows.len() - 1]));
            }
        }
    }
}

/// Reading one row more: the arranged rows are the earlier ones arranged,
/// with the new row placed among them.
pub proof fn lemma_arrange_step<T>(rows: Seq<T>, row: T, before: spec_fn(T, T) -> bool)
    ensures
        arrange(rows.push(row), before) == place(arrange(rows, before), row, before),
{
    assert(rows.push(row).drop_last() =~= rows);
}

/// The slot lies within the sequence, `row` goes before none of the rows in
/// front of it, and it goes before the row at the slot.
pub proof fn lemma_slot<T>(sorted: Seq<T>, row: T, before: spec_fn(T, T) -> bool)
    ensures
        0 <= slot(sorted, row, before) <= sorted.len(),
        forall|k: int| 0 <= k < slot(sorted, row, before) ==> !before(row, #[trigger] sorted[k]),
        slot(sorted, row, before) < sorted.len() ==> before(
            row,
            sorted[slot(sorted, row, before)],
        ),
    decreases sorted.len(),
{
    if sorted.len() == 0 {
    } else if before(row, sorted[0]) {
    } else {
        let rest = sorted.drop_first();
        lemma_slot(rest, row, before);
        assert forall|k: int| 0 <= k < slot(sorted, row, before) implies !before(
            row,
            #[trigger] sorted[k],
        ) by {
            if k > 0 {
                assert(sorted[k] == rest[k - 1]);
            }
        }
    }
}

/// An index with the properties of the slot is the slot.
pub proof fn lemma_slot_found<T>(sorted: Seq<T>, row: T, before: spec_fn(T, T) -> bool, at: int)
    requires
        0 <= at <= sorted.len(),
        forall|k: int| 0 <= k < at ==> !before(row, #[trigger] sorted[k]),
        at < sorted.len() ==> before(row, sorted[at]),
    ensures
        slot(sorted, row, before) == at,
    decreases sorted.len(),
{
    if sorted.len() == 0 {
    } else if at == 0 {
    } else {
        assert(!before(row, sorted[0]));
        let rest = sorted.drop_first();
        assert forall|k: int| 0 <= k < at - 1 implies !before(row, #[trigger] rest[k]) by {
            assert(rest[k] == sorted[k + 1]);
        }
        lemma_slot_found(rest, row, before, at - 1);
    }
}

/// The first index lies within the sequence, `hit` holds of no row in front
/// of it, and it holds of the row there.
pub proof fn lemma_first_index<T>(rows: Seq<T>, hit: spec_fn(T) -> bool)
    ensures
        0 <= first_index(rows, hit) <= rows.len(),
        forall|k: int| 0 <= k < first_index(rows, hit) ==> !hit(#[trigger] rows[k]),
        first_index(rows, hit) < rows.len() ==> hit(rows[first_index(rows, hit)]),
    decreases rows.len(),
{
    if rows.len() == 0 {
    } else if hit(rows[0]) {
    } else {
        let rest = rows.drop_first();
        lemma_first_index(rest, hit);
        assert forall|k: int| 0 <= k < first_index(rows, hit) implies !hit(#[trigger] rows[k]) by {
            if k > 0 {
                assert(rows[k] == rest[k - 1]);
            }
        }
    }
}

/// An index with the properties of the first index is the first index.
pub proof fn lemma_first_index_found<T>(rows: Seq<T>, hit: spec_fn(T) -> bool, at: int)
    requires
        0 <= at <= rows.len(),
        forall|k: int| 0 <= k < at ==> !hit(#[trigger] rows[k]),
        at < rows.len() ==> hit(rows[at]),
    ensures
        first_index(rows, hit) == at,
    decreases rows.len(),
{
    if rows.len() == 0 {
    } else if at == 0 {
    } else {
        assert(!hit(rows[0]));
        let rest = rows.drop_first();
        assert forall|k: int| 0 <= k < at - 1 implies !hit(#[trigger] rest[k]) by {
            assert(rest[k] == rows[k + 1]);
        }
        lemma_first_index_found(rest, hit, at - 1);
    }
}

/// Placing a row keeps an ordered sequence ordered.
pub proof fn lemma_place_ordered<T>(sorted: Seq<T>, row: T, before: spec_fn(T, T) -> bool)
    requires
        ranks(before),
        ordered(sorted, before),
    ensures
        ordered(place(sorted, row, before), before),
{
    lemma_slot(sorted, row, before);
    let at = slot(sorted, row, before);
    let placed = place(sorted, row, before);
    assert forall|i: int, j: int| 0 <= i < j < placed.len() implies !before(
        placed[j],
        placed[i],
    ) by {
        if j < at {
        } else if j == at {
            assert(placed[i] == sorted[i]);
        } else if i < at {
            assert(placed[j] == sorted[j - 1]);
        } else if i == at {
            assert(placed[j] == sorted[j - 1]);
            assert(before(row, sorted[at]));
            if j - 1 > at {
                assert(!before(sorted[j - 1], sorted[at]));
            }
        } else {
            assert(placed[i] == sorted[i - 1]);
            assert(placed[j] == sorted[j - 1]);
        }
    }
}

/// The arranged rows are ordered.
pub proof fn lemma_arrange_ordered<T>(rows: Seq<T>, before: spec_fn(T, T) -> bool)
    requires
        ranks(before),
    ensures
        ordered(arrange(rows, before), before),
    decreases rows.len(),
{
    if rows.len() > 0 {
        lemma_arrange_ordered(rows.drop_last(), before);
        lemma_place_ordered(arrange(rows.drop_last(), before), rows.last(), before);
    }
}

/// The arranged rows are the given rows, each as often as it was given.
pub proof fn lemma_arrange_permutes<T>(rows: Seq<T>, before: spec_fn(T, T) -> bool)
    ensures
        arrange(rows, before).to_multiset() == rows.to_multiset(),
        arrange(rows, before).len() == rows.len(),
    decreases rows.len(),
{
    broadcast use group_to_multiset_ensures;

    if rows.len() > 0 {
        let earlier = arrange(rows.drop_last(), before);
        lemma_arrange_permutes(rows.drop_last(), before);
        lemma_slot(earlier, rows.last(), before);
        let at = slot(earlier, rows.last(), before);
        let placed = earlier.insert(at, rows.last());
        assert(placed.remove(at) =~= earlier);
        assert(placed[at] == rows.last());
        assert(placed.to_multiset() =~= earlier.to_multiset().insert(rows.last()));
        assert(rows =~= rows.drop_last().push(rows.last()));
    }
}

/// A limit keeps an order.
pub proof fn lemma_limit_ordered<T>(rows: Seq<T>, before: spec_fn(T, T) -> bool, max: nat)
    requires
        ordered(rows, before),
    ensures
        ordered(limit(rows, max), before),
        limit(rows, max).len() <= max,
        limit(rows, max).len() <= rows.len(),
        forall|i: int| 0 <= i < limit(rows, max).len() ==> limit(rows, max)[i] == rows[i],
{
}

/// Every arranged row is one of the rows that were arranged.
pub proof fn lemma_arranged_row<T>(rows: Seq<T>, before: spec_fn(T, T) -> bool, at: int) -> (from:
    int)
    requires
        0 <= at < arrange(rows, before).len(),
    ensures
        0 <= from < rows.len(),
        rows[from] == arrange(rows, before)[at],
{
    broadcast use group_to_multiset_ensures;

    let arranged = arrange(rows, before);
    lemma_arrange_permutes(rows, before);
    assert(arranged.contains(arranged[at]));
    assert(rows.to_multiset().count(arranged[at]) > 0);
    assert(rows.contains(arranged[at]));
    choose|from: int| 0 <= from < rows.len() && rows[from] == arranged[at]
}

} // verus!
