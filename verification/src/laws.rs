//! General laws of the generated operations, stated once for all record
//! values and container states and proved against the operation semantics
//! of [`crate::semantics`]. Each law is the universal form of a behaviour
//! the generated container promises; the operations' own contracts in
//! [`crate::container`] connect these model-level statements to the
//! executable code.

use vstd::prelude::*;

use crate::container::{rows_of, Record, SoaContainer};
use crate::semantics::{column_of, popped, pushed, removed, swap_removed};

verus! {

/// Round trip: a container constructed from the single record `r` holds one
/// row, popping yields exactly `r`'s values, and the container is empty
/// afterwards.
pub proof fn lemma_single_record_round_trip<V>(r: Record<V>)
    ensures
        rows_of(seq![r]).len() == 1,
        rows_of(seq![r]).last() == r@,
        popped(rows_of(seq![r])) == Seq::<Seq<V>>::empty(),
{
    assert(rows_of(seq![r]) =~= seq![r@]);
    assert(popped(rows_of(seq![r])) =~= Seq::<Seq<V>>::empty());
}

/// Positional correspondence under construction: a container built from
/// `instances` holds one row per record in input order, and column `j` at
/// index `i` is exactly record `i`'s field `j` value — the same index
/// names the same logical record in every column.
pub proof fn lemma_construction_correspondence<V>(instances: Seq<Record<V>>, i: int, j: int)
    requires
        0 <= i < instances.len(),
    ensures
        rows_of(instances).len() == instances.len(),
        rows_of(instances)[i] == instances[i]@,
        column_of(rows_of(instances), j)[i] == instances[i]@[j],
{
}

/// Length/column synchronisation: in every well-formed container state the
/// length counter equals every column's length — and every operation both
/// requires and re-establishes well-formedness, so this holds at every
/// externally observable point.
pub proof fn lemma_length_column_sync<V>(container: &SoaContainer<V>, j: int)
    requires
        container.wf(),
        0 <= j < container.arity(),
    ensures
        container.col(j).len() == container.spec_len(),
        container.col(j) == column_of(container.rows(), j),
{
    container.lemma_view_shape();
}

/// Order preservation under `remove`: removing index 1 from a container
/// holding rows `[a, b, c]` yields `b` and leaves exactly the rows
/// `[a, c]` — the state a container built from `[a, c]` would hold.
pub proof fn lemma_remove_preserves_order<V>(a: Seq<V>, b: Seq<V>, c: Seq<V>)
    ensures
        seq![a, b, c][1] == b,
        removed(seq![a, b, c], 1) == seq![a, c],
{
    assert(removed(seq![a, b, c], 1) =~= seq![a, c]);
}

/// Non-preservation of order under `swap_remove`: swap-removing index 0
/// from a container holding rows `[a, b, c]` yields `a` and leaves exactly
/// the rows `[c, b]` — the last row has moved into the vacated slot.
pub proof fn lemma_swap_remove_order<V>(a: Seq<V>, b: Seq<V>, c: Seq<V>)
    ensures
        seq![a, b, c][0] == a,
        swap_removed(seq![a, b, c], 0) == seq![c, b],
{
    assert(swap_removed(seq![a, b, c], 0) =~= seq![c, b]);
}

/// Push/accessor consistency: a push appends the record's field `j` value
/// to column `j` — so that column's last element is exactly that field
/// value — and the number of rows grows by exactly one.
pub proof fn lemma_push_column_consistency<V>(rows: Seq<Seq<V>>, r: Seq<V>, j: int)
    requires
        0 <= j < r.len(),
    ensures
        pushed(rows, r).len() == rows.len() + 1,
        column_of(pushed(rows, r), j) == column_of(rows, j).push(r[j]),
        column_of(pushed(rows, r), j).last() == r[j],
{
    assert(column_of(pushed(rows, r), j) =~= column_of(rows, j).push(r[j]));
}

} // verus!
