//! The operation generator's output: the meaning of every generated
//! collection operation, stated on an abstract model of a container state.
//!
//! A container state is modelled as its sequence of logical records
//! ("rows"); each row is the sequence of that record's field values in field
//! declaration order. Each spec function below defines one generated
//! operation's effect on that model; the executable container in
//! [`crate::container`] states its contracts against these definitions, and
//! the general laws in [`crate::laws`] are proved from them.

use vstd::prelude::*;

verus! {

/// Every row holds exactly `arity` field values (one per column).
pub open spec fn uniform<V>(rows: Seq<Seq<V>>, arity: nat) -> bool {
    forall|i: int| 0 <= i < rows.len() ==> (#[trigger] rows[i]).len() == arity
}

/// Column `j` of a container state: the `j`-th field value of every row, in
/// row order. The row/column duality of the struct-of-arrays layout is
/// exactly this transposition.
pub open spec fn column_of<V>(rows: Seq<Seq<V>>, j: int) -> Seq<V> {
    Seq::new(rows.len(), |i: int| rows[i][j])
}

/// `push`: one record is appended at the end.
pub open spec fn pushed<V>(rows: Seq<Seq<V>>, record: Seq<V>) -> Seq<Seq<V>> {
    rows.push(record)
}

/// `pop` on a non-empty container: the last record is removed. (On an empty
/// container `pop` returns "absent" and changes nothing; that case is not an
/// error and is handled directly in the operation's contract.)
pub open spec fn popped<V>(rows: Seq<Seq<V>>) -> Seq<Seq<V>>
    recommends
        rows.len() > 0,
{
    rows.drop_last()
}

/// `remove(index)`: a shifting removal. The record at `index` leaves; every
/// later record moves one slot down, so the relative order of the remaining
/// records is preserved.
pub open spec fn removed<V>(rows: Seq<Seq<V>>, index: int) -> Seq<Seq<V>>
    recommends
        0 <= index < rows.len(),
{
    rows.remove(index)
}

/// `swap_remove(index)`: the last record is swapped into the removed slot
/// and the container shrinks by one. Constant-time removal that does not
/// preserve the relative order of the remaining records.
pub open spec fn swap_removed<V>(rows: Seq<Seq<V>>, index: int) -> Seq<Seq<V>>
    recommends
        0 <= index < rows.len(),
{
    rows.update(index, rows.last()).drop_last()
}

} // verus!
