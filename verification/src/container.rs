//! The generated container type, rendered executably and verified.
//!
//! The derivation emits, for every accepted record type, a container that
//! stores records one column per field. This module carries that container's
//! semantics: a dynamic rendering generic over the cell type `V`, where a
//! record is its sequence of field values in declaration order and the
//! container keeps one growable column per field. Every operation of the
//! generated type is implemented here with the contract the operation
//! generator assigns to it, stated against the rows model of
//! [`crate::semantics`]. The core invariant — every column's length equals
//! the length counter, and index `i` of every column belongs to the same
//! logical record — is the well-formedness predicate [`SoaContainer::wf`],
//! established by construction and preserved by every operation.

use vstd::prelude::*;

use crate::semantics::{column_of, popped, pushed, removed, swap_removed, uniform};

verus! {

/// One logical record value: its field values, in field declaration order.
/// The cell type `V` stands for the field value representation a generated
/// container fixes; the row/column bookkeeping verified here is the same
/// for all of them.
#[derive(Debug, Clone, PartialEq, Eq)]
pub struct Record<V> {
    /// One value per field, in field declaration order.
    pub values: Vec<V>,
}

impl<V> View for Record<V> {
    type V = Seq<V>;

    open spec fn view(&self) -> Seq<V> {
        self.values@
    }
}

/// An operation-level failure. The failing call leaves the container in its
/// pre-call state: no column and no length counter is touched.
#[derive(Debug, Clone, PartialEq, Eq)]
pub enum ContainerError {
    /// The index handed to `remove` or `swap_remove` is not below the
    /// container's length.
    IndexOutOfRange { index: usize, length: usize },
}

/// The rows a container built from `instances` must hold: one row per
/// record, in input order.
pub open spec fn rows_of<V>(instances: Seq<Record<V>>) -> Seq<Seq<V>> {
    instances.map_values(|r: Record<V>| r@)
}

/// Every record carries exactly `arity` field values.
pub open spec fn records_uniform<V>(instances: Seq<Record<V>>, arity: nat) -> bool {
    forall|i: int| 0 <= i < instances.len() ==> (#[trigger] instances[i])@.len() == arity
}

/// The field names' character sequences, in declaration order.
pub open spec fn names_of(field_names: Seq<String>) -> Seq<Seq<char>> {
    Seq::new(field_names.len(), |j: int| field_names[j]@)
}

/// Whether `j` is the first position whose field name is `name`.
pub open spec fn is_first_match(names: Seq<Seq<char>>, name: Seq<char>, j: int) -> bool {
    &&& 0 <= j < names.len()
    &&& names[j] == name
    &&& forall|k: int| 0 <= k < j ==> names[k] != name
}

/// A struct-of-arrays container instance: one exclusively owned growable
/// column per record field, plus the length counter, all owned and mutated
/// as one unit.
pub struct SoaContainer<V> {
    /// The field names, in declaration order; column `j` stores field `j`.
    field_names: Vec<String>,
    /// The length counter: how many logical records are stored.
    len: usize,
    /// One column per field, row-aligned: index `i` across all columns is
    /// one logical record.
    columns: Vec<Vec<V>>,
}

impl<V> SoaContainer<V> {
    /// The number of columns, one per record field.
    pub closed spec fn arity(&self) -> nat {
        self.columns@.len()
    }

    /// The value of the length counter.
    pub closed spec fn spec_len(&self) -> nat {
        self.len as nat
    }

    /// The core invariant: the container has a column per field (at least
    /// one), and every column's length equals the length counter.
    pub closed spec fn wf(&self) -> bool {
        &&& self.field_names@.len() == self.columns@.len()
        &&& self.columns@.len() > 0
        &&& forall|j: int|
            0 <= j < self.columns@.len() ==> (#[trigger] self.columns@[j])@.len() == self.len
    }

    /// The stored rows: row `i` is the logical record whose field `j` value
    /// sits at index `i` of column `j`.
    pub closed spec fn rows(&self) -> Seq<Seq<V>> {
        Seq::new(
            self.len as nat,
            |i: int| Seq::new(self.columns@.len(), |j: int| self.columns@[j]@[i]),
        )
    }

    /// Column `j`, as stored.
    pub closed spec fn col(&self, j: int) -> Seq<V>
        recommends
            0 <= j < self.arity(),
    {
        self.columns@[j]@
    }

    /// The field names, in declaration order.
    pub closed spec fn names(&self) -> Seq<Seq<char>> {
        names_of(self.field_names@)
    }

    /// The rows model is coherent with the stored columns: there are as
    /// many rows as the length counter says, every row has one value per
    /// column, and each stored column is the corresponding column of the
    /// rows model. Length/column synchronisation is part of this statement:
    /// every column's length equals the number of rows.
    pub proof fn lemma_view_shape(&self)
        requires
            self.wf(),
        ensures
            self.rows().len() == self.spec_len(),
            uniform(self.rows(), self.arity()),
            forall|j: int| 0 <= j < self.arity() ==> #[trigger] self.col(j) == column_of(
                self.rows(),
                j,
            ),
            forall|j: int| 0 <= j < self.arity() ==> (#[trigger] self.col(j)).len()
                == self.rows().len(),
    {
        assert forall|j: int| 0 <= j < self.arity() implies #[trigger] self.col(j) == column_of(
            self.rows(),
            j,
        ) by {
            assert(self.col(j) =~= column_of(self.rows(), j));
        }
    }

    /// `construct_from`: builds a container from a drained input sequence
    /// of records. The result holds exactly the input rows, in input order;
    /// total for any finite input, including the empty one.
    pub fn from_instances(field_names: Vec<String>, instances: Vec<Record<V>>) -> (container: Self)
        requires
            field_names@.len() > 0,
            records_uniform(instances@, field_names@.len() as nat),
        ensures
            container.wf(),
            container.arity() == field_names@.len(),
            container.names() == names_of(field_names@),
            container.rows() == rows_of(instances@),
    {
        let arity = field_names.len();
        let count = instances.len();
        let ghost all = instances@;
        let mut columns: Vec<Vec<V>> = Vec::with_capacity(arity);
        let mut j: usize = 0;
        while j < arity
            invariant
                j <= arity,
                columns@.len() == j,
                forall|k: int| 0 <= k < j ==> (#[trigger] columns@[k])@ == Seq::<V>::empty(),
            decreases arity - j,
        {
            columns.push(Vec::with_capacity(count));
            j = j + 1;
        }
        let mut rest = instances;
        let mut i: usize = 0;
        while i < count
            invariant
                i <= count,
                count == all.len(),
                arity == field_names@.len(),
                arity > 0,
                records_uniform(all, arity as nat),
                rest@ == all.skip(i as int),
                columns@.len() == arity,
                forall|k: int| 0 <= k < arity ==> (#[trigger] columns@[k])@.len() == i,
                forall|k: int, ii: int|
                    0 <= k < arity && 0 <= ii < i ==> (#[trigger] columns@[k]@[ii]) == all[ii]@[k],
            decreases count - i,
        {
            assert(rest@.len() == all.len() - i);
            let rec = rest.remove(0);
            assert(rec@ == all[i as int]@);
            assert(rest@ =~= all.skip(i + 1));
            let ghost row = all[i as int]@;
            let mut values = rec.values;
            assert(values@ =~= row.skip(0));
            let mut j2: usize = 0;
            while j2 < arity
                invariant
                    j2 <= arity,
                    row.len() == arity,
                    values@ == row.skip(j2 as int),
                    columns@.len() == arity,
                    forall|k: int| 0 <= k < j2 ==> (#[trigger] columns@[k])@.len() == i + 1,
                    forall|k: int| j2 <= k < arity ==> (#[trigger] columns@[k])@.len() == i,
                    forall|k: int, ii: int|
                        0 <= k < j2 && 0 <= ii < i + 1 ==> (#[trigger] columns@[k]@[ii]) == (if ii
                            < i {
                            all[ii]@[k]
                        } else {
                            row[k]
                        }),
                    forall|k: int, ii: int|
                        j2 <= k < arity && 0 <= ii < i ==> (#[trigger] columns@[k]@[ii])
                            == all[ii]@[k],
                decreases arity - j2,
            {
                assert(values@.len() == arity - j2);
                let v = values.remove(0);
                assert(v == row[j2 as int]);
                assert(values@ =~= row.skip(j2 + 1));
                columns[j2].push(v);
                j2 = j2 + 1;
            }
            i = i + 1;
        }
        let container = SoaContainer { field_names, len: count, columns };
        proof {
            assert(container.names() =~= names_of(field_names@));
            assert forall|ii: int| 0 <= ii < count implies container.rows()[ii] =~= rows_of(
                all,
            )[ii] by {}
            assert(container.rows() =~~= rows_of(all));
        }
        container
    }

    /// `length`: returns the length counter, which is also the number of
    /// stored rows.
    pub fn len(&self) -> (n: usize)
        ensures
            n == self.spec_len(),
            n == self.rows().len(),
    {
        self.len
    }

    /// `push`: consumes one record, appends its field values to the end of
    /// each column in field order, and increments the length counter by
    /// one. The counter must have room to grow (a machine limit: one more
    /// record must still be countable in a `usize`).
    pub fn push(&mut self, record: Record<V>)
        requires
            old(self).wf(),
            record@.len() == old(self).arity(),
            old(self).spec_len() < usize::MAX,
        ensures
            final(self).wf(),
            final(self).arity() == old(self).arity(),
            final(self).names() == old(self).names(),
            final(self).rows() == pushed(old(self).rows(), record@),
    {
        let ghost pre = *old(self);
        let ghost row = record@;
        let arity = self.columns.len();
        let mut values = record.values;
        let mut j: usize = 0;
        while j < arity
            invariant
                j <= arity,
                pre.wf(),
                row.len() == arity,
                values@ == row.skip(j as int),
                self.field_names == pre.field_names,
                self.len == pre.len,
                self.columns@.len() == arity,
                arity == pre.columns@.len(),
                forall|k: int|
                    0 <= k < j ==> (#[trigger] self.columns@[k])@ == pre.columns@[k]@.push(row[k]),
                forall|k: int|
                    j <= k < arity ==> (#[trigger] self.columns@[k])@ == pre.columns@[k]@,
            decreases arity - j,
        {
            assert(values@.len() == arity - j);
            let v = values.remove(0);
            assert(v == row[j as int]);
            assert(values@ =~= row.skip(j + 1));
            self.columns[j].push(v);
            j = j + 1;
        }
        self.len = self.len + 1;
        proof {
            assert forall|i: int| 0 <= i < self.rows().len() implies self.rows()[i] =~= pushed(
                pre.rows(),
                row,
            )[i] by {}
            assert(self.rows() =~~= pushed(pre.rows(), row));
        }
    }

    /// `pop`: on an empty container returns "absent" and changes nothing (a
    /// defined result, not an error). Otherwise removes the last element of
    /// every column in field order, decrements the length counter, and
    /// reassembles the removed values, in field declaration order, into the
    /// returned record.
    pub fn pop(&mut self) -> (result: Option<Record<V>>)
        requires
            old(self).wf(),
        ensures
            final(self).wf(),
            final(self).arity() == old(self).arity(),
            final(self).names() == old(self).names(),
            result is Some <==> old(self).rows().len() > 0,
            result matches Some(record) ==> record@ == old(self).rows().last()
                && final(self).rows() == popped(old(self).rows()),
            result is None ==> *final(self) == *old(self),
    {
        if self.len == 0 {
            return None;
        }
        let ghost pre = *old(self);
        let arity = self.columns.len();
        let mut values: Vec<V> = Vec::with_capacity(arity);
        let mut j: usize = 0;
        while j < arity
            invariant
                j <= arity,
                pre.wf(),
                pre.len > 0,
                self.len == pre.len,
                self.field_names == pre.field_names,
                self.columns@.len() == arity,
                arity == pre.columns@.len(),
                values@.len() == j,
                forall|k: int|
                    0 <= k < j ==> (#[trigger] self.columns@[k])@ == pre.columns@[k]@.drop_last(),
                forall|k: int|
                    j <= k < arity ==> (#[trigger] self.columns@[k])@ == pre.columns@[k]@,
                forall|k: int| 0 <= k < j ==> values@[k] == pre.columns@[k]@.last(),
            decreases arity - j,
        {
            let v = self.columns[j].pop().unwrap();
            values.push(v);
            j = j + 1;
        }
        self.len = self.len - 1;
        let record = Record { values };
        proof {
            assert(record@ =~= pre.rows().last());
            assert forall|i: int| 0 <= i < self.rows().len() implies self.rows()[i] =~= popped(
                pre.rows(),
            )[i] by {}
            assert(self.rows() =~~= popped(pre.rows()));
        }
        Some(record)
    }

    /// `remove(index)`: shifting removal. For an in-range index, removes
    /// the element at `index` from every column in field order — preserving
    /// the relative order of all other elements — decrements the length
    /// counter, and returns the removed values reassembled into a record.
    /// For an out-of-range index it reports the failure before touching
    /// anything: the container is left in its pre-call state.
    pub fn remove(&mut self, index: usize) -> (result: Result<Record<V>, ContainerError>)
        requires
            old(self).wf(),
        ensures
            final(self).wf(),
            final(self).arity() == old(self).arity(),
            final(self).names() == old(self).names(),
            result is Ok <==> index < old(self).rows().len(),
            result matches Ok(record) ==> record@ == old(self).rows()[index as int]
                && final(self).rows() == removed(old(self).rows(), index as int),
            result matches Err(e) ==> *final(self) == *old(self) && e == (
            ContainerError::IndexOutOfRange { index, length: old(self).spec_len() as usize }),
    {
        if index >= self.len {
            return Err(ContainerError::IndexOutOfRange { index, length: self.len });
        }
        let ghost pre = *old(self);
        let arity = self.columns.len();
        let mut values: Vec<V> = Vec::with_capacity(arity);
        let mut j: usize = 0;
        while j < arity
            invariant
                j <= arity,
                pre.wf(),
                index < pre.len,
                self.len == pre.len,
                self.field_names == pre.field_names,
                self.columns@.len() == arity,
                arity == pre.columns@.len(),
                values@.len() == j,
                forall|k: int|
                    0 <= k < j ==> (#[trigger] self.columns@[k])@ == pre.columns@[k]@.remove(
                        index as int,
                    ),
                forall|k: int|
                    j <= k < arity ==> (#[trigger] self.columns@[k])@ == pre.columns@[k]@,
                forall|k: int| 0 <= k < j ==> values@[k] == pre.columns@[k]@[index as int],
            decreases arity - j,
        {
            let v = self.columns[j].remove(index);
            values.push(v);
            j = j + 1;
        }
        self.len = self.len - 1;
        let record = Record { values };
        proof {
            let pr = pre.rows();
            pr.remove_ensures(index as int);
            assert(record@ =~= pr[index as int]);
            assert forall|i2: int| 0 <= i2 < self.rows().len() implies self.rows()[i2] =~= removed(
                pr,
                index as int,
            )[i2] by {
                assert forall|k: int| 0 <= k < arity implies self.columns@[k]@[i2] == pr.remove(
                    index as int,
                )[i2][k] by {
                    pre.columns@[k]@.remove_ensures(index as int);
                }
            }
            assert(self.rows() =~~= removed(pr, index as int));
        }
        Ok(record)
    }

    /// `swap_remove(index)`: constant-time removal. For an in-range index,
    /// swaps the element at `index` with the last one and truncates —
    /// applying the identical swap to every column in field order, so the
    /// cross-column correspondence survives — decrements the length
    /// counter, and returns the removed record. Same out-of-range policy as
    /// `remove`: the failure is reported before anything is touched.
    pub fn swap_remove(&mut self, index: usize) -> (result: Result<Record<V>, ContainerError>)
        requires
            old(self).wf(),
        ensures
            final(self).wf(),
            final(self).arity() == old(self).arity(),
            final(self).names() == old(self).names(),
            result is Ok <==> index < old(self).rows().len(),
            result matches Ok(record) ==> record@ == old(self).rows()[index as int]
                && final(self).rows() == swap_removed(old(self).rows(), index as int),
            result matches Err(e) ==> *final(self) == *old(self) && e == (
            ContainerError::IndexOutOfRange { index, length: old(self).spec_len() as usize }),
    {
        if index >= self.len {
            return Err(ContainerError::IndexOutOfRange { index, length: self.len });
        }
        let ghost pre = *old(self);
        let arity = self.columns.len();
        let mut values: Vec<V> = Vec::with_capacity(arity);
        let mut j: usize = 0;
        while j < arity
            invariant
                j <= arity,
                pre.wf(),
                index < pre.len,
                self.len == pre.len,
                self.field_names == pre.field_names,
                self.columns@.len() == arity,
                arity == pre.columns@.len(),
                values@.len() == j,
                forall|k: int|
                    0 <= k < j ==> (#[trigger] self.columns@[k])@ == pre.columns@[k]@.update(
                        index as int,
                        pre.columns@[k]@.last(),
                    ).drop_last(),
                forall|k: int|
                    j <= k < arity ==> (#[trigger] self.columns@[k])@ == pre.columns@[k]@,
                forall|k: int| 0 <= k < j ==> values@[k] == pre.columns@[k]@[index as int],
            decreases arity - j,
        {
            let v = self.columns[j].swap_remove(index);
            values.push(v);
            j = j + 1;
        }
        self.len = self.len - 1;
        let record = Record { values };
        proof {
            let pr = pre.rows();
            assert(record@ =~= pr[index as int]);
            assert forall|i2: int| 0 <= i2 < self.rows().len() implies self.rows()[i2]
                =~= swap_removed(pr, index as int)[i2] by {
                assert forall|k: int| 0 <= k < arity implies self.columns@[k]@[i2] == pr.update(
                    index as int,
                    pr.last(),
                ).drop_last()[i2][k] by {}
            }
            assert(self.rows() =~~= swap_removed(pr, index as int));
        }
        Ok(record)
    }

    /// The column accessor, addressed by column position: field `j`'s
    /// column, an immutable view whose length equals the container's and
    /// whose index `i` holds field `j` of row `i`.
    pub fn column(&self, j: usize) -> (column: &Vec<V>)
        requires
            self.wf(),
            j < self.arity(),
        ensures
            column@ == self.col(j as int),
            column@ == column_of(self.rows(), j as int),
    {
        proof {
            self.lemma_view_shape();
        }
        &self.columns[j]
    }

    /// The column accessor, addressed by field name, as the generated
    /// accessors are: the column of the first field bearing `field_name`,
    /// or "absent" when no field does.
    pub fn column_for<'a>(&'a self, field_name: &String) -> (result: Option<&'a Vec<V>>)
        requires
            self.wf(),
        ensures
            result is Some <==> exists|j: int| is_first_match(self.names(), field_name@, j),
            result matches Some(column) ==> exists|j: int|
                #[trigger] is_first_match(self.names(), field_name@, j) && column@ == self.col(j)
                    && column@ == column_of(self.rows(), j),
    {
        let n = self.field_names.len();
        let mut j: usize = 0;
        while j < n
            invariant
                j <= n,
                n == self.field_names@.len(),
                self.wf(),
                forall|k: int| 0 <= k < j ==> self.names()[k] != field_name@,
            decreases n - j,
        {
            if self.field_names[j] == *field_name {
                proof {
                    assert(self.names()[j as int] == field_name@);
                    assert(is_first_match(self.names(), field_name@, j as int));
                    self.lemma_view_shape();
                }
                return Some(&self.columns[j]);
            }
            j = j + 1;
        }
        proof {
            assert forall|j2: int| !is_first_match(self.names(), field_name@, j2) by {}
        }
        None
    }

    /// `is_empty`: whether the container holds no record; consistent with
    /// `length() == 0` by contract.
    pub fn is_empty(&self) -> (empty: bool)
        ensures
            empty <==> self.spec_len() == 0,
            empty <==> self.rows().len() == 0,
    {
        self.len == 0
    }
}

} // verus!
