//! The container type synthesizer.
//!
//! Given an accepted record's name and field schema, it produces the
//! description of the generated column-oriented type: a deterministically
//! suffixed type name, an unsigned length counter field, and one column per
//! record field, in declaration order. The description is an immutable
//! schema artifact; runtime instances of the described type are the subject
//! of [`crate::container`].

use vstd::prelude::*;
use vstd::string::StringExecFns;

use crate::descriptor::FieldDescriptor;

verus! {

/// Describes one column of the generated type: the field it stores and the
/// element type of its backing growable sequence.
#[derive(Debug, Clone, PartialEq, Eq)]
pub struct ColumnDescriptor {
    /// The record field this column stores; the column's accessor is named
    /// after it.
    pub field_name: String,
    /// The name of the column's element type.
    pub element_type: String,
}

/// The shape of the generated container type: its derived name, the name of
/// its unsigned length counter field, and its columns in field declaration
/// order.
#[derive(Debug, Clone, PartialEq, Eq)]
pub struct ContainerDescription {
    /// The generated type's name: the record's name with a fixed suffix.
    pub name: String,
    /// The name of the length counter field, an unsigned count maintained
    /// exclusively by the generated operations.
    pub length_field: String,
    /// One column per record field, in the same order.
    pub columns: Vec<ColumnDescriptor>,
}

/// The fixed suffix appended to a record's name to form the generated
/// container type's name.
pub open spec fn container_suffix() -> Seq<char> {
    "SoA"@
}

/// The name of the generated length counter field.
pub open spec fn length_field_name() -> Seq<char> {
    "len"@
}

/// Column `j` describes field `j`: same name, same element type, for every
/// field of the schema.
pub open spec fn columns_match_fields(
    columns: Seq<ColumnDescriptor>,
    fields: Seq<FieldDescriptor>,
) -> bool {
    &&& columns.len() == fields.len()
    &&& forall|j: int|
        0 <= j < fields.len() ==> (#[trigger] columns[j]).field_name@ == fields[j].name@
            && columns[j].element_type@ == fields[j].ty@
}

/// The container type synthesizer: derives the generated type's name by
/// suffixing the record's name, names the length counter, and lays out one
/// column per field, order preserved.
pub fn synthesize(record_name: &String, fields: &Vec<FieldDescriptor>) -> (description:
    ContainerDescription)
    ensures
        description.name@ == record_name@ + container_suffix(),
        description.length_field@ == length_field_name(),
        columns_match_fields(description.columns@, fields@),
{
    let name = record_name.clone().concat("SoA");
    let length_field = String::from_str("len");
    let mut columns: Vec<ColumnDescriptor> = Vec::with_capacity(fields.len());
    let mut j: usize = 0;
    while j < fields.len()
        invariant
            j <= fields@.len(),
            columns@.len() == j,
            forall|k: int|
                0 <= k < j ==> (#[trigger] columns@[k]).field_name@ == fields@[k].name@
                    && columns@[k].element_type@ == fields@[k].ty@,
        decreases fields@.len() - j,
    {
        let field = &fields[j];
        columns.push(
            ColumnDescriptor {
                field_name: field.name.clone(),
                element_type: field.ty.clone(),
            },
        );
        j = j + 1;
    }
    ContainerDescription { name, length_field, columns }
}

} // verus!
