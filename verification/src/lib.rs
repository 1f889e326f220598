//! Derivation of a column-oriented ("struct of arrays") container type from
//! the descriptor of a plain record type.
//!
//! Given a record type with named fields, the library derives the
//! description of a second type that stores a collection of such records
//! one column per field, together with the full set of collection
//! operations that keep every column in lockstep. A front end (outside this
//! crate) turns raw source text into a [`descriptor::TypeDescriptor`]; a
//! backend renders the resulting [`synthesis::ContainerDescription`] and
//! the operation set as generated code. The operations themselves are
//! defined and verified in [`container`], their meaning pinned down by the
//! spec functions of [`semantics`], and the general laws they obey are
//! proved in [`laws`].

use vstd::prelude::*;

pub mod container;
pub mod descriptor;
pub mod laws;
pub mod semantics;
pub mod synthesis;

verus! {

use crate::descriptor::{
    declared_fields,
    eligible,
    expected_rejection,
    extract_fields,
    validate,
    DeriveError,
    TypeDescriptor,
};
use crate::synthesis::{
    columns_match_fields,
    container_suffix,
    length_field_name,
    synthesize,
    ContainerDescription,
};

/// The whole derivation, front to back: validate the candidate, extract
/// its field schema, and synthesize the container type description — the
/// generated type's suffixed name, its length counter field, and one
/// column per record field in declaration order. A rejected candidate
/// yields its specific error and no description at all. The behaviour of
/// the described type's operation set is defined and verified in
/// [`container`].
pub fn struct_of_arrays_derive(candidate: TypeDescriptor) -> (result: Result<
    ContainerDescription,
    DeriveError,
>)
    ensures
        result is Ok <==> eligible(candidate),
        result matches Ok(description) ==> {
            &&& description.name@ == candidate.name@ + container_suffix()
            &&& description.length_field@ == length_field_name()
            &&& columns_match_fields(description.columns@, declared_fields(candidate))
        },
        result matches Err(e) ==> e == expected_rejection(candidate),
{
    let record = match validate(candidate) {
        Ok(record) => record,
        Err(e) => {
            return Err(e);
        },
    };
    let fields = extract_fields(&record);
    Ok(synthesize(&record.name, fields))
}

} // verus!
