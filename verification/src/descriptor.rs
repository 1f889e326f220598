//! The descriptor data model and the input validator.
//!
//! A front end (outside this crate) turns a raw type definition into a
//! [`TypeDescriptor`]. The validator classifies that candidate: only a record
//! type with at least one named field qualifies for the column-oriented
//! transformation; everything else is rejected with a specific error that
//! carries the offending descriptor, so the caller can render a diagnostic.

use vstd::prelude::*;

verus! {

/// One named, typed field of a record type. Field order is significant and
/// is preserved end to end: it fixes both the declaration order of the
/// generated columns and the order in which a record's values are split into
/// and rebuilt from those columns.
#[derive(Debug, Clone, PartialEq, Eq)]
pub struct FieldDescriptor {
    /// The field's identifier.
    pub name: String,
    /// The name of the field's element type.
    pub ty: String,
}

/// The shape of a candidate type, as reported by the front end.
#[derive(Debug, Clone, PartialEq, Eq)]
pub enum TypeShape {
    /// A record (product) type whose fields are named.
    NamedFields(Vec<FieldDescriptor>),
    /// A record type with positional (tuple-style) fields; only the element
    /// type names are known.
    PositionalFields(Vec<String>),
    /// A record type with no fields at all.
    NoFields,
    /// A sum type (an enumeration of variants).
    SumType,
    /// Any other non-record shape (a primitive, an untagged union, ...).
    Primitive,
}

/// A candidate type handed in by the front end: a name and a shape.
#[derive(Debug, Clone, PartialEq, Eq)]
pub struct TypeDescriptor {
    pub name: String,
    pub shape: TypeShape,
}

/// An accepted record type: its name together with its ordered field list.
#[derive(Debug, Clone, PartialEq, Eq)]
pub struct RecordDescriptor {
    pub name: String,
    pub fields: Vec<FieldDescriptor>,
}

/// Why a candidate was rejected. Each variant carries the rejected
/// descriptor, context enough for a user-facing diagnostic.
#[derive(Debug, Clone, PartialEq, Eq)]
pub enum DeriveError {
    /// The candidate is not a record (product) type at all.
    NotAStruct(TypeDescriptor),
    /// The candidate is a record type, but its fields are not named
    /// (positional, or absent altogether).
    FieldsNotNamed(TypeDescriptor),
}

/// The field list a candidate declares, when its shape is `NamedFields`;
/// empty otherwise.
pub open spec fn declared_fields(candidate: TypeDescriptor) -> Seq<FieldDescriptor> {
    match candidate.shape {
        TypeShape::NamedFields(fields) => fields@,
        _ => Seq::empty(),
    }
}

/// Does the candidate qualify for the transformation? It must be a record
/// type with at least one named field.
pub open spec fn eligible(candidate: TypeDescriptor) -> bool {
    candidate.shape is NamedFields && declared_fields(candidate).len() > 0
}

/// Is the shape a record (product) shape at all? Sum types and primitives
/// are not; they are rejected as `NotAStruct` rather than `FieldsNotNamed`.
pub open spec fn is_record_shape(shape: TypeShape) -> bool {
    ||| shape is NamedFields
    ||| shape is PositionalFields
    ||| shape is NoFields
}

/// The error owed to an ineligible candidate: `FieldsNotNamed` for a record
/// shape without named fields, `NotAStruct` for everything else.
pub open spec fn expected_rejection(candidate: TypeDescriptor) -> DeriveError
    recommends
        !eligible(candidate),
{
    if is_record_shape(candidate.shape) {
        DeriveError::FieldsNotNamed(candidate)
    } else {
        DeriveError::NotAStruct(candidate)
    }
}

/// The input validator: accepts exactly the record types with at least one
/// named field and rejects anything else with the matching error. All or
/// nothing: there is no partial acceptance, and an accepted record carries
/// the candidate's name and field list unchanged.
pub fn validate(candidate: TypeDescriptor) -> (result: Result<RecordDescriptor, DeriveError>)
    ensures
        result is Ok <==> eligible(candidate),
        result matches Ok(record) ==> record.name == candidate.name && record.fields@
            == declared_fields(candidate),
        result matches Err(e) ==> e == expected_rejection(candidate),
{
    match candidate {
        TypeDescriptor { name, shape } => match shape {
            TypeShape::NamedFields(fields) => {
                if fields.len() > 0 {
                    Ok(RecordDescriptor { name, fields })
                } else {
                    Err(
                        DeriveError::FieldsNotNamed(
                            TypeDescriptor { name, shape: TypeShape::NamedFields(fields) },
                        ),
                    )
                }
            },
            TypeShape::PositionalFields(types) => {
                Err(
                    DeriveError::FieldsNotNamed(
                        TypeDescriptor { name, shape: TypeShape::PositionalFields(types) },
                    ),
                )
            },
            TypeShape::NoFields => {
                Err(
                    DeriveError::FieldsNotNamed(
                        TypeDescriptor { name, shape: TypeShape::NoFields },
                    ),
                )
            },
            TypeShape::SumType => {
                Err(DeriveError::NotAStruct(TypeDescriptor { name, shape: TypeShape::SumType }))
            },
            TypeShape::Primitive => {
                Err(DeriveError::NotAStruct(TypeDescriptor { name, shape: TypeShape::Primitive }))
            },
        },
    }
}

/// The field schema extractor: hands back the accepted record's ordered
/// field list exactly as declared, with no reordering, filtering or
/// deduplication. Total for any accepted record; it cannot fail.
pub fn extract_fields(record: &RecordDescriptor) -> (fields: &Vec<FieldDescriptor>)
    ensures
        fields@ == record.fields@,
{
    &record.fields
}

} // verus!
