use soa_derive::descriptor::{
    extract_fields, validate, DeriveError, FieldDescriptor, RecordDescriptor, TypeDescriptor,
    TypeShape,
};
use soa_derive::struct_of_arrays_derive;
use soa_derive::synthesis::synthesize;

fn point_fields() -> Vec<FieldDescriptor> {
    vec![
        FieldDescriptor { name: "x".to_string(), ty: "u64".to_string() },
        FieldDescriptor { name: "y".to_string(), ty: "i32".to_string() },
        FieldDescriptor { name: "tag".to_string(), ty: "String".to_string() },
    ]
}

fn point_candidate() -> TypeDescriptor {
    TypeDescriptor { name: "Point".to_string(), shape: TypeShape::NamedFields(point_fields()) }
}

#[test]
fn accepts_named_record() {
    let record = validate(point_candidate()).expect("named record must be accepted");
    assert_eq!(record.name, "Point");
    assert_eq!(record.fields, point_fields());
}

#[test]
fn extractor_preserves_declaration_order() {
    let record = RecordDescriptor { name: "Point".to_string(), fields: point_fields() };
    let fields = extract_fields(&record);
    assert_eq!(fields.len(), 3);
    assert_eq!(fields[0].name, "x");
    assert_eq!(fields[1].name, "y");
    assert_eq!(fields[2].name, "tag");
}

#[test]
fn rejects_sum_type() {
    let candidate = TypeDescriptor { name: "Choice".to_string(), shape: TypeShape::SumType };
    assert_eq!(validate(candidate.clone()), Err(DeriveError::NotAStruct(candidate)));
}

#[test]
fn rejects_primitive() {
    let candidate = TypeDescriptor { name: "Plain".to_string(), shape: TypeShape::Primitive };
    assert_eq!(validate(candidate.clone()), Err(DeriveError::NotAStruct(candidate)));
}

#[test]
fn rejects_positional_fields() {
    let candidate = TypeDescriptor {
        name: "Pair".to_string(),
        shape: TypeShape::PositionalFields(vec!["u64".to_string(), "bool".to_string()]),
    };
    assert_eq!(validate(candidate.clone()), Err(DeriveError::FieldsNotNamed(candidate)));
}

#[test]
fn rejects_field_less_record() {
    let candidate = TypeDescriptor { name: "Unit".to_string(), shape: TypeShape::NoFields };
    assert_eq!(validate(candidate.clone()), Err(DeriveError::FieldsNotNamed(candidate)));
}

#[test]
fn rejects_empty_named_field_list() {
    let candidate = TypeDescriptor {
        name: "Bare".to_string(),
        shape: TypeShape::NamedFields(Vec::new()),
    };
    assert_eq!(validate(candidate.clone()), Err(DeriveError::FieldsNotNamed(candidate)));
}

#[test]
fn synthesizer_derives_suffixed_name_and_columns() {
    let description = synthesize(&"Point".to_string(), &point_fields());
    assert_eq!(description.name, "PointSoA");
    assert_eq!(description.length_field, "len");
    assert_eq!(description.columns.len(), 3);
    assert_eq!(description.columns[0].field_name, "x");
    assert_eq!(description.columns[0].element_type, "u64");
    assert_eq!(description.columns[1].field_name, "y");
    assert_eq!(description.columns[1].element_type, "i32");
    assert_eq!(description.columns[2].field_name, "tag");
    assert_eq!(description.columns[2].element_type, "String");
}

#[test]
fn synthesizer_name_is_deterministic() {
    let first = synthesize(&"Particle".to_string(), &point_fields());
    let second = synthesize(&"Particle".to_string(), &point_fields());
    assert_eq!(first, second);
    assert_eq!(first.name, "ParticleSoA");
}

#[test]
fn derive_pipeline_produces_description() {
    let description =
        struct_of_arrays_derive(point_candidate()).expect("eligible candidate must derive");
    assert_eq!(description.name, "PointSoA");
    assert_eq!(description.length_field, "len");
    let names: Vec<&str> =
        description.columns.iter().map(|c| c.field_name.as_str()).collect();
    assert_eq!(names, vec!["x", "y", "tag"]);
}

#[test]
fn derive_pipeline_rejects_without_description() {
    let sum = TypeDescriptor { name: "Choice".to_string(), shape: TypeShape::SumType };
    assert_eq!(struct_of_arrays_derive(sum.clone()), Err(DeriveError::NotAStruct(sum)));

    let tuple = TypeDescriptor {
        name: "Pair".to_string(),
        shape: TypeShape::PositionalFields(vec!["u8".to_string()]),
    };
    assert_eq!(struct_of_arrays_derive(tuple.clone()), Err(DeriveError::FieldsNotNamed(tuple)));
}
