use autopyclass::{with_new, DataShape, DeriveError, FieldsShape, NamedField, TypeDecl, TypeShape};

fn path(segments: &[&str]) -> TypeShape {
    TypeShape::Path(segments.iter().map(|s| s.to_string()).collect())
}

fn field(name: &str, ty: TypeShape) -> NamedField {
    NamedField { name: name.to_string(), ty }
}

fn decl(name: &str, generic_params: usize, data: DataShape) -> TypeDecl {
    TypeDecl { name: name.to_string(), generic_params, data }
}

fn summary(d: &TypeDecl) -> Vec<(usize, String, bool)> {
    let c = with_new(d).unwrap().unwrap();
    c.params.iter().map(|p| (p.field, p.name.clone(), p.defaults_to_none)).collect()
}

#[test]
fn required_fields_come_before_optional_ones() {
    let d = decl(
        "Task",
        0,
        DataShape::Struct(FieldsShape::Named(vec![
            field("id", path(&["String"])),
            field("retries", path(&["Option"])),
            field("name", path(&["String"])),
            field("timeout", path(&["std", "option", "Option"])),
        ])),
    );
    let c = with_new(&d).unwrap().unwrap();
    assert_eq!(c.struct_name, "Task");
    assert_eq!(
        summary(&d),
        vec![
            (0, "id".to_string(), false),
            (2, "name".to_string(), false),
            (1, "retries".to_string(), true),
            (3, "timeout".to_string(), true),
        ]
    );
}

#[test]
fn only_required_fields() {
    let d = decl(
        "Point",
        0,
        DataShape::Struct(FieldsShape::Named(vec![
            field("x", path(&["i64"])),
            field("y", path(&["i64"])),
        ])),
    );
    assert_eq!(summary(&d), vec![(0, "x".to_string(), false), (1, "y".to_string(), false)]);
}

#[test]
fn only_optional_fields() {
    let d = decl(
        "Limits",
        0,
        DataShape::Struct(FieldsShape::Named(vec![
            field("lo", path(&["Option"])),
            field("hi", path(&["core", "option", "Option"])),
        ])),
    );
    assert_eq!(summary(&d), vec![(0, "lo".to_string(), true), (1, "hi".to_string(), true)]);
}

#[test]
fn struct_without_fields_has_an_empty_constructor() {
    let d = decl("Empty", 0, DataShape::Struct(FieldsShape::Named(vec![])));
    assert!(summary(&d).is_empty());
}

#[test]
fn non_path_types_are_required() {
    let d = decl(
        "Refs",
        0,
        DataShape::Struct(FieldsShape::Named(vec![
            field("maybe", path(&["Option"])),
            field("pair", TypeShape::Other),
            field("opt_like", path(&["OptionValue"])),
            field("lower", path(&["option"])),
        ])),
    );
    assert_eq!(
        summary(&d),
        vec![
            (1, "pair".to_string(), false),
            (2, "opt_like".to_string(), false),
            (3, "lower".to_string(), false),
            (0, "maybe".to_string(), true),
        ]
    );
}

#[test]
fn generic_struct_gets_nothing() {
    let d = decl(
        "Wrapper",
        1,
        DataShape::Struct(FieldsShape::Named(vec![field("inner", path(&["T"]))])),
    );
    assert!(with_new(&d).unwrap().is_none());
}

#[test]
fn enums_and_unions_get_nothing() {
    assert!(with_new(&decl("Kind", 0, DataShape::Enum)).unwrap().is_none());
    assert!(with_new(&decl("Bits", 0, DataShape::Union)).unwrap().is_none());
}

#[test]
fn unnamed_fields_are_refused() {
    let tuple = decl("Pair", 0, DataShape::Struct(FieldsShape::Unnamed));
    assert_eq!(with_new(&tuple).err(), Some(DeriveError::FieldsNotNamed));
    let unit = decl("Marker", 0, DataShape::Struct(FieldsShape::Unit));
    assert_eq!(with_new(&unit).err(), Some(DeriveError::FieldsNotNamed));
    let generic_tuple = decl("Pair", 2, DataShape::Struct(FieldsShape::Unnamed));
    assert_eq!(with_new(&generic_tuple).err(), Some(DeriveError::FieldsNotNamed));
}

#[test]
fn derive_error_message() {
    assert_eq!(
        DeriveError::FieldsNotNamed.message(),
        "AutoPyClass can only be used with structs with named fields"
    );
}

#[test]
fn optional_type_detection() {
    assert!(path(&["Option"]).is_optional());
    assert!(path(&["std", "option", "Option"]).is_optional());
    assert!(!path(&["Vec"]).is_optional());
    assert!(!path(&["Options"]).is_optional());
    assert!(!path(&[]).is_optional());
    assert!(!TypeShape::Other.is_optional());
}

#[test]
fn every_field_is_a_parameter_once() {
    let d = decl(
        "Mixed",
        0,
        DataShape::Struct(FieldsShape::Named(vec![
            field("a", path(&["Option"])),
            field("b", path(&["u8"])),
            field("c", path(&["Option"])),
            field("d", TypeShape::Other),
            field("e", path(&["Option"])),
        ])),
    );
    let mut positions: Vec<usize> = summary(&d).iter().map(|p| p.0).collect();
    assert_eq!(positions, vec![1, 3, 0, 2, 4]);
    positions.sort();
    assert_eq!(positions, vec![0, 1, 2, 3, 4]);
}
