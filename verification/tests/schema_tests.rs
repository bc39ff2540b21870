use blackmagic_camera_control::schema::{
    BlackmagicCameraProtocol, Group, Information, Parameter, SchemaError,
};
use blackmagic_camera_control::typemap::{payload_kind, recognized, type_tag, PayloadKind};

fn info() -> Information {
    Information { readme: String::new(), source: String::new(), git: String::new() }
}

fn parameter(id: u8, value_type: &str) -> Parameter {
    Parameter {
        id,
        group: String::new(),
        group_id: 0,
        parameter: String::from("p"),
        normalized_parameter: String::from("p"),
        type_field: String::from(value_type),
        index: vec![],
        interpretation: None,
    }
}

fn group(id: u8, params: Vec<Parameter>) -> Group {
    Group {
        name: String::from("g"),
        normalized_name: String::from("g"),
        id,
        parameters: params,
    }
}

#[test]
fn schema_accepts_unique_ids() {
    let p = BlackmagicCameraProtocol::new(
        info(),
        vec![group(0, vec![parameter(0, "void"), parameter(1, "int8")]), group(1, vec![])],
    );
    assert!(p.is_ok());
}

#[test]
fn schema_rejects_duplicate_category_ids() {
    let p = BlackmagicCameraProtocol::new(info(), vec![group(3, vec![]), group(3, vec![])]);
    assert!(matches!(p, Err(SchemaError::DuplicateCategoryId)));
}

#[test]
fn schema_rejects_duplicate_parameter_ids() {
    let p = BlackmagicCameraProtocol::new(
        info(),
        vec![group(0, vec![parameter(2, "void"), parameter(2, "int8")])],
    );
    assert!(matches!(p, Err(SchemaError::DuplicateParameterId)));
    // The same parameter id in different categories is fine.
    let p = BlackmagicCameraProtocol::new(
        info(),
        vec![group(0, vec![parameter(2, "void")]), group(1, vec![parameter(2, "void")])],
    );
    assert!(p.is_ok());
}

#[test]
fn type_mapper_tokens() {
    assert!(recognized(&String::from("void")));
    assert!(recognized(&String::from("fixed16")));
    assert!(!recognized(&String::from("blob9")));
    assert!(!recognized(&String::from("")));

    assert_eq!(payload_kind(&String::from("void"), false), PayloadKind::Absent);
    assert_eq!(payload_kind(&String::from("void"), true), PayloadKind::Absent);
    assert_eq!(payload_kind(&String::from("int8"), false), PayloadKind::Int8);
    assert_eq!(payload_kind(&String::from("int8"), true), PayloadKind::Int8Seq);
    assert_eq!(payload_kind(&String::from("int16"), false), PayloadKind::Int16);
    assert_eq!(payload_kind(&String::from("int32"), true), PayloadKind::Int32Seq);
    assert_eq!(payload_kind(&String::from("int64"), false), PayloadKind::Int64);
    // Text is one UTF-8 blob even when the schema marks it indexed.
    assert_eq!(payload_kind(&String::from("string"), true), PayloadKind::Text);
    assert_eq!(payload_kind(&String::from("fixed16"), false), PayloadKind::Fixed);
    assert_eq!(payload_kind(&String::from("fixed16"), true), PayloadKind::FixedSeq);
    assert_eq!(payload_kind(&String::from("blob9"), false), PayloadKind::Absent);
}

#[test]
fn type_mapper_tags() {
    assert_eq!(type_tag(&String::from("void")), 0);
    assert_eq!(type_tag(&String::from("int8")), 1);
    assert_eq!(type_tag(&String::from("int16")), 2);
    assert_eq!(type_tag(&String::from("int32")), 3);
    assert_eq!(type_tag(&String::from("int64")), 4);
    assert_eq!(type_tag(&String::from("string")), 5);
    assert_eq!(type_tag(&String::from("fixed16")), 128);
    assert_eq!(type_tag(&String::from("blob9")), 0);
}
