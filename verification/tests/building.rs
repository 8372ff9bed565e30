use builder::emit::{BuildExpr, Extraction, FieldAssignment, GeneratedProcedures, Setter};
use builder::expand::Expansion;
use builder::record::{Declaration, DeclarationShape, RawField};
use builder::runtime::{BuildError, FieldValue, Instance};
use builder::synthesize::{BuilderDescriptor, BuilderField};
use builder::type_ref::{GenericArgument, PathArguments, PathSegment, TypeRef};

#[derive(Debug, PartialEq)]
enum Val {
    Text(String),
    Byte(u8),
}

fn text(s: &str) -> Val {
    Val::Text(s.to_string())
}

fn ty(ident: &str) -> TypeRef {
    TypeRef::Path {
        qself: None,
        leading_colon: false,
        segments: vec![PathSegment { ident: ident.to_string(), arguments: PathArguments::Empty }],
    }
}

fn opt(inner: TypeRef) -> TypeRef {
    TypeRef::Path {
        qself: None,
        leading_colon: false,
        segments: vec![PathSegment {
            ident: "Option".to_string(),
            arguments: PathArguments::AngleBracketed {
                turbofish: false,
                args: vec![GenericArgument::Type(inner)],
            },
        }],
    }
}

fn raw(name: &str, ty: TypeRef) -> RawField {
    RawField { name: Some(name.to_string()), ty }
}

fn expansion_of(name: &str, fields: Vec<RawField>) -> Expansion {
    let declaration =
        Declaration { name: name.to_string(), shape: DeclarationShape::NamedStruct { fields } };
    builder::derive(&declaration).unwrap()
}

fn user() -> Expansion {
    expansion_of("User", vec![raw("name", ty("String")), raw("age", opt(ty("u8")))])
}

fn command() -> Expansion {
    expansion_of(
        "Command",
        vec![
            raw("executable", ty("String")),
            raw("env", opt(ty("String"))),
            raw("args", ty("String")),
            raw("current_dir", opt(ty("String"))),
        ],
    )
}

fn failed(message: &str) -> Result<Instance<Val>, BuildError> {
    Err(BuildError { message: message.to_string() })
}

fn built(record: &str, values: Vec<FieldValue<Val>>) -> Result<Instance<Val>, BuildError> {
    Ok(Instance { record_name: record.to_string(), values })
}

#[test]
fn user_without_name_fails() {
    let expansion = user();
    assert_eq!(expansion.builder::<Val>().build(), failed("name not set"));
}

#[test]
fn user_with_name_builds() {
    let expansion = user();
    let result = expansion.builder().set("name", text("Alice")).build();
    assert_eq!(
        result,
        built("User", vec![FieldValue::Required(text("Alice")), FieldValue::Optional(None)])
    );
}

#[test]
fn user_with_name_and_age_builds() {
    let expansion = user();
    let result = expansion.builder().set("name", text("Bob")).set("age", Val::Byte(30)).build();
    assert_eq!(
        result,
        built(
            "User",
            vec![FieldValue::Required(text("Bob")), FieldValue::Optional(Some(Val::Byte(30)))]
        )
    );
}

#[test]
fn record_without_mandatory_fields_builds_at_once() {
    let expansion =
        expansion_of("Opts", vec![raw("a", opt(ty("u8"))), raw("b", opt(ty("String")))]);
    assert_eq!(
        expansion.builder::<Val>().build(),
        built("Opts", vec![FieldValue::Optional(None), FieldValue::Optional(None)])
    );
}

#[test]
fn record_without_fields_builds_at_once() {
    let expansion = expansion_of("Nothing", vec![]);
    assert_eq!(expansion.builder::<Val>().build(), built("Nothing", vec![]));
}

#[test]
fn first_mandatory_field_is_reported() {
    let expansion = command();
    assert_eq!(expansion.builder::<Val>().build(), failed("executable not set"));
}

#[test]
fn first_missing_mandatory_field_is_reported() {
    let expansion = command();
    let mut b = expansion.builder::<Val>();
    b.set("executable", text("cargo")).set("env", text("X=1"));
    assert_eq!(b.build(), failed("args not set"));
}

#[test]
fn mandatory_field_after_optional_ones_is_reported() {
    let expansion = expansion_of("R", vec![raw("a", opt(ty("u8"))), raw("b", ty("u8"))]);
    assert_eq!(expansion.builder::<Val>().build(), failed("b not set"));
}

#[test]
fn setters_can_be_called_in_any_order() {
    let expansion = command();
    let mut b = expansion.builder::<Val>();
    b.set("current_dir", text("..")).set("args", text("build")).set("executable", text("cargo"));
    assert_eq!(
        b.build(),
        built(
            "Command",
            vec![
                FieldValue::Required(text("cargo")),
                FieldValue::Optional(None),
                FieldValue::Required(text("build")),
                FieldValue::Optional(Some(text(".."))),
            ]
        )
    );
}

#[test]
fn last_value_set_wins() {
    let expansion = user();
    let mut b = expansion.builder::<Val>();
    b.set("name", text("Alice")).set("age", Val::Byte(1)).set("name", text("Carol"));
    b.set("age", Val::Byte(2));
    assert_eq!(
        b.build(),
        built(
            "User",
            vec![FieldValue::Required(text("Carol")), FieldValue::Optional(Some(Val::Byte(2)))]
        )
    );
}

#[test]
fn second_build_fails_again() {
    let expansion = user();
    let mut b = expansion.builder::<Val>();
    b.set("name", text("Alice")).set("age", Val::Byte(30));
    assert!(b.build().is_ok());
    assert_eq!(b.build(), failed("name not set"));
}

#[test]
fn build_consumes_optional_values_too() {
    let expansion = user();
    let mut b = expansion.builder::<Val>();
    b.set("name", text("Alice")).set("age", Val::Byte(30));
    assert!(b.build().is_ok());
    b.set("name", text("Bob"));
    assert_eq!(
        b.build(),
        built("User", vec![FieldValue::Required(text("Bob")), FieldValue::Optional(None)])
    );
}

#[test]
fn second_build_of_all_optional_record_succeeds_empty() {
    let expansion = expansion_of("Opts", vec![raw("a", opt(ty("u8")))]);
    let mut b = expansion.builder::<Val>();
    b.set("a", Val::Byte(7));
    assert_eq!(b.build(), built("Opts", vec![FieldValue::Optional(Some(Val::Byte(7)))]));
    assert_eq!(b.build(), built("Opts", vec![FieldValue::Optional(None)]));
}

#[test]
fn failed_build_keeps_what_was_set() {
    let expansion = command();
    let mut b = expansion.builder::<Val>();
    b.set("args", text("build")).set("env", text("X=1"));
    assert_eq!(b.build(), failed("executable not set"));
    b.set("executable", text("cargo"));
    assert_eq!(
        b.build(),
        built(
            "Command",
            vec![
                FieldValue::Required(text("cargo")),
                FieldValue::Optional(Some(text("X=1"))),
                FieldValue::Required(text("build")),
                FieldValue::Optional(None),
            ]
        )
    );
}

#[test]
fn unknown_setter_changes_nothing() {
    let expansion = user();
    let mut b = expansion.builder::<Val>();
    b.set("nickname", text("Al"));
    assert_eq!(b.build(), failed("name not set"));
    b.set("name", text("Alice")).set("nickname", text("Al"));
    assert_eq!(
        b.build(),
        built("User", vec![FieldValue::Required(text("Alice")), FieldValue::Optional(None)])
    );
}

#[test]
fn setter_reaches_first_field_of_its_name() {
    let expansion = expansion_of("Twice", vec![raw("a", opt(ty("u8"))), raw("a", opt(ty("u8")))]);
    let mut b = expansion.builder::<Val>();
    b.set("a", Val::Byte(1));
    assert_eq!(
        b.build(),
        built(
            "Twice",
            vec![FieldValue::Optional(Some(Val::Byte(1))), FieldValue::Optional(None)]
        )
    );
}

fn hand_written(build: BuildExpr, slots: usize) -> Expansion {
    let mut builder_fields = Vec::new();
    let mut setters = Vec::new();
    for i in 0..slots {
        let name = format!("f{}", i);
        builder_fields.push(BuilderField { name: name.clone(), ty: ty("u8") });
        setters.push(Setter { name, parameter_type: ty("u8"), slot: i });
    }
    Expansion {
        record_name: "Hand".to_string(),
        builder: BuilderDescriptor { builder_name: "HandBuilder".to_string(), builder_fields },
        procedures: GeneratedProcedures { setters, build },
    }
}

fn assign(field: &str, slot: usize, extraction: Extraction) -> FieldAssignment {
    FieldAssignment { field: field.to_string(), slot, extraction }
}

#[test]
fn unchecked_extraction_of_absent_value_is_an_error() {
    let expansion = hand_written(
        BuildExpr::Construct {
            record: "Hand".to_string(),
            assignments: vec![
                assign("f0", 0, Extraction::PassThrough),
                assign("f1", 1, Extraction::Unwrap),
            ],
        },
        2,
    );
    let mut b = expansion.builder::<Val>();
    b.set("f0", Val::Byte(9));
    assert_eq!(b.build(), failed("f1 not set"));
    // the first slot was read before the failure, and is empty now
    b.set("f1", Val::Byte(1));
    assert_eq!(
        b.build(),
        built("Hand", vec![FieldValue::Optional(None), FieldValue::Required(Val::Byte(1))])
    );
}

#[test]
fn slot_that_does_not_exist_holds_nothing() {
    let expansion = hand_written(
        BuildExpr::Construct {
            record: "Hand".to_string(),
            assignments: vec![assign("far", 5, Extraction::PassThrough)],
        },
        1,
    );
    assert_eq!(expansion.builder::<Val>().build(), built("Hand", vec![FieldValue::Optional(None)]));
    let checked = hand_written(
        BuildExpr::IfPresent {
            field: "far".to_string(),
            slot: 5,
            message: "far is missing".to_string(),
            then_branch: Box::new(BuildExpr::Construct {
                record: "Hand".to_string(),
                assignments: vec![],
            }),
        },
        1,
    );
    assert_eq!(checked.builder::<Val>().build(), failed("far is missing"));
}

#[test]
fn setter_with_slot_out_of_range_changes_nothing() {
    let mut expansion = hand_written(
        BuildExpr::Construct {
            record: "Hand".to_string(),
            assignments: vec![assign("f0", 0, Extraction::PassThrough)],
        },
        1,
    );
    expansion.procedures.setters[0].slot = 3;
    let mut b = expansion.builder::<Val>();
    b.set("f0", Val::Byte(1));
    assert_eq!(b.build(), built("Hand", vec![FieldValue::Optional(None)]));
}

#[test]
fn same_slot_read_twice_is_empty_the_second_time() {
    let expansion = hand_written(
        BuildExpr::Construct {
            record: "Hand".to_string(),
            assignments: vec![
                assign("f0", 0, Extraction::PassThrough),
                assign("f0", 0, Extraction::PassThrough),
            ],
        },
        1,
    );
    let mut b = expansion.builder::<Val>();
    b.set("f0", Val::Byte(4));
    assert_eq!(
        b.build(),
        built(
            "Hand",
            vec![FieldValue::Optional(Some(Val::Byte(4))), FieldValue::Optional(None)]
        )
    );
}
