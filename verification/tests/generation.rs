use builder::emit::{
    emit, emit_build, emit_setters, not_set, BuildExpr, Extraction, FieldAssignment, Setter,
};
use builder::expand::expand;
use builder::introspect::introspect;
use builder::record::{
    Declaration, DeclarationShape, FieldDescriptor, InputError, RawField, RecordDescriptor,
};
use builder::synthesize::{synthesize, BuilderField};
use builder::type_ref::{GenericArgument, PathArguments, PathSegment, TypeRef};

fn seg(ident: &str) -> PathSegment {
    PathSegment { ident: ident.to_string(), arguments: PathArguments::Empty }
}

fn ty(ident: &str) -> TypeRef {
    TypeRef::Path { qself: None, leading_colon: false, segments: vec![seg(ident)] }
}

fn opt(inner: TypeRef) -> TypeRef {
    TypeRef::Path {
        qself: None,
        leading_colon: false,
        segments: vec![PathSegment {
            ident: "Option".to_string(),
            arguments: PathArguments::AngleBracketed {
                turbofish: false,
                args: vec![GenericArgument::Type(inner)],
            },
        }],
    }
}

fn full_option(inner: TypeRef) -> TypeRef {
    TypeRef::Path {
        qself: None,
        leading_colon: true,
        segments: vec![
            seg("core"),
            seg("option"),
            PathSegment {
                ident: "Option".to_string(),
                arguments: PathArguments::AngleBracketed {
                    turbofish: false,
                    args: vec![GenericArgument::Type(inner)],
                },
            },
        ],
    }
}

fn raw(name: &str, ty: TypeRef) -> RawField {
    RawField { name: Some(name.to_string()), ty }
}

fn named_struct(name: &str, fields: Vec<RawField>) -> Declaration {
    Declaration { name: name.to_string(), shape: DeclarationShape::NamedStruct { fields } }
}

fn user() -> Declaration {
    named_struct("User", vec![raw("name", ty("String")), raw("age", opt(ty("u8")))])
}

fn command() -> RecordDescriptor {
    introspect(&named_struct(
        "Command",
        vec![
            raw("executable", ty("String")),
            raw("env", opt(ty("String"))),
            raw("args", ty("Args")),
        ],
    ))
    .unwrap()
}

#[test]
fn introspect_keeps_declaration_order() {
    let record = introspect(&user()).unwrap();
    assert_eq!(record.name, "User");
    assert_eq!(
        record.fields,
        vec![
            FieldDescriptor {
                name: "name".to_string(),
                declared_type: ty("String"),
                is_optional: false,
                inner_type: ty("String"),
            },
            FieldDescriptor {
                name: "age".to_string(),
                declared_type: opt(ty("u8")),
                is_optional: true,
                inner_type: ty("u8"),
            },
        ]
    );
}

#[test]
fn introspect_accepts_struct_without_fields() {
    let record = introspect(&named_struct("Nothing", vec![])).unwrap();
    assert_eq!(record.name, "Nothing");
    assert!(record.fields.is_empty());
}

#[test]
fn introspect_rejects_enumeration() {
    let d = Declaration { name: "E".to_string(), shape: DeclarationShape::Enumeration };
    assert_eq!(introspect(&d), Err(InputError::NotAStruct));
}

#[test]
fn introspect_rejects_union() {
    let d = Declaration { name: "U".to_string(), shape: DeclarationShape::Union };
    assert_eq!(introspect(&d), Err(InputError::NotAStruct));
}

#[test]
fn introspect_rejects_tuple_struct() {
    let d = Declaration { name: "T".to_string(), shape: DeclarationShape::TupleStruct };
    assert_eq!(introspect(&d), Err(InputError::FieldsNotNamed));
}

#[test]
fn introspect_rejects_unit_struct() {
    let d = Declaration { name: "T".to_string(), shape: DeclarationShape::UnitStruct };
    assert_eq!(introspect(&d), Err(InputError::FieldsNotNamed));
}

#[test]
fn introspect_reports_first_field_without_name() {
    let d = named_struct(
        "S",
        vec![
            raw("a", ty("u8")),
            RawField { name: None, ty: ty("u8") },
            raw("c", ty("u8")),
            RawField { name: None, ty: ty("u16") },
        ],
    );
    assert_eq!(introspect(&d), Err(InputError::FieldWithoutName { index: 1 }));
}

#[test]
fn input_error_messages() {
    assert_eq!(InputError::NotAStruct.message(), "Can only deal with structs atm");
    assert_eq!(InputError::FieldsNotNamed.message(), "Can only deal with named fields atm");
    assert_eq!(
        InputError::FieldWithoutName { index: 3 }.message(),
        "named fields must have idents"
    );
}

#[test]
fn derive_rejects_what_introspect_rejects() {
    let d = Declaration { name: "E".to_string(), shape: DeclarationShape::Enumeration };
    assert_eq!(builder::derive(&d), Err(InputError::NotAStruct));
    let t = Declaration { name: "T".to_string(), shape: DeclarationShape::TupleStruct };
    assert_eq!(builder::derive(&t), Err(InputError::FieldsNotNamed));
    let n = named_struct("S", vec![RawField { name: None, ty: ty("u8") }]);
    assert_eq!(builder::derive(&n), Err(InputError::FieldWithoutName { index: 0 }));
}

#[test]
fn synthesize_wraps_every_inner_type_once() {
    let record = introspect(&user()).unwrap();
    let b = synthesize(&record);
    assert_eq!(b.builder_name, "UserBuilder");
    assert_eq!(
        b.builder_fields,
        vec![
            BuilderField { name: "name".to_string(), ty: full_option(ty("String")) },
            BuilderField { name: "age".to_string(), ty: full_option(ty("u8")) },
        ]
    );
}

#[test]
fn synthesize_of_empty_record() {
    let record = introspect(&named_struct("Nothing", vec![])).unwrap();
    let b = synthesize(&record);
    assert_eq!(b.builder_name, "NothingBuilder");
    assert!(b.builder_fields.is_empty());
}

#[test]
fn setters_take_the_inner_type() {
    let record = introspect(&user()).unwrap();
    assert_eq!(
        emit_setters(&record),
        vec![
            Setter { name: "name".to_string(), parameter_type: ty("String"), slot: 0 },
            Setter { name: "age".to_string(), parameter_type: ty("u8"), slot: 1 },
        ]
    );
}

#[test]
fn not_set_message_format() {
    assert_eq!(not_set(&"name".to_string()), "name not set");
    assert_eq!(not_set(&String::new()), " not set");
}

#[test]
fn build_checks_mandatory_fields_in_declaration_order() {
    let construct = BuildExpr::Construct {
        record: "Command".to_string(),
        assignments: vec![
            FieldAssignment {
                field: "executable".to_string(),
                slot: 0,
                extraction: Extraction::Unwrap,
            },
            FieldAssignment {
                field: "env".to_string(),
                slot: 1,
                extraction: Extraction::PassThrough,
            },
            FieldAssignment { field: "args".to_string(), slot: 2, extraction: Extraction::Unwrap },
        ],
    };
    let expected = BuildExpr::IfPresent {
        field: "executable".to_string(),
        slot: 0,
        message: "executable not set".to_string(),
        then_branch: Box::new(BuildExpr::IfPresent {
            field: "args".to_string(),
            slot: 2,
            message: "args not set".to_string(),
            then_branch: Box::new(construct),
        }),
    };
    assert_eq!(emit_build(&command()), expected);
}

#[test]
fn build_of_record_without_mandatory_fields_has_no_check() {
    let record = introspect(&named_struct("Opts", vec![raw("a", opt(ty("u8")))])).unwrap();
    assert_eq!(
        emit_build(&record),
        BuildExpr::Construct {
            record: "Opts".to_string(),
            assignments: vec![FieldAssignment {
                field: "a".to_string(),
                slot: 0,
                extraction: Extraction::PassThrough,
            }],
        }
    );
}

#[test]
fn emit_joins_setters_and_build() {
    let record = command();
    let procedures = emit(&record);
    assert_eq!(procedures.setters, emit_setters(&record));
    assert_eq!(procedures.build, emit_build(&record));
}

#[test]
fn expand_and_derive_agree() {
    let record = introspect(&user()).unwrap();
    let expansion = expand(&record);
    assert_eq!(expansion.record_name, "User");
    assert_eq!(expansion.builder, synthesize(&record));
    assert_eq!(expansion.procedures, emit(&record));
    assert_eq!(builder::derive(&user()), Ok(expansion));
}
