//! Records: the declaration that is handed in, and the descriptor that the
//! builder is generated from.

use crate::type_ref::{TypeModel, TypeRef};
use vstd::prelude::*;

verus! {

/// A declared type as it is handed in: its name and what kind of item it is.
#[derive(Debug, PartialEq, Eq)]
pub struct Declaration {
    pub name: String,
    pub shape: DeclarationShape,
}

/// The kind of a declared type.
#[derive(Debug, PartialEq, Eq)]
pub enum DeclarationShape {
    /// `struct S { a: A, b: B }`, with its fields in declaration order.
    NamedStruct { fields: Vec<RawField> },
    /// `struct S(A, B);`
    TupleStruct,
    /// `struct S;`
    UnitStruct,
    /// `enum E { .. }`
    Enumeration,
    /// `union U { .. }`
    Union,
}

/// A field as declared: its name, if it has one, and its type.
#[derive(Debug, PartialEq, Eq)]
pub struct RawField {
    pub name: Option<String>,
    pub ty: TypeRef,
}

/// A field of a record, classified.
///
/// `is_optional` is derived from the declared type, never declared;
/// `inner_type` is the declared type of a mandatory field and the wrapped
/// type of an optional one.
#[derive(Debug, PartialEq, Eq)]
pub struct FieldDescriptor {
    pub name: String,
    pub declared_type: TypeRef,
    pub is_optional: bool,
    pub inner_type: TypeRef,
}

/// A record: its name and its fields in declaration order.
#[derive(Debug, PartialEq, Eq)]
pub struct RecordDescriptor {
    pub name: String,
    pub fields: Vec<FieldDescriptor>,
}

/// Why a declaration cannot be given a builder.
#[derive(Debug, PartialEq, Eq, Clone, Copy)]
pub enum InputError {
    /// The declaration is an enumeration or a union, not a struct.
    NotAStruct,
    /// The struct has positional fields, or none at all.
    FieldsNotNamed,
    /// The field at `index` has no name.
    FieldWithoutName { index: usize },
}

/// The model of a [`Declaration`].
pub struct DeclarationModel {
    pub name: Seq<char>,
    pub shape: ShapeModel,
}

/// The model of a [`DeclarationShape`].
pub enum ShapeModel {
    NamedStruct { fields: Seq<RawFieldModel> },
    TupleStruct,
    UnitStruct,
    Enumeration,
    Union,
}

/// The model of a [`RawField`].
pub struct RawFieldModel {
    pub name: Option<Seq<char>>,
    pub ty: TypeModel,
}

/// The model of a [`FieldDescriptor`].
pub struct FieldModel {
    pub name: Seq<char>,
    pub declared_type: TypeModel,
    pub is_optional: bool,
    pub inner_type: TypeModel,
}

/// The model of a [`RecordDescriptor`].
pub struct RecordModel {
    pub name: Seq<char>,
    pub fields: Seq<FieldModel>,
}

impl View for RawField {
    type V = RawFieldModel;

    open spec fn view(&self) -> RawFieldModel {
        RawFieldModel {
            name: match self.name {
                Some(name) => Some(name@),
                None => None,
            },
            ty: self.ty@,
        }
    }
}

impl View for DeclarationShape {
    type V = ShapeModel;

    open spec fn view(&self) -> ShapeModel {
        match self {
            DeclarationShape::NamedStruct { fields } => ShapeModel::NamedStruct {
                fields: fields@.map_values(|field: RawField| field@),
            },
            DeclarationShape::TupleStruct => ShapeModel::TupleStruct,
            DeclarationShape::UnitStruct => ShapeModel::UnitStruct,
            DeclarationShape::Enumeration => ShapeModel::Enumeration,
            DeclarationShape::Union => ShapeModel::Union,
        }
    }
}

impl View for Declaration {
    type V = DeclarationModel;

    open spec fn view(&self) -> DeclarationModel {
        DeclarationModel { name: self.name@, shape: self.shape@ }
    }
}

impl View for FieldDescriptor {
    type V = FieldModel;

    open spec fn view(&self) -> FieldModel {
        FieldModel {
            name: self.name@,
            declared_type: self.declared_type@,
            is_optional: self.is_optional,
            inner_type: self.inner_type@,
        }
    }
}

impl View for RecordDescriptor {
    type V = RecordModel;

    open spec fn view(&self) -> RecordModel {
        RecordModel {
            name: self.name@,
            fields: self.fields@.map_values(|field: FieldDescriptor| field@),
        }
    }
}

impl RecordModel {
    /// Whether the field at `i` must be set before a build can succeed.
    pub open spec fn is_mandatory(self, i: int) -> bool {
        0 <= i < self.fields.len() && !self.fields[i].is_optional
    }

    /// Whether the record has no mandatory field.
    pub open spec fn all_optional(self) -> bool {
        forall|i: int| 0 <= i < self.fields.len() ==> #[trigger] self.fields[i].is_optional
    }
}

impl InputError {
    /// The text of [`InputError::message`].
    pub open spec fn message_text(self) -> Seq<char> {
        match self {
            InputError::NotAStruct => "Can only deal with structs atm"@,
            InputError::FieldsNotNamed => "Can only deal with named fields atm"@,
            InputError::FieldWithoutName { .. } => "named fields must have idents"@,
        }
    }

    /// Names the requirement that the declaration does not meet.
    pub fn message(&self) -> (text: String)
        ensures
            text@ == self.message_text(),
    {
        match self {
            InputError::NotAStruct => "Can only deal with structs atm".to_owned(),
            InputError::FieldsNotNamed => "Can only deal with named fields atm".to_owned(),
            InputError::FieldWithoutName { .. } => "named fields must have idents".to_owned(),
        }
    }
}

} // verus!
