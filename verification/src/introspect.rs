//! The record introspector: accepts a declaration that is a struct with
//! named fields, and classifies its fields in declaration order.

use crate::classify::{classified, classify};
use crate::record::{
    Declaration, DeclarationModel, DeclarationShape, FieldDescriptor, FieldModel, InputError,
    RawField, RawFieldModel, RecordDescriptor, RecordModel, ShapeModel,
};
use crate::search::{first_index, lemma_first_index_is, lemma_first_index_none};
use crate::type_ref::copy_type;
use vstd::prelude::*;

verus! {

/// The condition "the field at this index has no name".
pub open spec fn lacks_name(fields: Seq<RawFieldModel>) -> spec_fn(int) -> bool {
    |i: int| fields[i].name is None
}

/// The classified fields of a struct whose fields all have names, in
/// declaration order.
pub open spec fn classified_fields(fields: Seq<RawFieldModel>) -> Seq<FieldModel> {
    Seq::new(fields.len(), |i: int| classified(fields[i].name->0, fields[i].ty))
}

/// What introspection makes of a declaration: the record, or the first
/// requirement that the declaration does not meet.
pub open spec fn introspected(declaration: DeclarationModel) -> Result<RecordModel, InputError> {
    match declaration.shape {
        ShapeModel::NamedStruct { fields } => match first_index(fields.len(), lacks_name(fields)) {
            Some(index) => Err(InputError::FieldWithoutName { index: index as usize }),
            None => Ok(RecordModel { name: declaration.name, fields: classified_fields(fields) }),
        },
        ShapeModel::TupleStruct | ShapeModel::UnitStruct => Err(InputError::FieldsNotNamed),
        ShapeModel::Enumeration | ShapeModel::Union => Err(InputError::NotAStruct),
    }
}

impl RecordModel {
    /// Whether every field is classified as the classifier does it.
    pub open spec fn well_formed(self) -> bool {
        forall|i: int| 0 <= i < self.fields.len() ==> (#[trigger] self.fields[i]).well_formed()
    }
}

/// Reads a declaration into a record descriptor.
///
/// Fails where the declaration is not a struct, where its fields are not
/// named, and where a field has no name; of several such fields the first
/// is reported. The fields keep their declaration order.
pub fn introspect(declaration: &Declaration) -> (result: Result<RecordDescriptor, InputError>)
    ensures
        match result {
            Ok(record) => introspected(declaration@) == Ok::<RecordModel, InputError>(record@)
                && record@.well_formed(),
            Err(error) => introspected(declaration@) == Err::<RecordModel, InputError>(error),
        },
{
    match &declaration.shape {
        DeclarationShape::NamedStruct { fields } => {
            let ghost raw = declaration@.shape->NamedStruct_fields;
            let mut classified_so_far: Vec<FieldDescriptor> = Vec::new();
            let mut i: usize = 0;
            while i < fields.len()
                invariant
                    i <= fields.len(),
                    raw == fields@.map_values(|field: RawField| field@),
                    declaration@.shape == (ShapeModel::NamedStruct { fields: raw }),
                    classified_so_far.len() == i,
                    forall|j: int| 0 <= j < i ==> !#[trigger] lacks_name(raw)(j),
                    forall|j: int|
                        0 <= j < i ==> (#[trigger] classified_so_far[j])@ == classified(
                            raw[j].name->0,
                            raw[j].ty,
                        ),
                decreases fields.len() - i,
            {
                let field = &fields[i];
                assert(raw[i as int] == field@);
                match &field.name {
                    Some(name) => {
                        let described = classify(name.clone(), copy_type(&field.ty));
                        classified_so_far.push(described);
                    },
                    None => {
                        proof {
                            lemma_first_index_is(raw.len(), lacks_name(raw), i as int);
                        }
                        return Err(InputError::FieldWithoutName { index: i });
                    },
                }
                i += 1;
            }
            let record = RecordDescriptor {
                name: declaration.name.clone(),
                fields: classified_so_far,
            };
            proof {
                lemma_first_index_none(raw.len(), lacks_name(raw));
                assert(record@.fields =~= classified_fields(raw));
            }
            Ok(record)
        },
        DeclarationShape::TupleStruct => Err(InputError::FieldsNotNamed),
        DeclarationShape::UnitStruct => Err(InputError::FieldsNotNamed),
        DeclarationShape::Enumeration => Err(InputError::NotAStruct),
        DeclarationShape::Union => Err(InputError::NotAStruct),
    }
}

} // verus!
