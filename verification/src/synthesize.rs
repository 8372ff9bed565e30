//! The shape synthesizer: derives the builder type of a record.
//!
//! The builder has one field for each field of the record, under the same
//! name and in the same order. Each holds the record field's inner type in
//! the optional wrapper, so a field that is optional in the record is not
//! wrapped twice. Every field of a new builder is absent.

use crate::record::{RecordDescriptor, RecordModel};
use crate::type_ref::{copy_type, optional_of, wrap_optional, TypeModel, TypeRef};
use vstd::prelude::*;
use vstd::string::StringExecFns;

verus! {

/// A field of the builder type.
#[derive(Debug, PartialEq, Eq)]
pub struct BuilderField {
    pub name: String,
    pub ty: TypeRef,
}

/// The builder type of a record.
#[derive(Debug, PartialEq, Eq)]
pub struct BuilderDescriptor {
    pub builder_name: String,
    pub builder_fields: Vec<BuilderField>,
}

/// The model of a [`BuilderField`].
pub struct BuilderFieldModel {
    pub name: Seq<char>,
    pub ty: TypeModel,
}

/// The model of a [`BuilderDescriptor`].
pub struct BuilderModel {
    pub builder_name: Seq<char>,
    pub builder_fields: Seq<BuilderFieldModel>,
}

impl View for BuilderField {
    type V = BuilderFieldModel;

    open spec fn view(&self) -> BuilderFieldModel {
        BuilderFieldModel { name: self.name@, ty: self.ty@ }
    }
}

impl View for BuilderDescriptor {
    type V = BuilderModel;

    open spec fn view(&self) -> BuilderModel {
        BuilderModel {
            builder_name: self.builder_name@,
            builder_fields: self.builder_fields@.map_values(|field: BuilderField| field@),
        }
    }
}

/// The name of a record's builder type: the record's name and `Builder`.
pub open spec fn builder_name_of(record_name: Seq<char>) -> Seq<char> {
    record_name + "Builder"@
}

/// The builder type of a record.
pub open spec fn synthesized(record: RecordModel) -> BuilderModel {
    BuilderModel {
        builder_name: builder_name_of(record.name),
        builder_fields: Seq::new(
            record.fields.len(),
            |i: int|
                BuilderFieldModel {
                    name: record.fields[i].name,
                    ty: optional_of(record.fields[i].inner_type),
                },
        ),
    }
}

/// Derives the builder type of a record.
pub fn synthesize(record: &RecordDescriptor) -> (builder: BuilderDescriptor)
    ensures
        builder@ == synthesized(record@),
{
    let mut builder_name = record.name.clone();
    builder_name.append("Builder");
    let mut builder_fields: Vec<BuilderField> = Vec::new();
    let mut i: usize = 0;
    while i < record.fields.len()
        invariant
            i <= record.fields.len(),
            builder_fields.len() == i,
            forall|j: int|
                0 <= j < i ==> (#[trigger] builder_fields[j])@ == (BuilderFieldModel {
                    name: record.fields[j].name@,
                    ty: optional_of(record.fields[j].inner_type@),
                }),
        decreases record.fields.len() - i,
    {
        let field = &record.fields[i];
        builder_fields.push(
            BuilderField { name: field.name.clone(), ty: wrap_optional(copy_type(&field.inner_type)) },
        );
        i += 1;
    }
    let builder = BuilderDescriptor { builder_name, builder_fields };
    assert(builder@.builder_fields =~= synthesized(record@).builder_fields);
    builder
}

} // verus!
