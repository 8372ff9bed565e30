//! The whole pass: from a declaration to everything that is generated for
//! it.

use crate::emit::{emit, emitted, GeneratedProcedures, ProceduresModel};
use crate::introspect::introspected;
use crate::record::{DeclarationModel, InputError, RecordDescriptor, RecordModel};
use crate::synthesize::{synthesize, synthesized, BuilderDescriptor, BuilderModel};
use vstd::prelude::*;

verus! {

/// What is generated for one record: its builder type and the procedures of
/// that type. The record itself gets one entry point without arguments,
/// which returns a builder with every field absent.
#[derive(Debug, PartialEq, Eq)]
pub struct Expansion {
    pub record_name: String,
    pub builder: BuilderDescriptor,
    pub procedures: GeneratedProcedures,
}

/// The model of an [`Expansion`].
pub struct ExpansionModel {
    pub record_name: Seq<char>,
    pub builder: BuilderModel,
    pub procedures: ProceduresModel,
}

impl View for Expansion {
    type V = ExpansionModel;

    open spec fn view(&self) -> ExpansionModel {
        ExpansionModel {
            record_name: self.record_name@,
            builder: self.builder@,
            procedures: self.procedures@,
        }
    }
}

/// What is generated for a record.
pub open spec fn expanded(record: RecordModel) -> ExpansionModel {
    ExpansionModel {
        record_name: record.name,
        builder: synthesized(record),
        procedures: emitted(record),
    }
}

/// What is generated for a declaration, or why nothing is.
pub open spec fn derived(declaration: DeclarationModel) -> Result<ExpansionModel, InputError> {
    match introspected(declaration) {
        Ok(record) => Ok(expanded(record)),
        Err(error) => Err(error),
    }
}

/// Generates the builder type of a record and its procedures.
pub fn expand(record: &RecordDescriptor) -> (expansion: Expansion)
    ensures
        expansion@ == expanded(record@),
{
    Expansion {
        record_name: record.name.clone(),
        builder: synthesize(record),
        procedures: emit(record),
    }
}

} // verus!
