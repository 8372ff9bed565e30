//! A generator of builders for records.
//!
//! From the declaration of a struct with named fields, [`derive`] generates
//! a description of a second type, the builder of the struct, with one
//! setter for each field and a build operation that checks that every
//! mandatory field was set before it constructs the struct.
//!
//! The pass has four stages. The introspector ([`introspect`]) accepts the
//! declaration, the classifier ([`classify`]) tells optional fields from
//! mandatory ones by the written form of their types, the synthesizer
//! ([`synthesize`]) derives the builder type, and the emitter ([`emit`])
//! its procedures. What the procedures do when they run is defined in
//! [`runtime`], and what holds of every generated builder is proved in
//! [`laws`].

pub mod classify;
pub mod emit;
pub mod expand;
pub mod introspect;
pub mod laws;
pub mod record;
pub mod runtime;
pub mod search;
pub mod synthesize;
pub mod type_ref;

use crate::expand::{derived, expand, Expansion, ExpansionModel};
use crate::introspect::introspect;
use crate::record::{Declaration, InputError};
use vstd::prelude::*;

verus! {

/// Generates a builder for a declared type.
///
/// Succeeds exactly on a struct whose fields all have names. Nothing is
/// generated for any other declaration: the error names the requirement
/// that it does not meet.
pub fn derive(declaration: &Declaration) -> (result: Result<Expansion, InputError>)
    ensures
        match result {
            Ok(expansion) => derived(declaration@) == Ok::<ExpansionModel, InputError>(
                expansion@,
            ),
            Err(error) => derived(declaration@) == Err::<ExpansionModel, InputError>(error),
        },
{
    match introspect(declaration) {
        Ok(record) => Ok(expand(&record)),
        Err(error) => Err(error),
    }
}

} // verus!
