//! The optionality classifier.
//!
//! A field is optional exactly when its type is written `Option<T>`: one
//! path segment named `Option`, not qualified in any way, with a single type
//! argument in angle brackets. The check reads the written form only, so an
//! alias of `Option`, or `std::option::Option<T>`, is not recognised.

use crate::record::{FieldDescriptor, FieldModel};
use crate::type_ref::{
    argument_model, arguments_model, copy_type, segment_model, type_model, ArgumentModel,
    ArgumentsModel, GenericArgument, PathArguments, SegmentModel, TypeModel, TypeRef,
};
use vstd::prelude::*;

verus! {

/// The type that is written `Option<inner>`.
pub open spec fn plain_option(inner: TypeModel) -> TypeModel {
    TypeModel::Path {
        qself: None,
        leading_colon: false,
        segments: seq![
            SegmentModel {
                ident: "Option"@,
                arguments: ArgumentsModel::AngleBracketed {
                    turbofish: false,
                    args: seq![ArgumentModel::Type(inner)],
                },
            },
        ],
    }
}

/// The wrapped type, where `ty` is written `Option<T>`; `None` for every
/// other type.
pub open spec fn optional_inner(ty: TypeModel) -> Option<TypeModel> {
    match ty {
        TypeModel::Path { qself: None, leading_colon: false, segments } => {
            if segments.len() == 1 && segments[0].ident == "Option"@ {
                match segments[0].arguments {
                    ArgumentsModel::AngleBracketed { turbofish: false, args } => {
                        if args.len() == 1 {
                            match args[0] {
                                ArgumentModel::Type(inner) => Some(inner),
                                _ => None,
                            }
                        } else {
                            None
                        }
                    },
                    _ => None,
                }
            } else {
                None
            }
        },
        _ => None,
    }
}

/// A field of the given name and declared type, classified.
pub open spec fn classified(name: Seq<char>, declared_type: TypeModel) -> FieldModel {
    FieldModel {
        name,
        declared_type,
        is_optional: optional_inner(declared_type) is Some,
        inner_type: match optional_inner(declared_type) {
            Some(inner) => inner,
            None => declared_type,
        },
    }
}

impl FieldModel {
    /// Whether the optionality and the inner type are those that the
    /// classifier derives from the declared type.
    pub open spec fn well_formed(self) -> bool {
        self == classified(self.name, self.declared_type)
    }
}

/// A type is classified as optional, with inner type `inner`, exactly when
/// it is written `Option<inner>`.
pub proof fn lemma_optional_iff_plain_option(ty: TypeModel, inner: TypeModel)
    ensures
        optional_inner(ty) == Some(inner) <==> ty == plain_option(inner),
{
    if optional_inner(ty) == Some(inner) {
        let segments = ty->Path_segments;
        let args = segments[0].arguments->AngleBracketed_args;
        assert(args =~= seq![ArgumentModel::Type(inner)]);
        assert(segments =~= plain_option(inner)->Path_segments);
    }
}

/// Only the outer wrapper is taken off: the inner type of
/// `Option<Option<T>>` is `Option<T>`, itself of the optional form.
pub proof fn lemma_nested_option_unwraps_once(innermost: TypeModel)
    ensures
        optional_inner(plain_option(plain_option(innermost))) == Some(plain_option(innermost)),
        optional_inner(plain_option(innermost)) == Some(innermost),
{
}

/// The wrapped type of a type written `Option<T>`, borrowed from `ty`.
pub fn optional_argument<'a>(ty: &'a TypeRef) -> (inner: Option<&'a TypeRef>)
    ensures
        match inner {
            Some(wrapped) => optional_inner(ty@) == Some(wrapped@),
            None => optional_inner(ty@) is None,
        },
{
    proof {
        reveal_with_fuel(type_model, 2);
        reveal_with_fuel(segment_model, 2);
        reveal_with_fuel(arguments_model, 2);
        reveal_with_fuel(argument_model, 2);
    }
    match ty {
        TypeRef::Path { qself, leading_colon, segments } => {
            if qself.is_some() || *leading_colon || segments.len() != 1 {
                return None;
            }
            let segment = &segments[0];
            assert(ty@->Path_segments[0] == segment@);
            let wrapper = "Option".to_owned();
            if !(segment.ident == wrapper) {
                return None;
            }
            match &segment.arguments {
                PathArguments::AngleBracketed { turbofish, args } => {
                    if *turbofish || args.len() != 1 {
                        return None;
                    }
                    assert(segment@.arguments->AngleBracketed_args[0] == args[0]@);
                    match &args[0] {
                        GenericArgument::Type(wrapped) => Some(wrapped),
                        _ => None,
                    }
                },
                _ => None,
            }
        },
        _ => None,
    }
}

/// Classifies a field: decides whether it is optional and computes its
/// inner type.
pub fn classify(name: String, declared_type: TypeRef) -> (field: FieldDescriptor)
    ensures
        field@ == classified(name@, declared_type@),
        field@.well_formed(),
{
    let wrapped = match optional_argument(&declared_type) {
        Some(inner) => Some(copy_type(inner)),
        None => None,
    };
    match wrapped {
        Some(inner_type) => FieldDescriptor { name, declared_type, is_optional: true, inner_type },
        None => {
            let inner_type = copy_type(&declared_type);
            FieldDescriptor { name, declared_type, is_optional: false, inner_type }
        },
    }
}

} // verus!
