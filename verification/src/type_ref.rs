//! Type references as they are written in a record declaration.
//!
//! A [`TypeRef`] keeps the shape of a written type as far as the optionality
//! classification looks into it: a path with its segments and their generic
//! arguments. Every other form of type is carried as its source text.
//! Each executable type has a mathematical model, reached with `@`.

use vstd::prelude::*;

verus! {

/// A type as written in a field declaration.
#[derive(Debug, PartialEq, Eq)]
pub enum TypeRef {
    /// A path such as `u8`, `std::string::String` or `Option<u8>`.
    ///
    /// `qself` is present in a qualified path (`<T as Trait>::Item`);
    /// `leading_colon` says whether the path starts with `::`.
    Path { qself: Option<QSelf>, leading_colon: bool, segments: Vec<PathSegment> },
    /// Any other form of type (a reference, a tuple, an array, ...), as its
    /// source text.
    Verbatim { text: String },
}

/// The explicit self type of a qualified path: in `<T as a::Trait>::Item`
/// the type `T`, with the number of path segments that name the trait.
#[derive(Debug, PartialEq, Eq)]
pub struct QSelf {
    pub ty: Box<TypeRef>,
    pub position: usize,
}

/// One segment of a path: an identifier and its generic arguments.
#[derive(Debug, PartialEq, Eq)]
pub struct PathSegment {
    pub ident: String,
    pub arguments: PathArguments,
}

/// The generic arguments that follow a path segment.
#[derive(Debug, PartialEq, Eq)]
pub enum PathArguments {
    /// No arguments, as in `u8`.
    Empty,
    /// Arguments in angle brackets, as in `Option<u8>`; `turbofish` says
    /// whether they were introduced by `::`, as in `Option::<u8>`.
    AngleBracketed { turbofish: bool, args: Vec<GenericArgument> },
    /// The arguments of a function-like path, as in `Fn(u8) -> bool`, as
    /// their source text.
    Parenthesized { text: String },
}

/// One generic argument in angle brackets.
#[derive(Debug, PartialEq, Eq)]
pub enum GenericArgument {
    /// A type argument.
    Type(TypeRef),
    /// A lifetime, a constant, a binding or a constraint, as its source text.
    Other { text: String },
}

/// The model of a [`TypeRef`].
pub enum TypeModel {
    Path { qself: Option<QSelfModel>, leading_colon: bool, segments: Seq<SegmentModel> },
    Verbatim { text: Seq<char> },
}

/// The model of a [`QSelf`].
pub struct QSelfModel {
    pub ty: Box<TypeModel>,
    pub position: nat,
}

/// The model of a [`PathSegment`].
pub struct SegmentModel {
    pub ident: Seq<char>,
    pub arguments: ArgumentsModel,
}

/// The model of [`PathArguments`].
pub enum ArgumentsModel {
    Empty,
    AngleBracketed { turbofish: bool, args: Seq<ArgumentModel> },
    Parenthesized { text: Seq<char> },
}

/// The model of a [`GenericArgument`].
pub enum ArgumentModel {
    Type(TypeModel),
    Other { text: Seq<char> },
}

/// The model of a type reference: its shape, with every text as a sequence
/// of characters.
pub open spec fn type_model(ty: TypeRef) -> TypeModel
    decreases ty,
{
    match ty {
        TypeRef::Path { qself, leading_colon, segments } => TypeModel::Path {
            qself: match qself {
                Some(q) => Some(
                    QSelfModel { ty: Box::new(type_model(*q.ty)), position: q.position as nat },
                ),
                None => None,
            },
            leading_colon,
            segments: Seq::new(
                segments.len() as nat,
                |i: int|
                    if 0 <= i < segments.len() {
                        segment_model(segments[i])
                    } else {
                        arbitrary()
                    },
            ),
        },
        TypeRef::Verbatim { text } => TypeModel::Verbatim { text: text@ },
    }
}

/// The model of a path segment.
pub open spec fn segment_model(segment: PathSegment) -> SegmentModel
    decreases segment,
{
    SegmentModel { ident: segment.ident@, arguments: arguments_model(segment.arguments) }
}

/// The model of the generic arguments of a path segment.
pub open spec fn arguments_model(arguments: PathArguments) -> ArgumentsModel
    decreases arguments,
{
    match arguments {
        PathArguments::Empty => ArgumentsModel::Empty,
        PathArguments::AngleBracketed { turbofish, args } => ArgumentsModel::AngleBracketed {
            turbofish,
            args: Seq::new(
                args.len() as nat,
                |i: int|
                    if 0 <= i < args.len() {
                        argument_model(args[i])
                    } else {
                        arbitrary()
                    },
            ),
        },
        PathArguments::Parenthesized { text } => ArgumentsModel::Parenthesized { text: text@ },
    }
}

/// The model of one generic argument.
pub open spec fn argument_model(argument: GenericArgument) -> ArgumentModel
    decreases argument,
{
    match argument {
        GenericArgument::Type(ty) => ArgumentModel::Type(type_model(ty)),
        GenericArgument::Other { text } => ArgumentModel::Other { text: text@ },
    }
}

impl View for TypeRef {
    type V = TypeModel;

    open spec fn view(&self) -> TypeModel {
        type_model(*self)
    }
}

impl View for PathSegment {
    type V = SegmentModel;

    open spec fn view(&self) -> SegmentModel {
        segment_model(*self)
    }
}

impl View for PathArguments {
    type V = ArgumentsModel;

    open spec fn view(&self) -> ArgumentsModel {
        arguments_model(*self)
    }
}

impl View for GenericArgument {
    type V = ArgumentModel;

    open spec fn view(&self) -> ArgumentModel {
        argument_model(*self)
    }
}

/// The segments of `::core::option::Option<inner>`: the optional wrapper
/// under its full path, which no local name can shadow.
pub open spec fn optional_wrapper_segments(inner: TypeModel) -> Seq<SegmentModel> {
    seq![
        SegmentModel { ident: "core"@, arguments: ArgumentsModel::Empty },
        SegmentModel { ident: "option"@, arguments: ArgumentsModel::Empty },
        SegmentModel {
            ident: "Option"@,
            arguments: ArgumentsModel::AngleBracketed {
                turbofish: false,
                args: seq![ArgumentModel::Type(inner)],
            },
        },
    ]
}

/// The type `::core::option::Option<inner>`.
pub open spec fn optional_of(inner: TypeModel) -> TypeModel {
    TypeModel::Path {
        qself: None,
        leading_colon: true,
        segments: optional_wrapper_segments(inner),
    }
}

/// A deep copy of a type reference.
pub fn copy_type(ty: &TypeRef) -> (copy: TypeRef)
    ensures
        copy@ == ty@,
    decreases ty,
{
    match ty {
        TypeRef::Path { qself, leading_colon, segments } => {
            let qself_copy = match qself {
                Some(q) => Some(QSelf { ty: Box::new(copy_type(&*q.ty)), position: q.position }),
                None => None,
            };
            let mut copied: Vec<PathSegment> = Vec::new();
            let mut i: usize = 0;
            while i < segments.len()
                invariant
                    i <= segments.len(),
                    copied.len() == i,
                    forall|j: int| 0 <= j < i ==> copied[j]@ == segments[j]@,
                    decreases_to!(ty => segments),
                decreases segments.len() - i,
            {
                let segment = copy_segment(&segments[i]);
                copied.push(segment);
                i += 1;
            }
            let copy = TypeRef::Path {
                qself: qself_copy,
                leading_colon: *leading_colon,
                segments: copied,
            };
            assert(copy@->Path_segments =~= ty@->Path_segments);
            copy
        },
        TypeRef::Verbatim { text } => TypeRef::Verbatim { text: text.clone() },
    }
}

/// A deep copy of a path segment.
pub fn copy_segment(segment: &PathSegment) -> (copy: PathSegment)
    ensures
        copy@ == segment@,
    decreases segment,
{
    let arguments = match &segment.arguments {
        PathArguments::Empty => PathArguments::Empty,
        PathArguments::AngleBracketed { turbofish, args } => {
            let mut copied: Vec<GenericArgument> = Vec::new();
            let mut i: usize = 0;
            while i < args.len()
                invariant
                    i <= args.len(),
                    copied.len() == i,
                    forall|j: int| 0 <= j < i ==> copied[j]@ == args[j]@,
                    decreases_to!(segment => args),
                decreases args.len() - i,
            {
                let argument = match &args[i] {
                    GenericArgument::Type(ty) => GenericArgument::Type(copy_type(ty)),
                    GenericArgument::Other { text } => GenericArgument::Other { text: text.clone() },
                };
                copied.push(argument);
                i += 1;
            }
            let copy = PathArguments::AngleBracketed { turbofish: *turbofish, args: copied };
            assert(copy@->AngleBracketed_args =~= segment.arguments@->AngleBracketed_args);
            copy
        },
        PathArguments::Parenthesized { text } => PathArguments::Parenthesized {
            text: text.clone(),
        },
    };
    PathSegment { ident: segment.ident.clone(), arguments }
}

impl Clone for TypeRef {
    fn clone(&self) -> (copy: Self)
        ensures
            copy@ == self@,
    {
        copy_type(self)
    }
}

impl Clone for PathSegment {
    fn clone(&self) -> (copy: Self)
        ensures
            copy@ == self@,
    {
        copy_segment(self)
    }
}

/// Wraps `inner` in the optional wrapper: `::core::option::Option<inner>`.
pub fn wrap_optional(inner: TypeRef) -> (wrapped: TypeRef)
    ensures
        wrapped@ == optional_of(inner@),
{
    let mut args: Vec<GenericArgument> = Vec::new();
    args.push(GenericArgument::Type(inner));
    let mut segments: Vec<PathSegment> = Vec::new();
    segments.push(PathSegment { ident: "core".to_owned(), arguments: PathArguments::Empty });
    segments.push(PathSegment { ident: "option".to_owned(), arguments: PathArguments::Empty });
    segments.push(
        PathSegment {
            ident: "Option".to_owned(),
            arguments: PathArguments::AngleBracketed { turbofish: false, args },
        },
    );
    let wrapped = TypeRef::Path { qself: None, leading_colon: true, segments };
    proof {
        reveal_with_fuel(type_model, 2);
        reveal_with_fuel(segment_model, 2);
        reveal_with_fuel(arguments_model, 2);
        reveal_with_fuel(argument_model, 2);
        let given = wrapped->Path_segments@;
        let model = wrapped@->Path_segments;
        assert(given.len() == 3);
        assert(model[0] == segment_model(given[0]));
        assert(model[1] == segment_model(given[1]));
        assert(model[2] == segment_model(given[2]));
        assert(model[2].arguments->AngleBracketed_args =~= seq![ArgumentModel::Type(inner@)]);
        assert(model =~= optional_wrapper_segments(inner@));
    }
    wrapped
}

} // verus!
