//! The procedure emitter: the setters of a builder and its build operation.
//!
//! The build operation is a small expression tree. At its leaf the record is
//! constructed, each field taken out of its slot of the builder. Around the
//! leaf stands one presence check for each mandatory field, the check of the
//! first mandatory field outermost, so that checks are evaluated in
//! declaration order and the first absent mandatory field is the one
//! reported.

use crate::record::{RecordDescriptor, RecordModel};
use crate::type_ref::{copy_type, TypeModel, TypeRef};
use vstd::prelude::*;
use vstd::string::StringExecFns;

verus! {

/// A setter of the builder: a method named after a field, which takes a
/// value of the field's inner type, stores it as present in the slot of the
/// field and hands the builder back.
#[derive(Debug, PartialEq, Eq)]
pub struct Setter {
    pub name: String,
    pub parameter_type: TypeRef,
    pub slot: usize,
}

/// How the value of a record field is taken out of its slot.
#[derive(Debug, PartialEq, Eq, Clone, Copy)]
pub enum Extraction {
    /// The slot's content, present or absent, becomes the value of an
    /// optional field.
    PassThrough,
    /// The value that the slot holds becomes the value of a mandatory field.
    Unwrap,
}

/// The value of one field in the construction of the record.
#[derive(Debug, PartialEq, Eq)]
pub struct FieldAssignment {
    pub field: String,
    pub slot: usize,
    pub extraction: Extraction,
}

/// The body of the build operation.
#[derive(Debug, PartialEq, Eq)]
pub enum BuildExpr {
    /// Constructs the record from the slots, field by field.
    Construct { record: String, assignments: Vec<FieldAssignment> },
    /// Goes on with `then_branch` where the slot of `field` holds a value,
    /// and fails with `message` where it does not.
    IfPresent { field: String, slot: usize, message: String, then_branch: Box<BuildExpr> },
}

/// The procedures of a builder: one setter for each field, and the build
/// operation.
#[derive(Debug, PartialEq, Eq)]
pub struct GeneratedProcedures {
    pub setters: Vec<Setter>,
    pub build: BuildExpr,
}

/// The model of a [`Setter`].
pub struct SetterModel {
    pub name: Seq<char>,
    pub parameter_type: TypeModel,
    pub slot: nat,
}

/// The model of a [`FieldAssignment`].
pub struct AssignmentModel {
    pub field: Seq<char>,
    pub slot: nat,
    pub extraction: Extraction,
}

/// The model of a [`BuildExpr`].
pub enum BuildExprModel {
    Construct { record: Seq<char>, assignments: Seq<AssignmentModel> },
    IfPresent { field: Seq<char>, slot: nat, message: Seq<char>, then_branch: Box<BuildExprModel> },
}

/// The model of [`GeneratedProcedures`].
pub struct ProceduresModel {
    pub setters: Seq<SetterModel>,
    pub build: BuildExprModel,
}

impl View for Setter {
    type V = SetterModel;

    open spec fn view(&self) -> SetterModel {
        SetterModel {
            name: self.name@,
            parameter_type: self.parameter_type@,
            slot: self.slot as nat,
        }
    }
}

impl View for FieldAssignment {
    type V = AssignmentModel;

    open spec fn view(&self) -> AssignmentModel {
        AssignmentModel { field: self.field@, slot: self.slot as nat, extraction: self.extraction }
    }
}

/// The model of a build expression.
pub open spec fn build_expr_model(expr: BuildExpr) -> BuildExprModel
    decreases expr,
{
    match expr {
        BuildExpr::Construct { record, assignments } => BuildExprModel::Construct {
            record: record@,
            assignments: assignments@.map_values(|assignment: FieldAssignment| assignment@),
        },
        BuildExpr::IfPresent { field, slot, message, then_branch } => BuildExprModel::IfPresent {
            field: field@,
            slot: slot as nat,
            message: message@,
            then_branch: Box::new(build_expr_model(*then_branch)),
        },
    }
}

impl View for BuildExpr {
    type V = BuildExprModel;

    open spec fn view(&self) -> BuildExprModel {
        build_expr_model(*self)
    }
}

impl View for GeneratedProcedures {
    type V = ProceduresModel;

    open spec fn view(&self) -> ProceduresModel {
        ProceduresModel {
            setters: self.setters@.map_values(|setter: Setter| setter@),
            build: self.build@,
        }
    }
}

/// The message of a failed build: the name of the field, and ` not set`.
pub open spec fn not_set_message(field: Seq<char>) -> Seq<char> {
    field + " not set"@
}

/// The setter of the field at `i`.
pub open spec fn setter_of(record: RecordModel, i: int) -> SetterModel {
    SetterModel {
        name: record.fields[i].name,
        parameter_type: record.fields[i].inner_type,
        slot: i as nat,
    }
}

/// The setters of a record's builder: one for each field, in declaration
/// order.
pub open spec fn emitted_setters(record: RecordModel) -> Seq<SetterModel> {
    Seq::new(record.fields.len(), |i: int| setter_of(record, i))
}

/// How the field at `i` gets its value when the record is constructed.
pub open spec fn assignment_of(record: RecordModel, i: int) -> AssignmentModel {
    AssignmentModel {
        field: record.fields[i].name,
        slot: i as nat,
        extraction: if record.fields[i].is_optional {
            Extraction::PassThrough
        } else {
            Extraction::Unwrap
        },
    }
}

/// The construction of the record: every field, in declaration order.
pub open spec fn construction_of(record: RecordModel) -> BuildExprModel {
    BuildExprModel::Construct {
        record: record.name,
        assignments: Seq::new(record.fields.len(), |i: int| assignment_of(record, i)),
    }
}

/// The construction of the record inside the presence checks of the
/// mandatory fields from index `from` on, the check of the earliest field
/// outermost.
pub open spec fn checks_from(record: RecordModel, from: int) -> BuildExprModel
    decreases record.fields.len() - from,
{
    if from < 0 || from >= record.fields.len() {
        construction_of(record)
    } else if record.fields[from].is_optional {
        checks_from(record, from + 1)
    } else {
        BuildExprModel::IfPresent {
            field: record.fields[from].name,
            slot: from as nat,
            message: not_set_message(record.fields[from].name),
            then_branch: Box::new(checks_from(record, from + 1)),
        }
    }
}

/// The build operation of a record's builder.
pub open spec fn emitted_build(record: RecordModel) -> BuildExprModel {
    checks_from(record, 0)
}

/// The procedures of a record's builder.
pub open spec fn emitted(record: RecordModel) -> ProceduresModel {
    ProceduresModel { setters: emitted_setters(record), build: emitted_build(record) }
}

/// The message that reports `field` as not set.
pub fn not_set(field: &String) -> (message: String)
    ensures
        message@ == not_set_message(field@),
{
    let mut message = field.clone();
    message.append(" not set");
    message
}

/// Emits the setters of a record's builder.
pub fn emit_setters(record: &RecordDescriptor) -> (setters: Vec<Setter>)
    ensures
        setters@.map_values(|setter: Setter| setter@) == emitted_setters(record@),
{
    let mut setters: Vec<Setter> = Vec::new();
    let mut i: usize = 0;
    while i < record.fields.len()
        invariant
            i <= record.fields.len(),
            setters.len() == i,
            forall|j: int| 0 <= j < i ==> (#[trigger] setters[j])@ == setter_of(record@, j),
        decreases record.fields.len() - i,
    {
        let field = &record.fields[i];
        setters.push(
            Setter { name: field.name.clone(), parameter_type: copy_type(&field.inner_type), slot: i },
        );
        i += 1;
    }
    assert(setters@.map_values(|setter: Setter| setter@) =~= emitted_setters(record@));
    setters
}

/// Emits the build operation of a record's builder.
pub fn emit_build(record: &RecordDescriptor) -> (build: BuildExpr)
    ensures
        build@ == emitted_build(record@),
{
    let mut assignments: Vec<FieldAssignment> = Vec::new();
    let mut i: usize = 0;
    while i < record.fields.len()
        invariant
            i <= record.fields.len(),
            assignments.len() == i,
            forall|j: int|
                0 <= j < i ==> (#[trigger] assignments[j])@ == assignment_of(record@, j),
        decreases record.fields.len() - i,
    {
        let field = &record.fields[i];
        let extraction = if field.is_optional {
            Extraction::PassThrough
        } else {
            Extraction::Unwrap
        };
        assignments.push(FieldAssignment { field: field.name.clone(), slot: i, extraction });
        i += 1;
    }
    let mut build = BuildExpr::Construct { record: record.name.clone(), assignments };
    assert(build@->Construct_assignments =~= construction_of(record@)->Construct_assignments);
    let mut k: usize = record.fields.len();
    while k > 0
        invariant
            k <= record.fields.len(),
            build@ == checks_from(record@, k as int),
        decreases k,
    {
        k -= 1;
        let field = &record.fields[k];
        if !field.is_optional {
            build = BuildExpr::IfPresent {
                field: field.name.clone(),
                slot: k,
                message: not_set(&field.name),
                then_branch: Box::new(build),
            };
        }
    }
    build
}

/// Emits the procedures of a record's builder.
pub fn emit(record: &RecordDescriptor) -> (procedures: GeneratedProcedures)
    ensures
        procedures@ == emitted(record@),
{
    GeneratedProcedures { setters: emit_setters(record), build: emit_build(record) }
}

} // verus!
