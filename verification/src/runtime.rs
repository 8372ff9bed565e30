//! What the generated procedures do when they run.
//!
//! A [`Builder`] holds one slot for each field of the builder type. A setter
//! stores a value in its slot; the build operation evaluates the emitted
//! expression on the slots. Reading a slot takes its value out, so a record
//! that was built leaves every slot empty.

use crate::emit::{
    not_set, not_set_message, AssignmentModel, BuildExpr, BuildExprModel, Extraction,
    FieldAssignment, Setter, SetterModel,
};
use crate::expand::{expanded, Expansion};
use crate::laws::{built, theorem_build};
use crate::record::RecordModel;
use crate::search::{first_index, lemma_first_index_is, lemma_first_index_none};
use vstd::prelude::*;

verus! {

/// The value of a field of a record that was built.
#[derive(Debug, PartialEq, Eq)]
pub enum FieldValue<V> {
    /// The value of a mandatory field.
    Required(V),
    /// The value of an optional field, present or absent.
    Optional(Option<V>),
}

/// A record that was built: the name of its type and the values of its
/// fields, in declaration order.
#[derive(Debug, PartialEq, Eq)]
pub struct Instance<V> {
    pub record_name: String,
    pub values: Vec<FieldValue<V>>,
}

/// The model of an [`Instance`].
pub struct InstanceModel<V> {
    pub record_name: Seq<char>,
    pub values: Seq<FieldValue<V>>,
}

impl<V> View for Instance<V> {
    type V = InstanceModel<V>;

    open spec fn view(&self) -> InstanceModel<V> {
        InstanceModel { record_name: self.record_name@, values: self.values@ }
    }
}

/// Why a build failed. The message names the field that was not set.
#[derive(Debug, PartialEq, Eq)]
pub struct BuildError {
    pub message: String,
}

/// What a build returns, a record or the message of a failure, and the
/// slots that it leaves behind.
pub struct Outcome<V> {
    pub result: Result<InstanceModel<V>, Seq<char>>,
    pub slots: Seq<Option<V>>,
}

/// What the slot holds; a slot that the builder does not have holds nothing.
pub open spec fn slot_value<V>(slots: Seq<Option<V>>, slot: nat) -> Option<V> {
    if slot < slots.len() {
        slots[slot as int]
    } else {
        None
    }
}

/// The slots with `slot` emptied.
pub open spec fn emptied<V>(slots: Seq<Option<V>>, slot: nat) -> Seq<Option<V>> {
    if slot < slots.len() {
        slots.update(slot as int, None)
    } else {
        slots
    }
}

/// The slots with `value` stored in `slot`.
pub open spec fn stored<V>(slots: Seq<Option<V>>, slot: nat, value: V) -> Seq<Option<V>> {
    if slot < slots.len() {
        slots.update(slot as int, Some(value))
    } else {
        slots
    }
}

/// The slots of a new builder: `len` slots, all empty.
pub open spec fn empty_slots<V>(len: nat) -> Seq<Option<V>> {
    Seq::new(len, |i: int| None::<V>)
}

/// Constructs the record from the assignments at `from` and after, where
/// `done` holds the values of the fields before `from`.
///
/// Each assignment takes the content of its slot and leaves the slot empty.
/// Where a mandatory field finds its slot empty the construction stops and
/// reports that field as not set; the slots read so far stay empty.
pub open spec fn construct_from<V>(
    record: Seq<char>,
    assignments: Seq<AssignmentModel>,
    from: int,
    slots: Seq<Option<V>>,
    done: Seq<FieldValue<V>>,
) -> Outcome<V>
    decreases assignments.len() - from,
{
    if from < 0 || from >= assignments.len() {
        Outcome { result: Ok(InstanceModel { record_name: record, values: done }), slots }
    } else {
        let assignment = assignments[from];
        let taken = slot_value(slots, assignment.slot);
        let rest = emptied(slots, assignment.slot);
        match (assignment.extraction, taken) {
            (Extraction::PassThrough, _) => construct_from(
                record,
                assignments,
                from + 1,
                rest,
                done.push(FieldValue::Optional(taken)),
            ),
            (Extraction::Unwrap, Some(value)) => construct_from(
                record,
                assignments,
                from + 1,
                rest,
                done.push(FieldValue::Required(value)),
            ),
            (Extraction::Unwrap, None) => Outcome {
                result: Err(not_set_message(assignment.field)),
                slots: rest,
            },
        }
    }
}

/// Evaluates a build expression on the slots of a builder.
///
/// A presence check whose slot is empty fails with its message and leaves
/// the slots as they are.
pub open spec fn run_build<V>(expr: BuildExprModel, slots: Seq<Option<V>>) -> Outcome<V>
    decreases expr,
{
    match expr {
        BuildExprModel::Construct { record, assignments } => construct_from(
            record,
            assignments,
            0,
            slots,
            Seq::empty(),
        ),
        BuildExprModel::IfPresent { field, slot, message, then_branch } => {
            if slot_value(slots, slot) is Some {
                run_build(*then_branch, slots)
            } else {
                Outcome { result: Err(message), slots }
            }
        },
    }
}

/// The condition "the setter at this index is named `name`".
pub open spec fn is_named(setters: Seq<SetterModel>, name: Seq<char>) -> spec_fn(int) -> bool {
    |i: int| setters[i].name == name
}

/// The index of the setter that a call of `name` reaches: the first of that
/// name.
pub open spec fn setter_named(setters: Seq<SetterModel>, name: Seq<char>) -> Option<int> {
    first_index(setters.len(), is_named(setters, name))
}

/// The slots after a call of the setter `name` with `value`. The value is
/// present in the setter's slot, whatever the slot held before; a name that
/// no setter bears changes nothing.
pub open spec fn after_set<V>(
    setters: Seq<SetterModel>,
    slots: Seq<Option<V>>,
    name: Seq<char>,
    value: V,
) -> Seq<Option<V>> {
    match setter_named(setters, name) {
        Some(i) => stored(slots, setters[i].slot, value),
        None => slots,
    }
}

/// A builder at run time: the generated procedures and one slot for each
/// field.
pub struct Builder<'a, V> {
    expansion: &'a Expansion,
    slots: Vec<Option<V>>,
}

fn construct<V>(
    record: &String,
    assignments: &Vec<FieldAssignment>,
    slots: &mut Vec<Option<V>>,
) -> (result: Result<Instance<V>, BuildError>)
    ensures
        ({
            let outcome = construct_from(
                record@,
                assignments@.map_values(|assignment: FieldAssignment| assignment@),
                0,
                old(slots)@,
                Seq::empty(),
            );
            &&& final(slots)@ == outcome.slots
            &&& match result {
                Ok(instance) => outcome.result == Ok::<InstanceModel<V>, Seq<char>>(instance@),
                Err(error) => outcome.result == Err::<InstanceModel<V>, Seq<char>>(
                    error.message@,
                ),
            }
        }),
{
    let ghost model = assignments@.map_values(|assignment: FieldAssignment| assignment@);
    let ghost start = slots@;
    let mut values: Vec<FieldValue<V>> = Vec::new();
    let mut i: usize = 0;
    while i < assignments.len()
        invariant
            i <= assignments.len(),
            start == old(slots)@,
            model == assignments@.map_values(|assignment: FieldAssignment| assignment@),
            construct_from(record@, model, i as int, slots@, values@) == construct_from(
                record@,
                model,
                0,
                start,
                Seq::empty(),
            ),
        decreases assignments.len() - i,
    {
        let assignment = &assignments[i];
        let ghost head = slots@;
        let ghost done = values@;
        assert(model[i as int] == assignment@);
        let taken = if assignment.slot < slots.len() {
            slots[assignment.slot].take()
        } else {
            None
        };
        match assignment.extraction {
            Extraction::PassThrough => {
                values.push(FieldValue::Optional(taken));
            },
            Extraction::Unwrap => match taken {
                Some(value) => {
                    values.push(FieldValue::Required(value));
                },
                None => {
                    assert(construct_from(record@, model, i as int, head, done) == Outcome {
                        result: Err(not_set_message(assignment.field@)),
                        slots: slots@,
                    });
                    return Err(BuildError { message: not_set(&assignment.field) });
                },
            },
        }
        assert(construct_from(record@, model, i as int, head, done) == construct_from(
            record@,
            model,
            i + 1,
            slots@,
            values@,
        ));
        i += 1;
    }
    Ok(Instance { record_name: record.clone(), values })
}

fn evaluate<V>(expr: &BuildExpr, slots: &mut Vec<Option<V>>) -> (result: Result<
    Instance<V>,
    BuildError,
>)
    ensures
        ({
            let outcome = run_build(expr@, old(slots)@);
            &&& final(slots)@ == outcome.slots
            &&& match result {
                Ok(instance) => outcome.result == Ok::<InstanceModel<V>, Seq<char>>(instance@),
                Err(error) => outcome.result == Err::<InstanceModel<V>, Seq<char>>(
                    error.message@,
                ),
            }
        }),
    decreases expr,
{
    match expr {
        BuildExpr::Construct { record, assignments } => construct(record, assignments, slots),
        BuildExpr::IfPresent { field, slot, message, then_branch } => {
            if *slot < slots.len() && slots[*slot].is_some() {
                evaluate(&**then_branch, slots)
            } else {
                Err(BuildError { message: message.clone() })
            }
        },
    }
}

impl Expansion {
    /// A new builder: every field absent.
    pub fn builder<V>(&self) -> (builder: Builder<'_, V>)
        ensures
            builder.expansion() == *self,
            builder.slots() == empty_slots::<V>(self@.builder.builder_fields.len()),
    {
        let mut slots: Vec<Option<V>> = Vec::new();
        let mut i: usize = 0;
        while i < self.builder.builder_fields.len()
            invariant
                i <= self.builder.builder_fields.len(),
                slots.len() == i,
                forall|j: int| 0 <= j < i ==> slots[j] is None,
            decreases self.builder.builder_fields.len() - i,
        {
            slots.push(None);
            i += 1;
        }
        assert(slots@ =~= empty_slots::<V>(self.builder.builder_fields.len() as nat));
        Builder { expansion: self, slots }
    }
}

impl<'a, V> Builder<'a, V> {
    /// The expansion whose procedures this builder runs.
    pub closed spec fn expansion(&self) -> Expansion {
        *self.expansion
    }

    /// What the slots hold, in declaration order of the fields.
    pub closed spec fn slots(&self) -> Seq<Option<V>> {
        self.slots@
    }

    /// Calls the setter `field` with `value`, and hands the builder back
    /// for the next call.
    pub fn set(&mut self, field: &str, value: V) -> (chained: &mut Self)
        ensures
            chained.expansion() == old(self).expansion(),
            chained.slots() == after_set(
                old(self).expansion().procedures@.setters,
                old(self).slots(),
                field@,
                value,
            ),
            *final(self) == *final(chained),
    {
        let expansion = self.expansion;
        let setters = &expansion.procedures.setters;
        let ghost model = expansion.procedures@.setters;
        let wanted = field.to_owned();
        let mut i: usize = 0;
        while i < setters.len()
            invariant
                i <= setters.len(),
                wanted@ == field@,
                *self == *old(self),
                model == setters@.map_values(|setter: Setter| setter@),
                model == self.expansion.procedures@.setters,
                forall|j: int| 0 <= j < i ==> !#[trigger] is_named(model, field@)(j),
            decreases setters.len() - i,
        {
            assert(model[i as int] == setters[i as int]@);
            if setters[i].name == wanted {
                proof {
                    lemma_first_index_is(model.len(), is_named(model, field@), i as int);
                }
                let slot = setters[i].slot;
                if slot < self.slots.len() {
                    self.slots[slot] = Some(value);
                }
                return self;
            }
            i += 1;
        }
        proof {
            lemma_first_index_none(model.len(), is_named(model, field@));
        }
        self
    }

    /// Runs the build operation.
    ///
    /// Returns the record where the operation succeeds, and the message of
    /// the failure where it does not. The slots are left as the operation
    /// leaves them.
    ///
    /// On the builder that was generated for a record this means: where a
    /// mandatory field was not set, the build fails, names the first such
    /// field in declaration order and changes nothing; otherwise it yields
    /// the record of the values that were set and leaves every slot empty.
    pub fn build(&mut self) -> (result: Result<Instance<V>, BuildError>)
        ensures
            final(self).expansion() == old(self).expansion(),
            ({
                let outcome = run_build(
                    old(self).expansion().procedures.build@,
                    old(self).slots(),
                );
                &&& final(self).slots() == outcome.slots
                &&& match result {
                    Ok(instance) => outcome.result == Ok::<InstanceModel<V>, Seq<char>>(
                        instance@,
                    ),
                    Err(error) => outcome.result == Err::<InstanceModel<V>, Seq<char>>(
                        error.message@,
                    ),
                }
                &&& forall|record: RecordModel|
                    #![trigger expanded(record)]
                    old(self).expansion()@ == expanded(record) && old(self).slots().len()
                        == record.fields.len() ==> outcome == built(record, old(self).slots())
            }),
    {
        let expansion = self.expansion;
        proof {
            let slots = self.slots@;
            assert forall|record: RecordModel|
                #![trigger expanded(record)]
                expansion@ == expanded(record) && slots.len()
                    == record.fields.len() implies run_build(expansion.procedures.build@, slots)
                == built(record, slots) by {
                theorem_build(record, slots);
            }
        }
        evaluate(&expansion.procedures.build, &mut self.slots)
    }
}

} // verus!
