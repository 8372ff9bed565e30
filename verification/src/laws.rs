//! What holds of every generated builder.
//!
//! The build operation that is emitted for a record is evaluated here on
//! arbitrary slots, and its outcome stated outright: it fails on the first
//! mandatory field whose slot is empty and then changes nothing, and it
//! succeeds otherwise, with every value taken out of its slot. The laws of
//! the builder follow from that.

use crate::emit::{
    assignment_of, checks_from, construction_of, emitted_build, emitted_setters, not_set_message,
    SetterModel,
};
use crate::record::RecordModel;
use crate::runtime::{
    after_set, construct_from, empty_slots, emptied, is_named, run_build, setter_named, slot_value,
    FieldValue, InstanceModel, Outcome,
};
use crate::search::{
    first_index, first_index_from, lemma_first_index_from, lemma_first_index_is,
    lemma_first_index_none,
};
use vstd::prelude::*;

verus! {

/// The condition "the field at this index is mandatory".
pub open spec fn is_mandatory(record: RecordModel) -> spec_fn(int) -> bool {
    |i: int| !record.fields[i].is_optional
}

/// The condition "the field at this index is mandatory and its slot is
/// empty".
pub open spec fn is_missing<V>(record: RecordModel, slots: Seq<Option<V>>) -> spec_fn(int) -> bool {
    |i: int| !record.fields[i].is_optional && slots[i] is None
}

/// The value that the field at `i` gets from its slot: the slot's content
/// for an optional field, the value in the slot for a mandatory one.
pub open spec fn field_value<V>(record: RecordModel, slots: Seq<Option<V>>, i: int) -> FieldValue<
    V,
> {
    if record.fields[i].is_optional {
        FieldValue::Optional(slots[i])
    } else {
        FieldValue::Required(slots[i]->0)
    }
}

/// The record whose fields have the values in the slots.
pub open spec fn record_of<V>(record: RecordModel, slots: Seq<Option<V>>) -> InstanceModel<V> {
    InstanceModel {
        record_name: record.name,
        values: Seq::new(record.fields.len(), |i: int| field_value(record, slots, i)),
    }
}

/// What a build does on the given slots.
///
/// Where a mandatory field has an empty slot, the build fails, names the
/// first such field in declaration order, and leaves the slots as they are.
/// Otherwise it yields the record of the values in the slots and leaves
/// every slot empty.
pub open spec fn built<V>(record: RecordModel, slots: Seq<Option<V>>) -> Outcome<V> {
    match first_index(record.fields.len(), is_missing(record, slots)) {
        Some(k) => Outcome { result: Err(not_set_message(record.fields[k].name)), slots },
        None => Outcome {
            result: Ok(record_of(record, slots)),
            slots: empty_slots(record.fields.len()),
        },
    }
}

/// The slots after a chain of setter calls, each given by the setter's name
/// and the value.
pub open spec fn after_calls<V>(
    setters: Seq<SetterModel>,
    slots: Seq<Option<V>>,
    calls: Seq<(Seq<char>, V)>,
) -> Seq<Option<V>>
    decreases calls.len(),
{
    if calls.len() == 0 {
        slots
    } else {
        after_set(
            setters,
            after_calls(setters, slots, calls.drop_last()),
            calls.last().0,
            calls.last().1,
        )
    }
}

/// Whether a call of the setter `name` stores its value in `slot`.
pub open spec fn reaches(setters: Seq<SetterModel>, name: Seq<char>, slot: int) -> bool {
    match setter_named(setters, name) {
        Some(i) => setters[i].slot == slot,
        None => false,
    }
}

/// The value of the last call in the chain that stores into `slot`, if
/// there is such a call.
pub open spec fn last_set<V>(
    setters: Seq<SetterModel>,
    calls: Seq<(Seq<char>, V)>,
    slot: int,
) -> Option<V>
    decreases calls.len(),
{
    if calls.len() == 0 {
        None
    } else if reaches(setters, calls.last().0, slot) {
        Some(calls.last().1)
    } else {
        last_set(setters, calls.drop_last(), slot)
    }
}

/// The slots in which everything before `from` has been taken.
spec fn taken_before<V>(slots: Seq<Option<V>>, from: int) -> Seq<Option<V>> {
    Seq::new(
        slots.len(),
        |i: int|
            if i < from {
                None
            } else {
                slots[i]
            },
    )
}

/// The values of the fields before `from`.
spec fn values_before<V>(record: RecordModel, slots: Seq<Option<V>>, from: int) -> Seq<
    FieldValue<V>,
> {
    Seq::new(from as nat, |i: int| field_value(record, slots, i))
}

/// The presence checks from `from` on fail on the first missing field at or
/// after `from`, and hand on to the construction where there is none.
proof fn lemma_checks<V>(record: RecordModel, slots: Seq<Option<V>>, from: int)
    requires
        slots.len() == record.fields.len(),
        0 <= from <= record.fields.len(),
    ensures
        run_build(checks_from(record, from), slots) == match first_index_from(
            record.fields.len(),
            is_missing(record, slots),
            from,
        ) {
            Some(k) => Outcome { result: Err(not_set_message(record.fields[k].name)), slots },
            None => run_build(construction_of(record), slots),
        },
    decreases record.fields.len() - from,
{
    if from < record.fields.len() {
        lemma_checks(record, slots, from + 1);
    }
}

/// Where no mandatory field is missing, the construction takes every value
/// in turn and ends with the whole record and empty slots.
proof fn lemma_construction<V>(record: RecordModel, slots: Seq<Option<V>>, from: int)
    requires
        slots.len() == record.fields.len(),
        0 <= from <= record.fields.len(),
        forall|i: int| 0 <= i < record.fields.len() ==> !#[trigger] is_missing(record, slots)(i),
    ensures
        construct_from(
            record.name,
            construction_of(record)->Construct_assignments,
            from,
            taken_before(slots, from),
            values_before(record, slots, from),
        ) == (Outcome {
            result: Ok(record_of(record, slots)),
            slots: empty_slots(record.fields.len()),
        }),
    decreases record.fields.len() - from,
{
    let n = record.fields.len();
    let assignments = construction_of(record)->Construct_assignments;
    if from < n {
        assert(assignments[from] == assignment_of(record, from));
        assert(!is_missing(record, slots)(from));
        let here = taken_before(slots, from);
        assert(slot_value(here, from as nat) == slots[from]);
        assert(emptied(here, from as nat) =~= taken_before(slots, from + 1));
        assert(values_before(record, slots, from).push(field_value(record, slots, from))
            =~= values_before(record, slots, from + 1));
        lemma_construction(record, slots, from + 1);
    } else {
        assert(taken_before(slots, from) =~= empty_slots::<V>(n));
        assert(values_before(record, slots, from) =~= record_of(record, slots).values);
    }
}

/// The outcome of the emitted build operation, on any slots of the builder.
pub proof fn theorem_build<V>(record: RecordModel, slots: Seq<Option<V>>)
    requires
        slots.len() == record.fields.len(),
    ensures
        run_build(emitted_build(record), slots) == built(record, slots),
{
    let n = record.fields.len();
    lemma_checks(record, slots, 0);
    lemma_first_index_from(n, is_missing(record, slots), 0);
    if first_index(n, is_missing(record, slots)) is None {
        lemma_construction(record, slots, 0);
        assert(taken_before(slots, 0) =~= slots);
        assert(values_before(record, slots, 0) =~= Seq::<FieldValue<V>>::empty());
    }
}

/// A record without mandatory fields is built at once: the build of a new
/// builder succeeds, and every field of the record is absent.
pub proof fn law_build_without_mandatory_fields<V>(record: RecordModel)
    requires
        record.all_optional(),
    ensures
        run_build::<V>(emitted_build(record), empty_slots(record.fields.len())) == (Outcome {
            result: Ok(
                InstanceModel {
                    record_name: record.name,
                    values: Seq::new(
                        record.fields.len(),
                        |i: int| FieldValue::Optional(None::<V>),
                    ),
                },
            ),
            slots: empty_slots(record.fields.len()),
        }),
{
    let n = record.fields.len();
    let slots = empty_slots::<V>(n);
    theorem_build(record, slots);
    lemma_first_index_none(n, is_missing(record, slots));
    assert(record_of(record, slots).values =~= Seq::new(
        n,
        |i: int| FieldValue::Optional(None::<V>),
    ));
}

/// A record with a mandatory field is not built from nothing: the build of
/// a new builder fails, names the first mandatory field in declaration
/// order, and leaves the builder as it was.
pub proof fn law_build_reports_first_mandatory_field<V>(record: RecordModel)
    requires
        !record.all_optional(),
    ensures
        first_index(record.fields.len(), is_mandatory(record)) is Some,
        run_build::<V>(emitted_build(record), empty_slots(record.fields.len())) == (Outcome {
            result: Err(
                not_set_message(
                    record.fields[first_index(
                        record.fields.len(),
                        is_mandatory(record),
                    )->0].name,
                ),
            ),
            slots: empty_slots::<V>(record.fields.len()),
        }),
{
    let n = record.fields.len();
    let slots = empty_slots::<V>(n);
    theorem_build(record, slots);
    lemma_first_index_from(n, is_mandatory(record), 0);
    let witness = choose|i: int| 0 <= i < n && !#[trigger] record.fields[i].is_optional;
    assert(is_mandatory(record)(witness));
    let k = first_index(n, is_mandatory(record))->0;
    assert(is_missing(record, slots)(k));
    assert forall|j: int| 0 <= j < k implies !#[trigger] is_missing(record, slots)(j) by {
        assert(!is_mandatory(record)(j));
    }
    lemma_first_index_is(n, is_missing(record, slots), k);
}

/// Setter calls keep the number of slots. After a chain of calls a slot
/// holds the value of the last call that stored into it, and what it held
/// before the chain where there was no such call.
pub proof fn lemma_after_calls<V>(
    setters: Seq<SetterModel>,
    slots: Seq<Option<V>>,
    calls: Seq<(Seq<char>, V)>,
)
    ensures
        after_calls(setters, slots, calls).len() == slots.len(),
        forall|slot: int|
            0 <= slot < slots.len() ==> #[trigger] after_calls(setters, slots, calls)[slot] == (
            match last_set(setters, calls, slot) {
                Some(value) => Some(value),
                None => slots[slot],
            }),
    decreases calls.len(),
{
    if calls.len() > 0 {
        lemma_after_calls(setters, slots, calls.drop_last());
    }
}

/// A slot that some call of the chain stores into has a last such call.
proof fn lemma_last_set_exists<V>(
    setters: Seq<SetterModel>,
    calls: Seq<(Seq<char>, V)>,
    slot: int,
    c: int,
)
    requires
        0 <= c < calls.len(),
        reaches(setters, calls[c].0, slot),
    ensures
        last_set(setters, calls, slot) is Some,
    decreases calls.len(),
{
    if c < calls.len() - 1 {
        assert(calls.drop_last()[c] == calls[c]);
        lemma_last_set_exists(setters, calls.drop_last(), slot, c);
    }
}

/// Once every mandatory field has been set, by setter calls chained in any
/// order and any number, the build succeeds. A mandatory field of the
/// record has the value of the last call of its setter, an optional field
/// has that value where its setter was called and is absent where it was
/// not, and the builder is left empty.
pub proof fn law_build_after_setting_mandatory_fields<V>(
    record: RecordModel,
    calls: Seq<(Seq<char>, V)>,
)
    requires
        forall|i: int| #[trigger]
            record.is_mandatory(i) ==> exists|c: int|
                0 <= c < calls.len() && reaches(
                    emitted_setters(record),
                    (#[trigger] calls[c]).0,
                    i,
                ),
    ensures
        run_build(
            emitted_build(record),
            after_calls(emitted_setters(record), empty_slots(record.fields.len()), calls),
        ) == (Outcome {
            result: Ok(
                InstanceModel {
                    record_name: record.name,
                    values: Seq::new(
                        record.fields.len(),
                        |i: int|
                            if record.fields[i].is_optional {
                                FieldValue::Optional(last_set(emitted_setters(record), calls, i))
                            } else {
                                FieldValue::Required(
                                    last_set(emitted_setters(record), calls, i)->0,
                                )
                            },
                    ),
                },
            ),
            slots: empty_slots(record.fields.len()),
        }),
{
    let n = record.fields.len();
    let setters = emitted_setters(record);
    let slots = after_calls(setters, empty_slots::<V>(n), calls);
    lemma_after_calls(setters, empty_slots::<V>(n), calls);
    theorem_build(record, slots);
    assert forall|i: int| 0 <= i < n implies !#[trigger] is_missing(record, slots)(i) by {
        if !record.fields[i].is_optional {
            assert(record.is_mandatory(i));
            let c = choose|c: int|
                0 <= c < calls.len() && reaches(setters, (#[trigger] calls[c]).0, i);
            lemma_last_set_exists(setters, calls, i, c);
            assert(slots[i] is Some);
        }
    }
    lemma_first_index_none(n, is_missing(record, slots));
    assert(record_of(record, slots).values =~= Seq::new(
        n,
        |i: int|
            if record.fields[i].is_optional {
                FieldValue::Optional(last_set(setters, calls, i))
            } else {
                FieldValue::Required(last_set(setters, calls, i)->0)
            },
    ));
}

/// The last value wins: a second call of a setter overwrites what the
/// first call stored, so the builder is as if only the second call had
/// been made, and a record that is built from it holds the second value.
pub proof fn law_last_value_wins<V>(
    record: RecordModel,
    slots: Seq<Option<V>>,
    name: Seq<char>,
    first: V,
    second: V,
)
    requires
        slots.len() == record.fields.len(),
    ensures
        ({
            let setters = emitted_setters(record);
            let twice = after_set(setters, after_set(setters, slots, name, first), name, second);
            &&& twice == after_set(setters, slots, name, second)
            &&& setter_named(setters, name) matches Some(k) ==> {
                &&& twice[k] == Some(second)
                &&& run_build(emitted_build(record), twice).result matches Ok(instance)
                    ==> instance.values[k] == if record.fields[k].is_optional {
                    FieldValue::Optional(Some(second))
                } else {
                    FieldValue::Required(second)
                }
            }
        }),
{
    let n = record.fields.len();
    let setters = emitted_setters(record);
    let once = after_set(setters, slots, name, first);
    let twice = after_set(setters, once, name, second);
    lemma_first_index_from(setters.len(), is_named(setters, name), 0);
    assert(twice =~= after_set(setters, slots, name, second));
    theorem_build(record, twice);
    lemma_first_index_from(n, is_missing(record, twice), 0);
}

/// Building consumes what was set: after a build that succeeded every slot
/// is empty, so a second build, with no setter called in between, is the
/// build of a new builder. Where the record has a mandatory field, it
/// fails and names the first of them.
pub proof fn law_second_build_fails<V>(record: RecordModel, slots: Seq<Option<V>>)
    requires
        slots.len() == record.fields.len(),
        run_build(emitted_build(record), slots).result is Ok,
        !record.all_optional(),
    ensures
        ({
            let first = run_build(emitted_build(record), slots);
            let second = run_build(emitted_build(record), first.slots);
            &&& first.slots == empty_slots::<V>(record.fields.len())
            &&& first_index(record.fields.len(), is_mandatory(record)) matches Some(k)
            &&& second == (Outcome {
                result: Err(not_set_message(record.fields[k].name)),
                slots: empty_slots::<V>(record.fields.len()),
            })
        }),
{
    theorem_build(record, slots);
    law_build_reports_first_mandatory_field::<V>(record);
}

} // verus!
