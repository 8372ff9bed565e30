//! The first position at which a condition holds.

use vstd::prelude::*;

verus! {

/// The least index in `from..len` at which `holds` is true, if there is one.
pub open spec fn first_index_from(len: nat, holds: spec_fn(int) -> bool, from: int) -> Option<int>
    decreases len - from,
{
    if from >= len {
        None
    } else if holds(from) {
        Some(from)
    } else {
        first_index_from(len, holds, from + 1)
    }
}

/// The least index below `len` at which `holds` is true, if there is one.
pub open spec fn first_index(len: nat, holds: spec_fn(int) -> bool) -> Option<int> {
    first_index_from(len, holds, 0)
}

/// What `first_index_from` finds is the least index at which the condition
/// holds; it finds nothing only where the condition holds nowhere.
pub proof fn lemma_first_index_from(len: nat, holds: spec_fn(int) -> bool, from: int)
    requires
        0 <= from,
    ensures
        match first_index_from(len, holds, from) {
            Some(k) => from <= k < len && holds(k) && forall|j: int|
                from <= j < k ==> !#[trigger] holds(j),
            None => forall|j: int| from <= j < len ==> !#[trigger] holds(j),
        },
    decreases len - from,
{
    if from < len && !holds(from) {
        lemma_first_index_from(len, holds, from + 1);
    }
}

/// An index at which the condition holds, with none before it, is the one
/// that `first_index` finds.
pub proof fn lemma_first_index_is(len: nat, holds: spec_fn(int) -> bool, k: int)
    requires
        0 <= k < len,
        holds(k),
        forall|j: int| 0 <= j < k ==> !#[trigger] holds(j),
    ensures
        first_index(len, holds) == Some(k),
{
    lemma_first_index_from(len, holds, 0);
}

/// Where the condition holds nowhere, `first_index` finds nothing.
pub proof fn lemma_first_index_none(len: nat, holds: spec_fn(int) -> bool)
    requires
        forall|j: int| 0 <= j < len ==> !#[trigger] holds(j),
    ensures
        first_index(len, holds) is None,
{
    lemma_first_index_from(len, holds, 0);
}

} // verus!
