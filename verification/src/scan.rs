//! The first position at which something holds.

use vstd::prelude::*;

verus! {

/// The least `i` with `from <= i < end` at which `holds`, if there is one.
pub open spec fn first_from(holds: spec_fn(int) -> bool, from: int, end: int) -> Option<int>
    decreases end - from,
{
    if from >= end {
        None
    } else if holds(from) {
        Some(from)
    } else {
        first_from(holds, from + 1, end)
    }
}

/// `first_from` finds a position at which `holds`, passes over none before
/// it, and finds none only where there is none.
pub proof fn lemma_first_from(holds: spec_fn(int) -> bool, from: int, end: int)
    ensures
        match first_from(holds, from, end) {
            Some(i) => from <= i < end && holds(i) && forall|j: int|
                from <= j < i ==> !#[trigger] holds(j),
            None => forall|j: int| from <= j < end ==> !#[trigger] holds(j),
        },
    decreases end - from,
{
    if from < end && !holds(from) {
        lemma_first_from(holds, from + 1, end);
    }
}

/// What `first_from` finds depends only on where `holds` between `from` and
/// `end`.
pub proof fn lemma_first_from_agrees(
    holds: spec_fn(int) -> bool,
    other: spec_fn(int) -> bool,
    from: int,
    end: int,
)
    requires
        forall|j: int| from <= j < end ==> #[trigger] holds(j) == other(j),
    ensures
        first_from(holds, from, end) == first_from(other, from, end),
    decreases end - from,
{
    if from < end {
        assert(holds(from) == other(from));
        lemma_first_from_agrees(holds, other, from + 1, end);
    }
}

} // verus!
