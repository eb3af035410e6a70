//! Finding the first of several.

use vstd::prelude::*;

verus! {

/// The first position from `start` on at which `wanted` holds.
pub open spec fn first_position<A>(items: Seq<A>, start: int, wanted: spec_fn(A) -> bool) -> Option<
    int,
>
    decreases items.len() - start,
{
    if start < 0 || start >= items.len() {
        None
    } else if wanted(items[start]) {
        Some(start)
    } else {
        first_position(items, start + 1, wanted)
    }
}

/// A first position is the first: the item there is wanted, and none before it.
pub proof fn first_position_is_first<A>(items: Seq<A>, start: int, wanted: spec_fn(A) -> bool)
    requires
        0 <= start,
    ensures
        match first_position(items, start, wanted) {
            Some(found) => {
                &&& start <= found < items.len()
                &&& wanted(items[found])
                &&& forall|i: int| start <= i < found ==> !wanted(#[trigger] items[i])
            },
            None => forall|i: int| start <= i < items.len() ==> !wanted(#[trigger] items[i]),
        },
    decreases items.len() - start,
{
    if start < items.len() && !wanted(items[start]) {
        first_position_is_first(items, start + 1, wanted);
    }
}

} // verus!
