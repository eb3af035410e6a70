//! Revision counters that tell a current request from an outdated one.

use vstd::prelude::*;

verus! {

/// The revision that follows `current`: one more, wrapping around, and never zero.
pub open spec fn revision_after(current: u64) -> u64 {
    if current == u64::MAX {
        1
    } else {
        (current + 1) as u64
    }
}

/// Returns the revision that follows `current`. Zero is never handed out, so it
/// can stand for "nothing issued yet".
pub fn next_revision(current: u64) -> (next: u64)
    ensures
        next == revision_after(current),
{
    let bumped: u64 = current.wrapping_add(1);
    if bumped == 0 {
        1
    } else {
        bumped
    }
}

/// The counter of the `steps`-th request after `current`.
pub open spec fn revision_after_steps(current: u64, steps: nat) -> u64
    decreases steps,
{
    if steps == 0 {
        current
    } else {
        revision_after(revision_after_steps(current, (steps - 1) as nat))
    }
}

/// A new revision is never zero and never equals the one that it replaces.
pub proof fn revision_is_fresh(current: u64)
    ensures
        revision_after(current) != 0,
        revision_after(current) != current,
{
}

/// A request keeps its own revision: fewer than `u64::MAX` later requests never
/// bring the same number back.
pub proof fn revision_does_not_return(current: u64, steps: nat)
    requires
        current != 0,
        0 < steps < u64::MAX,
    ensures
        revision_after_steps(current, steps) != current,
{
    revision_steps_closed_form(current, steps);
}

proof fn revision_steps_closed_form(current: u64, steps: nat)
    requires
        current != 0,
        steps < u64::MAX,
    ensures
        revision_after_steps(current, steps) == (if current + steps <= u64::MAX {
            current + steps
        } else {
            current + steps - u64::MAX
        }),
    decreases steps,
{
    if steps > 0 {
        revision_steps_closed_form(current, (steps - 1) as nat);
    }
}

} // verus!
