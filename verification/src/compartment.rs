//! Scoped compartment entry and exit.
//!
//! Entering a compartment yields a guard that remembers the compartment the
//! context was inside before — possibly none. Releasing the guard restores
//! that previous compartment unconditionally; correct usage releases guards
//! in reverse creation order on every exit path of the scope that created
//! them, normal or early.

use vstd::prelude::*;

use crate::context::Context;

verus! {

/// A scoped token for "the current compartment is the one just entered".
#[derive(Clone, Copy, Debug, PartialEq, Eq, Structural)]
pub struct JSAutoCompartment {
    /// The compartment the context was inside when this guard was created.
    pub previous: Option<u64>,
}

/// The current compartment and the guard produced by entering `target` from
/// a context currently inside `current`.
pub open spec fn spec_enter(current: Option<u64>, target: u64) -> (Option<u64>, JSAutoCompartment) {
    (Some(target), JSAutoCompartment { previous: current })
}

/// The current compartment after releasing `guard`.
pub open spec fn spec_leave(guard: JSAutoCompartment) -> Option<u64> {
    guard.previous
}

impl JSAutoCompartment {
    /// Enters compartment `target` and returns the guard that will restore
    /// the caller's previous compartment.
    pub fn enter(cx: &mut Context, target: u64) -> (guard: JSAutoCompartment)
        requires
            old(cx).wf(),
        ensures
            final(cx).wf(),
            (final(cx).compartment, guard) == spec_enter(old(cx).compartment, target),
            final(cx).slots@ == old(cx).slots@,
            final(cx).thread_roots@ == old(cx).thread_roots@,
            final(cx).zone_roots@ == old(cx).zone_roots@,
            final(cx).has_zone == old(cx).has_zone,
            final(cx).barrier_log@ == old(cx).barrier_log@,
    {
        let guard = JSAutoCompartment { previous: cx.compartment };
        cx.compartment = Some(target);
        guard
    }

    /// Releases the guard: leaves the compartment entered when the guard was
    /// created and restores the previous one. Scoped usage runs this on every
    /// exit path, including early returns and unwinds.
    pub fn leave(self, cx: &mut Context)
        requires
            old(cx).wf(),
        ensures
            final(cx).wf(),
            final(cx).compartment == spec_leave(self),
            final(cx).slots@ == old(cx).slots@,
            final(cx).thread_roots@ == old(cx).thread_roots@,
            final(cx).zone_roots@ == old(cx).zone_roots@,
            final(cx).has_zone == old(cx).has_zone,
            final(cx).barrier_log@ == old(cx).barrier_log@,
    {
        cx.compartment = self.previous;
    }
}

/// Entering compartment X, then Y, and releasing both guards in reverse
/// creation order restores the compartment that was current before the first
/// entry, whatever it was — including none. Release depends only on the
/// guard, so the restoration holds on early-exit paths as well.
pub proof fn lemma_nested_entry_restores(initial: Option<u64>, x: u64, y: u64)
    ensures
        ({
            let (after_x, guard_x) = spec_enter(initial, x);
            let (after_y, guard_y) = spec_enter(after_x, y);
            let after_leave_y = spec_leave(guard_y);
            let after_leave_x = spec_leave(guard_x);
            after_leave_y == after_x && after_leave_x == initial
        }),
{
}

} // verus!
