//! The edge-triggered alert state machine.
//!
//! One instance exists per alert condition, owned by the producer whose
//! poll evaluates the condition. The alert side effect fires exactly once
//! per continuous bad period: on the edge into the bad state, never again
//! until the condition has first been seen false.

use vstd::prelude::*;

verus! {

/// Whether the alert has already fired for the current bad period.
/// `warned == false` is the `Unwarned` state, `warned == true` is `Warned`.
pub struct AlertState {
    pub warned: bool,
}

/// The state after polling the conditions `conds` in order, starting
/// from `init`: each `step` leaves `warned` equal to the condition it
/// saw, so only the last condition remains.
pub open spec fn run_warned(init: bool, conds: Seq<bool>) -> bool {
    if conds.len() == 0 {
        init
    } else {
        conds.last()
    }
}

/// Whether poll `i` of a run started in the `Unwarned` state fires the
/// alert, as `step`'s contract has it: a true condition seen while still
/// unwarned.
pub open spec fn fires_at(conds: Seq<bool>, i: int) -> bool {
    conds[i] && !run_warned(false, conds.take(i))
}

/// The alert fires exactly once per continuous bad period: on a true
/// condition at the start of the run or right after a false one, and at
/// no other poll — re-arming takes a false condition, not mere time.
pub proof fn lemma_fires_once_per_period(conds: Seq<bool>, i: int)
    requires
        0 <= i < conds.len(),
    ensures
        fires_at(conds, i) == (conds[i] && (i == 0 || !conds[i - 1])),
{
    if i > 0 {
        assert(conds.take(i).last() == conds[i - 1]);
    }
}

impl AlertState {
    /// A fresh alert, in the `Unwarned` state.
    pub fn new() -> (s: AlertState)
        ensures
            !s.warned,
    {
        AlertState { warned: false }
    }

    /// One poll's worth of the transition table. Returns whether the alert
    /// side effect is to be dispatched now:
    /// - `Unwarned` and the condition true: fire, move to `Warned`;
    /// - `Unwarned` and the condition false: stay, no effect;
    /// - `Warned` and the condition true: stay, no effect (suppress repeats);
    /// - `Warned` and the condition false: re-arm to `Unwarned`, no effect.
    pub fn step(&mut self, condition: bool) -> (fire: bool)
        ensures
            fire == (condition && !old(self).warned),
            final(self).warned == condition,
    {
        if condition {
            if !self.warned {
                self.warned = true;
                true
            } else {
                false
            }
        } else {
            self.warned = false;
            false
        }
    }
}

} // verus!
