//! The free-running timer: a cycle counter that accumulates every CPU
//! step's cost and never decreases.

use vstd::prelude::*;

verus! {

/// Free-running cycle counter.
pub struct Timer {
    pub cycles: u64,
}

impl Timer {
    /// A timer at zero.
    pub fn create() -> (r: Timer)
        ensures
            r.cycles == 0,
    {
        Timer { cycles: 0 }
    }

    /// Add one instruction's cycle cost to the counter.
    pub fn step(&mut self, cycles: u64)
        requires
            old(self).cycles + cycles <= u64::MAX,
        ensures
            final(self).cycles == old(self).cycles + cycles,
    {
        self.cycles = self.cycles + cycles;
    }
}

} // verus!
