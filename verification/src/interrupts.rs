//! Interrupt state: only the master-enable flag (IME) is tracked at this
//! level.

use vstd::prelude::*;

verus! {

/// The interrupt master-enable flag.
pub struct Interrupts {
    pub enabled: bool,
}

impl Interrupts {
    /// IME starts enabled.
    pub fn create() -> (r: Interrupts)
        ensures
            r.enabled,
    {
        Interrupts { enabled: true }
    }

    /// Set or clear IME.
    pub fn toggle(&mut self, en: bool)
        ensures
            final(self).enabled == en,
    {
        self.enabled = en;
    }
}

} // verus!
