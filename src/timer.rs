//! Counters of the hardware timer.

use vstd::prelude::*;

verus! {

/// The free-running divider and timer counters.
pub struct Timer {
    pub div_clocksum: usize,
    pub timer_clocksum: usize,
    pub div_reg: u8,
    pub tac_reg: u8,
}

impl Timer {
    /// A timer with every counter zero.
    pub fn new() -> (r: Self)
        ensures
            r.div_clocksum == 0,
            r.timer_clocksum == 0,
            r.div_reg == 0,
            r.tac_reg == 0,
    {
        Self { div_clocksum: 0, timer_clocksum: 0, div_reg: 0, tac_reg: 0 }
    }
}

} // verus!
