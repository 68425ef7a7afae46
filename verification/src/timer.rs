//! Hardware timers.

use vstd::prelude::*;

use crate::rcu::Clocks;
use crate::time::Hertz;

verus! {

/// A hardware timer, owning its peripheral together with the frozen clocks
/// and the configured timeout.
pub struct Timer<TIM> {
    /// The owned timer peripheral.
    pub tim: TIM,
    /// The frozen clock frequencies.
    pub clk: Clocks,
    /// The configured timeout frequency.
    pub timeout: Hertz,
}

impl<TIM> Timer<TIM> {
    /// Releases the timer peripheral.
    pub fn free(self) -> (r: TIM) {
        self.tim
    }
}

/// Timer interrupt events.
pub enum Event {
    /// The countdown ended.
    TimeOut,
}

} // verus!
