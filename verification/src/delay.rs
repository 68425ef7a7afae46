//! Delay providers.

use vstd::prelude::*;

use crate::rcu::Clocks;

verus! {

/// Machine-mode cycle counter (`mcycle`) as a delay provider.
///
/// The model computes how many core cycles a wait spans; the actual spinning
/// on the cycle counter is the bridge's business.
#[derive(Clone, Copy, Debug, PartialEq, Eq, Structural)]
pub struct McycleDelay {
    core_frequency: u32,
}

impl McycleDelay {
    /// The core frequency the provider was built with, in spec form.
    pub closed spec fn spec_core_frequency(self) -> u32 {
        self.core_frequency
    }

    /// Constructs the delay provider from the frozen core frequency.
    pub fn new(clocks: &Clocks) -> (r: McycleDelay)
        ensures
            r.spec_core_frequency() == clocks.spec_sysclk(),
    {
        McycleDelay { core_frequency: clocks.sysclk().0 }
    }

    /// How many core clock cycles a wait of `ns` nanoseconds spans.
    pub fn cycles_for_ns(&self, ns: u32) -> (r: u64)
        ensures
            r == (ns * self.spec_core_frequency()) / 1_000_000_000,
    {
        proof {
            assert((ns as int) * (self.core_frequency as int) <= (u32::MAX as int) * (
            u32::MAX as int)) by (nonlinear_arith)
                requires
                    ns <= u32::MAX,
                    self.core_frequency <= u32::MAX,
            ;
        }
        ((ns as u64) * (self.core_frequency as u64)) / 1_000_000_000
    }
}

} // verus!
