//! Fixed clock frequencies of a part left at its power-on defaults: the
//! internal oscillator feeds the buses directly.

use vstd::prelude::*;

use crate::time::Hertz;

verus! {

/// The bus frequencies of an unconfigured part.
pub struct Clocks;

impl Clocks {
    /// The internal oscillator's frequency.
    fn base(&self) -> (r: Hertz)
        ensures
            r.0 == 8_000_000,
    {
        Hertz(8_000_000)
    }

    /// The APB1 frequency: half the base frequency.
    pub fn pclk1(&self) -> (r: Hertz)
        ensures
            r.0 == 4_000_000,
    {
        Hertz(self.base().0 / 2)
    }

    /// The APB2 frequency: the base frequency.
    pub fn pclk2(&self) -> (r: Hertz)
        ensures
            r.0 == 8_000_000,
    {
        self.base()
    }
}

} // verus!
