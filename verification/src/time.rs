//! Units of frequency and bit rate.

use vstd::prelude::*;

verus! {

/// A frequency in hertz.
#[derive(Clone, Copy, Debug, PartialEq, Eq, Structural)]
pub struct Hertz(pub u32);

/// A bit rate in bits per second.
#[derive(Clone, Copy, Debug, PartialEq, Eq, Structural)]
pub struct Bps(pub u32);

impl Hertz {
    /// Builds a frequency from a count of whole megahertz.
    pub fn from_mhz(mhz: u32) -> (r: Hertz)
        requires
            mhz * 1_000_000 <= u32::MAX,
        ensures
            r.0 == mhz * 1_000_000,
    {
        Hertz(mhz * 1_000_000)
    }
}

/// Extension trait that turns a bare integer into a frequency or bit rate.
pub trait U32Ext {
    /// Wraps the value as a bit rate in bits per second.
    fn bps(self) -> Bps;

    /// Wraps the value as a frequency in hertz.
    fn hz(self) -> Hertz;
}

impl U32Ext for u32 {
    fn bps(self) -> (r: Bps)
        ensures
            r.0 == self,
    {
        Bps(self)
    }

    fn hz(self) -> (r: Hertz)
        ensures
            r.0 == self,
    {
        Hertz(self)
    }
}

} // verus!
