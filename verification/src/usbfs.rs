//! USB full-speed device controller.

pub mod device;
pub mod fifo;
pub mod regs;
pub mod types;

use vstd::prelude::*;

verus! {

/// Settings for port speed.
///
/// In host mode either host setting is acceptable; in device mode the port
/// speed is fixed to full speed.
#[derive(Clone, Copy, Debug, PartialEq, Eq, Structural)]
pub enum PortSpeed {
    FullSpeedHost,
    LowSpeedHost,
    FullSpeedDevice,
}

impl PortSpeed {
    /// The two-bit register encoding of the setting.
    pub fn bits(self) -> (r: u8)
        ensures
            r == self.spec_bits(),
    {
        match self {
            PortSpeed::FullSpeedHost => 0b01,
            PortSpeed::LowSpeedHost => 0b10,
            PortSpeed::FullSpeedDevice => 0b11,
        }
    }

    /// The two-bit register encoding of the setting.
    pub open spec fn spec_bits(self) -> u8 {
        match self {
            PortSpeed::FullSpeedHost => 0b01,
            PortSpeed::LowSpeedHost => 0b10,
            PortSpeed::FullSpeedDevice => 0b11,
        }
    }
}

} // verus!
