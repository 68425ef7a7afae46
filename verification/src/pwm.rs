//! Pulse-width modulation over the advanced and general timers.

use vstd::prelude::*;

verus! {

/// Marker trait for pins usable as a PWM channel of a timer.
pub trait PwmChannelPin<TIMER> {

}

/// A PWM channel number.
#[derive(Clone, Copy, Debug, PartialEq, Eq, Structural)]
pub struct Channel(pub u8);

} // verus!
