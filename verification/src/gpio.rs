//! General-purpose I/O pin type states.
//!
//! A pin's configuration is carried in its type: the mode markers below
//! stand for the input, output, alternate and analog configurations a pin
//! can take.

use vstd::prelude::*;

use core::marker::PhantomData;

verus! {

/// Extension trait to split a GPIO peripheral into independent pins and
/// registers.
pub trait GpioExt {
    /// The parts the GPIO block splits into.
    type Parts;

    /// Splits the GPIO block into independent pins and registers.
    fn split(self) -> Self::Parts;
}

/// Marker trait for active pin states.
pub trait Active {

}

/// Input mode (type state).
pub struct Input<MODE> {
    _mode: PhantomData<MODE>,
}

impl<MODE> Active for Input<MODE> {

}

/// Pin in use by the debugger (type state).
pub struct Debugger;

/// Floating input (type state).
pub struct Floating;

/// Pulled-down input (type state).
pub struct PullDown;

/// Pulled-up input (type state).
pub struct PullUp;

/// Output mode (type state).
pub struct Output<MODE> {
    _mode: PhantomData<MODE>,
}

impl<MODE> Active for Output<MODE> {

}

/// Totem-pole, push-pull output (type state).
pub struct PushPull;

/// Open-drain output (type state).
pub struct OpenDrain;

/// Analog mode (type state).
pub struct Analog;

/// Alternate function (type state).
pub struct Alternate<MODE> {
    _mode: PhantomData<MODE>,
}

impl<MODE> Active for Alternate<MODE> {

}

/// The logic level of a pin.
#[derive(Clone, Copy, Debug, PartialEq, Eq, Structural)]
pub enum State {
    High,
    Low,
}

} // verus!
