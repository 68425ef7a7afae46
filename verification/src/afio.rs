//! Alternate function I/O: pin remapping control.

use vstd::prelude::*;

verus! {

/// Extension trait that constrains the AFIO peripheral into [`Afio`].
pub trait AfioExt: Sized {
    /// Constrains the peripheral to play nicely with the other
    /// abstractions.
    fn constrain(self) -> Afio;
}

/// Model of the alternate-function configuration the crate programs.
#[derive(Clone, Copy, Debug, PartialEq, Eq, Structural)]
pub struct Afio {
    /// Serial-wire/JTAG configuration field (PCF0.SWJ_CFG).
    pub swj_cfg: u8,
}

impl Afio {
    /// Builds the model in its reset state.
    pub fn new() -> (r: Afio)
        ensures
            r.swj_cfg == 0,
    {
        Afio { swj_cfg: 0 }
    }
}

/// A peripheral whose pins can be remapped through the AFIO block.
pub trait Remap {
    /// The remapping selector the peripheral takes.
    type Variant;

    /// Programs the remapping.
    fn remap(afio: &mut Afio, variant: Self::Variant);
}

} // verus!
