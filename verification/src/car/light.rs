//! The two status lights of the car: on while it stands, off while it moves.
//!
//! The LEDs are active low.
use vstd::prelude::*;

verus! {

/// The levels of the two pins; `true` is high.
#[derive(Clone, Copy, PartialEq, Eq, Structural, Debug)]
pub struct Light {
    pub left: bool,
    pub right: bool,
}

impl Light {
    /// The lights after power-up: on.
    pub fn init() -> (light: Self)
        ensures
            light == (Light { left: false, right: false }),
    {
        Light { left: false, right: false }
    }

    /// Turns both lights on.
    pub fn light_on(&mut self)
        ensures
            *final(self) == (Light { left: false, right: false }),
    {
        self.left = false;
        self.right = false;
    }

    /// Turns both lights off.
    pub fn light_off(&mut self)
        ensures
            *final(self) == (Light { left: true, right: true }),
    {
        self.left = true;
        self.right = true;
    }
}

} // verus!
