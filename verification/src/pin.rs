//! A stand-in for a GPIO pin on a host that has none.

use core::convert::Infallible;
use vstd::prelude::*;

verus! {

/// A pin that can be driven and does nothing.
#[derive(Clone, Copy, PartialEq, Eq, Debug, Structural)]
pub struct FakePin;

impl FakePin {
    /// A pin.
    pub fn new() -> (pin: FakePin)
        ensures
            pin == FakePin,
    {
        FakePin
    }

    /// Drives the pin low, which always succeeds.
    pub fn set_low(&mut self) -> (result: Result<(), Infallible>)
        ensures
            result is Ok,
            *final(self) == *old(self),
    {
        Ok(())
    }

    /// Drives the pin high, which always succeeds.
    pub fn set_high(&mut self) -> (result: Result<(), Infallible>)
        ensures
            result is Ok,
            *final(self) == *old(self),
    {
        Ok(())
    }
}

} // verus!
