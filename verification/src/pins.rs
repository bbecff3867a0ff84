//! Output pin levels, and the output pin abstraction that the LED drivers are written against.

use vstd::prelude::*;

verus! {

/// The level of a digital output pin.
#[derive(Debug, Clone, Copy, PartialEq, Eq, Structural)]
pub enum Level {
    Low,
    High,
}

/// The level that drives an active-high output: high when lit.
pub open spec fn level_for(lit: bool) -> Level {
    if lit {
        Level::High
    } else {
        Level::Low
    }
}

/// A digital output pin whose writes may fail.
///
/// `is_set_high` is the level that the last successful write left the pin at, and
/// `accepts_writes` whether a write to the pin, as it is now, succeeds. The contract asks for
/// an exact prediction: a write succeeds if and only if `accepts_writes` holds. Infallible pins
/// (an error type that cannot be built) meet it with `accepts_writes` always true; a pin whose
/// writes can fail at random, unforeseeably, cannot implement this trait faithfully.
pub trait OutputPin {
    type Error;

    spec fn is_set_high(&self) -> bool;

    spec fn accepts_writes(&self) -> bool;

    /// Drives the pin low; fails exactly when the pin does not accept writes.
    fn set_low(&mut self) -> (r: Result<(), Self::Error>)
        ensures
            r is Ok <==> old(self).accepts_writes(),
            r is Ok ==> !final(self).is_set_high(),
    ;

    /// Drives the pin high; fails exactly when the pin does not accept writes.
    fn set_high(&mut self) -> (r: Result<(), Self::Error>)
        ensures
            r is Ok <==> old(self).accepts_writes(),
            r is Ok ==> final(self).is_set_high(),
    ;
}

/// A pin that only remembers its level: writes never fail.
impl OutputPin for Level {
    type Error = core::convert::Infallible;

    open spec fn is_set_high(&self) -> bool {
        *self == Level::High
    }

    open spec fn accepts_writes(&self) -> bool {
        true
    }

    fn set_low(&mut self) -> (r: Result<(), Self::Error>)
        ensures
            *final(self) == Level::Low,
            r is Ok,
    {
        *self = Level::Low;
        Ok(())
    }

    fn set_high(&mut self) -> (r: Result<(), Self::Error>)
        ensures
            *final(self) == Level::High,
            r is Ok,
    {
        *self = Level::High;
        Ok(())
    }
}

} // verus!
