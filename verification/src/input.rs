//! Switches that are read: a button, a reed contact, a level sensor.
use crate::pin::ReadLevel;
use crate::{across, ActiveHigh, ActiveLow, InputSwitch, Switch};
use vstd::prelude::*;

verus! {

impl<T: ReadLevel> InputSwitch for Switch<T, ActiveHigh> {
    type Error = <T as ReadLevel>::Error;

    /// The switch is active where its pin reads high.
    open spec fn senses(&self, outcome: Result<bool, Self::Error>) -> bool {
        self@.reads(across(true, outcome))
    }

    fn is_active(&self) -> (outcome: Result<bool, Self::Error>)
        ensures
            self@.reads(outcome),
    {
        self.pin.read_level()
    }
}

impl<T: ReadLevel> InputSwitch for Switch<T, ActiveLow> {
    type Error = <T as ReadLevel>::Error;

    /// The switch is active where its pin reads low.
    open spec fn senses(&self, outcome: Result<bool, Self::Error>) -> bool {
        self@.reads(across(false, outcome))
    }

    fn is_active(&self) -> (outcome: Result<bool, Self::Error>)
        ensures
            self@.reads(across(false, outcome)),
    {
        match self.pin.read_level() {
            Ok(high) => Ok(!high),
            Err(failure) => Err(failure),
        }
    }
}

} // verus!
