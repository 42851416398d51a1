//! Switches that are driven: an LED, a relay, a transistor.
use crate::pin::{ReadWrittenLevel, ToggleLevel, WriteLevel};
use crate::{
    across, level_for, ActiveHigh, ActiveLow, OutputSwitch, StatefulOutputSwitch, Switch,
    ToggleableOutputSwitch,
};
use vstd::prelude::*;

verus! {

impl<T: WriteLevel> OutputSwitch for Switch<T, ActiveHigh> {
    type Error = <T as WriteLevel>::Error;

    /// Turning the switch on drives its pin high, and turning it off drives
    /// its pin low.
    open spec fn switches(&self, on: bool, outcome: Result<(), Self::Error>, after: &Self) -> bool {
        self@.writes(level_for(true, on), outcome, &after@)
    }

    fn on(&mut self) -> (outcome: Result<(), Self::Error>)
        ensures
            old(self)@.writes(true, outcome, &final(self)@),
    {
        self.pin.write_level(true)
    }

    fn off(&mut self) -> (outcome: Result<(), Self::Error>)
        ensures
            old(self)@.writes(false, outcome, &final(self)@),
    {
        self.pin.write_level(false)
    }
}

impl<T: WriteLevel> OutputSwitch for Switch<T, ActiveLow> {
    type Error = <T as WriteLevel>::Error;

    /// Turning the switch on drives its pin low, and turning it off drives
    /// its pin high.
    open spec fn switches(&self, on: bool, outcome: Result<(), Self::Error>, after: &Self) -> bool {
        self@.writes(level_for(false, on), outcome, &after@)
    }

    fn on(&mut self) -> (outcome: Result<(), Self::Error>)
        ensures
            old(self)@.writes(false, outcome, &final(self)@),
    {
        self.pin.write_level(false)
    }

    fn off(&mut self) -> (outcome: Result<(), Self::Error>)
        ensures
            old(self)@.writes(true, outcome, &final(self)@),
    {
        self.pin.write_level(true)
    }
}

impl<T: WriteLevel + ToggleLevel, ActiveLevel> ToggleableOutputSwitch for Switch<T, ActiveLevel> {
    type Error = <T as ToggleLevel>::Error;

    /// Toggling the switch toggles its pin, whatever the polarity.
    open spec fn flips(&self, outcome: Result<(), Self::Error>, after: &Self) -> bool {
        self@.toggles(outcome, &after@)
    }

    fn toggle(&mut self) -> (outcome: Result<(), Self::Error>)
        ensures
            old(self)@.toggles(outcome, &final(self)@),
    {
        self.pin.toggle_level()
    }
}

impl<T: WriteLevel + ReadWrittenLevel> StatefulOutputSwitch for Switch<T, ActiveLow> {
    type Error = <T as WriteLevel>::Error;

    /// The switch is on where its pin was last driven low. Asking leaves
    /// the switch as it is.
    open spec fn reports(&self, outcome: Result<bool, Self::Error>, after: &Self) -> bool {
        self@.reads_written(across(false, outcome)) && *after == *self
    }

    fn is_on(&mut self) -> (outcome: Result<bool, Self::Error>)
        ensures
            old(self)@.reads_written(across(false, outcome)),
            *final(self) == *old(self),
    {
        match self.pin.read_written_level() {
            Ok(high) => Ok(!high),
            Err(failure) => Err(failure),
        }
    }

    fn is_off(&mut self) -> (outcome: Result<bool, Self::Error>)
        ensures
            old(self)@.reads_written(outcome),
            *final(self) == *old(self),
    {
        self.pin.read_written_level()
    }
}

impl<T: WriteLevel + ReadWrittenLevel> StatefulOutputSwitch for Switch<T, ActiveHigh> {
    type Error = <T as WriteLevel>::Error;

    /// The switch is on where its pin was last driven high. Asking leaves
    /// the switch as it is.
    open spec fn reports(&self, outcome: Result<bool, Self::Error>, after: &Self) -> bool {
        self@.reads_written(across(true, outcome)) && *after == *self
    }

    fn is_on(&mut self) -> (outcome: Result<bool, Self::Error>)
        ensures
            old(self)@.reads_written(outcome),
            *final(self) == *old(self),
    {
        self.pin.read_written_level()
    }

    fn is_off(&mut self) -> (outcome: Result<bool, Self::Error>)
        ensures
            old(self)@.reads_written(across(false, outcome)),
            *final(self) == *old(self),
    {
        match self.pin.read_written_level() {
            Ok(high) => Ok(!high),
            Err(failure) => Err(failure),
        }
    }
}

} // verus!
