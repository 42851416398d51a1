//! A pin that lives in memory, for tests and examples.
//!
//! [`Pin`] is a register of three states: not set, low and high. It is not set
//! until it is first driven, and every read of it fails until then. It is a
//! pin of `embedded_hal::digital::v2`, and through the traits of
//! [`pin`](crate::pin) a pin for every kind of switch.
use crate::inverse;
use crate::pin::{ReadLevel, ReadWrittenLevel, ToggleLevel, WriteLevel};
use embedded_hal::digital::v2::toggleable;
use embedded_hal::digital::v2::{InputPin, OutputPin, StatefulOutputPin, ToggleableOutputPin};
use vstd::prelude::*;

verus! {

/// The level of a pin.
#[derive(PartialEq, Eq, Debug, Clone, Copy)]
pub enum State {
    Low,
    High,
}

impl State {
    /// The state of a pin that is high (`true`) or low (`false`).
    pub open spec fn at(high: bool) -> State {
        if high {
            State::High
        } else {
            State::Low
        }
    }
}

/// A pin in memory.
pub struct Pin {
    state: Option<State>,
}

impl View for Pin {
    type V = Option<State>;

    /// The level that the pin is at, or `None` while it is not set.
    closed spec fn view(&self) -> Option<State> {
        self.state
    }
}

/// The failure of every read of a pin that is not set.
pub const NOT_SET: &'static str = "state not set";

/// What a read of a pin in state `state` gives: whether it is high, or
/// [`NOT_SET`] while it is not set.
pub open spec fn reading(state: Option<State>) -> Result<bool, &'static str> {
    match state {
        Some(State::High) => Ok(true),
        Some(State::Low) => Ok(false),
        None => Err(NOT_SET),
    }
}

/// What toggling a pin in state `before` does: a pin that is not set fails
/// with [`NOT_SET`] and stays as it is, and a pin that is set goes to the
/// other level.
pub open spec fn toggled(
    before: Option<State>,
    outcome: Result<(), &'static str>,
    after: Option<State>,
) -> bool {
    match before {
        Some(State::High) => outcome is Ok && after == Some(State::Low),
        Some(State::Low) => outcome is Ok && after == Some(State::High),
        None => outcome == Err::<(), &'static str>(NOT_SET) && after == before,
    }
}

impl Pin {
    /// A pin that is not set.
    pub fn new() -> (pin: Self)
        ensures
            pin@ is None,
    {
        Pin { state: None }
    }

    /// A pin that is at `state`.
    pub fn with_state(state: State) -> (pin: Self)
        ensures
            pin@ == Some(state),
    {
        Pin { state: Some(state) }
    }

    /// The level that the pin is at, or `None` while it is not set.
    pub fn state(&self) -> (state: Option<State>)
        ensures
            state == self@,
    {
        self.state
    }
}

impl InputPin for Pin {
    type Error = &'static str;

    fn is_high(&self) -> (outcome: Result<bool, Self::Error>)
        ensures
            outcome == reading(self@),
    {
        match self.state {
            Some(State::High) => Ok(true),
            Some(State::Low) => Ok(false),
            None => Err(NOT_SET),
        }
    }

    fn is_low(&self) -> (outcome: Result<bool, Self::Error>)
        ensures
            outcome == inverse(reading(self@)),
    {
        match self.is_high() {
            Ok(v) => Ok(!v),
            Err(e) => Err(e),
        }
    }
}

impl OutputPin for Pin {
    type Error = &'static str;

    fn set_low(&mut self) -> (outcome: Result<(), Self::Error>)
        ensures
            outcome is Ok,
            final(self)@ == Some(State::Low),
    {
        self.state = Some(State::Low);
        Ok(())
    }

    fn set_high(&mut self) -> (outcome: Result<(), Self::Error>)
        ensures
            outcome is Ok,
            final(self)@ == Some(State::High),
    {
        self.state = Some(State::High);
        Ok(())
    }
}

impl StatefulOutputPin for Pin {
    fn is_set_low(&self) -> (outcome: Result<bool, Self::Error>)
        ensures
            outcome == inverse(reading(self@)),
    {
        self.is_low()
    }

    fn is_set_high(&self) -> (outcome: Result<bool, Self::Error>)
        ensures
            outcome == reading(self@),
    {
        self.is_high()
    }
}

impl toggleable::Default for Pin {}

/// Calls `embedded_hal::digital::v2::ToggleableOutputPin::toggle`, which
/// `toggleable::Default` gives to the pin in software: it asks the pin whether
/// it is set low; where that fails it returns the failure and drives
/// nothing; else it drives the pin high where it was set low, and low where
/// it was set high, and returns what driving it gave. For this pin that is
/// [`toggled`].
#[verifier::external_body]
fn toggle_in_software(pin: &mut Pin) -> (outcome: Result<(), &'static str>)
    ensures
        toggled(old(pin)@, outcome, final(pin)@),
{
    ToggleableOutputPin::toggle(pin)
}

impl ReadLevel for Pin {
    type Error = &'static str;

    /// A read gives the level that the pin is at, and fails while the pin
    /// is not set.
    open spec fn reads(&self, outcome: Result<bool, Self::Error>) -> bool {
        outcome == reading(self@)
    }

    fn read_level(&self) -> (outcome: Result<bool, Self::Error>)
        ensures
            outcome == reading(self@),
    {
        self.is_high()
    }
}

impl WriteLevel for Pin {
    type Error = &'static str;

    /// Driving the pin never fails, and leaves it at the level asked for.
    open spec fn writes(&self, high: bool, outcome: Result<(), Self::Error>, after: &Self) -> bool {
        outcome is Ok && after@ == Some(State::at(high))
    }

    fn write_level(&mut self, high: bool) -> (outcome: Result<(), Self::Error>)
        ensures
            outcome is Ok,
            final(self)@ == Some(State::at(high)),
    {
        if high {
            self.set_high()
        } else {
            self.set_low()
        }
    }
}

impl ToggleLevel for Pin {
    type Error = &'static str;

    /// Toggling fails while the pin is not set, and else takes it to the
    /// other level.
    open spec fn toggles(&self, outcome: Result<(), Self::Error>, after: &Self) -> bool {
        toggled(self@, outcome, after@)
    }

    fn toggle_level(&mut self) -> (outcome: Result<(), Self::Error>)
        ensures
            toggled(old(self)@, outcome, final(self)@),
    {
        toggle_in_software(self)
    }
}

impl ReadWrittenLevel for Pin {
    /// The level last written is the level that the pin is at.
    open spec fn reads_written(&self, outcome: Result<bool, Self::Error>) -> bool {
        outcome == reading(self@)
    }

    fn read_written_level(&self) -> (outcome: Result<bool, Self::Error>)
        ensures
            outcome == reading(self@),
    {
        self.is_set_high()
    }
}

} // verus!
