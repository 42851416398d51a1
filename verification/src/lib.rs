//! Polarity-aware switches over digital pins.
//!
//! A [`Switch`] owns one pin and carries, in its type, the level at which it
//! counts as active: [`ActiveHigh`] or [`ActiveLow`]. Its operations speak of
//! the switch being active, on or off. Each of them is one access to the pin,
//! with the level carried between the two readings by the polarity alone.
//!
//! What an operation may do is stated as a relation, as for the pins in
//! [`pin`]. For a [`Switch`] the relation is that of its pin, seen through
//! the polarity. An implementation that states none admits every outcome.
use core::marker::PhantomData;
use vstd::prelude::*;

mod input;
mod output;

pub mod laws;
pub mod mock;
pub mod pin;

verus! {

/// The level that a switch drives its pin to: high (`true`) or low, for the
/// polarity of the switch (`active_high`) and the state asked for (`on`).
pub open spec fn level_for(active_high: bool, on: bool) -> bool {
    on == active_high
}

/// The outcome of a read, carried from levels to logical states or back
/// under a polarity: a failure stays as it is, and a level or state `is`
/// becomes `is == active_high`. Carrying an outcome across twice gives it
/// back.
pub open spec fn across<E>(active_high: bool, outcome: Result<bool, E>) -> Result<bool, E> {
    match outcome {
        Ok(is) => Ok(is == active_high),
        Err(failure) => Err(failure),
    }
}

/// The outcome of a read with the logical state inverted: what `is_off`
/// gives where `is_on` gives `outcome`.
pub open spec fn inverse<E>(outcome: Result<bool, E>) -> Result<bool, E> {
    across(false, outcome)
}

/// An input switch, such as a button or a reed contact.
pub trait InputSwitch {
    type Error;

    /// Whether asking the switch, as it is, whether it is active may give
    /// `outcome`.
    open spec fn senses(&self, outcome: Result<bool, Self::Error>) -> bool {
        true
    }

    /// Whether the switch is active: for a button, whether it is pressed.
    fn is_active(&self) -> (outcome: Result<bool, Self::Error>)
        ensures
            self.senses(outcome),
    ;
}

/// An output switch, such as an LED or a transistor.
pub trait OutputSwitch {
    type Error;

    /// Whether turning the switch, as it is, on (`on`) or off (`!on`) may
    /// give `outcome` and leave the switch as `after`.
    open spec fn switches(&self, on: bool, outcome: Result<(), Self::Error>, after: &Self) -> bool {
        true
    }

    /// Turns the switch on.
    fn on(&mut self) -> (outcome: Result<(), Self::Error>)
        ensures
            old(self).switches(true, outcome, final(self)),
    ;

    /// Turns the switch off.
    fn off(&mut self) -> (outcome: Result<(), Self::Error>)
        ensures
            old(self).switches(false, outcome, final(self)),
    ;
}

/// An output switch that can go from its current state to the opposite one.
///
/// A [`Switch`] is one where its pin can toggle its level.
pub trait ToggleableOutputSwitch {
    type Error;

    /// Whether toggling the switch, as it is, may give `outcome` and leave
    /// the switch as `after`.
    open spec fn flips(&self, outcome: Result<(), Self::Error>, after: &Self) -> bool {
        true
    }

    /// Takes the switch from its current state to the opposite one.
    fn toggle(&mut self) -> (outcome: Result<(), Self::Error>)
        ensures
            old(self).flips(outcome, final(self)),
    ;
}

/// An output switch that can tell which state it was last put in.
///
/// A [`Switch`] is one where its pin can report the level it was last driven
/// to.
pub trait StatefulOutputSwitch {
    type Error;

    /// Whether asking the switch, as it is, whether it is on may give
    /// `outcome` and leave the switch as `after`.
    open spec fn reports(&self, outcome: Result<bool, Self::Error>, after: &Self) -> bool {
        true
    }

    /// Whether the switch is on.
    fn is_on(&mut self) -> (outcome: Result<bool, Self::Error>)
        ensures
            old(self).reports(outcome, final(self)),
    ;

    /// Whether the switch is off: the exact complement of
    /// [`is_on`](StatefulOutputSwitch::is_on).
    fn is_off(&mut self) -> (outcome: Result<bool, Self::Error>)
        ensures
            old(self).reports(inverse(outcome), final(self)),
    ;
}

/// Marks a [`Switch`] as active while its pin is high.
pub struct ActiveHigh;

/// Marks a [`Switch`] as active while its pin is low.
pub struct ActiveLow;

/// A pin together with the level at which it counts as active.
///
/// - `IoPin` is the pin. Which of [`InputSwitch`], [`OutputSwitch`],
///   [`ToggleableOutputSwitch`] and [`StatefulOutputSwitch`] the switch is
///   follows from the traits of [`pin`] that `IoPin` has.
/// - `ActiveLevel` is [`ActiveHigh`] or [`ActiveLow`]. It selects the
///   implementation and takes no room in the switch.
pub struct Switch<IoPin, ActiveLevel> {
    pin: IoPin,
    active: PhantomData<ActiveLevel>,
}

impl<IoPin, ActiveLevel> View for Switch<IoPin, ActiveLevel> {
    type V = IoPin;

    /// A switch is its pin: it holds no state of its own.
    closed spec fn view(&self) -> IoPin {
        self.pin
    }
}

impl<IoPin, ActiveLevel> Switch<IoPin, ActiveLevel> {
    /// A switch over `pin`. [`IntoSwitch`] offers the same on the pin itself.
    pub fn new(pin: IoPin) -> (switch: Self)
        ensures
            switch@ == pin,
    {
        Switch { pin: pin, active: PhantomData::<ActiveLevel> }
    }

    /// Gives up the switch for its pin, as the last access left it, so that
    /// the pin can serve another purpose.
    pub fn into_pin(self) -> (pin: IoPin)
        ensures
            pin == self@,
    {
        self.pin
    }
}

/// Turns a pin into a [`Switch`] in one call.
pub trait IntoSwitch {
    /// A switch over this pin with the polarity `ActiveLevel`. The two
    /// methods below name the polarity and are built on this one.
    fn into_switch<ActiveLevel>(self) -> (switch: Switch<Self, ActiveLevel>) where
        Self: core::marker::Sized,

        ensures
            switch@ == self,
    ;

    /// A switch over this pin that is active while the pin is low.
    fn into_active_low_switch(self) -> (switch: Switch<Self, ActiveLow>) where
        Self: core::marker::Sized,

        ensures
            switch@ == self,
    {
        self.into_switch::<ActiveLow>()
    }

    /// A switch over this pin that is active while the pin is high.
    fn into_active_high_switch(self) -> (switch: Switch<Self, ActiveHigh>) where
        Self: core::marker::Sized,

        ensures
            switch@ == self,
    {
        self.into_switch::<ActiveHigh>()
    }
}

impl<T> IntoSwitch for T {
    fn into_switch<ActiveLevel>(self) -> (switch: Switch<Self, ActiveLevel>) {
        Switch::<Self, ActiveLevel>::new(self)
    }
}

} // verus!
