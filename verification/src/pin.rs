//! The capability contract between a switch and the pin it owns.
//!
//! A pin offers any subset of four primitives: reading its level, driving
//! it to a level, toggling it, and reading back the level it was last driven
//! to. Each primitive is a trait of its own, so that a switch offers exactly
//! the operations that its pin can back.
//!
//! What a primitive may do is stated by the pin itself, as a relation between
//! the pin before the access, the outcome and, for the primitives that
//! change it, the pin after the access. A plain register admits one outcome
//! per state. A pin that is wired to the outside world may admit several.
//! Nothing is asked of an implementation beyond keeping to the relation that
//! it states, and one that states none admits every outcome.
use vstd::prelude::*;

verus! {

/// A pin whose level can be read.
pub trait ReadLevel {
    /// The failure of an access to the pin.
    type Error;

    /// Whether reading the level of the pin, as it is, may give `outcome`:
    /// `Ok(true)` for high, `Ok(false)` for low, `Err` for a failed access.
    open spec fn reads(&self, outcome: Result<bool, Self::Error>) -> bool {
        true
    }

    /// Reads the level of the pin: `true` for high.
    fn read_level(&self) -> (outcome: Result<bool, Self::Error>)
        ensures
            self.reads(outcome),
    ;
}

/// A pin that can be driven to a level.
pub trait WriteLevel {
    /// The failure of an access to the pin.
    type Error;

    /// Whether driving the pin, as it is, high (`high`) or low (`!high`) may
    /// give `outcome` and leave the pin as `after`.
    open spec fn writes(&self, high: bool, outcome: Result<(), Self::Error>, after: &Self) -> bool {
        true
    }

    /// Drives the pin high (`high`) or low (`!high`).
    fn write_level(&mut self, high: bool) -> (outcome: Result<(), Self::Error>)
        ensures
            old(self).writes(high, outcome, final(self)),
    ;
}

/// A pin that can invert the level it is driven to.
pub trait ToggleLevel {
    /// The failure of an access to the pin.
    type Error;

    /// Whether toggling the pin, as it is, may give `outcome` and leave the
    /// pin as `after`.
    open spec fn toggles(&self, outcome: Result<(), Self::Error>, after: &Self) -> bool {
        true
    }

    /// Inverts the level that the pin is driven to.
    fn toggle_level(&mut self) -> (outcome: Result<(), Self::Error>)
        ensures
            old(self).toggles(outcome, final(self)),
    ;
}

/// A pin that can report the level it was last driven to.
pub trait ReadWrittenLevel: WriteLevel {
    /// Whether asking the pin, as it is, for the level it was last driven to
    /// may give `outcome`: `Ok(true)` for high, `Ok(false)` for low, `Err`
    /// for a failed access.
    open spec fn reads_written(&self, outcome: Result<bool, Self::Error>) -> bool {
        true
    }

    /// Reports the level that the pin was last driven to: `true` for high.
    /// This is the level that was set, not the one on the wire.
    fn read_written_level(&self) -> (outcome: Result<bool, Self::Error>)
        ensures
            self.reads_written(outcome),
    ;
}

} // verus!
