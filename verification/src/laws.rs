//! What holds of every switch over a pin that behaves as a register.
//!
//! A switch adds nothing to its pin but the polarity, so what it promises
//! beyond single accesses rests on the pin. The laws here are stated for
//! pins that keep what is written to them. [`reads_back`], [`remembers`] and
//! [`inverts`] say what that means, in the relations that the pin's
//! capabilities state, and [`mock::Pin`](crate::mock::Pin) is such a pin.
//!
//! A law speaks of a switch by its pin and by `active_high`, the polarity
//! that the contracts of `Switch<_, ActiveHigh>` and `Switch<_, ActiveLow>`
//! fix to `true` and `false`.
use crate::mock::{reading, Pin, State, NOT_SET};
use crate::pin::{ReadLevel, ReadWrittenLevel, ToggleLevel, WriteLevel};
use crate::{across, inverse, level_for};
use vstd::prelude::*;

verus! {

/// A read of the pin's level gives `high`, and nothing else.
pub open spec fn shows<T: ReadLevel>(pin: T, high: bool) -> bool {
    forall|outcome: Result<bool, <T as ReadLevel>::Error>| #[trigger]
        pin.reads(outcome) <==> outcome == Ok::<bool, <T as ReadLevel>::Error>(high)
}

/// The pin reports `high` as the level that it was last driven to, and
/// nothing else. This is the physical level of an output pin.
pub open spec fn holds<T: ReadWrittenLevel>(pin: T, high: bool) -> bool {
    forall|outcome: Result<bool, <T as WriteLevel>::Error>| #[trigger]
        pin.reads_written(outcome) <==> outcome == Ok::<bool, <T as WriteLevel>::Error>(high)
}

/// Pins of type `T` read the level that was last written to them: after a
/// write that succeeded, a read gives that level.
pub open spec fn reads_back<T: ReadLevel + WriteLevel>() -> bool {
    forall|before: T, high: bool, after: T| #[trigger]
        before.writes(high, Ok::<(), <T as WriteLevel>::Error>(()), &after) ==> shows(after, high)
}

/// Pins of type `T` report the level that was last written to them: after
/// a write that succeeded, the pin holds that level.
pub open spec fn remembers<T: ReadWrittenLevel>() -> bool {
    forall|before: T, high: bool, after: T| #[trigger]
        before.writes(high, Ok::<(), <T as WriteLevel>::Error>(()), &after) ==> holds(after, high)
}

/// Pins of type `T` invert their level when toggled: a pin that holds a
/// level holds the other one after a toggle that succeeded.
pub open spec fn inverts<T: ToggleLevel + ReadWrittenLevel>() -> bool {
    forall|before: T, high: bool, after: T|
        #![trigger holds(before, high), before.toggles(Ok::<(), <T as ToggleLevel>::Error>(()), &after)]
        holds(before, high) && before.toggles(Ok::<(), <T as ToggleLevel>::Error>(()), &after)
            ==> holds(after, !high)
}

/// Carrying the outcome of a read across a polarity twice gives it back:
/// the reading of levels as states and that of states as levels undo each
/// other.
pub proof fn lemma_across_twice<E>(active_high: bool, outcome: Result<bool, E>)
    ensures
        across(active_high, across(active_high, outcome)) == outcome,
        inverse(inverse(outcome)) == outcome,
{
}

/// The pin that `into_pin()` gives back is at the level last written, with
/// nothing held back in the switch: where `on()` (`on`) or `off()` (`!on`)
/// succeeded on `before` and left `after`, `after` holds the level that
/// stands for that state under the polarity.
pub proof fn lemma_pin_holds_what_was_switched<T: ReadWrittenLevel>(
    before: T,
    active_high: bool,
    on: bool,
    after: T,
)
    requires
        remembers::<T>(),
        before.writes(level_for(active_high, on), Ok::<(), <T as WriteLevel>::Error>(()), &after),
    ensures
        holds(after, on == active_high),
{
}

/// A switch that was turned on is active, and one that was turned off is
/// not: where `on()` (`on`) or `off()` (`!on`) succeeded on `before` and left
/// `after`, whatever `is_active()` gives on `after` is `Ok(on)`.
pub proof fn lemma_active_after_switching<T: ReadLevel + WriteLevel>(
    before: T,
    active_high: bool,
    on: bool,
    after: T,
    outcome: Result<bool, <T as ReadLevel>::Error>,
)
    requires
        reads_back::<T>(),
        before.writes(level_for(active_high, on), Ok::<(), <T as WriteLevel>::Error>(()), &after),
        after.reads(across(active_high, outcome)),
    ensures
        outcome == Ok::<bool, <T as ReadLevel>::Error>(on),
{
    assert(shows(after, level_for(active_high, on)));
}

/// A switch that was turned on reports that it is on and not off, and one
/// that was turned off reports that it is off and not on: where `on()` (`on`)
/// or `off()` (`!on`) succeeded on `before` and left `after`, whatever
/// `is_on()` gives on `after` is `Ok(on)`, and whatever `is_off()` gives is
/// `Ok(!on)`.
pub proof fn lemma_state_after_switching<T: ReadWrittenLevel>(
    before: T,
    active_high: bool,
    on: bool,
    after: T,
    is_on: Result<bool, <T as WriteLevel>::Error>,
    is_off: Result<bool, <T as WriteLevel>::Error>,
)
    requires
        remembers::<T>(),
        before.writes(level_for(active_high, on), Ok::<(), <T as WriteLevel>::Error>(()), &after),
        after.reads_written(across(active_high, is_on)),
        after.reads_written(across(active_high, inverse(is_off))),
    ensures
        is_on == Ok::<bool, <T as WriteLevel>::Error>(on),
        is_off == Ok::<bool, <T as WriteLevel>::Error>(!on),
{
    assert(holds(after, level_for(active_high, on)));
}

/// `is_on()` and `is_off()` are exact complements on a pin that holds a
/// level: one gives `Ok(true)` where the other gives `Ok(false)`, and
/// neither fails.
pub proof fn lemma_on_and_off_are_complements<T: ReadWrittenLevel>(
    pin: T,
    high: bool,
    active_high: bool,
    is_on: Result<bool, <T as WriteLevel>::Error>,
    is_off: Result<bool, <T as WriteLevel>::Error>,
)
    requires
        holds(pin, high),
        pin.reads_written(across(active_high, is_on)),
        pin.reads_written(across(active_high, inverse(is_off))),
    ensures
        is_on == Ok::<bool, <T as WriteLevel>::Error>(high == active_high),
        is_off == Ok::<bool, <T as WriteLevel>::Error>(high != active_high),
{
}

/// Toggling twice restores the physical level, whatever the polarity: a
/// pin that holds a level holds it again after two toggles that succeeded.
pub proof fn lemma_toggle_twice<T: ToggleLevel + ReadWrittenLevel>(
    before: T,
    high: bool,
    between: T,
    after: T,
)
    requires
        inverts::<T>(),
        holds(before, high),
        before.toggles(Ok::<(), <T as ToggleLevel>::Error>(()), &between),
        between.toggles(Ok::<(), <T as ToggleLevel>::Error>(()), &after),
    ensures
        holds(after, high),
{
    assert(holds(between, !high));
}

/// A failure of the pin comes out of the switch as it is: where every read
/// of the pin fails with `failure`, whatever `is_active()` gives is
/// `Err(failure)`, never a level made up in its place.
pub proof fn lemma_failure_passes<T: ReadLevel>(
    pin: T,
    active_high: bool,
    failure: <T as ReadLevel>::Error,
    outcome: Result<bool, <T as ReadLevel>::Error>,
)
    requires
        forall|raw: Result<bool, <T as ReadLevel>::Error>| #[trigger]
            pin.reads(raw) ==> raw == Err::<bool, <T as ReadLevel>::Error>(failure),
        pin.reads(across(active_high, outcome)),
    ensures
        outcome == Err::<bool, <T as ReadLevel>::Error>(failure),
{
}

/// `is_active()`, `is_on()` and `is_off()` fail with [`NOT_SET`] on a switch
/// whose pin in memory was never written, under either polarity.
pub proof fn lemma_unwritten_pin_fails(
    pin: Pin,
    active_high: bool,
    is_active: Result<bool, &'static str>,
    is_on: Result<bool, &'static str>,
    is_off: Result<bool, &'static str>,
)
    requires
        pin@ is None,
        pin.reads(across(active_high, is_active)),
        pin.reads_written(across(active_high, is_on)),
        pin.reads_written(across(active_high, inverse(is_off))),
    ensures
        is_active == Err::<bool, &'static str>(NOT_SET),
        is_on == Err::<bool, &'static str>(NOT_SET),
        is_off == Err::<bool, &'static str>(NOT_SET),
{
}

/// The pin in memory holds the level that it is at, and shows it to a read.
pub proof fn lemma_pin_in_memory_holds(pin: Pin, high: bool)
    requires
        pin@ == Some(State::at(high)),
    ensures
        holds(pin, high),
        shows(pin, high),
{
    assert(reading(pin@) == Ok::<bool, &'static str>(high));
}

/// The pin in memory behaves as a register: it reads back and remembers
/// what is written to it, and inverts its level when toggled.
pub proof fn lemma_pin_in_memory_is_a_register()
    ensures
        reads_back::<Pin>(),
        remembers::<Pin>(),
        inverts::<Pin>(),
{
    assert forall|before: Pin, high: bool, after: Pin| #[trigger]
        before.writes(high, Ok::<(), &'static str>(()), &after) implies shows(after, high) && holds(
        after,
        high,
    ) by {
        lemma_pin_in_memory_holds(after, high);
    }
    assert forall|before: Pin, high: bool, after: Pin|
        #![trigger holds(before, high), before.toggles(Ok::<(), &'static str>(()), &after)]
        holds(before, high) && before.toggles(Ok::<(), &'static str>(()), &after) implies holds(
        after,
        !high,
    ) by {
        assert(before.reads_written(reading(before@)));
        lemma_pin_in_memory_holds(after, !high);
    }
}

} // verus!
