use switch_hal::mock::{Pin, State, NOT_SET};
use switch_hal::{
    ActiveHigh, ActiveLow, InputSwitch, IntoSwitch, OutputSwitch, StatefulOutputSwitch, Switch,
    ToggleableOutputSwitch,
};

#[test]
fn on_then_is_active_is_true() {
    let mut switch = Switch::<_, ActiveHigh>::new(Pin::new());
    switch.on().unwrap();
    assert_eq!(Ok(true), switch.is_active());

    let mut switch = Switch::<_, ActiveLow>::new(Pin::new());
    switch.on().unwrap();
    assert_eq!(Ok(true), switch.is_active());
}

#[test]
fn off_then_is_active_is_false() {
    let mut switch = Switch::<_, ActiveHigh>::new(Pin::new());
    switch.off().unwrap();
    assert_eq!(Ok(false), switch.is_active());

    let mut switch = Switch::<_, ActiveLow>::new(Pin::new());
    switch.off().unwrap();
    assert_eq!(Ok(false), switch.is_active());
}

#[test]
fn is_on_and_is_off_are_complements() {
    let mut switch = Switch::<_, ActiveHigh>::new(Pin::new());
    switch.on().unwrap();
    assert_eq!(Ok(true), switch.is_on());
    assert_eq!(Ok(false), switch.is_off());
    switch.off().unwrap();
    assert_eq!(Ok(false), switch.is_on());
    assert_eq!(Ok(true), switch.is_off());

    let mut switch = Switch::<_, ActiveLow>::new(Pin::new());
    switch.on().unwrap();
    assert_eq!(Ok(true), switch.is_on());
    assert_eq!(Ok(false), switch.is_off());
    switch.off().unwrap();
    assert_eq!(Ok(false), switch.is_on());
    assert_eq!(Ok(true), switch.is_off());
}

#[test]
fn toggle_twice_restores_the_level() {
    let mut switch = Switch::<_, ActiveHigh>::new(Pin::with_state(State::High));
    switch.toggle().unwrap();
    switch.toggle().unwrap();
    assert_eq!(Some(State::High), switch.into_pin().state());

    let mut switch = Switch::<_, ActiveLow>::new(Pin::with_state(State::High));
    switch.toggle().unwrap();
    switch.toggle().unwrap();
    assert_eq!(Some(State::High), switch.into_pin().state());

    let mut switch = Switch::<_, ActiveLow>::new(Pin::with_state(State::Low));
    switch.toggle().unwrap();
    assert_eq!(Ok(false), switch.is_on());
    switch.toggle().unwrap();
    assert_eq!(Some(State::Low), switch.into_pin().state());
}

#[test]
fn toggle_of_a_switch_never_written_fails() {
    let mut switch = Switch::<_, ActiveHigh>::new(Pin::new());
    assert_eq!(Err(NOT_SET), switch.toggle());
    assert_eq!(None, switch.into_pin().state());
}

#[test]
fn into_pin_gives_back_the_pin_as_last_written() {
    let switch = Switch::<_, ActiveHigh>::new(Pin::with_state(State::Low));
    assert_eq!(Some(State::Low), switch.into_pin().state());

    let switch = Switch::<_, ActiveLow>::new(Pin::new());
    assert_eq!(None, switch.into_pin().state());

    let mut switch = Pin::new().into_active_low_switch();
    switch.on().unwrap();
    switch.off().unwrap();
    assert_eq!(Some(State::High), switch.into_pin().state());
}

#[test]
fn reads_of_a_switch_never_written_fail() {
    let mut switch = Switch::<_, ActiveHigh>::new(Pin::new());
    assert_eq!(Err("state not set"), switch.is_active());
    assert_eq!(Err("state not set"), switch.is_on());
    assert_eq!(Err("state not set"), switch.is_off());

    let mut switch = Switch::<_, ActiveLow>::new(Pin::new());
    assert_eq!(Err("state not set"), switch.is_active());
    assert_eq!(Err("state not set"), switch.is_on());
    assert_eq!(Err("state not set"), switch.is_off());
}

#[test]
fn active_high_on_drives_the_pin_high() {
    let mut switch = Switch::<_, ActiveHigh>::new(Pin::new());
    switch.on().unwrap();
    assert_eq!(Ok(true), switch.is_active());
    assert_eq!(Some(State::High), switch.into_pin().state());
}

#[test]
fn active_low_on_drives_the_pin_low() {
    let mut switch = Switch::<_, ActiveLow>::new(Pin::new());
    switch.on().unwrap();
    assert_eq!(Ok(true), switch.is_active());
    assert_eq!(Some(State::Low), switch.into_pin().state());
}

#[test]
fn active_high_off_drives_the_pin_low() {
    let mut switch = Switch::<_, ActiveHigh>::new(Pin::new());
    switch.off().unwrap();
    assert_eq!(Ok(false), switch.is_on());
    assert_eq!(Ok(true), switch.is_off());
    assert_eq!(Some(State::Low), switch.into_pin().state());
}

#[test]
fn active_low_off_drives_the_pin_high() {
    let mut switch = Switch::<_, ActiveLow>::new(Pin::new());
    switch.off().unwrap();
    assert_eq!(Ok(false), switch.is_on());
    assert_eq!(Ok(true), switch.is_off());
    assert_eq!(Some(State::High), switch.into_pin().state());
}

#[test]
fn active_high_off_then_toggle_is_active() {
    let mut switch = Switch::<_, ActiveHigh>::new(Pin::new());
    switch.off().unwrap();
    switch.toggle().unwrap();
    assert_eq!(Ok(true), switch.is_active());
    assert_eq!(Some(State::High), switch.into_pin().state());
}

#[test]
fn fresh_pin_is_active_fails() {
    let switch = Switch::<_, ActiveHigh>::new(Pin::new());
    assert_eq!(Err(NOT_SET), switch.is_active());
}
