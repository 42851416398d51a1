use embedded_hal::digital::v2::InputPin;
use switch_hal::mock::{Pin, State};
use switch_hal::{ActiveHigh, ActiveLow, InputSwitch, IntoSwitch, OutputSwitch};

#[test]
fn pin_into_switch_into_active_high() {
    let pin = Pin::new();
    let mut switch = pin.into_active_high_switch();
    switch.on().unwrap();

    let pin = switch.into_pin();
    assert_eq!(true, pin.is_high().unwrap());

    let pin = Pin::with_state(State::High);
    let switch = pin.into_active_high_switch();
    assert_eq!(true, switch.is_active().unwrap());
}

#[test]
fn pin_into_switch_into_active_low() {
    let pin = Pin::new();
    let mut switch = pin.into_active_low_switch();
    switch.on().unwrap();

    let pin = switch.into_pin();
    assert_eq!(true, pin.is_low().unwrap());

    let pin = Pin::with_state(State::Low);
    let switch = pin.into_active_low_switch();
    assert_eq!(true, switch.is_active().unwrap());
}

#[test]
fn into_switch_takes_the_polarity_asked_for() {
    let mut switch = Pin::new().into_switch::<ActiveHigh>();
    switch.on().unwrap();
    assert_eq!(Some(State::High), switch.into_pin().state());

    let mut switch = Pin::new().into_switch::<ActiveLow>();
    switch.on().unwrap();
    assert_eq!(Some(State::Low), switch.into_pin().state());
}
