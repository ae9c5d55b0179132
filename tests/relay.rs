use growpi::config::Configuration;
use growpi::relay::{Relay, RelayError, RelaySwitchState};

fn board(pins: Vec<i16>) -> Relay {
    let mut config = Configuration::default();
    config.relay_settings.relay_gpio_pins = pins;
    Relay::new(&config).unwrap()
}

#[test]
fn fresh_relay_is_idle() {
    let relay = board(vec![17, 27, 22, -1]);
    assert_eq!(relay.len(), 4);
    for (pin, line) in [(0u8, 17u8), (1, 27), (2, 22)] {
        assert_eq!(relay.get_output_pin(pin), Ok((line, true)));
        assert_eq!(relay.get_state(pin), Ok(RelaySwitchState::Off));
    }
    assert_eq!(relay.get_state(3), Err(RelayError::Unconfigured { pin: 3 }));
}

#[test]
fn switch_on_drives_line_low() {
    let mut relay = board(vec![17, 27, 22, -1]);
    assert_eq!(relay.switch(1, RelaySwitchState::On), Ok(()));
    assert_eq!(relay.get_output_pin(1), Ok((27, false)));
    assert_eq!(relay.get_state(1), Ok(RelaySwitchState::On));
    assert_eq!(relay.get_state(0), Ok(RelaySwitchState::Off));
    assert_eq!(relay.switch(1, RelaySwitchState::Off), Ok(()));
    assert_eq!(relay.get_output_pin(1), Ok((27, true)));
    assert_eq!(relay.get_state(1), Ok(RelaySwitchState::Off));
}

#[test]
fn toggle_flips_level() {
    let mut relay = board(vec![5]);
    assert_eq!(relay.toggle(0), Ok(()));
    assert_eq!(relay.get_state(0), Ok(RelaySwitchState::On));
    assert_eq!(relay.toggle(0), Ok(()));
    assert_eq!(relay.get_state(0), Ok(RelaySwitchState::Off));
}

#[test]
fn out_of_range_and_unconfigured_slots_fail() {
    let mut relay = board(vec![17, -1, 300]);
    assert_eq!(
        relay.switch(3, RelaySwitchState::On),
        Err(RelayError::OutOfRange { pin: 3, slots: 3 })
    );
    assert_eq!(relay.toggle(1), Err(RelayError::Unconfigured { pin: 1 }));
    assert_eq!(relay.get_state(2), Err(RelayError::Unconfigured { pin: 2 }));
}

#[test]
fn unbound_slot_stops_working() {
    let mut relay = board(vec![17, 27]);
    relay.unbind(0);
    relay.unbind(9);
    assert_eq!(relay.get_state(0), Err(RelayError::Unconfigured { pin: 0 }));
    assert_eq!(relay.get_state(1), Ok(RelaySwitchState::Off));
}
