use growpi::config::Configuration;
use growpi::history::{History, WateringError, WateringRecord};
use growpi::imaging::{get_image_path, ImageResolution};
use growpi::relay::{RelayError, RelaySwitchState};
use growpi::state::{
    finish_watering, finish_watering_at, get_fan_state, get_light_state, get_water_pump_state, init_state,
    light_control, light_control_at, pump_duration_ms, soil_moisture_control,
    soil_moisture_control_at, start_watering, switch_fan, switch_lights, temperature_control,
    ventilation_start, watering_amount, ControlError, PendingWatering, ProgramState,
};

fn fresh_state() -> ProgramState {
    init_state(Configuration::default(), History::default()).unwrap()
}

#[test]
fn fresh_state_has_everything_off() {
    let state = fresh_state();
    assert_eq!(get_light_state(&state), Ok(RelaySwitchState::Off));
    assert_eq!(get_fan_state(&state), Ok(RelaySwitchState::Off));
    assert_eq!(get_water_pump_state(&state), Ok(RelaySwitchState::Off));
}

#[test]
fn temperature_hysteresis() {
    let mut state = fresh_state();
    // Default set points: 28 and 35 degrees.
    assert_eq!(temperature_control(&mut state, 35_001), Ok(()));
    assert_eq!(get_fan_state(&state), Ok(RelaySwitchState::On));
    assert_eq!(temperature_control(&mut state, 30_000), Ok(()));
    assert_eq!(get_fan_state(&state), Ok(RelaySwitchState::On));
    assert_eq!(temperature_control(&mut state, 35_000), Ok(()));
    assert_eq!(get_fan_state(&state), Ok(RelaySwitchState::On));
    assert_eq!(temperature_control(&mut state, 27_999), Ok(()));
    assert_eq!(get_fan_state(&state), Ok(RelaySwitchState::Off));
    assert_eq!(temperature_control(&mut state, 28_000), Ok(()));
    assert_eq!(get_fan_state(&state), Ok(RelaySwitchState::Off));
}

#[test]
fn light_follows_schedule_every_cycle() {
    let mut state = fresh_state();
    state.config.controller_settings.sunlight_hours = 20;
    state.config.controller_settings.lights_off_hour = 22;
    assert_eq!(light_control_at(&mut state, 23), Ok(()));
    assert_eq!(get_light_state(&state), Ok(RelaySwitchState::On));
    assert_eq!(light_control_at(&mut state, 23), Ok(()));
    assert_eq!(get_light_state(&state), Ok(RelaySwitchState::On));
    assert_eq!(light_control_at(&mut state, 2), Ok(()));
    assert_eq!(get_light_state(&state), Ok(RelaySwitchState::Off));
}

#[test]
fn lights_out_hour_is_taken_modulo_a_day() {
    let mut state = fresh_state();
    state.config.controller_settings.sunlight_hours = 23;
    // 29 is hour 5 of the next day.
    state.config.controller_settings.lights_off_hour = 29;
    assert_eq!(light_control_at(&mut state, 5), Ok(()));
    assert_eq!(get_light_state(&state), Ok(RelaySwitchState::On));
    assert_eq!(light_control_at(&mut state, 6), Ok(()));
    assert_eq!(get_light_state(&state), Ok(RelaySwitchState::Off));
    state.config.controller_settings.lights_off_hour = u64::MAX - 24;
    assert_eq!(light_control_at(&mut state, 6), Ok(()));
    state.config.controller_settings.lights_off_hour = u64::MAX - 23;
    assert_eq!(
        light_control_at(&mut state, 6),
        Err(ControlError::InvalidLightSchedule { sunlight_hours: 23, lights_off_hour: u64::MAX - 23 })
    );
}

#[test]
fn light_schedule_must_fit_a_day() {
    let mut state = fresh_state();
    state.config.controller_settings.sunlight_hours = 25;
    assert_eq!(
        light_control_at(&mut state, 3),
        Err(ControlError::InvalidLightSchedule { sunlight_hours: 25, lights_off_hour: 0 })
    );
    state.config.controller_settings.sunlight_hours = 0;
    assert_eq!(light_control(&mut state), Ok(()));
    assert_eq!(get_light_state(&state), Ok(RelaySwitchState::On));
}

#[test]
fn first_watering_without_history_fails() {
    let state = fresh_state();
    assert_eq!(state.config.controller_settings.watering_frequency_hours, 30);
    assert_eq!(
        soil_moisture_control_at(&state, 1_700_000_000),
        Err(ControlError::Watering(WateringError::NoHistory))
    );
    assert_eq!(
        soil_moisture_control(&state),
        Err(ControlError::Watering(WateringError::NoHistory))
    );
}

#[test]
fn watering_due_after_interval() {
    let mut state = fresh_state();
    state.history.push(WateringRecord { time: 0, amount: 200, moisture_before_watering: 0 });
    assert_eq!(
        soil_moisture_control_at(&state, 30 * 3600),
        Err(ControlError::Watering(WateringError::TooSoon { hours_passed: 30, min_hours: 30 }))
    );
    assert_eq!(soil_moisture_control_at(&state, 31 * 3600), Ok(200));
    state.config.controller_settings.watering_amount_grams = 70_000;
    assert_eq!(soil_moisture_control_at(&state, 31 * 3600), Ok(100));
}

#[test]
fn watering_amounts() {
    assert_eq!(watering_amount(200), 200);
    assert_eq!(watering_amount(65_535), 65_535);
    assert_eq!(watering_amount(65_536), 100);
}

#[test]
fn pump_durations() {
    assert_eq!(pump_duration_ms(200, 52_810_000), Ok(3787));
    assert_eq!(pump_duration_ms(1, 2_000_000_000), Ok(1));
    assert_eq!(pump_duration_ms(1, 4_000_000_000), Ok(0));
    assert_eq!(pump_duration_ms(10, 0), Err(ControlError::PumpNotCalibrated));
}

#[test]
fn watering_records_moisture_before_pumping() {
    let mut state = fresh_state();
    let pending = start_watering(&mut state, 200, 410_000).unwrap();
    assert_eq!(
        pending,
        PendingWatering { amount: 200, moisture_before_watering: 410_000, duration_ms: 3787 }
    );
    assert_eq!(get_water_pump_state(&state), Ok(RelaySwitchState::On));
    assert!(state.history.watering_records.is_empty());
    assert_eq!(finish_watering(&mut state, pending), Ok(()));
    assert_eq!(get_water_pump_state(&state), Ok(RelaySwitchState::Off));
    assert_eq!(state.history.watering_records.len(), 1);
    assert_eq!(state.history.watering_records[0].amount, 200);
    assert_eq!(state.history.watering_records[0].moisture_before_watering, 410_000);
}

#[test]
fn watering_record_takes_finishing_time() {
    let mut state = fresh_state();
    let pending = start_watering(&mut state, 150, 380_000).unwrap();
    assert_eq!(finish_watering_at(&mut state, pending, 1_700_000_123), Ok(()));
    assert_eq!(
        state.history.watering_records,
        vec![WateringRecord { time: 1_700_000_123, amount: 150, moisture_before_watering: 380_000 }]
    );
}

#[test]
fn watering_without_pump_line_records_nothing() {
    let mut state = fresh_state();
    state.relay.unbind(2);
    assert_eq!(
        start_watering(&mut state, 50, 1),
        Err(ControlError::Relay(RelayError::Unconfigured { pin: 2 }))
    );
    let pending = PendingWatering { amount: 50, moisture_before_watering: 1, duration_ms: 5 };
    assert_eq!(
        finish_watering(&mut state, pending),
        Err(ControlError::Relay(RelayError::Unconfigured { pin: 2 }))
    );
    assert!(state.history.watering_records.is_empty());
}

#[test]
fn ventilation_forces_fan_then_restores() {
    let mut state = fresh_state();
    let previous = ventilation_start(&mut state).unwrap();
    assert_eq!(previous, RelaySwitchState::Off);
    assert_eq!(get_fan_state(&state), Ok(RelaySwitchState::On));
    assert_eq!(switch_fan(previous, &mut state), Ok(()));
    assert_eq!(get_fan_state(&state), Ok(RelaySwitchState::Off));
}

#[test]
fn switching_unconfigured_light_fails() {
    let mut state = fresh_state();
    state.config.relay_settings.light_pin = 3;
    assert_eq!(
        switch_lights(RelaySwitchState::On, &mut state),
        Err(RelayError::Unconfigured { pin: 3 })
    );
}

#[test]
fn default_configuration_and_imaging() {
    let config = Configuration::default();
    assert_eq!(config.relay_settings.relay_gpio_pins, vec![17, 27, 22, -1]);
    assert_eq!(config.data_logging_settings.logging_interval_mins(), Some(60));
    let mut logging = config.data_logging_settings;
    logging.frequency_mins = 0;
    assert_eq!(logging.logging_interval_mins(), None);
    logging.imaging_frequency_minutes = 0;
    assert_eq!(logging.imaging_interval_mins(), None);
    assert_eq!(ImageResolution::R1080p.get_width_height(), (1920, 1080));
    assert_eq!(ImageResolution::R360p.get_width_height(), (480, 360));
    assert_eq!(get_image_path(), "./growpi.image.jpeg");
}

#[test]
fn error_text_is_displayed_form() {
    assert_eq!(growpi::error::lock_err(42), "42");
    assert_eq!(growpi::error::lock_err("lock poisoned"), "lock poisoned");
}
