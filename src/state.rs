//! The state that the control loops share, and what each loop does in one
//! cycle while it holds that state.
//!
//! Each function here is one critical section: the caller holds the lock on
//! the shared state for the call, and sleeps, waits on hardware, or talks to
//! the outside world only between calls.
use vstd::prelude::*;
use crate::clock::{current_local_hour, current_timestamp};
use crate::config::Configuration;
use crate::history::{History, WateringError, WateringRecord, watering_check};
use crate::light::{HOURS_PER_DAY, in_light_window, should_turn_on_light};
use crate::relay::{
    Relay,
    RelayError,
    RelaySwitchState,
    lookup,
    state_spec,
    switched,
    unit_result,
};

verus! {

/// Nanograms in one gram.
pub const NANOGRAMS_PER_GRAM: u64 = 1_000_000_000;

/// Grams pumped when the configured amount does not fit the pump's range.
pub const FALLBACK_WATERING_GRAMS: u16 = 100;

/// Everything the control loops share: the configuration, the relay board
/// and the watering history.
pub struct ProgramState {
    pub config: Configuration,
    pub relay: Relay,
    pub history: History,
}

/// Why one cycle of a control loop did nothing, or stopped part way.
#[derive(Clone, Copy, Debug, PartialEq, Eq, Structural)]
pub enum ControlError {
    Relay(RelayError),
    Watering(WateringError),
    /// The light schedule asks for more than a day of light, or its
    /// lights-out hour is so large that the window would run past the
    /// largest hour count.
    InvalidLightSchedule { sunlight_hours: u64, lights_off_hour: u64 },
    /// The pump's flow rate is zero, so no duration delivers any mass.
    PumpNotCalibrated,
}

/// A watering under way: the pump runs, and the record waits for the pump
/// to stop.
#[derive(Clone, Copy, Debug, PartialEq, Eq, Structural)]
pub struct PendingWatering {
    pub amount: u16,
    pub moisture_before_watering: i64,
    pub duration_ms: u64,
}

/// The relay error of a result, as a control error.
pub open spec fn relay_result(r: Result<(), RelayError>) -> Result<(), ControlError> {
    match r {
        Ok(()) => Ok(()),
        Err(e) => Err(ControlError::Relay(e)),
    }
}

/// `after` keeps the configuration and the history of `before`.
pub open spec fn same_but_relay(before: ProgramState, after: ProgramState) -> bool {
    after.config == before.config && after.history == before.history
}

/// Which way the fan goes at temperature `t`: on above the upper set point,
/// off below the lower one, and unchanged in between.
pub open spec fn fan_command(t: i64, upper: i64, lower: i64) -> Option<RelaySwitchState> {
    if t > upper {
        Some(RelaySwitchState::On)
    } else if t < lower {
        Some(RelaySwitchState::Off)
    } else {
        None
    }
}

/// Pump running time for `grams` at `rate` nanograms per millisecond,
/// rounded to the nearest millisecond, halves upward.
pub open spec fn pump_duration_spec(grams: int, rate: int) -> int {
    (2 * grams * NANOGRAMS_PER_GRAM + rate) / (2 * rate)
}

/// The configured watering amount, when it fits the pump's range, else the
/// fallback amount.
pub open spec fn watering_amount_spec(grams: u64) -> u16 {
    if grams <= u16::MAX {
        grams as u16
    } else {
        FALLBACK_WATERING_GRAMS
    }
}

/// Builds the shared state around a configuration and a loaded history.
pub fn init_state(config: Configuration, history: History) -> (r: Result<ProgramState, RelayError>)
    ensures
        r matches Ok(s) && s.config == config && s.history == history && s.relay@
            == config.relay_settings.relay_gpio_pins@.map_values(
            |p: i16| crate::relay::slot_for(p),
        ),
{
    match Relay::new(&config) {
        Ok(relay) => Ok(ProgramState { config, relay, history }),
        Err(e) => Err(e),
    }
}

pub fn switch_lights(state: RelaySwitchState, program_state: &mut ProgramState) -> (r: Result<
    (),
    RelayError,
>)
    ensures
        same_but_relay(*old(program_state), *final(program_state)),
        final(program_state).relay@ == switched(
            old(program_state).relay@,
            old(program_state).config.relay_settings.light_pin,
            state,
        ),
        r == unit_result(
            lookup(old(program_state).relay@, old(program_state).config.relay_settings.light_pin),
        ),
{
    let pin = program_state.config.relay_settings.light_pin;
    program_state.relay.switch(pin, state)
}

pub fn switch_fan(state: RelaySwitchState, program_state: &mut ProgramState) -> (r: Result<
    (),
    RelayError,
>)
    ensures
        same_but_relay(*old(program_state), *final(program_state)),
        final(program_state).relay@ == switched(
            old(program_state).relay@,
            old(program_state).config.relay_settings.fan_pin,
            state,
        ),
        r == unit_result(
            lookup(old(program_state).relay@, old(program_state).config.relay_settings.fan_pin),
        ),
{
    let pin = program_state.config.relay_settings.fan_pin;
    program_state.relay.switch(pin, state)
}

pub fn switch_water_pump(state: RelaySwitchState, program_state: &mut ProgramState) -> (r: Result<
    (),
    RelayError,
>)
    ensures
        same_but_relay(*old(program_state), *final(program_state)),
        final(program_state).relay@ == switched(
            old(program_state).relay@,
            old(program_state).config.relay_settings.water_pump_pin,
            state,
        ),
        r == unit_result(
            lookup(
                old(program_state).relay@,
                old(program_state).config.relay_settings.water_pump_pin,
            ),
        ),
{
    let pin = program_state.config.relay_settings.water_pump_pin;
    program_state.relay.switch(pin, state)
}

pub fn get_light_state(program_state: &ProgramState) -> (r: Result<RelaySwitchState, RelayError>)
    ensures
        r == state_spec(program_state.relay@, program_state.config.relay_settings.light_pin),
{
    program_state.relay.get_state(program_state.config.relay_settings.light_pin)
}

pub fn get_water_pump_state(program_state: &ProgramState) -> (r: Result<
    RelaySwitchState,
    RelayError,
>)
    ensures
        r == state_spec(program_state.relay@, program_state.config.relay_settings.water_pump_pin),
{
    program_state.relay.get_state(program_state.config.relay_settings.water_pump_pin)
}

pub fn get_fan_state(program_state: &ProgramState) -> (r: Result<RelaySwitchState, RelayError>)
    ensures
        r == state_spec(program_state.relay@, program_state.config.relay_settings.fan_pin),
{
    program_state.relay.get_state(program_state.config.relay_settings.fan_pin)
}


/// One cycle of the temperature loop at temperature `temperature_millicelsius`:
/// above the upper set point the fan goes on, below the lower one it goes
/// off, and in between nothing changes.
pub fn temperature_control(program_state: &mut ProgramState, temperature_millicelsius: i64) -> (r:
    Result<(), RelayError>)
    ensures
        same_but_relay(*old(program_state), *final(program_state)),
        ({
            let c = old(program_state).config.controller_settings;
            let fan = old(program_state).config.relay_settings.fan_pin;
            match fan_command(
                temperature_millicelsius,
                c.temperature_set_point_upper_millicelsius,
                c.temperature_set_point_lower_millicelsius,
            ) {
                Some(state) => final(program_state).relay@ == switched(
                    old(program_state).relay@,
                    fan,
                    state,
                ) && r == unit_result(lookup(old(program_state).relay@, fan)),
                None => final(program_state).relay@ == old(program_state).relay@ && r is Ok,
            }
        }),
{
    let upper = program_state.config.controller_settings.temperature_set_point_upper_millicelsius;
    let lower = program_state.config.controller_settings.temperature_set_point_lower_millicelsius;
    if temperature_millicelsius > upper {
        switch_fan(RelaySwitchState::On, program_state)
    } else if temperature_millicelsius < lower {
        switch_fan(RelaySwitchState::Off, program_state)
    } else {
        Ok(())
    }
}

/// The light schedule is usable: at most a day of light, and a lights-out
/// hour (any count of hours, taken modulo 24) from which a further day can
/// be counted without overflow.
pub open spec fn light_schedule_valid(c: crate::config::ControllerSettings) -> bool {
    c.sunlight_hours <= 24 && c.lights_off_hour <= u64::MAX - 24
}

/// What the light loop does at `hour`.
pub open spec fn light_state_at(c: crate::config::ControllerSettings, hour: u64) -> RelaySwitchState {
    if in_light_window(c.sunlight_hours as int, c.lights_off_hour as int, hour as int) {
        RelaySwitchState::On
    } else {
        RelaySwitchState::Off
    }
}

/// What one cycle of the light loop at `hour` does to the state, and what
/// it returns.
pub open spec fn light_cycle(
    before: ProgramState,
    after: ProgramState,
    r: Result<(), ControlError>,
    hour: u64,
) -> bool {
    let c = before.config.controller_settings;
    let light = before.config.relay_settings.light_pin;
    &&& same_but_relay(before, after)
    &&& if light_schedule_valid(c) {
        after.relay@ == switched(before.relay@, light, light_state_at(c, hour)) && r
            == relay_result(unit_result(lookup(before.relay@, light)))
    } else {
        after.relay@ == before.relay@ && r == Err::<(), ControlError>(
            ControlError::InvalidLightSchedule {
                sunlight_hours: c.sunlight_hours,
                lights_off_hour: c.lights_off_hour,
            },
        )
    }
}

/// One cycle of the light loop at hour `current_hour`: the lights are
/// switched to what the schedule says, whatever they were before.
pub fn light_control_at(program_state: &mut ProgramState, current_hour: u64) -> (r: Result<
    (),
    ControlError,
>)
    ensures
        light_cycle(*old(program_state), *final(program_state), r, current_hour),
{
    let on_hours = program_state.config.controller_settings.sunlight_hours;
    let lights_out = program_state.config.controller_settings.lights_off_hour;
    if on_hours > HOURS_PER_DAY || lights_out > u64::MAX - HOURS_PER_DAY {
        return Err(
            ControlError::InvalidLightSchedule { sunlight_hours: on_hours, lights_off_hour: lights_out },
        );
    }
    let state = if should_turn_on_light(on_hours, lights_out, current_hour) {
        RelaySwitchState::On
    } else {
        RelaySwitchState::Off
    };
    match switch_lights(state, program_state) {
        Ok(()) => Ok(()),
        Err(e) => Err(ControlError::Relay(e)),
    }
}

/// One cycle of the light loop at the current local hour.
pub fn light_control(program_state: &mut ProgramState) -> (r: Result<(), ControlError>)
    ensures
        exists|hour: u64|
            hour < 24 && #[trigger] light_cycle(*old(program_state), *final(program_state), r, hour),
{
    let hour = current_local_hour();
    light_control_at(program_state, hour)
}

/// The grams to pump in one watering: the configured amount when it fits the
/// pump's range, else the fallback amount.
pub fn watering_amount(grams: u64) -> (r: u16)
    ensures
        r == watering_amount_spec(grams),
{
    if grams <= u16::MAX as u64 {
        grams as u16
    } else {
        FALLBACK_WATERING_GRAMS
    }
}

/// How long the pump runs to deliver `grams` at `nanograms_per_millisecond`,
/// rounded to the nearest millisecond. A zero flow rate delivers nothing in
/// any time and is refused.
pub fn pump_duration_ms(grams: u16, nanograms_per_millisecond: u64) -> (r: Result<u64, ControlError>)
    ensures
        nanograms_per_millisecond == 0 ==> r == Err::<u64, ControlError>(
            ControlError::PumpNotCalibrated,
        ),
        nanograms_per_millisecond > 0 ==> r == Ok::<u64, ControlError>(
            pump_duration_spec(grams as int, nanograms_per_millisecond as int) as u64,
        ),
{
    if nanograms_per_millisecond == 0 {
        return Err(ControlError::PumpNotCalibrated);
    }
    let rate = nanograms_per_millisecond as u128;
    let mass: u128 = (grams as u128) * 2_000_000_000;
    let total: u128 = mass + rate;
    let duration: u128 = total / (2 * rate);
    proof {
        assert(total <= 2 * 65535 * 1_000_000_000 + rate);
        vstd::arithmetic::div_mod::lemma_div_is_ordered_by_denominator(
            total as int,
            2,
            2 * rate as int,
        );
    }
    Ok(duration as u64)
}

/// What the soil loop decides at time `now`.
pub open spec fn soil_decision(s: ProgramState, now: i64) -> Result<u16, ControlError> {
    let c = s.config.controller_settings;
    match watering_check(s.history.watering_records@, now, c.watering_frequency_hours) {
        Ok(()) => Ok(watering_amount_spec(c.watering_amount_grams)),
        Err(e) => Err(ControlError::Watering(e)),
    }
}

/// Decides whether the soil loop waters at time `now` and how much: only when
/// more than the configured number of hours have passed since the latest
/// watering, and not at all without one.
pub fn soil_moisture_control_at(program_state: &ProgramState, now: i64) -> (r: Result<
    u16,
    ControlError,
>)
    ensures
        r == soil_decision(*program_state, now),
{
    let c = &program_state.config.controller_settings;
    match program_state.history.watering_due(now, c.watering_frequency_hours) {
        Ok(()) => Ok(watering_amount(c.watering_amount_grams)),
        Err(e) => Err(ControlError::Watering(e)),
    }
}

/// Decides whether the soil loop waters now.
pub fn soil_moisture_control(program_state: &ProgramState) -> (r: Result<u16, ControlError>)
    ensures
        exists|now: i64| r == #[trigger] soil_decision(*program_state, now),
{
    soil_moisture_control_at(program_state, current_timestamp())
}

/// What starting a watering of `grams` with moisture `moisture` measured
/// beforehand does to the state, and what it returns.
pub open spec fn watering_started(
    before: ProgramState,
    after: ProgramState,
    grams: u16,
    moisture: i64,
    r: Result<PendingWatering, ControlError>,
) -> bool {
    let rate = before.config.water_pump_settings.nanograms_per_millisecond;
    let pump = before.config.relay_settings.water_pump_pin;
    &&& same_but_relay(before, after)
    &&& if rate == 0 {
        r == Err::<PendingWatering, ControlError>(ControlError::PumpNotCalibrated) && after.relay@
            == before.relay@
    } else {
        after.relay@ == switched(before.relay@, pump, RelaySwitchState::On) && match lookup(
            before.relay@,
            pump,
        ) {
            Ok(_) => r == Ok::<PendingWatering, ControlError>(
                PendingWatering {
                    amount: grams,
                    moisture_before_watering: moisture,
                    duration_ms: pump_duration_spec(grams as int, rate as int) as u64,
                },
            ),
            Err(e) => r == Err::<PendingWatering, ControlError>(ControlError::Relay(e)),
        }
    }
}

/// Starts a watering of `water_mass_g` grams, with the soil moisture measured
/// just before: works out how long the pump must run and switches it on.
pub fn start_watering(
    program_state: &mut ProgramState,
    water_mass_g: u16,
    moisture_before_watering: i64,
) -> (r: Result<PendingWatering, ControlError>)
    ensures
        watering_started(
            *old(program_state),
            *final(program_state),
            water_mass_g,
            moisture_before_watering,
            r,
        ),
{
    let rate = program_state.config.water_pump_settings.nanograms_per_millisecond;
    let duration_ms = match pump_duration_ms(water_mass_g, rate) {
        Ok(d) => d,
        Err(e) => return Err(e),
    };
    match switch_water_pump(RelaySwitchState::On, program_state) {
        Ok(()) => Ok(
            PendingWatering { amount: water_mass_g, moisture_before_watering, duration_ms },
        ),
        Err(e) => Err(ControlError::Relay(e)),
    }
}

/// What ending the watering `pending` at time `now` does to the state, and
/// what it returns.
pub open spec fn watering_finished(
    before: ProgramState,
    after: ProgramState,
    pending: PendingWatering,
    now: i64,
    r: Result<(), ControlError>,
) -> bool {
    let pump = before.config.relay_settings.water_pump_pin;
    let old_records = before.history.watering_records@;
    let new_records = after.history.watering_records@;
    &&& after.config == before.config
    &&& after.relay@ == switched(before.relay@, pump, RelaySwitchState::Off)
    &&& match lookup(before.relay@, pump) {
        Ok(_) => r is Ok && new_records == old_records.push(
            WateringRecord {
                time: now,
                amount: pending.amount as u64,
                moisture_before_watering: pending.moisture_before_watering,
            },
        ),
        Err(e) => r == Err::<(), ControlError>(ControlError::Relay(e)) && new_records
            == old_records,
    }
}

/// Ends a watering at time `now`: switches the pump off and, once it is off,
/// appends exactly one record with that time, the amount, and the moisture
/// measured before the pump started. If the pump cannot be switched off,
/// nothing is recorded.
pub fn finish_watering_at(
    program_state: &mut ProgramState,
    pending: PendingWatering,
    now: i64,
) -> (r: Result<(), ControlError>)
    ensures
        watering_finished(*old(program_state), *final(program_state), pending, now, r),
{
    match switch_water_pump(RelaySwitchState::Off, program_state) {
        Ok(()) => {},
        Err(e) => return Err(ControlError::Relay(e)),
    }
    let record = WateringRecord::new_at(
        now,
        pending.amount as u64,
        pending.moisture_before_watering,
    );
    program_state.history.push(record);
    Ok(())
}

/// Ends a watering now.
pub fn finish_watering(program_state: &mut ProgramState, pending: PendingWatering) -> (r: Result<
    (),
    ControlError,
>)
    ensures
        exists|now: i64|
            #[trigger] watering_finished(*old(program_state), *final(program_state), pending, now, r),
{
    finish_watering_at(program_state, pending, current_timestamp())
}

/// First half of a ventilation cycle: remembers the fan's state and forces
/// the fan on. The caller waits, then restores the returned state with
/// [`switch_fan`].
pub fn ventilation_start(program_state: &mut ProgramState) -> (r: Result<
    RelaySwitchState,
    RelayError,
>)
    ensures
        same_but_relay(*old(program_state), *final(program_state)),
        ({
            let fan = old(program_state).config.relay_settings.fan_pin;
            match state_spec(old(program_state).relay@, fan) {
                Ok(previous) => r == Ok::<RelaySwitchState, RelayError>(previous)
                    && final(program_state).relay@ == switched(
                    old(program_state).relay@,
                    fan,
                    RelaySwitchState::On,
                ),
                Err(e) => r == Err::<RelaySwitchState, RelayError>(e) && final(program_state).relay@
                    == old(program_state).relay@,
            }
        }),
{
    let previous = match get_fan_state(program_state) {
        Ok(s) => s,
        Err(e) => return Err(e),
    };
    match switch_fan(RelaySwitchState::On, program_state) {
        Ok(()) => Ok(previous),
        Err(e) => Err(e),
    }
}

/// A watering that starts and finishes successfully leaves the history with
/// exactly one record more, which holds the time it finished, the pumped
/// amount and the moisture measured before the pump was switched on; the
/// pump ends up off.
pub proof fn lemma_watering_records_once(
    s0: ProgramState,
    s1: ProgramState,
    s2: ProgramState,
    grams: u16,
    moisture: i64,
    pending: PendingWatering,
    now: i64,
    done: Result<(), ControlError>,
)
    requires
        watering_started(s0, s1, grams, moisture, Ok(pending)),
        watering_finished(s1, s2, pending, now, done),
        done is Ok,
    ensures
        s2.history.watering_records@ == s0.history.watering_records@.push(
            WateringRecord { time: now, amount: grams as u64, moisture_before_watering: moisture },
        ),
        state_spec(s2.relay@, s0.config.relay_settings.water_pump_pin) == Ok::<
            RelaySwitchState,
            RelayError,
        >(RelaySwitchState::Off),
{
    let pump = s0.config.relay_settings.water_pump_pin;
    crate::relay::lemma_switch_then_read(s1.relay@, pump, RelaySwitchState::Off);
}

} // verus!
