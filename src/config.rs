//! Controller configuration, in integer units.
//!
//! Voltages are in microvolts, resistances in milliohms, moisture in parts
//! per million of the full scale, temperatures in millidegrees (Celsius for
//! set points, Kelvin for the thermistor's reference), and the pump's flow in
//! nanograms per millisecond.
use vstd::prelude::*;
use crate::imaging::ImageResolution;

verus! {

/// Which physical line each relay slot drives. `relay_gpio_pins[i]` is the
/// line of slot `i`, or `-1` for a slot with no line.
pub struct RelaySettings {
    pub light_pin: u8,
    pub fan_pin: u8,
    pub water_pump_pin: u8,
    pub relay_gpio_pins: Vec<i16>,
}

/// Which side of the voltage divider the thermistor sits on: `R1` between
/// supply and signal, `R2` between signal and ground.
#[derive(Clone, Copy, Debug, PartialEq, Eq, Structural)]
pub enum VoltageDividerResistor {
    R1,
    R2,
}

pub struct ThermistorSettings {
    pub pin: u8,
    pub voltage_divider_resistance_milliohms: u32,
    pub nominal_resistance_milliohms: u32,
    pub nominal_temperature_millikelvin: u32,
    pub thermal_constant_millikelvin: u32,
    pub resistor: VoltageDividerResistor,
}

/// Two-point calibration of the soil probe: the voltage at full moisture and
/// one further (voltage, moisture) pair.
pub struct SoilMoistureSettings {
    pub pin: u8,
    pub voltage_100_microvolts: i32,
    pub voltage_nominal_microvolts: i32,
    pub moisture_nominal_ppm: i32,
}

pub struct WaterPumpSettings {
    pub nanograms_per_millisecond: u64,
}

pub struct BoardSettings {
    pub logic_level_microvolts: i32,
}

pub struct ControllerSettings {
    pub temperature_set_point_upper_millicelsius: i64,
    pub temperature_set_point_lower_millicelsius: i64,
    pub temperature_loop_mins: u64,
    pub sunlight_hours: u64,
    pub lights_off_hour: u64,
    pub watering_frequency_hours: u64,
    pub watering_amount_grams: u64,
}

#[derive(Clone, Copy, Debug, PartialEq, Eq, Structural)]
pub struct DataLoggingSettings {
    pub enabled: bool,
    pub frequency_mins: u64,
    pub imaging_frequency_minutes: u64,
    pub imaging_resolution: ImageResolution,
}

#[derive(Clone, Copy, Debug, PartialEq, Eq, Structural)]
pub struct VentilationSettings {
    pub frequency_mins: u64,
    pub duration_mins: u64,
}

#[derive(Clone, Copy, Debug, PartialEq, Eq, Structural)]
pub struct ServerSettings {
    pub port: u16,
}

pub struct Configuration {
    pub board_settings: BoardSettings,
    pub relay_settings: RelaySettings,
    pub soil_moisture_settings: SoilMoistureSettings,
    pub thermistor_settings: ThermistorSettings,
    pub water_pump_settings: WaterPumpSettings,
    pub controller_settings: ControllerSettings,
    pub data_logging_settings: DataLoggingSettings,
    pub ventilation_settings: VentilationSettings,
    pub server_settings: ServerSettings,
}

impl DataLoggingSettings {
    /// Minutes between two data records, or `None` while logging is off: it
    /// is off when disabled or when its frequency is zero.
    pub fn logging_interval_mins(&self) -> (r: Option<u64>)
        ensures
            r == if self.enabled && self.frequency_mins > 0 {
                Some(self.frequency_mins)
            } else {
                None
            },
    {
        if self.enabled && self.frequency_mins > 0 {
            Some(self.frequency_mins)
        } else {
            None
        }
    }

    /// Minutes between two snapshots, or `None` while a zero frequency turns
    /// imaging off.
    pub fn imaging_interval_mins(&self) -> (r: Option<u64>)
        ensures
            r == if self.imaging_frequency_minutes > 0 {
                Some(self.imaging_frequency_minutes)
            } else {
                None
            },
    {
        if self.imaging_frequency_minutes > 0 {
            Some(self.imaging_frequency_minutes)
        } else {
            None
        }
    }
}

impl Default for Configuration {
    fn default() -> (r: Configuration)
        ensures
            r.board_settings.logic_level_microvolts == 3_300_000,
            r.relay_settings.light_pin == 0,
            r.relay_settings.fan_pin == 1,
            r.relay_settings.water_pump_pin == 2,
            r.relay_settings.relay_gpio_pins@ == seq![17i16, 27i16, 22i16, -1i16],
            r.soil_moisture_settings.pin == 1,
            r.soil_moisture_settings.voltage_100_microvolts == 1_417_000,
            r.soil_moisture_settings.voltage_nominal_microvolts == 2_823_000,
            r.soil_moisture_settings.moisture_nominal_ppm == 410_000,
            r.thermistor_settings.pin == 0,
            r.thermistor_settings.voltage_divider_resistance_milliohms == 9_700_000,
            r.thermistor_settings.nominal_resistance_milliohms == 10_000_000,
            r.thermistor_settings.nominal_temperature_millikelvin == 298_150,
            r.thermistor_settings.thermal_constant_millikelvin == 3_950_000,
            r.thermistor_settings.resistor == VoltageDividerResistor::R2,
            r.water_pump_settings.nanograms_per_millisecond == 52_810_000,
            r.controller_settings.temperature_set_point_upper_millicelsius == 35_000,
            r.controller_settings.temperature_set_point_lower_millicelsius == 28_000,
            r.controller_settings.temperature_loop_mins == 60,
            r.controller_settings.sunlight_hours == 24,
            r.controller_settings.lights_off_hour == 0,
            r.controller_settings.watering_frequency_hours == 30,
            r.controller_settings.watering_amount_grams == 200,
            r.data_logging_settings == (DataLoggingSettings {
                enabled: true,
                frequency_mins: 60,
                imaging_frequency_minutes: 60,
                imaging_resolution: ImageResolution::R1080p,
            }),
            r.ventilation_settings == (VentilationSettings { frequency_mins: 60, duration_mins: 5 }),
            r.server_settings == (ServerSettings { port: 2205 }),
    {
        let pins: Vec<i16> = vec![17, 27, 22, -1];
        Configuration {
            board_settings: BoardSettings { logic_level_microvolts: 3_300_000 },
            relay_settings: RelaySettings {
                light_pin: 0,
                fan_pin: 1,
                water_pump_pin: 2,
                relay_gpio_pins: pins,
            },
            soil_moisture_settings: SoilMoistureSettings {
                pin: 1,
                voltage_100_microvolts: 1_417_000,
                voltage_nominal_microvolts: 2_823_000,
                moisture_nominal_ppm: 410_000,
            },
            thermistor_settings: ThermistorSettings {
                pin: 0,
                voltage_divider_resistance_milliohms: 9_700_000,
                nominal_resistance_milliohms: 10_000_000,
                nominal_temperature_millikelvin: 298_150,
                thermal_constant_millikelvin: 3_950_000,
                resistor: VoltageDividerResistor::R2,
            },
            water_pump_settings: WaterPumpSettings { nanograms_per_millisecond: 52_810_000 },
            controller_settings: ControllerSettings {
                temperature_set_point_upper_millicelsius: 35_000,
                temperature_set_point_lower_millicelsius: 28_000,
                temperature_loop_mins: 60,
                sunlight_hours: 24,
                lights_off_hour: 0,
                watering_frequency_hours: 30,
                watering_amount_grams: 200,
            },
            data_logging_settings: DataLoggingSettings {
                enabled: true,
                frequency_mins: 60,
                imaging_frequency_minutes: 60,
                imaging_resolution: ImageResolution::R1080p,
            },
            ventilation_settings: VentilationSettings { frequency_mins: 60, duration_mins: 5 },
            server_settings: ServerSettings { port: 2205 },
        }
    }
}

} // verus!
