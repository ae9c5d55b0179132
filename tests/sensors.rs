use growpi::config::{
    Configuration, SoilMoistureSettings, ThermistorSettings, VoltageDividerResistor,
};
use growpi::sensors::{
    adc_channel, raw_to_microvolts, soil_moisture_ppm, thermistor_resistance_milliohms,
    SensorError,
};

fn soil(v100: i32, vn: i32, mn: i32) -> SoilMoistureSettings {
    SoilMoistureSettings {
        pin: 1,
        voltage_100_microvolts: v100,
        voltage_nominal_microvolts: vn,
        moisture_nominal_ppm: mn,
    }
}

#[test]
fn adc_channels() {
    assert_eq!(adc_channel(0), Ok(0));
    assert_eq!(adc_channel(3), Ok(3));
    assert_eq!(adc_channel(4), Err(SensorError::ChannelOutOfRange { channel: 4 }));
}

#[test]
fn raw_readings_scale_to_full_range() {
    assert_eq!(raw_to_microvolts(0), 0);
    assert_eq!(raw_to_microvolts(32767), 4_096_000);
    assert_eq!(raw_to_microvolts(16384), 2_048_062);
    assert_eq!(raw_to_microvolts(-32768), -4_096_125);
}

#[test]
fn soil_moisture_calibration_points() {
    // V100 = 1.0 V, nominal 2.0 V at 50 %: V0 = (2.0 - 0.5) / 0.5 = 3.0 V.
    let s = soil(1_000_000, 2_000_000, 500_000);
    assert_eq!(soil_moisture_ppm(&s, 1_000_000), Ok(1_000_000));
    assert_eq!(soil_moisture_ppm(&s, 3_000_000), Ok(0));
    assert_eq!(soil_moisture_ppm(&s, 2_000_000), Ok(500_000));
    assert_eq!(soil_moisture_ppm(&s, 2_500_000), Ok(250_000));
    // Beyond the dry end the reading goes negative, rounded down.
    assert_eq!(soil_moisture_ppm(&s, 3_000_001), Ok(-1));
}

#[test]
fn soil_moisture_default_calibration() {
    let config = Configuration::default();
    let s = &config.soil_moisture_settings;
    assert_eq!(soil_moisture_ppm(s, 1_417_000), Ok(1_000_000));
    assert_eq!(soil_moisture_ppm(s, 2_823_000), Ok(410_000));
}

#[test]
fn degenerate_soil_calibration_is_refused() {
    assert_eq!(
        soil_moisture_ppm(&soil(1_000_000, 1_000_000, 500_000), 2_000_000),
        Err(SensorError::DegenerateCalibration)
    );
    assert_eq!(
        soil_moisture_ppm(&soil(1_000_000, 2_000_000, 1_000_000), 2_000_000),
        Err(SensorError::DegenerateCalibration)
    );
}

fn thermistor(resistor: VoltageDividerResistor) -> ThermistorSettings {
    ThermistorSettings {
        pin: 0,
        voltage_divider_resistance_milliohms: 9_700_000,
        nominal_resistance_milliohms: 10_000_000,
        nominal_temperature_millikelvin: 298_150,
        thermal_constant_millikelvin: 3_950_000,
        resistor,
    }
}

#[test]
fn thermistor_resistance_in_divider() {
    let low = thermistor(VoltageDividerResistor::R2);
    assert_eq!(thermistor_resistance_milliohms(&low, 3_300_000, 1_650_000), Ok(9_700_000));
    assert_eq!(thermistor_resistance_milliohms(&low, 3_300_000, 1_100_000), Ok(4_850_000));
    let high = thermistor(VoltageDividerResistor::R1);
    assert_eq!(thermistor_resistance_milliohms(&high, 3_300_000, 1_100_000), Ok(19_400_000));
}

#[test]
fn thermistor_voltage_out_of_range() {
    let s = thermistor(VoltageDividerResistor::R2);
    assert_eq!(
        thermistor_resistance_milliohms(&s, 3_300_000, 0),
        Err(SensorError::VoltageOutOfRange { voltage_microvolts: 0 })
    );
    assert_eq!(
        thermistor_resistance_milliohms(&s, 3_300_000, 3_300_000),
        Err(SensorError::VoltageOutOfRange { voltage_microvolts: 3_300_000 })
    );
    let mut bad = thermistor(VoltageDividerResistor::R2);
    bad.thermal_constant_millikelvin = 0;
    assert_eq!(
        thermistor_resistance_milliohms(&bad, 3_300_000, 1_650_000),
        Err(SensorError::DegenerateCalibration)
    );
}
