//! Sensor conversions: analog readings to voltages, the soil probe's
//! two-point calibration, and the thermistor's resistance in its divider.
use vstd::prelude::*;
use vstd::arithmetic::div_mod::{lemma_fundamental_div_mod, lemma_fundamental_div_mod_converse};
use crate::config::{SoilMoistureSettings, ThermistorSettings, VoltageDividerResistor};

verus! {

/// Analog channels of the converter.
pub const ADC_CHANNELS: u8 = 4;

/// Full scale of the converter, in microvolts.
pub const ADC_FULL_SCALE_MICROVOLTS: u64 = 4_096_000;

/// The largest raw reading, which stands for the full scale.
pub const ADC_RAW_MAX: u64 = 32767;

/// One, in parts per million.
pub const PPM: i64 = 1_000_000;

/// Why a reading could not be converted.
#[derive(Clone, Copy, Debug, PartialEq, Eq, Structural)]
pub enum SensorError {
    /// The converter has no such channel.
    ChannelOutOfRange { channel: u8 },
    /// The calibration leaves a denominator at zero.
    DegenerateCalibration,
    /// The voltage lies outside the range the divider can produce.
    VoltageOutOfRange { voltage_microvolts: i32 },
    /// The converted value does not fit its type.
    ReadingOutOfRange,
}

/// Checks that `channel` names one of the converter's inputs.
pub fn adc_channel(channel: u8) -> (r: Result<u8, SensorError>)
    ensures
        channel < ADC_CHANNELS ==> r == Ok::<u8, SensorError>(channel),
        channel >= ADC_CHANNELS ==> r == Err::<u8, SensorError>(
            SensorError::ChannelOutOfRange { channel },
        ),
{
    if channel < ADC_CHANNELS {
        Ok(channel)
    } else {
        Err(SensorError::ChannelOutOfRange { channel })
    }
}

/// A raw reading scaled to microvolts, rounded toward zero.
pub open spec fn microvolts_of(raw: int) -> int {
    if raw >= 0 {
        raw * ADC_FULL_SCALE_MICROVOLTS / ADC_RAW_MAX as int
    } else {
        -((-raw) * ADC_FULL_SCALE_MICROVOLTS / ADC_RAW_MAX as int)
    }
}

/// Converts a raw reading of the converter to microvolts.
pub fn raw_to_microvolts(raw: i16) -> (r: i32)
    ensures
        r == microvolts_of(raw as int),
{
    let magnitude: u64 = if raw >= 0 {
        raw as u64
    } else {
        (-(raw as i32)) as u64
    };
    let scaled: u64 = magnitude * ADC_FULL_SCALE_MICROVOLTS / ADC_RAW_MAX;
    proof {
        assert(magnitude * 4_096_000 <= 32768 * 4_096_000) by (nonlinear_arith)
            requires
                magnitude <= 32768,
        ;
        vstd::arithmetic::div_mod::lemma_div_is_ordered(
            magnitude * 4_096_000,
            32768int * 4_096_000,
            32767,
        );
    }
    if raw >= 0 {
        scaled as i32
    } else {
        -(scaled as i32)
    }
}

/// `a / b` rounded toward negative infinity, for `b != 0`.
pub open spec fn floor_div(a: int, b: int) -> int {
    if b > 0 {
        a / b
    } else {
        (-a) / (-b)
    }
}

/// Numerator of the zero-moisture voltage `V0 = (Vn - V100 * Mn) / (1 - Mn)`,
/// scaled by one million.
pub open spec fn zero_moisture_numerator(s: SoilMoistureSettings) -> int {
    s.voltage_nominal_microvolts * PPM - s.voltage_100_microvolts * s.moisture_nominal_ppm
}

/// Denominator of the zero-moisture voltage, scaled by one million.
pub open spec fn zero_moisture_denominator(s: SoilMoistureSettings) -> int {
    PPM - s.moisture_nominal_ppm
}

/// The calibration fixes no line: the nominal moisture is full, so `V0` is
/// undefined, or `V100` equals `V0`.
pub open spec fn calibration_degenerate(s: SoilMoistureSettings) -> bool {
    zero_moisture_denominator(s) == 0 || s.voltage_100_microvolts == s.voltage_nominal_microvolts
}

/// Moisture in parts per million at voltage `v`: `(v - V0) / (V100 - V0)`,
/// both sides multiplied by the denominator of `V0`, rounded down.
pub open spec fn soil_moisture_spec(s: SoilMoistureSettings, v: int) -> int {
    let p = zero_moisture_numerator(s);
    let q = zero_moisture_denominator(s);
    floor_div(PPM * (v * q - p), s.voltage_100_microvolts * q - p)
}

proof fn lemma_floor_div_scaled(x: int, a: int, d: int)
    requires
        x > 0,
        d != 0,
    ensures
        floor_div(x * a, x * d) == floor_div(a, d),
{
    let (a1, d1) = if d > 0 {
        (a, d)
    } else {
        (-a, -d)
    };
    lemma_fundamental_div_mod(a1, d1);
    let q = a1 / d1;
    let r = a1 % d1;
    assert(x * a1 == q * (x * d1) + x * r) by (nonlinear_arith)
        requires
            a1 == d1 * q + r,
    ;
    assert(0 <= x * r < x * d1) by (nonlinear_arith)
        requires
            0 <= r < d1,
            x > 0,
    ;
    lemma_fundamental_div_mod_converse(x * a1, x * d1, q, x * r);
    assert(x * d > 0 <==> d > 0) by (nonlinear_arith)
        requires
            x > 0,
            d != 0,
    ;
    assert(-(x * a) == x * (-a) && -(x * d) == x * (-d)) by (nonlinear_arith);
}

/// Converts the soil probe's voltage to moisture in parts per million.
pub fn soil_moisture_ppm(settings: &SoilMoistureSettings, voltage_microvolts: i32) -> (r: Result<
    i64,
    SensorError,
>)
    ensures
        calibration_degenerate(*settings) ==> r == Err::<i64, SensorError>(
            SensorError::DegenerateCalibration,
        ),
        !calibration_degenerate(*settings) ==> {
            let m = soil_moisture_spec(*settings, voltage_microvolts as int);
            &&& i64::MIN <= m <= i64::MAX ==> r == Ok::<i64, SensorError>(m as i64)
            &&& !(i64::MIN <= m <= i64::MAX) ==> r == Err::<i64, SensorError>(
                SensorError::ReadingOutOfRange,
            )
        },
{
    let v100 = settings.voltage_100_microvolts as i128;
    let vn = settings.voltage_nominal_microvolts as i128;
    let mn = settings.moisture_nominal_ppm as i128;
    let q: i128 = PPM as i128 - mn;
    if q == 0 || v100 == vn {
        return Err(SensorError::DegenerateCalibration);
    }
    proof {
        assert(-0x8000_0000 * 0x8000_0000 <= v100 * mn <= 0x8000_0000 * 0x8000_0000)
            by (nonlinear_arith)
            requires
                -0x8000_0000 <= v100 < 0x8000_0000,
                -0x8000_0000 <= mn < 0x8000_0000,
        ;
        assert(-0x8000_0000 * 0x1_0000_0000 <= voltage_microvolts as i128 * q <= 0x8000_0000
            * 0x1_0000_0000) by (nonlinear_arith)
            requires
                -0x8000_0000 <= voltage_microvolts < 0x8000_0000,
                -0x1_0000_0000 <= q <= 0x1_0000_0000,
        ;
    }
    let p: i128 = vn * (PPM as i128) - v100 * mn;
    let num: i128 = voltage_microvolts as i128 * q - p;
    let den: i128 = v100 - vn;
    proof {
        let s = *settings;
        assert(v100 * q - p == PPM * den) by (nonlinear_arith)
            requires
                q == PPM - mn,
                p == vn * PPM - v100 * mn,
                den == v100 - vn,
        ;
        lemma_floor_div_scaled(PPM as int, num as int, den as int);
        assert(soil_moisture_spec(s, voltage_microvolts as int) == floor_div(
            num as int,
            den as int,
        ));
    }
    let (n, d) = if den > 0 {
        (num, den)
    } else {
        (-num, -den)
    };
    let quotient: i128 = if n >= 0 {
        ((n as u128) / (d as u128)) as i128
    } else {
        let up: u128 = ((-n) as u128 + d as u128 - 1) / (d as u128);
        proof {
            let nn = -(n as int);
            lemma_fundamental_div_mod(nn + d - 1, d as int);
            lemma_fundamental_div_mod(n as int, d as int);
            assert(-(up as int) == (n as int) / (d as int)) by (nonlinear_arith)
                requires
                    nn + d - 1 == d * up + (nn + d - 1) % (d as int),
                    0 <= (nn + d - 1) % (d as int) < d,
                    n as int == d * ((n as int) / (d as int)) + (n as int) % (d as int),
                    0 <= (n as int) % (d as int) < d,
                    nn == -(n as int),
                    nn > 0,
                    d > 0,
            ;
        }
        -(up as i128)
    };
    if quotient < i64::MIN as i128 || quotient > i64::MAX as i128 {
        return Err(SensorError::ReadingOutOfRange);
    }
    Ok(quotient as i64)
}

/// The two fixed points of the calibration: the full-moisture voltage reads
/// as one million parts per million, and the zero-moisture voltage, where it
/// is a whole number of microvolts, reads as zero.
pub proof fn lemma_soil_moisture_calibration(s: SoilMoistureSettings)
    requires
        !calibration_degenerate(s),
    ensures
        soil_moisture_spec(s, s.voltage_100_microvolts as int) == PPM,
        zero_moisture_numerator(s) % zero_moisture_denominator(s) == 0 ==> soil_moisture_spec(
            s,
            zero_moisture_numerator(s) / zero_moisture_denominator(s),
        ) == 0,
{
    let p = zero_moisture_numerator(s);
    let q = zero_moisture_denominator(s);
    let den = s.voltage_100_microvolts * q - p;
    assert(den == PPM * (s.voltage_100_microvolts - s.voltage_nominal_microvolts))
        by (nonlinear_arith)
        requires
            den == s.voltage_100_microvolts * q - p,
            q == PPM - s.moisture_nominal_ppm,
            p == s.voltage_nominal_microvolts * PPM - s.voltage_100_microvolts
                * s.moisture_nominal_ppm,
    ;
    assert(den != 0) by (nonlinear_arith)
        requires
            den == PPM * (s.voltage_100_microvolts - s.voltage_nominal_microvolts),
            s.voltage_100_microvolts != s.voltage_nominal_microvolts,
    ;
    assert(PPM * den / den == PPM) by (nonlinear_arith)
        requires
            den != 0,
    {
        if den > 0 {
            vstd::arithmetic::div_mod::lemma_div_multiples_vanish(PPM as int, den);
            assert(den * PPM == PPM * den);
        } else {
            vstd::arithmetic::div_mod::lemma_div_multiples_vanish(-PPM as int, -den);
            assert((-den) * (-PPM) == PPM * den);
        }
    }
    if den < 0 {
        assert(-(PPM * (s.voltage_100_microvolts * q - p)) == (-den) * PPM);
        vstd::arithmetic::div_mod::lemma_div_multiples_vanish(PPM as int, -den);
    } else {
        assert(PPM * (s.voltage_100_microvolts * q - p) == den * PPM);
        vstd::arithmetic::div_mod::lemma_div_multiples_vanish(PPM as int, den);
    }
    if p % q == 0 {
        let v0 = p / q;
        lemma_fundamental_div_mod(p, q);
        assert(v0 * q == p) by (nonlinear_arith)
            requires
                p == q * (p / q) + p % q,
                p % q == 0,
                v0 == p / q,
        ;
        assert(PPM * (v0 * q - p) == 0);
    }
}

/// The thermistor's resistance in milliohms when the divider's middle reads
/// `v` against the supply `l`, rounded down: with the thermistor between
/// supply and signal it is `Rd * (l - v) / v`, between signal and ground
/// `Rd * v / (l - v)`.
pub open spec fn thermistor_resistance_spec(s: ThermistorSettings, l: int, v: int) -> int {
    match s.resistor {
        VoltageDividerResistor::R1 => s.voltage_divider_resistance_milliohms * (l - v) / v,
        VoltageDividerResistor::R2 => s.voltage_divider_resistance_milliohms * v / (l - v),
    }
}

/// The calibration constants that the temperature formula divides by, or
/// takes the logarithm of.
pub open spec fn thermistor_degenerate(s: ThermistorSettings) -> bool {
    s.nominal_resistance_milliohms == 0 || s.nominal_temperature_millikelvin == 0
        || s.thermal_constant_millikelvin == 0
}

/// Computes the thermistor's resistance from the divider voltage. The
/// voltage must lie strictly between zero and the supply, the calibration
/// must leave no zero denominator, and the resistance must not be zero.
pub fn thermistor_resistance_milliohms(
    settings: &ThermistorSettings,
    logic_level_microvolts: i32,
    voltage_microvolts: i32,
) -> (r: Result<u64, SensorError>)
    ensures
        !(0 < voltage_microvolts < logic_level_microvolts) ==> r == Err::<u64, SensorError>(
            SensorError::VoltageOutOfRange { voltage_microvolts },
        ),
        0 < voltage_microvolts < logic_level_microvolts ==> {
            let res = thermistor_resistance_spec(
                *settings,
                logic_level_microvolts as int,
                voltage_microvolts as int,
            );
            r == if thermistor_degenerate(*settings) || res == 0 {
                Err::<u64, SensorError>(SensorError::DegenerateCalibration)
            } else {
                Ok::<u64, SensorError>(res as u64)
            }
        },
{
    if voltage_microvolts <= 0 || voltage_microvolts >= logic_level_microvolts {
        return Err(SensorError::VoltageOutOfRange { voltage_microvolts });
    }
    if settings.nominal_resistance_milliohms == 0 || settings.nominal_temperature_millikelvin == 0
        || settings.thermal_constant_millikelvin == 0 {
        return Err(SensorError::DegenerateCalibration);
    }
    let rd = settings.voltage_divider_resistance_milliohms as u64;
    let v = voltage_microvolts as u64;
    let rest = (logic_level_microvolts as i64 - voltage_microvolts as i64) as u64;
    assert(rd * rest <= 0xffff_ffffu64 * 0xffff_ffffu64) by (nonlinear_arith)
        requires
            rd <= 0xffff_ffff,
            rest <= 0xffff_ffff,
    ;
    assert(rd * v <= 0xffff_ffffu64 * 0xffff_ffffu64) by (nonlinear_arith)
        requires
            rd <= 0xffff_ffff,
            v <= 0xffff_ffff,
    ;
    let resistance: u64 = match settings.resistor {
        VoltageDividerResistor::R1 => rd * rest / v,
        VoltageDividerResistor::R2 => rd * v / rest,
    };
    if resistance == 0 {
        return Err(SensorError::DegenerateCalibration);
    }
    Ok(resistance)
}

proof fn lemma_floor_div_bounds(a: int, d: int)
    requires
        d != 0,
    ensures
        d > 0 ==> floor_div(a, d) * d <= a < floor_div(a, d) * d + d,
        d < 0 ==> floor_div(a, d) * d + d < a <= floor_div(a, d) * d,
{
    if d > 0 {
        lemma_fundamental_div_mod(a, d);
        let m = floor_div(a, d);
        assert(m == a / d);
        assert(m * d == d * (a / d)) by (nonlinear_arith)
            requires
                m == a / d,
        ;
    } else {
        lemma_fundamental_div_mod(-a, -d);
        let m = floor_div(a, d);
        assert(m == (-a) / (-d));
        assert(m * d == -((-d) * ((-a) / (-d)))) by (nonlinear_arith)
            requires
                m == (-a) / (-d),
        ;
    }
}

/// The reading is linear in the voltage: between any two voltages it changes
/// by the slope `q / (V100 - Vn)` parts per million per microvolt, where `q`
/// is the denominator of `V0`, up to less than one part per million of
/// rounding; and it moves in the direction of that slope.
pub proof fn lemma_soil_moisture_linear(s: SoilMoistureSettings, v1: int, v2: int)
    requires
        !calibration_degenerate(s),
    ensures
        ({
            let d = s.voltage_100_microvolts - s.voltage_nominal_microvolts;
            let q = zero_moisture_denominator(s);
            let m1 = soil_moisture_spec(s, v1);
            let m2 = soil_moisture_spec(s, v2);
            let err = (m2 - m1) * d - (v2 - v1) * q;
            &&& d > 0 ==> -d < err < d
            &&& d < 0 ==> d < err < -d
            &&& (v2 - v1) * q * d >= 0 ==> m1 <= m2
        }),
{
    let p = zero_moisture_numerator(s);
    let q = zero_moisture_denominator(s);
    let d = s.voltage_100_microvolts - s.voltage_nominal_microvolts;
    let a1 = v1 * q - p;
    let a2 = v2 * q - p;
    assert(s.voltage_100_microvolts * q - p == PPM * d) by (nonlinear_arith)
        requires
            q == PPM - s.moisture_nominal_ppm,
            p == s.voltage_nominal_microvolts * PPM - s.voltage_100_microvolts
                * s.moisture_nominal_ppm,
            d == s.voltage_100_microvolts - s.voltage_nominal_microvolts,
    ;
    lemma_floor_div_scaled(PPM as int, a1, d);
    lemma_floor_div_scaled(PPM as int, a2, d);
    let m1 = floor_div(a1, d);
    let m2 = floor_div(a2, d);
    assert(soil_moisture_spec(s, v1) == m1);
    assert(soil_moisture_spec(s, v2) == m2);
    lemma_floor_div_bounds(a1, d);
    lemma_floor_div_bounds(a2, d);
    assert(a2 - a1 == (v2 - v1) * q) by (nonlinear_arith)
        requires
            a1 == v1 * q - p,
            a2 == v2 * q - p,
    ;
    assert((m2 - m1) * d == m2 * d - m1 * d) by (nonlinear_arith);
    if (v2 - v1) * q * d >= 0 {
        if d > 0 {
            assert(a2 - a1 >= 0) by (nonlinear_arith)
                requires
                    (v2 - v1) * q * d >= 0,
                    d > 0,
                    a2 - a1 == (v2 - v1) * q,
            ;
            assert(m1 <= m2) by (nonlinear_arith)
                requires
                    m1 * d <= a1,
                    a2 < m2 * d + d,
                    a1 <= a2,
                    d > 0,
            ;
        } else {
            assert(a2 - a1 <= 0) by (nonlinear_arith)
                requires
                    (v2 - v1) * q * d >= 0,
                    d < 0,
                    a2 - a1 == (v2 - v1) * q,
            ;
            assert(m1 <= m2) by (nonlinear_arith)
                requires
                    a1 <= m1 * d,
                    m2 * d + d < a2,
                    a2 <= a1,
                    d < 0,
            ;
        }
    }
}

} // verus!
