//! Periodic snapshots of the sensor readings.
use vstd::prelude::*;
use crate::clock::current_timestamp;

verus! {

/// One snapshot: when it was taken (seconds since the Unix epoch), the
/// temperature in millidegrees Celsius and the soil moisture in parts per
/// million.
#[derive(Clone, Copy, Debug, PartialEq, Eq, Structural)]
pub struct DataRecord {
    pub timestamp: i64,
    pub temperature_millicelsius: i64,
    pub soil_moisture_ppm: i64,
}

impl DataRecord {
    /// A snapshot of the given readings, taken at `timestamp`.
    pub fn new_at(timestamp: i64, temperature_millicelsius: i64, soil_moisture_ppm: i64) -> (r:
        DataRecord)
        ensures
            r == (DataRecord { timestamp, temperature_millicelsius, soil_moisture_ppm }),
    {
        DataRecord { timestamp, temperature_millicelsius, soil_moisture_ppm }
    }

    /// A snapshot of the given readings, taken now.
    pub fn new(temperature_millicelsius: i64, soil_moisture_ppm: i64) -> (r: DataRecord)
        ensures
            exists|now: i64|
                r == (DataRecord { timestamp: now, temperature_millicelsius, soil_moisture_ppm }),
    {
        DataRecord::new_at(current_timestamp(), temperature_millicelsius, soil_moisture_ppm)
    }
}

} // verus!
