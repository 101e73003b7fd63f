//! Configuration of the sensor, applied once before the first measurement.

use vstd::prelude::*;

verus! {

/// Oversampling of one measurement channel.
#[derive(Debug, Clone, Copy, PartialEq, Eq, Structural)]
pub enum Oversampling {
    Skipped,
    X1,
    X2,
    X4,
    X8,
    X16,
}

/// Size of the infinite-impulse-response filter on the temperature channel.
#[derive(Debug, Clone, Copy, PartialEq, Eq, Structural)]
pub enum FilterSize {
    Size0,
    Size1,
    Size3,
    Size7,
    Size15,
    Size31,
    Size63,
    Size127,
}

/// Where the sensor answers on its bus.
#[derive(Debug, Clone, Copy, PartialEq, Eq, Structural)]
pub enum SensorAddress {
    /// The primary address of the sensor.
    Primary,
    /// The secondary address of the sensor.
    Secondary,
    /// Any other address.
    Other(u8),
}

/// How the sensor takes its measurements.
#[derive(Debug, Clone, Copy, PartialEq, Eq, Structural)]
pub enum PowerMode {
    /// The sensor rests.
    Sleep,
    /// The sensor takes one measurement each time it is triggered.
    Forced,
}

/// Profile of the gas heater.
#[derive(Debug, Clone, Copy, PartialEq, Eq, Structural)]
pub struct HeaterProfile {
    /// How long the heater runs, in milliseconds.
    pub duration_ms: u64,
    /// Target temperature of the heater plate, in degrees Celsius.
    pub temperature: u16,
    /// Ambient temperature the profile is computed for, in degrees Celsius.
    pub ambient_temperature: i8,
}

/// What the sensor is configured with. The value is fixed when the process
/// starts and never changes afterwards.
#[derive(Debug, Clone, Copy, PartialEq, Eq, Structural)]
pub struct SensorSettings {
    pub humidity_oversampling: Oversampling,
    pub pressure_oversampling: Oversampling,
    pub temperature_oversampling: Oversampling,
    pub temperature_filter: FilterSize,
    pub heater: HeaterProfile,
    pub run_gas: bool,
}

/// The stock settings: humidity sampled twice, pressure four times and
/// temperature eight times, a filter of size 3, and a gas measurement that
/// heats to 320 degrees for 1500 ms at 25 degrees ambient temperature.
pub open spec fn stock_settings() -> SensorSettings {
    SensorSettings {
        humidity_oversampling: Oversampling::X2,
        pressure_oversampling: Oversampling::X4,
        temperature_oversampling: Oversampling::X8,
        temperature_filter: FilterSize::Size3,
        heater: HeaterProfile { duration_ms: 1500, temperature: 320, ambient_temperature: 25 },
        run_gas: true,
    }
}

impl Default for SensorSettings {
    fn default() -> (settings: SensorSettings)
        ensures
            settings == stock_settings(),
    {
        SensorSettings {
            humidity_oversampling: Oversampling::X2,
            pressure_oversampling: Oversampling::X4,
            temperature_oversampling: Oversampling::X8,
            temperature_filter: FilterSize::Size3,
            heater: HeaterProfile { duration_ms: 1500, temperature: 320, ambient_temperature: 25 },
            run_gas: true,
        }
    }
}

} // verus!
