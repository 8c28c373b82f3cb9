use vstd::prelude::*;

use crate::sampling::{spec_build, OversamplingLevel, SamplingConfiguration, SensorMode};

verus! {

/// One read of the sensor: temperature (degrees Celsius), pressure (hPa) and
/// relative humidity (%RH). A quantity that was not measured is `None`, which
/// is kept apart from a reading of zero.
#[derive(Debug)]
pub struct Sample<T> {
    pub temperature: Option<T>,
    pub pressure: Option<T>,
    pub humidity: Option<T>,
}

/// A raw reading as it enters a sample: absent when the quantity is skipped.
pub open spec fn reading_for<T>(level: OversamplingLevel, value: T) -> Option<T> {
    if level == OversamplingLevel::Skip {
        None
    } else {
        Some(value)
    }
}

fn keep_reading<T>(level: OversamplingLevel, value: T) -> (r: Option<T>)
    ensures
        r == reading_for(level, value),
{
    if level == OversamplingLevel::Skip {
        None
    } else {
        Some(value)
    }
}

/// Shapes the driver's three raw readings into a `Sample`: each quantity that
/// `config` skips is absent, each other one holds its reading.
pub fn sample_from_readings<T>(
    config: &SamplingConfiguration,
    temperature: T,
    pressure: T,
    humidity: T,
) -> (r: Sample<T>)
    ensures
        r.temperature == reading_for(config.temperature, temperature),
        r.pressure == reading_for(config.pressure, pressure),
        r.humidity == reading_for(config.humidity, humidity),
{
    Sample {
        temperature: keep_reading(config.temperature, temperature),
        pressure: keep_reading(config.pressure, pressure),
        humidity: keep_reading(config.humidity, humidity),
    }
}

/// A quantity whose flag was off when the configuration was built is absent
/// from every sample shaped under that configuration, whatever the driver
/// reported for it; one whose flag was on holds the reading, provided the
/// global level is not `Skip`.
pub proof fn lemma_disabled_quantity_absent<T>(
    global: OversamplingLevel,
    enable_temperature: bool,
    enable_pressure: bool,
    enable_humidity: bool,
    mode: SensorMode,
    temperature: T,
    pressure: T,
    humidity: T,
)
    ensures
        ({
            let c = spec_build(global, enable_temperature, enable_pressure, enable_humidity, mode);
            &&& !enable_temperature ==> reading_for(c.temperature, temperature) is None
            &&& !enable_pressure ==> reading_for(c.pressure, pressure) is None
            &&& !enable_humidity ==> reading_for(c.humidity, humidity) is None
            &&& (enable_temperature && global != OversamplingLevel::Skip) ==> reading_for(
                c.temperature,
                temperature,
            ) == Some(temperature)
            &&& (enable_pressure && global != OversamplingLevel::Skip) ==> reading_for(
                c.pressure,
                pressure,
            ) == Some(pressure)
            &&& (enable_humidity && global != OversamplingLevel::Skip) ==> reading_for(
                c.humidity,
                humidity,
            ) == Some(humidity)
        }),
{
}

} // verus!
