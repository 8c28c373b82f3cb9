use vstd::prelude::*;

verus! {

/// How many raw conversions the sensor averages into one reported value.
/// `Skip` turns the measurement of a quantity off.
#[derive(Clone, Copy, Debug, PartialEq, Eq, Structural)]
pub enum OversamplingLevel {
    Skip,
    X1,
    X2,
    X4,
    X8,
    X16,
}

impl OversamplingLevel {
    /// How many raw conversions are averaged; zero for `Skip`.
    pub open spec fn spec_factor(self) -> u8 {
        match self {
            OversamplingLevel::Skip => 0,
            OversamplingLevel::X1 => 1,
            OversamplingLevel::X2 => 2,
            OversamplingLevel::X4 => 4,
            OversamplingLevel::X8 => 8,
            OversamplingLevel::X16 => 16,
        }
    }

    /// How many raw conversions are averaged; zero for `Skip`.
    pub fn factor(&self) -> (r: u8)
        ensures
            r == self.spec_factor(),
    {
        match self {
            OversamplingLevel::Skip => 0,
            OversamplingLevel::X1 => 1,
            OversamplingLevel::X2 => 2,
            OversamplingLevel::X4 => 4,
            OversamplingLevel::X8 => 8,
            OversamplingLevel::X16 => 16,
        }
    }

    /// The factor to program into a driver that always converts every
    /// channel: a skipped quantity runs at the cheapest setting, one
    /// conversion, and its reading is dropped from the sample instead.
    pub fn driver_factor(&self) -> (r: u8)
        ensures
            *self == OversamplingLevel::Skip ==> r == 1,
            *self != OversamplingLevel::Skip ==> r == self.spec_factor(),
            r == 1 || r == 2 || r == 4 || r == 8 || r == 16,
    {
        match self {
            OversamplingLevel::Skip => 1,
            _ => self.factor(),
        }
    }
}

/// Operating mode of the sensor. `Normal` free-runs and refreshes its
/// results every standby interval; `Forced` takes one measurement per request
/// and then returns to `Sleep`.
#[derive(Clone, Copy, Debug, PartialEq, Eq, Structural)]
pub enum SensorMode {
    Sleep,
    Forced,
    Normal,
}

/// Oversampling per measured quantity, plus the operating mode. Pushed to the
/// device once, when a session starts.
#[derive(Clone, Copy, Debug, PartialEq, Eq, Structural)]
pub struct SamplingConfiguration {
    pub temperature: OversamplingLevel,
    pub pressure: OversamplingLevel,
    pub humidity: OversamplingLevel,
    pub mode: SensorMode,
}

/// The oversampling of one quantity: the global level when it is enabled,
/// `Skip` when it is not.
pub open spec fn level_for(enabled: bool, global: OversamplingLevel) -> OversamplingLevel {
    if enabled {
        global
    } else {
        OversamplingLevel::Skip
    }
}

/// The configuration that the builder produces.
pub open spec fn spec_build(
    global: OversamplingLevel,
    enable_temperature: bool,
    enable_pressure: bool,
    enable_humidity: bool,
    mode: SensorMode,
) -> SamplingConfiguration {
    SamplingConfiguration {
        temperature: level_for(enable_temperature, global),
        pressure: level_for(enable_pressure, global),
        humidity: level_for(enable_humidity, global),
        mode,
    }
}

fn select_level(enabled: bool, global: OversamplingLevel) -> (r: OversamplingLevel)
    ensures
        r == level_for(enabled, global),
{
    if enabled {
        global
    } else {
        OversamplingLevel::Skip
    }
}

/// Builds the sampling configuration: each quantity gets `global` when its
/// flag is set and `Skip` otherwise; the mode is taken as given.
pub fn build_sampling_configuration(
    global: OversamplingLevel,
    enable_temperature: bool,
    enable_pressure: bool,
    enable_humidity: bool,
    mode: SensorMode,
) -> (r: SamplingConfiguration)
    ensures
        r == spec_build(global, enable_temperature, enable_pressure, enable_humidity, mode),
        r.temperature == level_for(enable_temperature, global),
        r.pressure == level_for(enable_pressure, global),
        r.humidity == level_for(enable_humidity, global),
        r.mode == mode,
{
    SamplingConfiguration {
        temperature: select_level(enable_temperature, global),
        pressure: select_level(enable_pressure, global),
        humidity: select_level(enable_humidity, global),
        mode,
    }
}

/// Each quantity's level depends on its own flag and the global level alone:
/// a disabled quantity is `Skip`, an enabled one is `global`, whatever the
/// other two flags and the mode are.
pub proof fn lemma_per_field_independence(
    global: OversamplingLevel,
    enable_temperature: bool,
    enable_pressure: bool,
    enable_humidity: bool,
    mode: SensorMode,
    other_temperature: bool,
    other_pressure: bool,
    other_humidity: bool,
    other_mode: SensorMode,
)
    ensures
        ({
            let c = spec_build(global, enable_temperature, enable_pressure, enable_humidity, mode);
            &&& !enable_temperature ==> c.temperature == OversamplingLevel::Skip
            &&& enable_temperature ==> c.temperature == global
            &&& !enable_pressure ==> c.pressure == OversamplingLevel::Skip
            &&& enable_pressure ==> c.pressure == global
            &&& !enable_humidity ==> c.humidity == OversamplingLevel::Skip
            &&& enable_humidity ==> c.humidity == global
        }),
        spec_build(global, enable_temperature, enable_pressure, enable_humidity, mode).temperature
            == spec_build(global, enable_temperature, other_pressure, other_humidity, other_mode).temperature,
        spec_build(global, enable_temperature, enable_pressure, enable_humidity, mode).pressure
            == spec_build(global, other_temperature, enable_pressure, other_humidity, other_mode).pressure,
        spec_build(global, enable_temperature, enable_pressure, enable_humidity, mode).humidity
            == spec_build(global, other_temperature, other_pressure, enable_humidity, other_mode).humidity,
{
}

/// With a global level other than `Skip`, a quantity is skipped exactly when
/// its flag is off.
pub proof fn lemma_enabled_iff_not_skipped(
    global: OversamplingLevel,
    enable_temperature: bool,
    enable_pressure: bool,
    enable_humidity: bool,
    mode: SensorMode,
)
    requires
        global != OversamplingLevel::Skip,
    ensures
        ({
            let c = spec_build(global, enable_temperature, enable_pressure, enable_humidity, mode);
            &&& (c.temperature == OversamplingLevel::Skip) == !enable_temperature
            &&& (c.pressure == OversamplingLevel::Skip) == !enable_pressure
            &&& (c.humidity == OversamplingLevel::Skip) == !enable_humidity
        }),
{
}

/// The builder is a function of its inputs: equal inputs give equal
/// configurations.
pub proof fn lemma_builder_deterministic(
    global: OversamplingLevel,
    enable_temperature: bool,
    enable_pressure: bool,
    enable_humidity: bool,
    mode: SensorMode,
    first: SamplingConfiguration,
    second: SamplingConfiguration,
)
    requires
        first == spec_build(global, enable_temperature, enable_pressure, enable_humidity, mode),
        second == spec_build(global, enable_temperature, enable_pressure, enable_humidity, mode),
    ensures
        first == second,
{
}

} // verus!
