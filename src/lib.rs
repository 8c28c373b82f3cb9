//! Configuration, sample shaping and polling control for an I2C-attached
//! temperature / pressure / humidity sensor.

mod control;
mod delay;
mod sample;
mod sampling;

pub use control::{
    actions, completed_reads, lemma_fault_is_terminal, lemma_init_failure_never_reads,
    lemma_no_read_after_fault, lemma_wait_per_completed_read, next_action, next_state, run,
    waited_millis, LoopAction, LoopEvent, LoopState, MonitorConfig, PollingLoop, Startup,
};
pub use delay::{MeasurementDelay, NANOS_PER_MILLI, NANOS_PER_SEC, SHORT_DELAY_MILLIS};
pub use sample::{lemma_disabled_quantity_absent, reading_for, sample_from_readings, Sample};
pub use sampling::{
    build_sampling_configuration, lemma_builder_deterministic, lemma_enabled_iff_not_skipped,
    lemma_per_field_independence, level_for, spec_build, OversamplingLevel,
    SamplingConfiguration, SensorMode,
};
