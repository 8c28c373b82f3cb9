use vstd::prelude::*;

use crate::delay::MeasurementDelay;
use crate::sampling::{spec_build, SamplingConfiguration};
use crate::sampling::{build_sampling_configuration, OversamplingLevel, SensorMode};

verus! {

/// Everything fixed before polling starts.
#[derive(Clone, Copy, Debug, PartialEq, Eq, Structural)]
pub struct MonitorConfig {
    pub global_oversampling: OversamplingLevel,
    pub enable_temperature: bool,
    pub enable_pressure: bool,
    pub enable_humidity: bool,
    pub mode: SensorMode,
    pub measurement_delay: MeasurementDelay,
}

impl MonitorConfig {
    /// The sampling configuration these settings call for.
    pub open spec fn spec_sampling(self) -> SamplingConfiguration {
        spec_build(
            self.global_oversampling,
            self.enable_temperature,
            self.enable_pressure,
            self.enable_humidity,
            self.mode,
        )
    }

    /// Builds the sampling configuration from the oversampling level, the
    /// three flags and the mode.
    pub fn sampling(&self) -> (r: SamplingConfiguration)
        ensures
            r == self.spec_sampling(),
    {
        build_sampling_configuration(
            self.global_oversampling,
            self.enable_temperature,
            self.enable_pressure,
            self.enable_humidity,
            self.mode,
        )
    }
}

/// Where the polling loop stands. `Faulted` is terminal.
#[derive(Clone, Copy, Debug, PartialEq, Eq, Structural)]
pub enum LoopState {
    Uninitialized,
    Running,
    Faulted,
}

/// What the last action came to.
#[derive(Clone, Copy, Debug, PartialEq, Eq, Structural)]
pub enum LoopEvent {
    InitSucceeded,
    InitFailed,
    ReadSucceeded,
    ReadFailed,
    WaitElapsed,
}

/// What the driver of the loop does next.
#[derive(Clone, Copy, Debug, PartialEq, Eq, Structural)]
pub enum LoopAction {
    /// Open the bus and push the sampling configuration to the sensor.
    Initialize,
    /// Read one sample.
    ReadSample,
    /// Report the sample just read, then block for the delay.
    ReportAndWait(MeasurementDelay),
    /// Report the error and stop for good.
    Halt,
}

/// The state after `event` in state `s`.
pub open spec fn next_state(s: LoopState, event: LoopEvent) -> LoopState {
    match (s, event) {
        (LoopState::Uninitialized, LoopEvent::InitSucceeded) => LoopState::Running,
        (LoopState::Running, LoopEvent::ReadSucceeded) => LoopState::Running,
        (LoopState::Running, LoopEvent::WaitElapsed) => LoopState::Running,
        _ => LoopState::Faulted,
    }
}

/// The action that follows `event` in state `s`.
pub open spec fn next_action(s: LoopState, event: LoopEvent, delay: MeasurementDelay) -> LoopAction {
    match (s, event) {
        (LoopState::Uninitialized, LoopEvent::InitSucceeded) => LoopAction::ReadSample,
        (LoopState::Running, LoopEvent::ReadSucceeded) => LoopAction::ReportAndWait(delay),
        (LoopState::Running, LoopEvent::WaitElapsed) => LoopAction::ReadSample,
        _ => LoopAction::Halt,
    }
}

/// The state after a whole run of events.
pub open spec fn run(s: LoopState, events: Seq<LoopEvent>) -> LoopState
    decreases events.len(),
{
    if events.len() == 0 {
        s
    } else {
        run(next_state(s, events[0]), events.drop_first())
    }
}

/// The actions called for along a run of events, one per event.
pub open spec fn actions(s: LoopState, events: Seq<LoopEvent>, delay: MeasurementDelay) -> Seq<
    LoopAction,
>
    decreases events.len(),
{
    if events.len() == 0 {
        Seq::empty()
    } else {
        seq![next_action(s, events[0], delay)] + actions(
            next_state(s, events[0]),
            events.drop_first(),
            delay,
        )
    }
}

/// The number of successful reads along a run of events.
pub open spec fn completed_reads(s: LoopState, events: Seq<LoopEvent>) -> nat
    decreases events.len(),
{
    if events.len() == 0 {
        0
    } else {
        (if s == LoopState::Running && events[0] == LoopEvent::ReadSucceeded {
            1nat
        } else {
            0nat
        }) + completed_reads(next_state(s, events[0]), events.drop_first())
    }
}

/// The milliseconds of waiting that a sequence of actions asks for.
pub open spec fn waited_millis(acts: Seq<LoopAction>) -> nat
    decreases acts.len(),
{
    if acts.len() == 0 {
        0
    } else {
        (match acts[0] {
            LoopAction::ReportAndWait(d) => d.spec_millis(),
            _ => 0nat,
        }) + waited_millis(acts.drop_first())
    }
}

/// How the loop begins: with a warning when the delay is short, and with
/// initialization whatever the delay.
#[derive(Clone, Copy, Debug, PartialEq, Eq, Structural)]
pub struct Startup {
    pub warn_short_delay: bool,
    pub action: LoopAction,
}

/// The polling loop's decisions: its state and the delay it waits between
/// reads. Whoever runs it performs each action and hands back the event.
#[derive(Clone, Copy, Debug)]
pub struct PollingLoop {
    pub state: LoopState,
    pub delay: MeasurementDelay,
}

impl PollingLoop {
    /// A loop that has not yet initialized the sensor.
    pub fn new(config: &MonitorConfig) -> (r: PollingLoop)
        ensures
            r.state == LoopState::Uninitialized,
            r.delay == config.measurement_delay,
    {
        PollingLoop { state: LoopState::Uninitialized, delay: config.measurement_delay }
    }

    /// The first step: a warning flag for a short delay, and initialization,
    /// which a short delay does not prevent.
    pub fn start(&self) -> (r: Startup)
        ensures
            r.warn_short_delay == self.delay.is_short_spec(),
            r.action == LoopAction::Initialize,
    {
        Startup { warn_short_delay: self.delay.is_short(), action: LoopAction::Initialize }
    }

    /// Takes the outcome of the last action and returns the next one.
    pub fn step(&mut self, event: LoopEvent) -> (r: LoopAction)
        ensures
            final(self).state == next_state(old(self).state, event),
            final(self).delay == old(self).delay,
            r == next_action(old(self).state, event, old(self).delay),
    {
        match (self.state, event) {
            (LoopState::Uninitialized, LoopEvent::InitSucceeded) => {
                self.state = LoopState::Running;
                LoopAction::ReadSample
            },
            (LoopState::Running, LoopEvent::ReadSucceeded) => LoopAction::ReportAndWait(self.delay),
            (LoopState::Running, LoopEvent::WaitElapsed) => LoopAction::ReadSample,
            _ => {
                self.state = LoopState::Faulted;
                LoopAction::Halt
            },
        }
    }
}

/// Once faulted, the loop stays faulted and asks for nothing but `Halt`,
/// whatever events follow.
pub proof fn lemma_fault_is_terminal(events: Seq<LoopEvent>, delay: MeasurementDelay)
    ensures
        run(LoopState::Faulted, events) == LoopState::Faulted,
        actions(LoopState::Faulted, events, delay).len() == events.len(),
        forall|i: int|
            0 <= i < events.len() ==> #[trigger] actions(LoopState::Faulted, events, delay)[i]
                == LoopAction::Halt,
    decreases events.len(),
{
    if events.len() > 0 {
        lemma_fault_is_terminal(events.drop_first(), delay);
        let rest = actions(LoopState::Faulted, events.drop_first(), delay);
        assert(actions(LoopState::Faulted, events, delay) == seq![LoopAction::Halt] + rest);
    }
}

/// A failed read while running ends the loop: no read, nor any other cycle,
/// follows it, whatever events come after.
pub proof fn lemma_no_read_after_fault(events: Seq<LoopEvent>, delay: MeasurementDelay)
    ensures
        ({
            let all = seq![LoopEvent::ReadFailed] + events;
            let acts = actions(LoopState::Running, all, delay);
            &&& run(LoopState::Running, all) == LoopState::Faulted
            &&& acts.len() == all.len()
            &&& forall|i: int| 0 <= i < acts.len() ==> #[trigger] acts[i] == LoopAction::Halt
        }),
{
    let all = seq![LoopEvent::ReadFailed] + events;
    assert(all.drop_first() == events);
    lemma_fault_is_terminal(events, delay);
    assert(actions(LoopState::Running, all, delay) == seq![LoopAction::Halt] + actions(
        LoopState::Faulted,
        events,
        delay,
    ));
}

/// A failed initialization never reaches `Running` and never asks for a
/// read, whatever events come after.
pub proof fn lemma_init_failure_never_reads(events: Seq<LoopEvent>, delay: MeasurementDelay)
    ensures
        ({
            let all = seq![LoopEvent::InitFailed] + events;
            let acts = actions(LoopState::Uninitialized, all, delay);
            &&& run(LoopState::Uninitialized, all) == LoopState::Faulted
            &&& acts.len() == all.len()
            &&& forall|i: int| 0 <= i < acts.len() ==> #[trigger] acts[i] == LoopAction::Halt
        }),
{
    let all = seq![LoopEvent::InitFailed] + events;
    assert(all.drop_first() == events);
    lemma_fault_is_terminal(events, delay);
    assert(actions(LoopState::Uninitialized, all, delay) == seq![LoopAction::Halt] + actions(
        LoopState::Faulted,
        events,
        delay,
    ));
}

/// Along any run, the waiting asked for totals the configured delay once for
/// each successful read: N completed cycles are spaced by at least N delays.
pub proof fn lemma_wait_per_completed_read(
    s: LoopState,
    events: Seq<LoopEvent>,
    delay: MeasurementDelay,
)
    ensures
        waited_millis(actions(s, events, delay)) == completed_reads(s, events)
            * delay.spec_millis(),
    decreases events.len(),
{
    if events.len() > 0 {
        let s2 = next_state(s, events[0]);
        let rest = actions(s2, events.drop_first(), delay);
        lemma_wait_per_completed_read(s2, events.drop_first(), delay);
        let acts = actions(s, events, delay);
        assert(acts == seq![next_action(s, events[0], delay)] + rest);
        assert(acts.drop_first() == rest);
        let k: nat = if s == LoopState::Running && events[0] == LoopEvent::ReadSucceeded {
            1
        } else {
            0
        };
        let c = completed_reads(s2, events.drop_first());
        let m = delay.spec_millis();
        assert(completed_reads(s, events) == k + c);
        assert(waited_millis(acts) == k * m + waited_millis(rest));
        assert((k + c) * m == k * m + c * m) by (nonlinear_arith);
    } else {
        assert(actions(s, events, delay).len() == 0);
        assert(0 * delay.spec_millis() == 0);
    }
}

} // verus!
