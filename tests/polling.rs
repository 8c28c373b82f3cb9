use bme280_monitor::{
    LoopAction, LoopEvent, LoopState, MeasurementDelay, MonitorConfig, OversamplingLevel,
    PollingLoop, SensorMode,
};

fn config(delay: MeasurementDelay) -> MonitorConfig {
    MonitorConfig {
        global_oversampling: OversamplingLevel::X2,
        enable_temperature: true,
        enable_pressure: true,
        enable_humidity: false,
        mode: SensorMode::Normal,
        measurement_delay: delay,
    }
}

#[test]
fn config_builds_sampling() {
    let s = config(MeasurementDelay::from_millis(1000)).sampling();
    assert_eq!(s.temperature, OversamplingLevel::X2);
    assert_eq!(s.pressure, OversamplingLevel::X2);
    assert_eq!(s.humidity, OversamplingLevel::Skip);
    assert_eq!(s.mode, SensorMode::Normal);
}

#[test]
fn successful_cycles_wait_the_delay_each() {
    let delay = MeasurementDelay::new(1, 0).unwrap();
    let mut lp = PollingLoop::new(&config(delay));
    let start = lp.start();
    assert!(!start.warn_short_delay);
    assert_eq!(start.action, LoopAction::Initialize);
    assert_eq!(lp.step(LoopEvent::InitSucceeded), LoopAction::ReadSample);
    assert_eq!(lp.state, LoopState::Running);
    let mut waited: u128 = 0;
    for _ in 0..5 {
        match lp.step(LoopEvent::ReadSucceeded) {
            LoopAction::ReportAndWait(d) => waited += d.as_millis(),
            other => panic!("unexpected {:?}", other),
        }
        assert_eq!(lp.step(LoopEvent::WaitElapsed), LoopAction::ReadSample);
    }
    assert_eq!(waited, 5 * 1000);
    assert_eq!(lp.state, LoopState::Running);
}

#[test]
fn read_failure_is_terminal() {
    let mut lp = PollingLoop::new(&config(MeasurementDelay::from_millis(1000)));
    assert_eq!(lp.step(LoopEvent::InitSucceeded), LoopAction::ReadSample);
    assert!(matches!(lp.step(LoopEvent::ReadSucceeded), LoopAction::ReportAndWait(_)));
    assert_eq!(lp.step(LoopEvent::WaitElapsed), LoopAction::ReadSample);
    assert_eq!(lp.step(LoopEvent::ReadFailed), LoopAction::Halt);
    assert_eq!(lp.state, LoopState::Faulted);
    for e in [LoopEvent::WaitElapsed, LoopEvent::ReadSucceeded, LoopEvent::InitSucceeded] {
        assert_eq!(lp.step(e), LoopAction::Halt);
        assert_eq!(lp.state, LoopState::Faulted);
    }
}

#[test]
fn init_failure_never_runs() {
    let mut lp = PollingLoop::new(&config(MeasurementDelay::from_millis(1000)));
    assert_eq!(lp.start().action, LoopAction::Initialize);
    assert_eq!(lp.step(LoopEvent::InitFailed), LoopAction::Halt);
    assert_eq!(lp.state, LoopState::Faulted);
    assert_eq!(lp.step(LoopEvent::InitSucceeded), LoopAction::Halt);
    assert_eq!(lp.state, LoopState::Faulted);
}

#[test]
fn short_delay_warns_but_starts() {
    let lp = PollingLoop::new(&config(MeasurementDelay::from_millis(5)));
    let start = lp.start();
    assert!(start.warn_short_delay);
    assert_eq!(start.action, LoopAction::Initialize);
    assert_eq!(lp.state, LoopState::Uninitialized);
}

#[test]
fn out_of_order_events_fault() {
    let mut lp = PollingLoop::new(&config(MeasurementDelay::from_millis(1000)));
    assert_eq!(lp.step(LoopEvent::ReadSucceeded), LoopAction::Halt);
    assert_eq!(lp.state, LoopState::Faulted);
    let mut lp = PollingLoop::new(&config(MeasurementDelay::from_millis(1000)));
    lp.step(LoopEvent::InitSucceeded);
    assert_eq!(lp.step(LoopEvent::InitSucceeded), LoopAction::Halt);
    assert_eq!(lp.state, LoopState::Faulted);
}
