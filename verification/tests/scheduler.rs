use sensor_relay::metric::{NamedMetric, Quantity};
use sensor_relay::outcome::{AggregateError, WriteError, WriteOutcome};
use sensor_relay::reading::{DispatchPolicy, Readiness, Reading};
use sensor_relay::scheduler::{Action, Config, Event, Phase, Scheduler, StopReason};
use sensor_relay::settings::{PowerMode, SensorAddress, SensorSettings};

type Ev = Event<f64>;

fn sample() -> Reading<f64> {
    Reading { temperature: 22.5, pressure: 1013.25, humidity: 40.0, gas_resistance: 9000.0 }
}

/// A scheduler that has been through startup and waits for its first tick.
fn armed(config: Config) -> Scheduler {
    let mut scheduler = Scheduler::new(config);
    assert!(matches!(scheduler.step(Ev::Started), Action::OpenSensor(_)));
    assert!(matches!(scheduler.step(Ev::Done), Action::Configure(_)));
    assert!(matches!(scheduler.step(Ev::Done), Action::SetMode(_)));
    assert!(matches!(scheduler.step(Ev::Done), Action::AwaitTick(Ok(()))));
    scheduler
}

#[test]
fn a_new_scheduler_has_not_started() {
    let scheduler = Scheduler::new(Config::default());
    assert_eq!(scheduler.phase(), Phase::Created);
    assert_eq!(scheduler.config(), Config::default());
}

#[test]
fn startup_opens_configures_and_arms_in_that_order() {
    let config = Config::default();
    let mut scheduler = Scheduler::new(config);

    match scheduler.step(Ev::Started) {
        Action::OpenSensor(address) => assert_eq!(address, SensorAddress::Primary),
        other => panic!("expected the sensor to be opened, got {:?}", other),
    }
    assert_eq!(scheduler.phase(), Phase::Opening);

    match scheduler.step(Ev::Done) {
        Action::Configure(settings) => assert_eq!(settings, SensorSettings::default()),
        other => panic!("expected the settings to be applied, got {:?}", other),
    }
    assert_eq!(scheduler.phase(), Phase::Configuring);

    match scheduler.step(Ev::Done) {
        Action::SetMode(mode) => assert_eq!(mode, PowerMode::Forced),
        other => panic!("expected forced mode to be set, got {:?}", other),
    }
    assert_eq!(scheduler.phase(), Phase::Arming);

    assert!(matches!(scheduler.step(Ev::Done), Action::AwaitTick(Ok(()))));
    assert_eq!(scheduler.phase(), Phase::Idle);
    assert_eq!(scheduler.config(), config);
}

#[test]
fn the_sensor_is_opened_where_the_configuration_says() {
    let config = Config { address: SensorAddress::Other(0x42), ..Config::default() };
    let mut scheduler = Scheduler::new(config);
    match scheduler.step(Ev::Started) {
        Action::OpenSensor(address) => assert_eq!(address, SensorAddress::Other(0x42)),
        other => panic!("expected the sensor to be opened, got {:?}", other),
    }
}

#[test]
fn a_failure_during_startup_is_fatal() {
    let reasons =
        [StopReason::SensorUnreachable, StopReason::SettingsRejected, StopReason::ModeRejected];
    for (successes, reason) in reasons.iter().enumerate() {
        let mut scheduler = Scheduler::new(Config::default());
        scheduler.step(Ev::Started);
        for _ in 0..successes {
            scheduler.step(Ev::Done);
        }
        match scheduler.step(Ev::Failed) {
            Action::Halt(stopped) => {
                assert_eq!(stopped, *reason);
                assert!(stopped.is_failure());
            }
            other => panic!("expected a halt, got {:?}", other),
        }
        assert_eq!(scheduler.phase(), Phase::Halted);
    }
}

#[test]
fn a_stale_reading_is_dispatched_as_four_metrics() {
    let mut scheduler = armed(Config::default());
    assert!(matches!(scheduler.step(Ev::Tick), Action::Measure));
    assert_eq!(scheduler.phase(), Phase::Measuring);
    match scheduler.step(Ev::Measured(sample(), Readiness::Stale)) {
        Action::Dispatch(metrics) => assert_eq!(
            metrics,
            [
                NamedMetric { quantity: Quantity::Temperature, value: 22.5 },
                NamedMetric { quantity: Quantity::Pressure, value: 1013.25 },
                NamedMetric { quantity: Quantity::Humidity, value: 40.0 },
                NamedMetric { quantity: Quantity::GasResistance, value: 9000.0 },
            ]
        ),
        other => panic!("expected a dispatch, got {:?}", other),
    }
    assert_eq!(scheduler.phase(), Phase::Dispatching);
    assert!(matches!(
        scheduler.step(Ev::Joined([Ok(()), Ok(()), Ok(()), Ok(())])),
        Action::AwaitTick(Ok(()))
    ));
    assert_eq!(scheduler.phase(), Phase::Idle);
}

#[test]
fn a_fresh_reading_is_skipped_without_any_write() {
    let mut scheduler = armed(Config::default());
    scheduler.step(Ev::Tick);
    assert!(matches!(
        scheduler.step(Ev::Measured(sample(), Readiness::Fresh)),
        Action::AwaitTick(Ok(()))
    ));
    assert_eq!(scheduler.phase(), Phase::Idle);
}

#[test]
fn the_policy_can_be_turned_around() {
    let config = Config { policy: DispatchPolicy::WhenFresh, ..Config::default() };
    let mut scheduler = armed(config);
    scheduler.step(Ev::Tick);
    assert!(matches!(
        scheduler.step(Ev::Measured(sample(), Readiness::Stale)),
        Action::AwaitTick(Ok(()))
    ));
    scheduler.step(Ev::Tick);
    assert!(matches!(
        scheduler.step(Ev::Measured(sample(), Readiness::Fresh)),
        Action::Dispatch(_)
    ));
}

#[test]
fn a_failed_write_is_reported_and_the_loop_goes_on() {
    let mut scheduler = armed(Config::default());
    scheduler.step(Ev::Tick);
    scheduler.step(Ev::Measured(sample(), Readiness::Stale));
    let outcomes: [WriteOutcome; 4] = [Ok(()), Ok(()), Err(WriteError::Communication), Ok(())];
    match scheduler.step(Ev::Joined(outcomes)) {
        Action::AwaitTick(result) => assert_eq!(
            result,
            Err(AggregateError { quantity: Quantity::Humidity, error: WriteError::Communication })
        ),
        other => panic!("expected to wait for the next tick, got {:?}", other),
    }
    assert_eq!(scheduler.phase(), Phase::Idle);
    assert!(matches!(scheduler.step(Ev::Tick), Action::Measure));
}

#[test]
fn a_failed_measurement_is_fatal() {
    let mut scheduler = armed(Config::default());
    scheduler.step(Ev::Tick);
    match scheduler.step(Ev::Failed) {
        Action::Halt(reason) => {
            assert_eq!(reason, StopReason::MeasurementFailed);
            assert!(reason.is_failure());
        }
        other => panic!("expected a halt, got {:?}", other),
    }
    assert_eq!(scheduler.phase(), Phase::Halted);
}

#[test]
fn a_timer_that_ran_out_ends_the_process_without_failure() {
    let mut scheduler = armed(Config::default());
    match scheduler.step(Ev::TimerStopped) {
        Action::Halt(reason) => {
            assert_eq!(reason, StopReason::TimerStopped);
            assert!(!reason.is_failure());
        }
        other => panic!("expected a halt, got {:?}", other),
    }
    assert_eq!(scheduler.phase(), Phase::Halted);
}

#[test]
fn every_stop_names_the_stage_that_failed() {
    assert_eq!(StopReason::SensorUnreachable.message(), "Init failed");
    assert_eq!(StopReason::SettingsRejected.message(), "Setting sensor settings failed");
    assert_eq!(StopReason::ModeRejected.message(), "Setting sensor mode failed");
    assert_eq!(StopReason::MeasurementFailed.message(), "Retrieving sensor data failed");
    assert_eq!(StopReason::TimerStopped.message(), "Timer stopped");
}

#[test]
fn a_halted_scheduler_ignores_everything() {
    let mut scheduler = armed(Config::default());
    scheduler.step(Ev::TimerStopped);
    for event in [
        Ev::Started,
        Ev::Done,
        Ev::Failed,
        Ev::Tick,
        Ev::TimerStopped,
        Ev::Measured(sample(), Readiness::Stale),
        Ev::Joined([Ok(()), Ok(()), Ok(()), Ok(())]),
    ] {
        assert!(matches!(scheduler.step(event), Action::Ignore));
        assert_eq!(scheduler.phase(), Phase::Halted);
    }
}

#[test]
fn an_event_out_of_turn_changes_nothing() {
    let mut scheduler = Scheduler::new(Config::default());
    assert!(matches!(scheduler.step(Ev::Tick), Action::Ignore));
    assert_eq!(scheduler.phase(), Phase::Created);

    let mut scheduler = armed(Config::default());
    assert!(matches!(scheduler.step(Ev::Done), Action::Ignore));
    assert!(matches!(scheduler.step(Ev::Measured(sample(), Readiness::Stale)), Action::Ignore));
    assert_eq!(scheduler.phase(), Phase::Idle);

    scheduler.step(Ev::Tick);
    assert!(matches!(scheduler.step(Ev::Tick), Action::Ignore));
    assert_eq!(scheduler.phase(), Phase::Measuring);

    scheduler.step(Ev::Measured(sample(), Readiness::Stale));
    assert!(matches!(scheduler.step(Ev::Tick), Action::Ignore));
    assert!(matches!(scheduler.step(Ev::Failed), Action::Ignore));
    assert_eq!(scheduler.phase(), Phase::Dispatching);
}

/// A clock that advances in fixed steps and a timer that fires on every
/// multiple of the period.
struct FakeClock {
    now: u64,
    step: u64,
    period: u64,
}

impl FakeClock {
    /// Advances to the next firing of the timer.
    fn next_tick(&mut self) {
        loop {
            self.now += self.step;
            if self.now % self.period == 0 {
                return;
            }
        }
    }
}

#[test]
fn one_measurement_per_tick() {
    let ticks = 50;
    let mut clock = FakeClock { now: 0, step: 20, period: 60 };
    let mut scheduler = Scheduler::new(Config::default());
    let mut event = Ev::Started;
    let mut measurements = 0;
    let mut dispatches = 0;
    let mut fired = 0;
    loop {
        event = match scheduler.step(event) {
            Action::OpenSensor(_) | Action::Configure(_) | Action::SetMode(_) => Ev::Done,
            Action::AwaitTick(_) => {
                if fired == ticks {
                    break;
                }
                clock.next_tick();
                fired += 1;
                assert_eq!(measurements, fired - 1);
                Ev::Tick
            }
            Action::Measure => {
                measurements += 1;
                assert_eq!(measurements, fired);
                let readiness =
                    if measurements % 3 == 0 { Readiness::Fresh } else { Readiness::Stale };
                Ev::Measured(sample(), readiness)
            }
            Action::Dispatch(_) => {
                dispatches += 1;
                Ev::Joined([Ok(()), Err(WriteError::Syntax), Ok(()), Ok(())])
            }
            Action::Halt(reason) => panic!("the scheduler halted: {:?}", reason),
            Action::Ignore => panic!("the scheduler ignored an event in turn"),
        };
    }
    assert_eq!(clock.now, 60 * 50);
    assert_eq!(measurements, 50);
    assert_eq!(dispatches, 50 - 50 / 3);
}

#[test]
fn ticks_out_of_turn_start_no_measurement() {
    let mut scheduler = armed(Config::default());
    let mut measurements = 0;
    for _ in 0..5 {
        if let Action::Measure = scheduler.step(Ev::Tick) {
            measurements += 1;
        }
    }
    assert_eq!(measurements, 1);
    assert_eq!(scheduler.phase(), Phase::Measuring);
}
