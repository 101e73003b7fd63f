//! The cycle scheduler: what to do next, given what just happened.
//!
//! The scheduler never waits and never touches the sensor, the timer or the
//! network. It is a state machine: the driving program performs the action
//! the scheduler last handed out and reports the result as the next event.
//! Startup opens the sensor, applies the settings once and arms forced mode;
//! after that each tick of the timer starts one cycle of measuring,
//! extracting and dispatching. Extracting the metrics from a reading takes no
//! waiting, so it has no phase of its own: it happens within the step that
//! takes the reading.

use crate::metric::{extract_with, extracted, NamedMetric};
use crate::outcome::{aggregate, aggregated, AggregateError, WriteOutcome};
use crate::reading::{DispatchPolicy, Readiness, Reading};
use crate::settings::{stock_settings, PowerMode, SensorAddress, SensorSettings};
use vstd::prelude::*;

verus! {

/// Seconds between two ticks of the timer.
pub const PERIOD_SECONDS: u64 = 60;

/// What a scheduler is set up with. Built once when the process starts.
#[derive(Debug, Clone, Copy, PartialEq, Eq, Structural)]
pub struct Config {
    /// Which readings are forwarded.
    pub policy: DispatchPolicy,
    /// Where the sensor answers on its bus.
    pub address: SensorAddress,
    /// What the sensor is configured with.
    pub settings: SensorSettings,
}

/// The stock configuration: forward unless fresh, the sensor at its primary
/// address, with the stock sensor settings.
pub open spec fn stock_config() -> Config {
    Config {
        policy: DispatchPolicy::UnlessFresh,
        address: SensorAddress::Primary,
        settings: stock_settings(),
    }
}

impl Default for Config {
    fn default() -> (config: Config)
        ensures
            config == stock_config(),
    {
        Config {
            policy: DispatchPolicy::default(),
            address: SensorAddress::Primary,
            settings: SensorSettings::default(),
        }
    }
}

/// Where the scheduler stands.
#[derive(Debug, Clone, Copy, PartialEq, Eq, Structural)]
pub enum Phase {
    /// Nothing has happened yet.
    Created,
    /// The sensor is being opened.
    Opening,
    /// The settings are being applied.
    Configuring,
    /// Forced mode is being set.
    Arming,
    /// Waiting for the timer to fire.
    Idle,
    /// A measurement is under way.
    Measuring,
    /// The four writes of a cycle are under way.
    Dispatching,
    /// The scheduler has stopped for good.
    Halted,
}

/// Why the scheduler stopped.
#[derive(Debug, Clone, Copy, PartialEq, Eq, Structural)]
pub enum StopReason {
    /// The sensor could not be reached or did not identify itself.
    SensorUnreachable,
    /// The sensor refused the settings.
    SettingsRejected,
    /// The sensor refused the power mode.
    ModeRejected,
    /// The sensor failed to trigger or deliver a measurement.
    MeasurementFailed,
    /// The timer will not fire again.
    TimerStopped,
}

impl StopReason {
    /// Whether the process ends in failure. Only a timer that ran out ends it
    /// in success.
    pub open spec fn failure(self) -> bool {
        self != StopReason::TimerStopped
    }

    /// What the error log says about the stop: the stage that failed.
    pub open spec fn stage(self) -> Seq<char> {
        match self {
            StopReason::SensorUnreachable => "Init failed"@,
            StopReason::SettingsRejected => "Setting sensor settings failed"@,
            StopReason::ModeRejected => "Setting sensor mode failed"@,
            StopReason::MeasurementFailed => "Retrieving sensor data failed"@,
            StopReason::TimerStopped => "Timer stopped"@,
        }
    }

    /// Whether the process ends in failure.
    pub fn is_failure(self) -> (failed: bool)
        ensures
            failed == self.failure(),
    {
        match self {
            StopReason::TimerStopped => false,
            _ => true,
        }
    }

    /// What the error log says about the stop: the stage that failed.
    pub fn message(self) -> (message: &'static str)
        ensures
            message@ == self.stage(),
    {
        match self {
            StopReason::SensorUnreachable => "Init failed",
            StopReason::SettingsRejected => "Setting sensor settings failed",
            StopReason::ModeRejected => "Setting sensor mode failed",
            StopReason::MeasurementFailed => "Retrieving sensor data failed",
            StopReason::TimerStopped => "Timer stopped",
        }
    }
}

/// What the driving program reports to the scheduler.
#[derive(Debug)]
pub enum Event<V> {
    /// The process has started.
    Started,
    /// The startup step that was asked for succeeded.
    Done,
    /// What was asked of the sensor failed.
    Failed,
    /// The timer fired.
    Tick,
    /// The timer will not fire again.
    TimerStopped,
    /// The sensor delivered a reading.
    Measured(Reading<V>, Readiness),
    /// All four writes have ended, each in success or failure.
    Joined([WriteOutcome; 4]),
}

/// What the scheduler asks the driving program to do next.
#[derive(Debug)]
pub enum Action<V> {
    /// Open the sensor at the address on its bus; report `Done` or `Failed`.
    OpenSensor(SensorAddress),
    /// Apply the settings to the sensor; report `Done` or `Failed`.
    Configure(SensorSettings),
    /// Set the sensor's power mode; report `Done` or `Failed`.
    SetMode(PowerMode),
    /// Wait for the timer; report `Tick` or `TimerStopped`. Carries the result
    /// of the dispatch that just ended, for the log; `Ok` where none ended.
    AwaitTick(Result<(), AggregateError>),
    /// Trigger one measurement and read it back; report `Measured` or `Failed`.
    Measure,
    /// Start one write per metric, all four at once, and wait until each has
    /// ended; report `Joined`.
    Dispatch([NamedMetric<V>; 4]),
    /// End the process.
    Halt(StopReason),
    /// The event was not the answer to what was asked for. Nothing changed;
    /// carry on with what was asked before.
    Ignore,
}

/// The events that answer what the scheduler asked for in a phase.
pub open spec fn expected<V>(phase: Phase, event: Event<V>) -> bool {
    match phase {
        Phase::Created => event is Started,
        Phase::Opening | Phase::Configuring | Phase::Arming => event is Done || event is Failed,
        Phase::Idle => event is Tick || event is TimerStopped,
        Phase::Measuring => event is Measured || event is Failed,
        Phase::Dispatching => event is Joined,
        Phase::Halted => false,
    }
}

/// The transition of the scheduler: the phase it moves to and the action it
/// hands out when `event` arrives in `phase`.
pub open spec fn step_of<V>(config: Config, phase: Phase, event: Event<V>) -> (Phase, Action<V>) {
    match (phase, event) {
        (Phase::Created, Event::Started) => (Phase::Opening, Action::OpenSensor(config.address)),
        (Phase::Opening, Event::Done) => (Phase::Configuring, Action::Configure(config.settings)),
        (Phase::Opening, Event::Failed) => (
            Phase::Halted,
            Action::Halt(StopReason::SensorUnreachable),
        ),
        (Phase::Configuring, Event::Done) => (Phase::Arming, Action::SetMode(PowerMode::Forced)),
        (Phase::Configuring, Event::Failed) => (
            Phase::Halted,
            Action::Halt(StopReason::SettingsRejected),
        ),
        (Phase::Arming, Event::Done) => (Phase::Idle, Action::AwaitTick(Ok(()))),
        (Phase::Arming, Event::Failed) => (Phase::Halted, Action::Halt(StopReason::ModeRejected)),
        (Phase::Idle, Event::Tick) => (Phase::Measuring, Action::Measure),
        (Phase::Idle, Event::TimerStopped) => (
            Phase::Halted,
            Action::Halt(StopReason::TimerStopped),
        ),
        (Phase::Measuring, Event::Measured(reading, readiness)) => match extracted(
            config.policy,
            reading,
            readiness,
        ) {
            Some(metrics) => (Phase::Dispatching, Action::Dispatch(metrics)),
            None => (Phase::Idle, Action::AwaitTick(Ok(()))),
        },
        (Phase::Measuring, Event::Failed) => (
            Phase::Halted,
            Action::Halt(StopReason::MeasurementFailed),
        ),
        (Phase::Dispatching, Event::Joined(outcomes)) => (
            Phase::Idle,
            Action::AwaitTick(aggregated(outcomes)),
        ),
        _ => (phase, Action::Ignore),
    }
}

/// The scheduler of the sampling-and-delivery loop.
#[derive(Debug)]
pub struct Scheduler {
    config: Config,
    phase: Phase,
}

impl Scheduler {
    /// The configuration the scheduler was made with.
    pub closed spec fn config_of(&self) -> Config {
        self.config
    }

    /// The phase the scheduler is in.
    pub closed spec fn phase_of(&self) -> Phase {
        self.phase
    }

    /// A scheduler that has not started yet.
    pub fn new(config: Config) -> (scheduler: Scheduler)
        ensures
            scheduler.config_of() == config,
            scheduler.phase_of() == Phase::Created,
    {
        Scheduler { config, phase: Phase::Created }
    }

    /// The configuration the scheduler was made with.
    pub fn config(&self) -> (config: Config)
        ensures
            config == self.config_of(),
    {
        self.config
    }

    /// The phase the scheduler is in.
    pub fn phase(&self) -> (phase: Phase)
        ensures
            phase == self.phase_of(),
    {
        self.phase
    }

    /// Takes an event and says what to do next.
    ///
    /// An event that answers what was asked for moves the scheduler on as
    /// `step_of` lays down; any other event leaves it where it is and is
    /// answered with `Ignore`.
    pub fn step<V>(&mut self, event: Event<V>) -> (action: Action<V>)
        ensures
            final(self).config_of() == old(self).config_of(),
            (final(self).phase_of(), action) == step_of(
                old(self).config_of(),
                old(self).phase_of(),
                event,
            ),
    {
        match self.phase {
            Phase::Created => match event {
                Event::Started => {
                    self.phase = Phase::Opening;
                    Action::OpenSensor(self.config.address)
                },
                _ => Action::Ignore,
            },
            Phase::Opening => match event {
                Event::Done => {
                    self.phase = Phase::Configuring;
                    Action::Configure(self.config.settings)
                },
                Event::Failed => self.halt(StopReason::SensorUnreachable),
                _ => Action::Ignore,
            },
            Phase::Configuring => match event {
                Event::Done => {
                    self.phase = Phase::Arming;
                    Action::SetMode(PowerMode::Forced)
                },
                Event::Failed => self.halt(StopReason::SettingsRejected),
                _ => Action::Ignore,
            },
            Phase::Arming => match event {
                Event::Done => {
                    self.phase = Phase::Idle;
                    Action::AwaitTick(Ok(()))
                },
                Event::Failed => self.halt(StopReason::ModeRejected),
                _ => Action::Ignore,
            },
            Phase::Idle => match event {
                Event::Tick => {
                    self.phase = Phase::Measuring;
                    Action::Measure
                },
                Event::TimerStopped => self.halt(StopReason::TimerStopped),
                _ => Action::Ignore,
            },
            Phase::Measuring => match event {
                Event::Measured(reading, readiness) => {
                    match extract_with(self.config.policy, reading, readiness) {
                        Some(metrics) => {
                            self.phase = Phase::Dispatching;
                            Action::Dispatch(metrics)
                        },
                        None => {
                            self.phase = Phase::Idle;
                            Action::AwaitTick(Ok(()))
                        },
                    }
                },
                Event::Failed => self.halt(StopReason::MeasurementFailed),
                _ => Action::Ignore,
            },
            Phase::Dispatching => match event {
                Event::Joined(outcomes) => {
                    self.phase = Phase::Idle;
                    Action::AwaitTick(aggregate(&outcomes))
                },
                _ => Action::Ignore,
            },
            Phase::Halted => Action::Ignore,
        }
    }

    /// Stops the scheduler for good.
    fn halt<V>(&mut self, reason: StopReason) -> (action: Action<V>)
        ensures
            final(self).config == old(self).config,
            final(self).phase == Phase::Halted,
            action == Action::<V>::Halt(reason),
    {
        self.phase = Phase::Halted;
        Action::Halt(reason)
    }
}

} // verus!
