//! Sampling-and-delivery loop for an environmental sensor.
//!
//! A cycle takes one reading from the sensor, decides from the reading's
//! readiness whether it is forwarded, labels its four quantities, turns each
//! into a write request for the time-series database and reduces the four
//! write outcomes to one result. The scheduler ties the cycles to a periodic
//! timer. Everything that waits (the sensor bus, the network, the timer) is
//! left to the program that drives the scheduler: it performs the action the
//! scheduler hands out and reports back what happened.

pub mod database;
pub mod metric;
pub mod outcome;
pub mod point;
pub mod reading;
pub mod scheduler;
pub mod settings;
pub mod trace;

pub use database::{Database, Setting};
pub use metric::{extract, extract_with, NamedMetric, Quantity, Tags};
pub use outcome::{aggregate, AggregateError, FailureClass, WriteError, WriteOutcome};
pub use point::write_request;
pub use reading::{DispatchPolicy, Readiness, Reading};
pub use scheduler::{Action, Config, Event, Phase, Scheduler, StopReason, PERIOD_SECONDS};
pub use settings::{
    FilterSize, HeaterProfile, Oversampling, PowerMode, SensorAddress, SensorSettings,
};
