//! Labelling a reading: from four quantities to four named metrics.

use crate::reading::{DispatchPolicy, Readiness, Reading};
use vstd::prelude::*;

verus! {

/// Device identity every metric is tagged with.
pub const DEVICE_ID: &'static str = "MAC";

/// Sensor model every metric is tagged with.
pub const SENSOR_MODEL: &'static str = "bme680";

/// The four quantities of a reading, in the order in which they are sent.
#[derive(Debug, Clone, Copy, PartialEq, Eq, Structural)]
pub enum Quantity {
    Temperature,
    Pressure,
    Humidity,
    GasResistance,
}

impl Quantity {
    /// The name under which the database knows this quantity.
    pub open spec fn label(self) -> Seq<char> {
        match self {
            Quantity::Temperature => "temperature"@,
            Quantity::Pressure => "pressure"@,
            Quantity::Humidity => "humidity"@,
            Quantity::GasResistance => "gasresistence"@,
        }
    }

    /// Where this quantity stands among the four.
    pub open spec fn position(self) -> int {
        match self {
            Quantity::Temperature => 0,
            Quantity::Pressure => 1,
            Quantity::Humidity => 2,
            Quantity::GasResistance => 3,
        }
    }

    /// The part of a reading that this quantity names.
    pub open spec fn of<V>(self, reading: Reading<V>) -> V {
        match self {
            Quantity::Temperature => reading.temperature,
            Quantity::Pressure => reading.pressure,
            Quantity::Humidity => reading.humidity,
            Quantity::GasResistance => reading.gas_resistance,
        }
    }

    /// The name under which the database knows this quantity.
    pub fn name(self) -> (name: &'static str)
        ensures
            name@ == self.label(),
    {
        match self {
            Quantity::Temperature => "temperature",
            Quantity::Pressure => "pressure",
            Quantity::Humidity => "humidity",
            Quantity::GasResistance => "gasresistence",
        }
    }

    /// Where this quantity stands among the four, counted from zero.
    pub fn index(self) -> (i: usize)
        ensures
            i == self.position(),
    {
        match self {
            Quantity::Temperature => 0,
            Quantity::Pressure => 1,
            Quantity::Humidity => 2,
            Quantity::GasResistance => 3,
        }
    }
}

/// The descriptive tags of a metric.
#[derive(Debug, Clone, Copy, PartialEq, Eq)]
pub struct Tags {
    /// Identity of the device.
    pub id: &'static str,
    /// Model of the sensor.
    pub name: &'static str,
    /// Name of the metric.
    pub kind: &'static str,
}

/// One quantity of a reading under its name.
#[derive(Debug, Clone, PartialEq)]
pub struct NamedMetric<V> {
    /// Which of the four quantities this is.
    pub quantity: Quantity,
    /// The quantity as the sensor driver delivered it.
    pub value: V,
}

impl<V> NamedMetric<V> {
    /// The metric's name.
    pub fn name(&self) -> (name: &'static str)
        ensures
            name@ == self.quantity.label(),
    {
        self.quantity.name()
    }

    /// The metric's tags: the fixed device identity, the fixed sensor model
    /// and the metric's own name.
    pub fn tags(&self) -> (tags: Tags)
        ensures
            tags.id@ == "MAC"@,
            tags.name@ == "bme680"@,
            tags.kind@ == self.quantity.label(),
    {
        Tags { id: DEVICE_ID, name: SENSOR_MODEL, kind: self.quantity.name() }
    }
}

/// The four metrics of a reading: each quantity under its name, in the order
/// temperature, pressure, humidity, gas resistance.
pub open spec fn metrics_of<V>(reading: Reading<V>) -> [NamedMetric<V>; 4] {
    [
        NamedMetric { quantity: Quantity::Temperature, value: reading.temperature },
        NamedMetric { quantity: Quantity::Pressure, value: reading.pressure },
        NamedMetric { quantity: Quantity::Humidity, value: reading.humidity },
        NamedMetric { quantity: Quantity::GasResistance, value: reading.gas_resistance },
    ]
}

/// What extraction yields: the four metrics of the reading where the policy
/// admits its readiness, nothing otherwise.
pub open spec fn extracted<V>(
    policy: DispatchPolicy,
    reading: Reading<V>,
    readiness: Readiness,
) -> Option<[NamedMetric<V>; 4]> {
    if policy.admits(readiness) {
        Some(metrics_of(reading))
    } else {
        None
    }
}

/// Extracts the metrics of a reading under the given policy.
///
/// The values are passed through untouched; a reading whose readiness the
/// policy does not admit yields nothing, and the cycle is skipped.
pub fn extract_with<V>(
    policy: DispatchPolicy,
    reading: Reading<V>,
    readiness: Readiness,
) -> (metrics: Option<[NamedMetric<V>; 4]>)
    ensures
        metrics == extracted(policy, reading, readiness),
{
    if policy.dispatches(readiness) {
        Some(
            [
                NamedMetric { quantity: Quantity::Temperature, value: reading.temperature },
                NamedMetric { quantity: Quantity::Pressure, value: reading.pressure },
                NamedMetric { quantity: Quantity::Humidity, value: reading.humidity },
                NamedMetric { quantity: Quantity::GasResistance, value: reading.gas_resistance },
            ],
        )
    } else {
        None
    }
}

/// Extracts the metrics of a reading under the stock policy, which forwards
/// a reading unless the sensor reported it as fresh.
pub fn extract<V>(reading: Reading<V>, readiness: Readiness) -> (metrics: Option<
    [NamedMetric<V>; 4],
>)
    ensures
        metrics == extracted(DispatchPolicy::UnlessFresh, reading, readiness),
{
    extract_with(DispatchPolicy::UnlessFresh, reading, readiness)
}

/// The four metric names differ from one another.
pub proof fn lemma_labels_distinct(a: Quantity, b: Quantity)
    ensures
        a.label() == b.label() <==> a == b,
{
    reveal_strlit("temperature");
    reveal_strlit("pressure");
    reveal_strlit("humidity");
    reveal_strlit("gasresistence");
    if a != b {
        assert(a.label().len() != b.label().len() || a.label()[0] != b.label()[0]);
    }
}

/// A reading whose readiness the policy admits yields exactly four metrics,
/// named temperature, pressure, humidity and gasresistence in this order.
/// The metric at each quantity's position carries that quantity and the value
/// the reading holds for it, and every position is that of the quantity found
/// there: each of the four occurs once, and all four stem from the one
/// reading.
pub proof fn lemma_dispatch_complete<V>(
    policy: DispatchPolicy,
    reading: Reading<V>,
    readiness: Readiness,
)
    requires
        policy.admits(readiness),
    ensures
        extracted(policy, reading, readiness) == Some(metrics_of(reading)),
        metrics_of(reading)@.len() == 4,
        metrics_of(reading)[0].quantity.label() == "temperature"@,
        metrics_of(reading)[1].quantity.label() == "pressure"@,
        metrics_of(reading)[2].quantity.label() == "humidity"@,
        metrics_of(reading)[3].quantity.label() == "gasresistence"@,
        forall|q: Quantity| #[trigger]
            metrics_of(reading)[q.position()] == (NamedMetric {
                quantity: q,
                value: q.of(reading),
            }),
        forall|i: int|
            0 <= i < 4 ==> (#[trigger] metrics_of(reading)[i]).quantity.position() == i,
{
}

/// A reading whose readiness the policy does not admit yields no metric at
/// all.
pub proof fn lemma_skip<V>(policy: DispatchPolicy, reading: Reading<V>, readiness: Readiness)
    requires
        !policy.admits(readiness),
    ensures
        extracted(policy, reading, readiness) is None,
{
}

} // verus!
