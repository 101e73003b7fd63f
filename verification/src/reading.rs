//! What the sensor hands over after one measurement.

use vstd::prelude::*;

verus! {

/// One snapshot of the four physical quantities the sensor measures.
///
/// The library never computes with the quantities: it only labels them and
/// passes them on, so it is generic in how a quantity is represented.
#[derive(Debug, Clone, PartialEq)]
pub struct Reading<V> {
    /// Temperature in degrees Celsius.
    pub temperature: V,
    /// Pressure in hectopascal.
    pub pressure: V,
    /// Relative humidity in percent.
    pub humidity: V,
    /// Gas resistance in ohm.
    pub gas_resistance: V,
}

/// Whether a reading reflects a measurement completed since the last read.
#[derive(Debug, Clone, Copy, PartialEq, Eq, Structural)]
pub enum Readiness {
    /// The sensor reported new data.
    Fresh,
    /// The data has not changed since the last read, or is incomplete.
    Stale,
}

/// Which readings are forwarded to the database.
#[derive(Debug, Clone, Copy, PartialEq, Eq, Structural)]
pub enum DispatchPolicy {
    /// Forward a reading unless the sensor reported it as fresh.
    UnlessFresh,
    /// Forward a reading only if the sensor reported it as fresh.
    WhenFresh,
}

impl DispatchPolicy {
    /// The readiness states under which this policy forwards a reading.
    pub open spec fn admits(self, readiness: Readiness) -> bool {
        match self {
            DispatchPolicy::UnlessFresh => readiness != Readiness::Fresh,
            DispatchPolicy::WhenFresh => readiness == Readiness::Fresh,
        }
    }

    /// Decides whether a reading with the given readiness is forwarded.
    pub fn dispatches(self, readiness: Readiness) -> (forward: bool)
        ensures
            forward == self.admits(readiness),
    {
        match self {
            DispatchPolicy::UnlessFresh => readiness != Readiness::Fresh,
            DispatchPolicy::WhenFresh => readiness == Readiness::Fresh,
        }
    }
}

impl Default for DispatchPolicy {
    /// The stock policy forwards everything but fresh readings.
    fn default() -> (policy: DispatchPolicy)
        ensures
            policy == DispatchPolicy::UnlessFresh,
    {
        DispatchPolicy::UnlessFresh
    }
}

} // verus!
