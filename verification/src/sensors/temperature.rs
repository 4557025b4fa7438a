//! The temperature capability: any source exposes a sampling interval and an
//! accessor for the latest temperature its shared cell holds.

use vstd::prelude::*;

verus! {

/// A sensor front-end that reads the latest temperature out of its driver's
/// shared cell. The fusion pipeline and periodic adapters are written against
/// this capability, not against a concrete sensor.
pub trait TemperatureSensor {
    /// The driver's shared cell this handle reads from.
    type Shared;

    /// The temperature the cell currently holds, in tenths of a degree.
    spec fn temperature_of(shared: &Self::Shared) -> int;

    /// Sampling interval of this source, in milliseconds.
    fn rate_ms(&self) -> u64;

    /// Current temperature in tenths of a degree.
    fn get_temperature(&self, shared: &Self::Shared) -> (t: i32)
        ensures
            t as int == Self::temperature_of(shared),
    ;
}

} // verus!
