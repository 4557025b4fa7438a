//! Register-bus temperature sensor adapter.
//!
//! The sensor is a simple addressable register: each period the task acquires
//! the shared bus, reads the temperature register, and on success stores the
//! value into the shared cell; on failure it logs and retains the prior
//! value. A sensor that fails to enable at startup is logged and left
//! running on its initial value rather than halting the system.

use vstd::prelude::*;

verus! {

/// Interval between two register reads, in milliseconds.
pub const MEASUREMENT_INTERVAL_MS: u64 = 100;

/// Last successfully read temperature, kept across failed attempts.
pub struct Shared {
    pub temperature_tenths: i32,
}

impl Shared {
    /// Initial state before any successful read: 0.0 degrees.
    pub fn new() -> (s: Shared)
        ensures
            s.temperature_tenths == 0,
    {
        Shared { temperature_tenths: 0 }
    }
}

/// Reader handle onto the shared cell.
#[derive(Clone, Copy)]
pub struct Lm75 {}

/// Drives the periodic register reads and publishes them into the shared
/// cell.
pub struct Runner {}

impl Runner {
    /// One step of the periodic task, applied to the outcome of one bus
    /// transaction: a successful sample replaces the stored temperature, a
    /// failed one leaves the prior value in place. There is no retry within
    /// an attempt; the next interval is the next attempt.
    pub fn apply_sample(&self, shared: &mut Shared, sample: Option<i32>)
        ensures
            match sample {
                Some(t) => final(shared).temperature_tenths == t,
                None => *final(shared) == *old(shared),
            },
    {
        match sample {
            Some(t) => {
                shared.temperature_tenths = t;
            },
            None => {},
        }
    }
}

impl crate::sensors::temperature::TemperatureSensor for Lm75 {
    type Shared = Shared;

    open spec fn temperature_of(shared: &Shared) -> int {
        shared.temperature_tenths as int
    }

    fn rate_ms(&self) -> u64 {
        MEASUREMENT_INTERVAL_MS
    }

    fn get_temperature(&self, shared: &Shared) -> (t: i32) {
        shared.temperature_tenths
    }
}

/// Splits the driver into a reader handle and the runner that owns the bus
/// transactions.
pub fn new() -> (pair: (Lm75, Runner)) {
    (Lm75 {  }, Runner {  })
}

} // verus!
