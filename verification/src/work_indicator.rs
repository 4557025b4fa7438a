//! Activity indicator: a process-wide flag behind an LED that shows "a tier
//! is doing work". Every wake path turns it on; the idle loop turns it off
//! just before the processor enters its low-power wait. In the firmware the
//! LED write is deliberately unsynchronized — nothing relies on its value —
//! so the model is a plain flag.

use vstd::prelude::*;

verus! {

/// The indicator output.
pub struct Indicator {
    pub enabled: bool,
}

/// Sets up the indicator output, initially off.
pub fn init_pin() -> (ind: Indicator)
    ensures
        !ind.enabled,
{
    Indicator { enabled: false }
}

/// Drives the indicator: on when any tier has been woken, off when the idle
/// loop is about to wait for an event.
pub fn set_working_enabled(ind: &mut Indicator, enabled: bool)
    ensures
        final(ind).enabled == enabled,
{
    ind.enabled = enabled;
}

} // verus!
