//! Sources of temperature readings: periodic tasks, one per sensor, that
//! feed their single-slot channels.
//!
//! Two register-bus sensors are configured statically. Each task enables its
//! sensor once — a failure there is logged and the task keeps running with
//! silence on its channel — then periodically reads the temperature over the
//! arbitrated bus and offers it to its channel.

use vstd::prelude::*;
use crate::temperature::channel::Channel;

verus! {

/// Number of statically configured sources.
pub const MAX_SOURCES: usize = 2;

/// Interval between reads of the first source, in milliseconds.
pub const LM75B_MEASUREMENT_INTERVAL_MS: u64 = 500;

/// Interval between reads of the second source, in milliseconds.
pub const DS3231_MEASUREMENT_INTERVAL_MS: u64 = 2000;

/// Creates the per-source channels, one per configured source, all empty.
pub fn init() -> (chs: Vec<Channel>)
    ensures
        chs@.len() == MAX_SOURCES,
        forall|k: int| 0 <= k < MAX_SOURCES ==> #[trigger] chs@[k].spec_slot() is None,
{
    let mut chs: Vec<Channel> = Vec::new();
    chs.push(Channel::new());
    chs.push(Channel::new());
    proof {
        assert(chs@[0].spec_slot() is None);
        assert(chs@[1].spec_slot() is None);
    }
    chs
}

/// One step of a source task, applied to the outcome of one bus read: a
/// successful sample is offered to the channel and sent exactly when the
/// slot is free — a full slot back-pressures the producer into retrying — a
/// failed read sends nothing and the next interval is the next attempt.
pub fn read_temperature_step(channel: &mut Channel, sample: Option<i32>) -> (sent: bool)
    ensures
        match sample {
            None => !sent && *final(channel) == *old(channel),
            Some(t) => match old(channel).spec_slot() {
                None => sent && final(channel).spec_slot() == Some(t),
                Some(_) => !sent && *final(channel) == *old(channel),
            },
        },
{
    match sample {
        Some(t) => channel.try_send(t),
        None => false,
    }
}

} // verus!
