//! Fusion pipeline: combines independently arriving per-source readings into
//! one broadcast value with minimal latency.
//!
//! The pipeline keeps the latest known reading per source, a sentinel of 0
//! before a source has ever reported. On each arrival it overwrites that
//! source's slot, recomputes the mean over all slots — sentinels included —
//! and broadcasts it at once to every subscriber. Readings are tenths of a
//! degree; the mean is kept exact as the pair of sum and source count,
//! because tenths do not divide evenly by the source count.

pub mod channel;
pub mod source;

use vstd::prelude::*;
use crate::temperature::channel::Channel;
use crate::temperature::channel::ChannelSelect;
use crate::temperature::channel::TemperatureWithID;

verus! {

/// Upper bound on how many sources one pipeline can fuse; a static
/// configuration, not a growing pool.
pub const MAX_FUSED_SOURCES: usize = 16;

/// Sum of a sequence of readings.
pub open spec fn sum_of(s: Seq<i32>) -> int
    decreases s.len(),
{
    if s.len() == 0 {
        0
    } else {
        sum_of(s.drop_last()) + s.last()
    }
}

/// A fused value: the exact arithmetic mean `sum / count` of the latest
/// known reading of every source, kept as numerator and denominator.
#[derive(Clone, Copy, Debug, PartialEq, Eq, Structural)]
pub struct FusedValue {
    /// Sum of the latest readings, in tenths of a degree.
    pub sum: i64,
    /// Number of fused sources, never zero.
    pub count: usize,
}

/// Latest known reading per source.
pub struct Fusion {
    last: Vec<i32>,
}

impl Fusion {
    /// Latest readings by source index.
    pub closed spec fn spec_last(self) -> Seq<i32> {
        self.last@
    }

    /// At least one source, no more than the static bound.
    pub open spec fn wf(self) -> bool {
        1 <= self.spec_last().len() <= MAX_FUSED_SOURCES
    }

    /// A pipeline over `sources` sources, each starting at the sentinel 0:
    /// a source that has never reported contributes 0 to the mean.
    pub fn new(sources: usize) -> (f: Fusion)
        requires
            1 <= sources <= MAX_FUSED_SOURCES,
        ensures
            f.wf(),
            f.spec_last().len() == sources,
            forall|k: int| 0 <= k < sources ==> #[trigger] f.spec_last()[k] == 0,
    {
        let mut last: Vec<i32> = Vec::new();
        let mut i: usize = 0;
        while i < sources
            invariant
                i <= sources,
                last@.len() == i,
                forall|k: int| 0 <= k < i ==> #[trigger] last@[k] == 0,
            decreases sources - i,
        {
            last.push(0);
            i += 1;
        }
        Fusion { last }
    }

    /// Number of sources this pipeline fuses.
    pub fn source_count(&self) -> (n: usize)
        ensures
            n == self.spec_last().len(),
    {
        self.last.len()
    }

    /// Latest known reading of one source.
    pub fn last_reading(&self, source: usize) -> (t: i32)
        requires
            source < self.spec_last().len(),
        ensures
            t == self.spec_last()[source as int],
    {
        self.last[source]
    }

    /// One source reported: overwrite its slot and recompute the mean over
    /// all slots. The result is exactly `sum(last) / count`, reproducible
    /// for a fixed array of latest readings.
    pub fn publish(&mut self, source: usize, reading: i32) -> (f: FusedValue)
        requires
            old(self).wf(),
            source < old(self).spec_last().len(),
        ensures
            final(self).wf(),
            final(self).spec_last() == old(self).spec_last().update(source as int, reading),
            f.count == final(self).spec_last().len(),
            f.sum == sum_of(final(self).spec_last()),
    {
        self.last.set(source, reading);
        let n = self.last.len();
        let mut sum: i64 = 0;
        let mut i: usize = 0;
        while i < n
            invariant
                i <= n,
                n == self.spec_last().len() <= MAX_FUSED_SOURCES,
                sum == sum_of(self.spec_last().take(i as int)),
                -0x8000_0000i64 * (i as i64) <= sum <= 0x8000_0000i64 * (i as i64),
            decreases n - i,
        {
            let v = self.last[i];
            proof {
                assert(self.spec_last().take(i + 1).drop_last() =~= self.spec_last().take(i as int));
                assert(self.spec_last().take(i + 1).last() == self.spec_last()[i as int]);
            }
            sum = sum + v as i64;
            i += 1;
        }
        proof {
            assert(self.spec_last().take(n as int) =~= self.spec_last());
        }
        FusedValue { sum, count: n }
    }
}

/// Fusion idempotence: overwriting a source's slot twice in a row with the
/// same reading leaves the array of latest readings — and with it the fused
/// sum and mean — exactly as after the first overwrite. The broadcast mean
/// can change between the two publications only if some other source's
/// latest value changed.
pub proof fn lemma_publish_idempotent(s: Seq<i32>, source: int, reading: i32)
    requires
        0 <= source < s.len(),
    ensures
        s.update(source, reading).update(source, reading) == s.update(source, reading),
{
    assert(s.update(source, reading).update(source, reading) =~= s.update(source, reading));
}

/// Fan-out of fused values: every subscriber that is actively awaiting
/// receives the value published; one that is not simply misses it. A slow
/// subscriber never blocks the publisher, and is only ever handed the
/// latest value — at-most-the-latest delivery, not guaranteed delivery.
pub struct Broadcast {
    latest: Option<FusedValue>,
    version: u64,
}

impl Broadcast {
    /// The value published last.
    pub closed spec fn spec_latest(self) -> Option<FusedValue> {
        self.latest
    }

    /// How many values have been published.
    pub closed spec fn spec_version(self) -> u64 {
        self.version
    }

    /// A value has been published exactly when the version is positive.
    pub open spec fn wf(self) -> bool {
        (self.spec_latest() is None) == (self.spec_version() == 0)
    }

    /// A broadcast channel with nothing published yet.
    pub fn new() -> (b: Broadcast)
        ensures
            b.wf(),
            b.spec_version() == 0,
            b.spec_latest() is None,
    {
        Broadcast { latest: None, version: 0 }
    }

    /// Publishes a fused value to every current subscriber, immediately and
    /// without ever waiting on any of them.
    pub fn publish_immediate(&mut self, value: FusedValue)
        requires
            old(self).wf(),
            old(self).spec_version() < u64::MAX,
        ensures
            final(self).wf(),
            final(self).spec_latest() == Some(value),
            final(self).spec_version() == old(self).spec_version() + 1,
    {
        self.latest = Some(value);
        self.version = self.version + 1;
    }

    /// Attaches an independent subscriber; it sees only values published
    /// from now on.
    pub fn subscriber(&self) -> (s: Subscriber)
        ensures
            s.spec_seen() == self.spec_version(),
    {
        Subscriber { seen: self.version }
    }
}

/// One independent consumer of the broadcast.
pub struct Subscriber {
    seen: u64,
}

impl Subscriber {
    /// Version of the last value this subscriber took.
    pub closed spec fn spec_seen(self) -> u64 {
        self.seen
    }

    /// Takes the latest value if anything was published since this
    /// subscriber last looked; values published in between are missed, never
    /// queued.
    pub fn next_message(&mut self, b: &Broadcast) -> (r: Option<FusedValue>)
        requires
            b.wf(),
        ensures
            if b.spec_version() > old(self).spec_seen() {
                r == b.spec_latest() && r is Some && final(self).spec_seen() == b.spec_version()
            } else {
                r is None && *final(self) == *old(self)
            },
    {
        if b.version > self.seen {
            self.seen = b.version;
            b.latest
        } else {
            None
        }
    }
}

/// One step of the fusion task: await whichever source channel is ready
/// first — ties to the lowest index — fold the reading into the latest-known
/// array, and broadcast the recomputed mean at once. With no channel ready
/// the step changes nothing and reports no progress.
pub fn process_temperature_step(
    fusion: &mut Fusion,
    channels: &mut Vec<Channel>,
    out: &mut Broadcast,
) -> (progressed: bool)
    requires
        old(fusion).wf(),
        old(out).wf(),
        old(channels)@.len() == old(fusion).spec_last().len(),
        old(out).spec_version() < u64::MAX,
    ensures
        final(fusion).wf(),
        final(out).wf(),
        final(channels)@.len() == old(channels)@.len(),
        match ChannelSelect::spec_selected(old(channels)@) {
            Some(tw) => {
                &&& progressed
                &&& old(channels)@[tw.0 as int].spec_slot() == Some(tw.1)
                &&& final(channels)@[tw.0 as int].spec_slot() is None
                &&& forall|k: int|
                    0 <= k < old(channels)@.len() && k != tw.0 ==> #[trigger] final(channels)@[k]
                        == old(channels)@[k]
                &&& final(fusion).spec_last() == old(fusion).spec_last().update(
                    tw.0 as int,
                    tw.1,
                )
                &&& final(out).spec_version() == old(out).spec_version() + 1
                &&& final(out).spec_latest() matches Some(f) && f.count
                    == final(fusion).spec_last().len() && f.sum == sum_of(
                    final(fusion).spec_last(),
                )
            },
            None => {
                &&& !progressed
                &&& *final(channels) == *old(channels)
                &&& *final(fusion) == *old(fusion)
                &&& *final(out) == *old(out)
            },
        },
{
    let select = ChannelSelect::new();
    match select.poll(channels) {
        Some(tw) => {
            let TemperatureWithID(id, reading) = tw;
            let fused = fusion.publish(id, reading);
            out.publish_immediate(fused);
            true
        },
        None => false,
    }
}

} // verus!
