//! Arbiter of the single shared bus.
//!
//! The physical bus is one transaction endpoint shared by tasks that may
//! preempt one another. Access is granted per transaction inside a critical
//! section: a task begins a transaction only when no other holds the bus,
//! performs one bounded exchange without suspending, and releases. The
//! arbiter records its grant history as a ghost trace of begin/end events;
//! the mutual-exclusion lemmas below hold of every trace the arbiter can
//! produce.

use vstd::prelude::*;
use vstd::assert_by_contradiction;

verus! {

/// Failure of one bus transaction, reported by the hardware exchange.
#[derive(Clone, Copy, Debug, PartialEq, Eq, Structural)]
pub enum BusError {
    /// The addressed device did not acknowledge.
    Nack,
}

/// One grant event of the arbiter, tagged with the requesting task.
#[derive(Clone, Copy, Debug, PartialEq, Eq, Structural)]
pub enum BusEvent {
    Begin(u32),
    End(u32),
}

/// Holder of the bus after one more event.
pub open spec fn bus_step(holder: Option<u32>, ev: BusEvent) -> Option<u32> {
    match ev {
        BusEvent::Begin(task) => Some(task),
        BusEvent::End(_) => None,
    }
}

/// Holder of the bus after a whole trace of events, `None` when free.
pub open spec fn holder_after(trace: Seq<BusEvent>) -> Option<u32>
    decreases trace.len(),
{
    if trace.len() == 0 {
        None
    } else {
        bus_step(holder_after(trace.drop_last()), trace.last())
    }
}

/// An event the critical section admits: a transaction begins only on a free
/// bus and is ended by its own holder.
pub open spec fn step_allowed(holder: Option<u32>, ev: BusEvent) -> bool {
    match ev {
        BusEvent::Begin(_) => holder is None,
        BusEvent::End(task) => holder == Some(task),
    }
}

/// A trace every event of which was admitted in its turn.
pub open spec fn trace_valid(trace: Seq<BusEvent>) -> bool
    decreases trace.len(),
{
    trace.len() == 0 || (trace_valid(trace.drop_last()) && step_allowed(
        holder_after(trace.drop_last()),
        trace.last(),
    ))
}

/// Task `task` is inside its transaction at the instant after the first `k`
/// events.
pub open spec fn in_progress(trace: Seq<BusEvent>, k: int, task: u32) -> bool {
    holder_after(trace.take(k)) == Some(task)
}

/// Every prefix of a valid trace is valid.
proof fn lemma_trace_valid_prefix(trace: Seq<BusEvent>, n: int)
    requires
        trace_valid(trace),
        0 <= n <= trace.len(),
    ensures
        trace_valid(trace.take(n)),
    decreases trace.len(),
{
    if n == trace.len() {
        assert(trace.take(n) =~= trace);
    } else {
        lemma_trace_valid_prefix(trace.drop_last(), n);
        assert(trace.drop_last().take(n) =~= trace.take(n));
    }
}

/// Each event of a valid trace was admitted by the state just before it.
proof fn lemma_valid_at(trace: Seq<BusEvent>, i: int)
    requires
        trace_valid(trace),
        0 <= i < trace.len(),
    ensures
        step_allowed(holder_after(trace.take(i)), trace[i]),
    decreases trace.len(),
{
    if i == trace.len() - 1 {
        assert(trace.take(i) =~= trace.drop_last());
    } else {
        lemma_valid_at(trace.drop_last(), i);
        assert(trace.drop_last().take(i) =~= trace.take(i));
    }
}

/// While no end event occurs, a held bus stays held.
proof fn lemma_holder_persists(trace: Seq<BusEvent>, m: int, n: int)
    requires
        0 <= m <= n <= trace.len(),
        holder_after(trace.take(m)) is Some,
        forall|k: int| m <= k < n ==> !(trace[k] is End),
    ensures
        holder_after(trace.take(n)) is Some,
    decreases n - m,
{
    if m < n {
        lemma_holder_persists(trace, m, n - 1);
        assert(trace.take(n).drop_last() =~= trace.take(n - 1));
        assert(trace.take(n).last() == trace[n - 1]);
    }
}

/// At most one task is ever inside a transaction at any instant: two
/// different tasks are never both in progress.
pub proof fn lemma_bus_single_holder(trace: Seq<BusEvent>, k: int, t1: u32, t2: u32)
    requires
        t1 != t2,
    ensures
        !(in_progress(trace, k, t1) && in_progress(trace, k, t2)),
{
}

/// Bus mutual exclusion: in a valid trace, between any two transaction
/// beginnings stands the end of the earlier transaction — one `with_bus`
/// exchange is never entered while another is still in progress, whichever
/// tasks and tiers are involved.
pub proof fn lemma_bus_mutual_exclusion(trace: Seq<BusEvent>, i: int, j: int)
    requires
        trace_valid(trace),
        0 <= i < j < trace.len(),
        trace[i] is Begin,
        trace[j] is Begin,
    ensures
        exists|k: int| i < k < j && trace[k] is End,
{
    assert_by_contradiction!(exists|k: int| i < k < j && trace[k] is End, {
        lemma_valid_at(trace, i);
        lemma_valid_at(trace, j);
        assert(trace.take(i + 1).drop_last() =~= trace.take(i));
        assert(trace.take(i + 1).last() == trace[i]);
        assert(holder_after(trace.take(i + 1)) is Some);
        assert(forall|k: int| i + 1 <= k < j ==> !(trace[k] is End));
        lemma_holder_persists(trace, i + 1, j);
    });
}

/// A logical device handle derived from the arbiter; each handle performs
/// its own transaction per exchange rather than holding the bus for a task's
/// lifetime.
#[derive(Clone, Copy)]
pub struct I2cShared {
    pub bus_id: u32,
}

impl I2cShared {
    /// Derives one more handle onto the same bus.
    pub fn new(bus: &I2cProtected) -> (dev: I2cShared)
        ensures
            dev.bus_id == bus.spec_bus_id(),
    {
        I2cShared { bus_id: bus.bus_id }
    }
}

/// The critical-section-protected bus endpoint.
pub struct I2cProtected {
    bus_id: u32,
    holder: Option<u32>,
    log: Ghost<Seq<BusEvent>>,
}

impl I2cProtected {
    /// Identity of the physical bus.
    pub closed spec fn spec_bus_id(self) -> u32 {
        self.bus_id
    }

    /// The task currently inside its transaction, `None` when free.
    pub closed spec fn spec_holder(self) -> Option<u32> {
        self.holder
    }

    /// Grant history of this arbiter.
    pub closed spec fn spec_log(self) -> Seq<BusEvent> {
        self.log@
    }

    /// The recorded trace is valid and agrees with the current holder.
    pub open spec fn wf(self) -> bool {
        trace_valid(self.spec_log()) && holder_after(self.spec_log()) == self.spec_holder()
    }

    /// Whether no transaction is in progress.
    pub fn is_free(&self) -> (b: bool)
        ensures
            b == (self.spec_holder() is None),
    {
        self.holder.is_none()
    }

    /// Entry of a `with_bus` critical section. A request against a held bus
    /// is not granted now: interrupt masking defers it until the holder's
    /// transaction ends, never longer than one transaction.
    pub fn begin_transaction(&mut self, task: u32) -> (granted: bool)
        requires
            old(self).wf(),
        ensures
            final(self).wf(),
            final(self).spec_bus_id() == old(self).spec_bus_id(),
            if old(self).spec_holder() is None {
                granted && final(self).spec_holder() == Some(task) && final(self).spec_log()
                    == old(self).spec_log().push(BusEvent::Begin(task))
            } else {
                !granted && *final(self) == *old(self)
            },
    {
        match self.holder {
            None => {
                self.holder = Some(task);
                let ghost ev = BusEvent::Begin(task);
                proof {
                    self.log@ = self.log@.push(ev);
                    assert(self.log@.drop_last() =~= old(self).log@);
                }
                true
            },
            Some(_) => false,
        }
    }

    /// Exit of a `with_bus` critical section; only the holder releases.
    pub fn end_transaction(&mut self, task: u32) -> (released: bool)
        requires
            old(self).wf(),
        ensures
            final(self).wf(),
            final(self).spec_bus_id() == old(self).spec_bus_id(),
            if old(self).spec_holder() == Some(task) {
                released && final(self).spec_holder() is None && final(self).spec_log() == old(
                    self,
                ).spec_log().push(BusEvent::End(task))
            } else {
                !released && *final(self) == *old(self)
            },
    {
        match self.holder {
            Some(holder) => {
                if holder == task {
                    self.holder = None;
                    let ghost ev = BusEvent::End(task);
                    proof {
                        self.log@ = self.log@.push(ev);
                        assert(self.log@.drop_last() =~= old(self).log@);
                    }
                    true
                } else {
                    false
                }
            },
            None => false,
        }
    }

    /// One whole `with_bus` exchange: begin, perform the bounded transaction
    /// whose outcome the hardware decided, end. The closure-shaped body of
    /// the firmware completes without suspending; here it is one atomic
    /// step, and the bus is free again afterwards whatever the outcome.
    pub fn transaction(&mut self, dev: &I2cShared, task: u32, outcome: Result<i32, BusError>) -> (r:
        Result<i32, BusError>)
        requires
            old(self).wf(),
            old(self).spec_holder() is None,
            dev.bus_id == old(self).spec_bus_id(),
        ensures
            final(self).wf(),
            final(self).spec_bus_id() == old(self).spec_bus_id(),
            final(self).spec_holder() is None,
            final(self).spec_log() == old(self).spec_log().push(BusEvent::Begin(task)).push(
                BusEvent::End(task),
            ),
            r == outcome,
    {
        let _granted = self.begin_transaction(task);
        let _released = self.end_transaction(task);
        outcome
    }
}

/// Sets up the arbiter over the physical bus endpoint.
pub fn init(bus_id: u32) -> (bus: I2cProtected)
    ensures
        bus.wf(),
        bus.spec_bus_id() == bus_id,
        bus.spec_holder() is None,
        bus.spec_log().len() == 0,
{
    I2cProtected { bus_id, holder: None, log: Ghost(Seq::empty()) }
}

} // verus!
