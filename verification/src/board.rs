//! Board runtime: the priority-tiered scheduler and the peripheral handles.
//!
//! The scheduler keeps one ready queue per tier. Tier ordinals are urgency:
//! tier 0 is bound to the most urgent interrupt line, and a ready task of a
//! lower ordinal always runs — to its next suspension point — before any task
//! of a higher ordinal. Tasks never move between tiers, and a tier's task
//! pool is a static configuration: exhausting it is fatal.

use vstd::prelude::*;
use crate::i2c::I2cProtected;
use crate::work_indicator::Indicator;
use crate::work_indicator::set_working_enabled;

/// Handle onto the shared bus, re-exported for the board's users.
pub use crate::i2c::I2cShared;

verus! {

/// Number of priority tiers, each bound to one interrupt source.
pub const TIER_COUNT: usize = 3;

/// Fixed capacity of each tier's task pool.
pub const TASK_CAPACITY: usize = 8;

/// Scheduler failure: the addressed tier's fixed task pool is full. Fatal in
/// the firmware, since the static task topology is a correctness
/// precondition.
#[derive(Clone, Copy, Debug, PartialEq, Eq, Structural)]
pub enum SpawnError {
    CapacityExceeded,
}

/// Peripheral singletons handed to the entry task once at boot.
#[non_exhaustive]
pub struct Peripherals {
    i2c1: u32,
}

impl Peripherals {
    /// Identity of the shared bus the board wired up.
    pub closed spec fn spec_i2c1_bus(self) -> u32 {
        self.i2c1
    }

    /// Derives one more logical device handle onto the shared bus.
    pub fn i2c1(&self) -> (dev: I2cShared)
        ensures
            dev.bus_id == self.spec_i2c1_bus(),
    {
        I2cShared { bus_id: self.i2c1 }
    }
}

/// Board bring-up: the bus arbiter over the physical endpoint, the activity
/// indicator output, and the peripheral handles that refer to them.
pub fn init(bus_id: u32) -> (r: (Peripherals, I2cProtected, Indicator))
    ensures
        r.0.spec_i2c1_bus() == bus_id,
        r.1.wf(),
        r.1.spec_bus_id() == bus_id,
        r.1.spec_holder() is None,
        r.1.spec_log().len() == 0,
        !r.2.enabled,
{
    let bus = crate::i2c::init(bus_id);
    let ind = crate::work_indicator::init_pin();
    (Peripherals { i2c1: bus_id }, bus, ind)
}

/// Interrupt priority value of the line a tier is bound to. On this hardware
/// a numerically lower value is more urgent, so tier 0 preempts every other
/// tier and the interrupt lines preserve the tier order exactly.
pub fn tier_interrupt_priority(tier: u8) -> (p: u8)
    requires
        tier < 3,
    ensures
        p == 6 + tier,
{
    6 + tier
}

/// The tier a requested priority is clamped to: 0 and 1 address their own
/// tiers, anything beyond addresses the lowest-urgency tier.
pub open spec fn clamped_tier(priority: u8) -> int {
    if priority >= 2 {
        2
    } else {
        priority as int
    }
}

/// The three tiers' ready queues. Each queue holds the identities of its
/// ready tasks in arrival order; a suspended task reappears through `wake`.
pub struct Runtime {
    queues: Vec<Vec<u32>>,
}

impl Runtime {
    /// Ready queues by tier ordinal.
    pub closed spec fn spec_queues(self) -> Seq<Seq<u32>> {
        self.queues@.map_values(|q: Vec<u32>| q@)
    }

    /// One queue per tier, none over the static pool capacity.
    pub open spec fn wf(self) -> bool {
        &&& self.spec_queues().len() == TIER_COUNT
        &&& forall|t: int|
            0 <= t < TIER_COUNT ==> #[trigger] self.spec_queues()[t].len() <= TASK_CAPACITY
    }

    /// Builds the runtime with every tier's queue empty.
    pub fn new() -> (rt: Runtime)
        ensures
            rt.wf(),
            forall|t: int| 0 <= t < TIER_COUNT ==> #[trigger] rt.spec_queues()[t].len() == 0,
    {
        let mut queues: Vec<Vec<u32>> = Vec::new();
        queues.push(Vec::new());
        queues.push(Vec::new());
        queues.push(Vec::new());
        let rt = Runtime { queues };
        proof {
            assert(rt.spec_queues().len() == 3);
            assert(rt.spec_queues()[0].len() == 0);
            assert(rt.spec_queues()[1].len() == 0);
            assert(rt.spec_queues()[2].len() == 0);
        }
        rt
    }

    /// Enqueues a task on the tier its priority addresses; fails exactly when
    /// that tier's fixed pool is full.
    pub fn spawn(&mut self, priority: u8, task: u32) -> (r: Result<(), SpawnError>)
        requires
            old(self).wf(),
        ensures
            final(self).wf(),
            ({
                let tier = clamped_tier(priority);
                if old(self).spec_queues()[tier].len() < TASK_CAPACITY {
                    &&& r is Ok
                    &&& final(self).spec_queues() == old(self).spec_queues().update(
                        tier,
                        old(self).spec_queues()[tier].push(task),
                    )
                } else {
                    &&& r == Err::<(), SpawnError>(SpawnError::CapacityExceeded)
                    &&& final(self).spec_queues() == old(self).spec_queues()
                }
            }),
    {
        let tier: usize = if priority >= 2 {
            2
        } else {
            priority as usize
        };
        if self.queues[tier].len() < TASK_CAPACITY {
            let mut q = self.queues.remove(tier);
            q.push(task);
            self.queues.insert(tier, q);
            proof {
                assert(self.spec_queues() =~= old(self).spec_queues().update(
                    tier as int,
                    old(self).spec_queues()[tier as int].push(task),
                ));
            }
            Ok(())
        } else {
            proof {
                assert(self.spec_queues() =~= old(self).spec_queues());
            }
            Err(SpawnError::CapacityExceeded)
        }
    }

    /// Enqueues a task that must fit: callers state that the addressed pool
    /// has room, since running without the task is not an option.
    pub fn must_spawn(&mut self, priority: u8, task: u32)
        requires
            old(self).wf(),
            old(self).spec_queues()[clamped_tier(priority)].len() < TASK_CAPACITY,
        ensures
            final(self).wf(),
            final(self).spec_queues() == old(self).spec_queues().update(
                clamped_tier(priority),
                old(self).spec_queues()[clamped_tier(priority)].push(task),
            ),
    {
        let _r = self.spawn(priority, task);
    }

    /// Ordinal of the lowest-urgency tier, which also hosts the entry task.
    pub fn lowest(&self) -> (t: u8)
        ensures
            t == 2,
    {
        2
    }

    /// Ordinal of the middle tier.
    pub fn medium(&self) -> (t: u8)
        ensures
            t == 1,
    {
        1
    }

    /// Ordinal of the most urgent tier. Its interrupt line still yields to
    /// lines outside the scheduler that are configured above it.
    pub fn highest(&self) -> (t: u8)
        ensures
            t == 0,
    {
        0
    }

    /// The tier whose front task runs next: the most urgent non-empty one.
    pub open spec fn spec_first_ready(self) -> Option<int>
        recommends
            self.wf(),
    {
        if self.spec_queues()[0].len() > 0 {
            Some(0int)
        } else if self.spec_queues()[1].len() > 0 {
            Some(1int)
        } else if self.spec_queues()[2].len() > 0 {
            Some(2int)
        } else {
            None
        }
    }

    /// Looks up the task the scheduler would run next: the front task of the
    /// most urgent tier with anything ready.
    pub fn next_ready(&self) -> (r: Option<(u8, u32)>)
        requires
            self.wf(),
        ensures
            match r {
                Some((t, task)) => t < 3 && self.spec_first_ready() == Some(t as int) && task
                    == self.spec_queues()[t as int][0],
                None => self.spec_first_ready() is None,
            },
    {
        let mut t: usize = 0;
        while t < 3
            invariant
                t <= 3,
                self.wf(),
                forall|u: int| 0 <= u < t ==> #[trigger] self.spec_queues()[u].len() == 0,
            decreases 3 - t,
        {
            if self.queues[t].len() > 0 {
                let task: u32 = self.queues[t][0];
                return Some((t as u8, task));
            }
            t += 1;
        }
        None
    }

    /// Dispatches the next task: pops the front of the most urgent non-empty
    /// queue. The popped task then executes its whole suspension-free
    /// instruction sequence before the scheduler is consulted again; a task
    /// of a less urgent tier never executes an instruction while a more
    /// urgent tier has anything ready.
    pub fn run_next(&mut self) -> (r: Option<(u8, u32)>)
        requires
            old(self).wf(),
        ensures
            final(self).wf(),
            match r {
                Some((t, task)) => {
                    &&& t < 3
                    &&& old(self).spec_first_ready() == Some(t as int)
                    &&& spec_dispatched(old(self).spec_queues()) == Some((t as int, task))
                    &&& task == old(self).spec_queues()[t as int][0]
                    &&& final(self).spec_queues() == spec_after_dispatch(old(self).spec_queues())
                    &&& final(self).spec_queues() == old(self).spec_queues().update(
                        t as int,
                        old(self).spec_queues()[t as int].remove(0),
                    )
                },
                None => {
                    &&& old(self).spec_first_ready() is None
                    &&& spec_dispatched(old(self).spec_queues()) is None
                    &&& final(self).spec_queues() == old(self).spec_queues()
                },
            },
    {
        let next = self.next_ready();
        match next {
            Some((t, _task)) => {
                let mut q = self.queues.remove(t as usize);
                let popped = q.remove(0);
                self.queues.insert(t as usize, q);
                proof {
                    assert(self.spec_queues() =~= old(self).spec_queues().update(
                        t as int,
                        old(self).spec_queues()[t as int].remove(0),
                    ));
                }
                Some((t, popped))
            },
            None => None,
        }
    }

    /// An external event makes a suspended task ready: its waker pends the
    /// tier's interrupt line, which both turns the activity indicator on and
    /// — by hardware priority — runs the tier at its configured urgency.
    pub fn wake(&mut self, ind: &mut Indicator, tier: u8, task: u32) -> (r: Result<(), SpawnError>)
        requires
            old(self).wf(),
            tier < 3,
        ensures
            final(self).wf(),
            final(ind).enabled,
            if old(self).spec_queues()[tier as int].len() < TASK_CAPACITY {
                r is Ok && final(self).spec_queues() == old(self).spec_queues().update(
                    tier as int,
                    old(self).spec_queues()[tier as int].push(task),
                )
            } else {
                r == Err::<(), SpawnError>(SpawnError::CapacityExceeded)
                    && final(self).spec_queues() == old(self).spec_queues()
            },
    {
        set_working_enabled(ind, true);
        self.spawn(tier, task)
    }

    /// The idle path of the lowest tier: with nothing ready anywhere, the
    /// indicator is cleared immediately before the processor enters its
    /// low-power wait. Any later wake turns it back on.
    pub fn enter_idle(&self, ind: &mut Indicator)
        requires
            self.wf(),
            self.spec_first_ready() is None,
        ensures
            !final(ind).enabled,
    {
        set_working_enabled(ind, false);
    }
}

/// Priority property: whenever some task is ready on tier `i`, the scheduler
/// selects a tier no less urgent than `i` — never a tier `j` below it. Since
/// the selected task runs its whole suspension-free sequence before the next
/// selection, a tier-`j` task ready at the same instant as a tier-`i` task
/// executes no instruction until the tier-`i` task reaches its next
/// suspension point.
pub proof fn lemma_priority_wins(rt: Runtime, i: int, j: int)
    requires
        rt.wf(),
        0 <= i < j < TIER_COUNT,
        rt.spec_queues()[i].len() > 0,
    ensures
        rt.spec_first_ready() matches Some(t) && 0 <= t <= i && t < j,
{
}

/// What one dispatch selects in queue state `qs`: the front task of the most
/// urgent non-empty tier. This is exactly what `Runtime::run_next` does.
pub open spec fn spec_dispatched(qs: Seq<Seq<u32>>) -> Option<(int, u32)>
    recommends
        qs.len() == TIER_COUNT,
{
    if qs[0].len() > 0 {
        Some((0int, qs[0][0]))
    } else if qs[1].len() > 0 {
        Some((1int, qs[1][0]))
    } else if qs[2].len() > 0 {
        Some((2int, qs[2][0]))
    } else {
        None
    }
}

/// Queue state after one dispatch.
pub open spec fn spec_after_dispatch(qs: Seq<Seq<u32>>) -> Seq<Seq<u32>>
    recommends
        qs.len() == TIER_COUNT,
{
    match spec_dispatched(qs) {
        Some((t, _)) => qs.update(t, qs[t].remove(0)),
        None => qs,
    }
}

/// The tier/task pairs dispatched over at most `k` consecutive dispatches
/// with no wake in between.
pub open spec fn spec_dispatch_seq(qs: Seq<Seq<u32>>, k: nat) -> Seq<(int, u32)>
    recommends
        qs.len() == TIER_COUNT,
    decreases k,
{
    if k == 0 {
        Seq::empty()
    } else {
        match spec_dispatched(qs) {
            None => Seq::empty(),
            Some(d) => seq![d] + spec_dispatch_seq(spec_after_dispatch(qs), (k - 1) as nat),
        }
    }
}

/// Priority property over whole runs: starting from any state in which some
/// task is ready on tier `i`, however many dispatches follow, no task of a
/// less urgent tier `j > i` is dispatched until the tier-`i` front task has
/// been dispatched first. A lower tier never starves a more urgent one, and
/// a tie between simultaneously ready tiers always falls to the more urgent.
pub proof fn lemma_tier_dispatch_order(qs: Seq<Seq<u32>>, i: int, j: int, k: nat)
    requires
        qs.len() == TIER_COUNT,
        0 <= i < j < TIER_COUNT,
        qs[i].len() > 0,
    ensures
        forall|m: int|
            0 <= m < spec_dispatch_seq(qs, k).len() && (#[trigger] spec_dispatch_seq(qs, k)[m]).0
                == j ==> exists|m2: int|
                0 <= m2 < m && spec_dispatch_seq(qs, k)[m2] == (i, qs[i][0]),
    decreases k,
{
    if k > 0 {
        let d = spec_dispatched(qs)->Some_0;
        let t0 = d.0;
        assert(t0 <= i);
        let rest = spec_dispatch_seq(spec_after_dispatch(qs), (k - 1) as nat);
        let whole = spec_dispatch_seq(qs, k);
        assert(whole == seq![d] + rest);
        assert(whole[0] == d);
        if t0 == i {
            // The tier-i front task is dispatched at once, before anything
            // of tier j.
            assert(d == (i, qs[i][0]));
            assert forall|m: int|
                0 <= m < whole.len() && (#[trigger] whole[m]).0 == j implies exists|m2: int|
                0 <= m2 < m && whole[m2] == (i, qs[i][0]) by {
                assert(whole[0] == (i, qs[i][0]));
                assert(m != 0);
            }
        } else {
            // A still more urgent tier ran first; tier i keeps its front
            // task and the claim follows for the remaining dispatches.
            let qs2 = spec_after_dispatch(qs);
            assert(qs2[i] == qs[i]);
            lemma_tier_dispatch_order(qs2, i, j, (k - 1) as nat);
            assert forall|m: int|
                0 <= m < whole.len() && (#[trigger] whole[m]).0 == j implies exists|m2: int|
                0 <= m2 < m && whole[m2] == (i, qs[i][0]) by {
                assert(m != 0);
                assert(whole[m] == rest[m - 1]);
                let m2r = choose|m2r: int|
                    0 <= m2r < m - 1 && rest[m2r] == (i, qs2[i][0]);
                assert(whole[m2r + 1] == rest[m2r]);
                assert(whole[m2r + 1] == (i, qs[i][0]));
            }
        }
    }
}

} // verus!
