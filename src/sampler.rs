//! The per-thread sampling loop as a state machine: the caller sleeps and
//! reads the clock as the machine asks, and hands back the two readings of
//! each cycle, which the machine folds into the statistics table.
use vstd::prelude::*;
use crate::stats::{hist_sum, lemma_every_sample_counted, LatencyStats, Stats, MAX_THREADS};
use crate::timer::Timespec;

verus! {

/// The sleep facility that a sampling thread measures.
#[derive(Clone, Copy, Debug, PartialEq, Eq, Structural)]
pub enum SleepPrimitive {
    /// A relative sleep of the interval from the generic sleep facility.
    Duration,
    /// A sleep through the monotonic clock's timed-wait primitive.
    ClockNanosleep,
}

/// Configuration of one sampling thread.
#[derive(Clone, Copy, Debug, PartialEq, Eq, Structural)]
pub struct ThreadParam {
    /// Index of the thread's slot in the statistics table.
    pub thread_num: u32,
    /// Requested sleep interval in nanoseconds.
    pub interval: u32,
    /// Number of cycles to measure.
    pub cycles: u32,
    /// Sleep facility under test.
    pub sleep_fn: SleepPrimitive,
}

/// What the caller of the sampling machine does next.
#[derive(Clone, Copy, Debug, PartialEq, Eq, Structural)]
pub enum SampleAction {
    /// Read the clock, sleep `interval_ns` with `primitive`, read the clock
    /// again, and hand both readings back.
    Sleep { primitive: SleepPrimitive, interval_ns: u32 },
    /// Every cycle has been measured.
    Finished,
}

/// Latency of one cycle: elapsed time minus the requested interval, in
/// nanoseconds, taken as 0 when the sleep ended early and capped at
/// `u64::MAX`.
pub open spec fn latency_of(start: Timespec, end: Timespec, interval: u32) -> nat {
    let l = Timespec::difference_ns(start, end) - interval;
    if l < 0 {
        0
    } else if l > u64::MAX {
        u64::MAX as nat
    } else {
        l as nat
    }
}

/// Computes `latency_of(start, end, interval)`.
pub fn latency_ns(start: Timespec, end: Timespec, interval: u32) -> (r: u64)
    ensures
        r == latency_of(start, end, interval),
{
    let l: i128 = Timespec::diff_ns_wide(start, end) - interval as i128;
    if l < 0 {
        0
    } else if l > u64::MAX as i128 {
        u64::MAX
    } else {
        l as u64
    }
}

/// State of one sampling thread: its parameters, the cycles done and the
/// latencies they gave.
pub struct SampleLoop {
    param: ThreadParam,
    completed: u32,
    latencies: Ghost<Seq<nat>>,
}

impl SampleLoop {
    pub closed spec fn spec_param(&self) -> ThreadParam {
        self.param
    }

    pub closed spec fn spec_completed(&self) -> nat {
        self.completed as nat
    }

    /// The latencies of the cycles done so far, in order.
    pub closed spec fn spec_latencies(&self) -> Seq<nat> {
        self.latencies@
    }

    pub closed spec fn wf(&self) -> bool {
        &&& self.completed <= self.param.cycles
        &&& self.latencies@.len() == self.completed
        &&& forall|i: int| 0 <= i < self.latencies@.len() ==> self.latencies@[i] <= u64::MAX
    }

    /// The action owed in the current state: another cycle while fewer than
    /// `cycles` are done, else `Finished`.
    pub open spec fn next_spec(&self) -> SampleAction {
        if self.spec_completed() < self.spec_param().cycles {
            SampleAction::Sleep {
                primitive: self.spec_param().sleep_fn,
                interval_ns: self.spec_param().interval,
            }
        } else {
            SampleAction::Finished
        }
    }

    /// A sampling thread that has measured nothing yet.
    pub fn new(param: ThreadParam) -> (r: SampleLoop)
        ensures
            r.wf(),
            r.spec_param() == param,
            r.spec_completed() == 0,
            r.spec_latencies() == Seq::<nat>::empty(),
    {
        SampleLoop { param, completed: 0, latencies: Ghost(Seq::empty()) }
    }

    /// The next action.
    pub fn next_action(&self) -> (r: SampleAction)
        ensures
            r == self.next_spec(),
    {
        if self.completed < self.param.cycles {
            SampleAction::Sleep { primitive: self.param.sleep_fn, interval_ns: self.param.interval }
        } else {
            SampleAction::Finished
        }
    }

    /// The thread's parameters.
    pub fn param(&self) -> (r: ThreadParam)
        ensures
            r == self.spec_param(),
    {
        self.param
    }

    /// Number of cycles measured so far.
    pub fn completed(&self) -> (r: u32)
        ensures
            r == self.spec_completed(),
    {
        self.completed
    }
}

/// A thread asked for zero cycles is finished before it measures anything,
/// so its statistics keep their initial values.
pub proof fn lemma_zero_cycles_finish_at_once(param: ThreadParam, sampler: SampleLoop)
    requires
        param.cycles == 0,
        sampler.spec_param() == param,
        sampler.spec_completed() == 0,
    ensures
        sampler.next_spec() == SampleAction::Finished,
        !(sampler.spec_completed() < sampler.spec_param().cycles),
{
}

/// A thread that has run all its cycles, each folded into a slot that
/// started in the initial state, has every cycle in that slot: the bucket
/// counts plus the overflow count equal `cycles`.
pub proof fn lemma_completed_run_counts_every_cycle(sampler: SampleLoop, slot: LatencyStats)
    requires
        sampler.wf(),
        sampler.next_spec() == SampleAction::Finished,
        slot == LatencyStats::initial().record_all(sampler.spec_latencies()),
    ensures
        hist_sum(slot.hist) + slot.overflows == sampler.spec_param().cycles,
{
    lemma_every_sample_counted(sampler.spec_latencies());
}

/// Takes the two clock readings of one cycle of `sampler`, folds the
/// cycle's latency into the thread's slot of `stats` and returns the next
/// action. The readings are taken by the caller, outside the table's lock;
/// this step is what runs under it.
pub fn sample_clock_nanosleep_with_duration(
    sampler: &mut SampleLoop,
    stats: &mut Stats,
    start: Timespec,
    end: Timespec,
) -> (r: SampleAction)
    requires
        old(sampler).wf(),
        old(sampler).spec_completed() < old(sampler).spec_param().cycles,
        old(sampler).spec_param().thread_num < MAX_THREADS,
        old(stats).wf(),
        old(stats)@[old(sampler).spec_param().thread_num as int].samples < u64::MAX,
    ensures
        final(sampler).wf(),
        final(sampler).spec_param() == old(sampler).spec_param(),
        final(sampler).spec_completed() == old(sampler).spec_completed() + 1,
        final(sampler).spec_latencies() == old(sampler).spec_latencies().push(
            latency_of(start, end, old(sampler).spec_param().interval),
        ),
        final(stats).wf(),
        ({
            let p = old(sampler).spec_param();
            let t = p.thread_num as int;
            final(stats)@ == old(stats)@.update(
                t,
                old(stats)@[t].record(latency_of(start, end, p.interval)),
            )
        }),
        r == final(sampler).next_spec(),
{
    let latency = latency_ns(start, end, sampler.param.interval);
    stats.record(sampler.param.thread_num as usize, latency);
    sampler.completed = sampler.completed + 1;
    sampler.latencies = Ghost(sampler.latencies@.push(latency as nat));
    sampler.next_action()
}

} // verus!
