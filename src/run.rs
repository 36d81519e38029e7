//! The run orchestrator as a state machine: `Idle`, then `Running` once the
//! setup raised no fatal failure (`Aborted` otherwise), then `Completed`
//! when every worker has been joined.
use vstd::prelude::*;
use crate::env::{fatal_spec, is_fatal, SetupFailure};
use crate::sampler::{SleepPrimitive, ThreadParam};
use crate::stats::MAX_THREADS;

verus! {

/// Phase of a run.
#[derive(Clone, Copy, Debug, PartialEq, Eq, Structural)]
pub enum RunPhase {
    Idle,
    Running,
    Completed,
    Aborted,
}

/// Whether some failure in `failures` stops the run.
pub open spec fn any_fatal(failures: Seq<SetupFailure>, required: bool) -> bool {
    exists|i: int| 0 <= i < failures.len() && fatal_spec(#[trigger] failures[i], required)
}

/// Whether every entry of `joined` is set.
pub open spec fn all_set(joined: Seq<bool>) -> bool {
    forall|i: int| 0 <= i < joined.len() ==> #[trigger] joined[i]
}

/// One measurement run over a fixed number of worker threads.
pub struct Run {
    phase: RunPhase,
    threads: u32,
    required: bool,
    joined: Vec<bool>,
    failed: Vec<bool>,
}

impl Run {
    pub closed spec fn spec_phase(&self) -> RunPhase {
        self.phase
    }

    pub closed spec fn spec_threads(&self) -> nat {
        self.threads as nat
    }

    pub closed spec fn spec_required(&self) -> bool {
        self.required
    }

    /// Which workers have been joined, by thread index.
    pub closed spec fn spec_joined(&self) -> Seq<bool> {
        self.joined@
    }

    /// Which joined workers terminated abnormally, by thread index.
    pub closed spec fn spec_failed(&self) -> Seq<bool> {
        self.failed@
    }

    pub closed spec fn wf(&self) -> bool {
        &&& self.threads <= MAX_THREADS
        &&& self.joined@.len() == self.threads
        &&& self.failed@.len() == self.threads
        &&& forall|i: int| 0 <= i < self.threads && #[trigger] self.failed@[i] ==> self.joined@[i]
        &&& self.phase == RunPhase::Idle ==> self.joined@ == Seq::new(self.threads as nat, |i: int| false)
        &&& self.phase == RunPhase::Completed ==> all_set(self.joined@)
        &&& self.phase == RunPhase::Running ==> !all_set(self.joined@)
    }

    /// A run of `threads` workers, not yet set up. A `required` run stops
    /// when memory cannot be locked or the idle state cannot be disabled.
    pub fn new(threads: u32, required: bool) -> (r: Run)
        requires
            threads <= MAX_THREADS,
        ensures
            r.wf(),
            r.spec_phase() == RunPhase::Idle,
            r.spec_threads() == threads,
            r.spec_required() == required,
            r.spec_joined() == Seq::new(threads as nat, |i: int| false),
            r.spec_failed() == Seq::new(threads as nat, |i: int| false),
    {
        let mut joined: Vec<bool> = Vec::new();
        let mut failed: Vec<bool> = Vec::new();
        let mut k: u32 = 0;
        while k < threads
            invariant
                k <= threads,
                joined@ == Seq::new(k as nat, |i: int| false),
                failed@ == Seq::new(k as nat, |i: int| false),
            decreases threads - k,
        {
            joined.push(false);
            failed.push(false);
            k = k + 1;
            proof {
                assert(joined@ =~= Seq::new(k as nat, |i: int| false));
                assert(failed@ =~= Seq::new(k as nat, |i: int| false));
            }
        }
        Run { phase: RunPhase::Idle, threads, required, joined, failed }
    }

    /// Takes the failures collected during setup. Returns whether workers
    /// are to be spawned: the run aborts if one failure is fatal, else it
    /// runs (and is at once complete when it has no worker).
    pub fn setup_done(&mut self, failures: &Vec<SetupFailure>) -> (spawn: bool)
        requires
            old(self).wf(),
            old(self).spec_phase() == RunPhase::Idle,
        ensures
            final(self).wf(),
            spawn == !any_fatal(failures@, old(self).spec_required()),
            final(self).spec_phase() == if !spawn {
                RunPhase::Aborted
            } else if old(self).spec_threads() == 0 {
                RunPhase::Completed
            } else {
                RunPhase::Running
            },
            final(self).spec_threads() == old(self).spec_threads(),
            final(self).spec_required() == old(self).spec_required(),
            final(self).spec_joined() == old(self).spec_joined(),
            final(self).spec_failed() == old(self).spec_failed(),
    {
        let mut i: usize = 0;
        let mut fatal = false;
        while i < failures.len()
            invariant
                i <= failures@.len(),
                fatal <==> exists|j: int| 0 <= j < i && fatal_spec(
                    #[trigger] failures@[j],
                    self.required,
                ),
            decreases failures@.len() - i,
        {
            if is_fatal(failures[i], self.required) {
                fatal = true;
            }
            i = i + 1;
        }
        if fatal {
            self.phase = RunPhase::Aborted;
        } else if self.threads == 0 {
            self.phase = RunPhase::Completed;
        } else {
            self.phase = RunPhase::Running;
            proof {
                assert(!self.joined@[0]);
            }
        }
        !fatal
    }

    /// Parameters of every worker: thread `i` gets index `i` and the common
    /// interval, cycle count and sleep facility.
    pub fn thread_params(&self, interval: u32, cycles: u32, sleep_fn: SleepPrimitive) -> (r: Vec<
        ThreadParam,
    >)
        requires
            self.wf(),
        ensures
            r@.len() == self.spec_threads(),
            forall|i: int| 0 <= i < r@.len() ==> #[trigger] r@[i] == (ThreadParam {
                thread_num: i as u32,
                interval,
                cycles,
                sleep_fn,
            }),
    {
        let mut r: Vec<ThreadParam> = Vec::new();
        let mut k: u32 = 0;
        while k < self.threads
            invariant
                k <= self.threads,
                r@.len() == k,
                forall|i: int| 0 <= i < k ==> #[trigger] r@[i] == (ThreadParam {
                    thread_num: i as u32,
                    interval,
                    cycles,
                    sleep_fn,
                }),
            decreases self.threads - k,
        {
            r.push(ThreadParam { thread_num: k, interval, cycles, sleep_fn });
            k = k + 1;
        }
        r
    }

    /// Records that worker `index` has been joined, and whether it
    /// terminated normally. The run is complete once every worker is joined.
    pub fn worker_joined(&mut self, index: u32, ok: bool)
        requires
            old(self).wf(),
            old(self).spec_phase() == RunPhase::Running,
            index < old(self).spec_threads(),
            !old(self).spec_joined()[index as int],
        ensures
            final(self).wf(),
            final(self).spec_threads() == old(self).spec_threads(),
            final(self).spec_required() == old(self).spec_required(),
            final(self).spec_joined() == old(self).spec_joined().update(index as int, true),
            final(self).spec_failed() == old(self).spec_failed().update(index as int, !ok),
            final(self).spec_phase() == if all_set(final(self).spec_joined()) {
                RunPhase::Completed
            } else {
                RunPhase::Running
            },
    {
        self.joined.set(index as usize, true);
        self.failed.set(index as usize, !ok);
        let mut i: usize = 0;
        let mut all = true;
        while i < self.joined.len()
            invariant
                i <= self.joined@.len(),
                all <==> (forall|j: int| 0 <= j < i ==> #[trigger] self.joined@[j]),
            decreases self.joined@.len() - i,
        {
            if !self.joined[i] {
                all = false;
            }
            i = i + 1;
        }
        if all {
            self.phase = RunPhase::Completed;
        }
    }

    /// The phase the run is in.
    pub fn phase(&self) -> (r: RunPhase)
        ensures
            r == self.spec_phase(),
    {
        self.phase
    }

    /// Number of workers.
    pub fn threads(&self) -> (r: u32)
        ensures
            r == self.spec_threads(),
    {
        self.threads
    }

    /// Whether worker `index` has been joined.
    pub fn is_joined(&self, index: u32) -> (r: bool)
        requires
            self.wf(),
            index < self.spec_threads(),
        ensures
            r == self.spec_joined()[index as int],
    {
        self.joined[index as usize]
    }

    /// Indices of the workers that terminated abnormally, in increasing
    /// order; their statistics are incomplete.
    pub fn failed_workers(&self) -> (r: Vec<u32>)
        requires
            self.wf(),
        ensures
            forall|k: int| 0 <= k < r@.len() ==> #[trigger] r@[k] < self.spec_threads()
                && self.spec_failed()[r@[k] as int],
            forall|i: int|
                0 <= i < self.spec_threads() && #[trigger] self.spec_failed()[i] ==> r@.contains(
                    i as u32,
                ),
            forall|a: int, b: int| 0 <= a < b < r@.len() ==> r@[a] < r@[b],
    {
        let mut r: Vec<u32> = Vec::new();
        let mut k: u32 = 0;
        while k < self.threads
            invariant
                self.wf(),
                k <= self.threads,
                forall|j: int| 0 <= j < r@.len() ==> #[trigger] r@[j] < k && self.failed@[r@[j] as int],
                forall|i: int| 0 <= i < k && #[trigger] self.failed@[i] ==> r@.contains(i as u32),
                forall|a: int, b: int| 0 <= a < b < r@.len() ==> r@[a] < r@[b],
            decreases self.threads - k,
        {
            let ghost before = r@;
            if self.failed[k as usize] {
                r.push(k);
                proof {
                    assert(r@[r@.len() - 1] == k);
                }
            }
            proof {
                assert forall|i: int| 0 <= i <= k && #[trigger] self.failed@[i] implies r@.contains(
                    i as u32,
                ) by {
                    if i < k {
                        let j = choose|j: int| 0 <= j < before.len() && before[j] == i as u32;
                        assert(r@[j] == i as u32);
                    } else {
                        assert(r@[r@.len() - 1] == i as u32);
                    }
                }
            }
            k = k + 1;
        }
        r
    }
}

} // verus!
