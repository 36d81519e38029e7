//! Per-thread latency statistics and the table that holds one slot per
//! measuring thread.
use vstd::prelude::*;

verus! {

/// Number of histogram buckets; bucket `b` counts latencies in
/// `[b, b + 1)` microseconds.
pub const HIST_SIZE: usize = 15;

/// Number of thread slots in a statistics table.
pub const MAX_THREADS: usize = 10;

/// Nanoseconds per histogram bucket.
pub const NSEC_PER_USEC: u64 = 1000;

/// Sum of the counters of a histogram.
pub open spec fn hist_sum(h: Seq<nat>) -> nat
    decreases h.len(),
{
    if h.len() == 0 {
        0
    } else {
        hist_sum(h.drop_last()) + h.last()
    }
}

/// Histogram bucket of a latency in nanoseconds (whole microseconds).
pub open spec fn bucket_of(latency_ns: nat) -> nat {
    latency_ns / (NSEC_PER_USEC as nat)
}

/// Mathematical model of one thread's statistics.
pub struct LatencyStats {
    pub hist: Seq<nat>,
    pub overflows: nat,
    pub min: nat,
    pub max: nat,
    pub samples: nat,
    /// Sum of all latencies recorded so far.
    pub total: nat,
}

impl LatencyStats {
    /// Statistics before any sample: `min` at its sentinel, all else zero.
    pub open spec fn initial() -> LatencyStats {
        LatencyStats {
            hist: Seq::new(HIST_SIZE as nat, |i: int| 0nat),
            overflows: 0,
            min: u64::MAX as nat,
            max: 0,
            samples: 0,
            total: 0,
        }
    }

    /// Running average: the sum so far over the samples so far; the sentinel
    /// `u64::MAX` while nothing has been recorded.
    pub open spec fn average(self) -> nat {
        if self.samples == 0 {
            u64::MAX as nat
        } else {
            self.total / self.samples
        }
    }

    /// Folds one latency into the statistics.
    pub open spec fn record(self, latency_ns: nat) -> LatencyStats {
        let b = bucket_of(latency_ns);
        LatencyStats {
            hist: if b < HIST_SIZE {
                self.hist.update(b as int, self.hist[b as int] + 1)
            } else {
                self.hist
            },
            overflows: if b < HIST_SIZE {
                self.overflows
            } else {
                self.overflows + 1
            },
            min: if latency_ns < self.min {
                latency_ns
            } else {
                self.min
            },
            max: if latency_ns > self.max {
                latency_ns
            } else {
                self.max
            },
            samples: self.samples + 1,
            total: self.total + latency_ns,
        }
    }

    /// Folds a sequence of latencies into the statistics, first to last.
    pub open spec fn record_all(self, latencies: Seq<nat>) -> LatencyStats
        decreases latencies.len(),
    {
        if latencies.len() == 0 {
            self
        } else {
            self.record_all(latencies.drop_last()).record(latencies.last())
        }
    }

    /// What holds of statistics built by `record` from `initial`.
    pub open spec fn consistent(self) -> bool {
        &&& self.hist.len() == HIST_SIZE
        &&& hist_sum(self.hist) + self.overflows == self.samples
        &&& self.min <= u64::MAX
        &&& self.max <= u64::MAX
        &&& self.samples == 0 ==> self.min == u64::MAX && self.max == 0 && self.total == 0
        &&& self.samples > 0 ==> {
            &&& self.min <= self.max
            &&& self.samples * self.min <= self.total <= self.samples * self.max
        }
    }
}

proof fn lemma_hist_sum_update(h: Seq<nat>, i: int, v: nat)
    requires
        0 <= i < h.len(),
    ensures
        hist_sum(h.update(i, v)) + h[i] == hist_sum(h) + v,
    decreases h.len(),
{
    let u = h.update(i, v);
    if i == h.len() - 1 {
        assert(u.drop_last() =~= h.drop_last());
    } else {
        lemma_hist_sum_update(h.drop_last(), i, v);
        assert(u.drop_last() =~= h.drop_last().update(i, v));
    }
}

proof fn lemma_hist_entry_le_sum(h: Seq<nat>, i: int)
    requires
        0 <= i < h.len(),
    ensures
        h[i] <= hist_sum(h),
    decreases h.len(),
{
    if i < h.len() - 1 {
        lemma_hist_entry_le_sum(h.drop_last(), i);
    }
}

proof fn lemma_hist_sum_zeros(n: nat)
    ensures
        hist_sum(Seq::new(n, |i: int| 0nat)) == 0,
    decreases n,
{
    if n > 0 {
        lemma_hist_sum_zeros((n - 1) as nat);
        assert(Seq::new(n, |i: int| 0nat).drop_last() =~= Seq::new((n - 1) as nat, |i: int| 0nat));
    }
}

proof fn lemma_initial_consistent()
    ensures
        LatencyStats::initial().consistent(),
{
    lemma_hist_sum_zeros(HIST_SIZE as nat);
}

proof fn lemma_record_consistent(s: LatencyStats, latency_ns: nat)
    requires
        s.consistent(),
        latency_ns <= u64::MAX,
    ensures
        s.record(latency_ns).consistent(),
{
    let r = s.record(latency_ns);
    let b = bucket_of(latency_ns);
    if b < HIST_SIZE {
        lemma_hist_sum_update(s.hist, b as int, s.hist[b as int] + 1);
    }
    if s.samples > 0 {
        assert(r.samples * r.min <= r.total) by (nonlinear_arith)
            requires
                r.samples == s.samples + 1,
                r.total == s.total + latency_ns,
                s.samples * s.min <= s.total,
                r.min <= s.min,
                r.min <= latency_ns,
        ;
        assert(r.total <= r.samples * r.max) by (nonlinear_arith)
            requires
                r.samples == s.samples + 1,
                r.total == s.total + latency_ns,
                s.total <= s.samples * s.max,
                r.max >= s.max,
                r.max >= latency_ns,
        ;
    } else {
        assert(r.min == latency_ns && r.max == latency_ns && r.total == latency_ns);
        assert(r.samples * r.min == r.total && r.total == r.samples * r.max) by (nonlinear_arith)
            requires
                r.samples == 1,
                r.min == latency_ns && r.max == latency_ns && r.total == latency_ns,
        ;
    }
}

/// Recording keeps a histogram of every sample: after a run of any number of
/// samples from the initial state, the bucket counts plus the overflow count
/// equal the number of samples.
pub proof fn lemma_every_sample_counted(latencies: Seq<nat>)
    requires
        forall|i: int| 0 <= i < latencies.len() ==> latencies[i] <= u64::MAX,
    ensures
        ({
            let s = LatencyStats::initial().record_all(latencies);
            hist_sum(s.hist) + s.overflows == latencies.len() && s.samples == latencies.len()
        }),
{
    lemma_record_all_consistent(latencies);
}

proof fn lemma_record_all_consistent(latencies: Seq<nat>)
    requires
        forall|i: int| 0 <= i < latencies.len() ==> latencies[i] <= u64::MAX,
    ensures
        LatencyStats::initial().record_all(latencies).consistent(),
        LatencyStats::initial().record_all(latencies).samples == latencies.len(),
    decreases latencies.len(),
{
    if latencies.len() == 0 {
        lemma_initial_consistent();
    } else {
        lemma_record_all_consistent(latencies.drop_last());
        lemma_record_consistent(
            LatencyStats::initial().record_all(latencies.drop_last()),
            latencies.last(),
        );
    }
}

/// Once at least one sample is recorded, the running average lies between
/// the minimum and the maximum.
pub proof fn lemma_average_within_bounds(s: LatencyStats)
    requires
        s.consistent(),
        s.samples > 0,
    ensures
        s.min <= s.average() <= s.max,
{
    assert(s.min <= s.total / s.samples <= s.max) by (nonlinear_arith)
        requires
            s.samples > 0,
            s.samples * s.min <= s.total <= s.samples * s.max,
    ;
}

/// Statistics after any run of samples from the initial state satisfy
/// `min <= average <= max` once a sample is recorded.
pub proof fn lemma_average_within_bounds_after_run(latencies: Seq<nat>)
    requires
        latencies.len() > 0,
        forall|i: int| 0 <= i < latencies.len() ==> latencies[i] <= u64::MAX,
    ensures
        ({
            let s = LatencyStats::initial().record_all(latencies);
            s.min <= s.average() <= s.max
        }),
{
    lemma_record_all_consistent(latencies);
    lemma_average_within_bounds(LatencyStats::initial().record_all(latencies));
}

/// One thread's latency statistics: histogram, overflow count, minimum,
/// maximum and running average, all in nanoseconds.
pub struct ThreadStats {
    hist: Vec<u64>,
    overflows: u64,
    average: u64,
    max: u64,
    min: u64,
    samples: u64,
    total: u128,
}

impl View for ThreadStats {
    type V = LatencyStats;

    closed spec fn view(&self) -> LatencyStats {
        LatencyStats {
            hist: self.hist@.map_values(|x: u64| x as nat),
            overflows: self.overflows as nat,
            min: self.min as nat,
            max: self.max as nat,
            samples: self.samples as nat,
            total: self.total as nat,
        }
    }
}

impl ThreadStats {
    /// The histogram has `HIST_SIZE` buckets, the model is consistent and
    /// the stored average is the model's.
    pub closed spec fn wf(&self) -> bool {
        &&& self.hist@.len() == HIST_SIZE
        &&& self@.consistent()
        &&& self.average as nat == self@.average()
    }

    /// Statistics in their initial state.
    pub fn new() -> (r: ThreadStats)
        ensures
            r.wf(),
            r@ == LatencyStats::initial(),
            r@.consistent(),
    {
        let r = ThreadStats {
            hist: vec![0u64; HIST_SIZE],
            overflows: 0,
            average: u64::MAX,
            max: 0,
            min: u64::MAX,
            samples: 0,
            total: 0,
        };
        proof {
            assert(r@.hist =~= LatencyStats::initial().hist);
            lemma_initial_consistent();
        }
        r
    }

    /// Folds one latency (in nanoseconds) into the statistics.
    pub fn record(&mut self, latency_ns: u64)
        requires
            old(self).wf(),
            old(self)@.samples < u64::MAX,
        ensures
            final(self).wf(),
            final(self)@ == old(self)@.record(latency_ns as nat),
            final(self)@.consistent(),
            final(self)@.min <= final(self)@.average() <= final(self)@.max,
    {
        let ghost before = self@;
        proof {
            lemma_record_consistent(before, latency_ns as nat);
            let m = before.max;
            let n = before.samples;
            if n > 0 {
                assert(before.total + latency_ns <= u128::MAX) by (nonlinear_arith)
                    requires
                        before.total <= n * m,
                        n < u64::MAX,
                        m <= u64::MAX,
                        latency_ns <= u64::MAX,
                ;
            }
        }
        let b = latency_ns / NSEC_PER_USEC;
        if b < HIST_SIZE as u64 {
            let i = b as usize;
            proof {
                lemma_hist_entry_le_sum(before.hist, i as int);
            }
            let c = self.hist[i];
            self.hist.set(i, c + 1);
        } else {
            self.overflows = self.overflows + 1;
        }
        if latency_ns < self.min {
            self.min = latency_ns;
        }
        if latency_ns > self.max {
            self.max = latency_ns;
        }
        self.samples = self.samples + 1;
        self.total = self.total + latency_ns as u128;
        proof {
            let after = before.record(latency_ns as nat);
            assert(self@.hist =~= after.hist);
            assert(self@ == after);
            lemma_average_within_bounds(after);
        }
        self.average = (self.total / self.samples as u128) as u64;
    }

    /// Counter of histogram bucket `b`.
    pub fn hist(&self, b: usize) -> (r: u64)
        requires
            self.wf(),
            b < HIST_SIZE,
        ensures
            r == self@.hist[b as int],
    {
        self.hist[b]
    }

    /// Number of samples above the histogram's range.
    pub fn overflows(&self) -> (r: u64)
        ensures
            r == self@.overflows,
    {
        self.overflows
    }

    /// Running average latency in nanoseconds (`u64::MAX` before any sample).
    pub fn average(&self) -> (r: u64)
        requires
            self.wf(),
        ensures
            r == self@.average(),
    {
        self.average
    }

    /// Largest latency recorded (0 before any sample).
    pub fn max(&self) -> (r: u64)
        ensures
            r == self@.max,
    {
        self.max
    }

    /// Smallest latency recorded (`u64::MAX` before any sample).
    pub fn min(&self) -> (r: u64)
        ensures
            r == self@.min,
    {
        self.min
    }

    /// Number of samples recorded.
    pub fn samples(&self) -> (r: u64)
        ensures
            r == self@.samples,
    {
        self.samples
    }
}

/// The statistics table: one `ThreadStats` slot per thread index.
pub struct Stats {
    threads: Vec<ThreadStats>,
}

impl View for Stats {
    type V = Seq<LatencyStats>;

    closed spec fn view(&self) -> Seq<LatencyStats> {
        self.threads@.map_values(|t: ThreadStats| t@)
    }
}

impl Stats {
    pub closed spec fn wf(&self) -> bool {
        &&& self.threads@.len() == MAX_THREADS
        &&& forall|i: int| 0 <= i < MAX_THREADS ==> #[trigger] self.threads@[i].wf()
    }

    /// A table with every slot in its initial state.
    pub fn new() -> (r: Stats)
        ensures
            r.wf(),
            r@.len() == MAX_THREADS,
            forall|i: int| 0 <= i < MAX_THREADS ==> #[trigger] r@[i] == LatencyStats::initial(),
    {
        let mut threads: Vec<ThreadStats> = Vec::new();
        let mut k: usize = 0;
        while k < MAX_THREADS
            invariant
                k <= MAX_THREADS,
                threads@.len() == k,
                forall|i: int| 0 <= i < k ==> #[trigger] threads@[i].wf() && threads@[i]@
                    == LatencyStats::initial(),
            decreases MAX_THREADS - k,
        {
            threads.push(ThreadStats::new());
            k = k + 1;
        }
        let r = Stats { threads };
        assert forall|i: int| 0 <= i < MAX_THREADS implies #[trigger] r@[i] == LatencyStats::initial() by {
            assert(r.threads@[i].wf());
            assert(r@[i] == r.threads@[i]@);
        }
        r
    }

    /// Folds one latency into the slot of `thread`; the other slots keep
    /// their values.
    pub fn record(&mut self, thread: usize, latency_ns: u64)
        requires
            old(self).wf(),
            thread < MAX_THREADS,
            old(self)@[thread as int].samples < u64::MAX,
        ensures
            final(self).wf(),
            final(self)@ == old(self)@.update(
                thread as int,
                old(self)@[thread as int].record(latency_ns as nat),
            ),
            forall|i: int| 0 <= i < MAX_THREADS ==> (#[trigger] final(self)@[i]).consistent(),
    {
        self.threads[thread].record(latency_ns);
        proof {
            assert forall|i: int| 0 <= i < MAX_THREADS implies (#[trigger] self@[i]).consistent() by {
                assert(self.threads@[i].wf());
            }
            assert(self@ =~= old(self)@.update(
                thread as int,
                old(self)@[thread as int].record(latency_ns as nat),
            ));
        }
    }

    /// The statistics of `thread`.
    pub fn thread(&self, thread: usize) -> (r: &ThreadStats)
        requires
            self.wf(),
            thread < MAX_THREADS,
        ensures
            r.wf(),
            r@ == self@[thread as int],
    {
        &self.threads[thread]
    }
}

} // verus!
