//! Summary of a series of elapsed times: count, sum, maximum and average,
//! and the latencies they give against a requested interval.
use vstd::prelude::*;

verus! {

/// Sum of a sequence.
pub open spec fn seq_sum(s: Seq<nat>) -> nat
    decreases s.len(),
{
    if s.len() == 0 {
        0
    } else {
        seq_sum(s.drop_last()) + s.last()
    }
}

/// Largest element of a sequence, 0 for the empty one.
pub open spec fn seq_max(s: Seq<nat>) -> nat
    decreases s.len(),
{
    if s.len() == 0 {
        0
    } else if s.last() > seq_max(s.drop_last()) {
        s.last()
    } else {
        seq_max(s.drop_last())
    }
}

/// An elapsed time as recorded: a negative reading counts as 0.
pub open spec fn elapsed_of(elapsed_ns: i64) -> nat {
    if elapsed_ns < 0 {
        0
    } else {
        elapsed_ns as nat
    }
}

/// `a - b`, or 0 when `b` is larger.
pub open spec fn minus_or_zero(a: nat, b: nat) -> nat {
    if a >= b {
        (a - b) as nat
    } else {
        0
    }
}

proof fn lemma_sum_bound(s: Seq<nat>)
    requires
        forall|i: int| 0 <= i < s.len() ==> s[i] <= u64::MAX,
    ensures
        seq_sum(s) <= s.len() * (u64::MAX as nat),
        seq_max(s) <= u64::MAX,
    decreases s.len(),
{
    if s.len() > 0 {
        lemma_sum_bound(s.drop_last());
        assert(seq_sum(s) <= s.len() * (u64::MAX as nat)) by (nonlinear_arith)
            requires
                seq_sum(s) == seq_sum(s.drop_last()) + s.last(),
                seq_sum(s.drop_last()) <= (s.len() - 1) * (u64::MAX as nat),
                s.last() <= u64::MAX,
        ;
    }
}

proof fn lemma_average_le_max(s: Seq<nat>)
    requires
        s.len() > 0,
    ensures
        seq_sum(s) <= s.len() * seq_max(s),
        seq_sum(s) / s.len() <= seq_max(s),
    decreases s.len(),
{
    if s.len() > 1 {
        lemma_average_le_max(s.drop_last());
        assert(seq_sum(s) <= s.len() * seq_max(s)) by (nonlinear_arith)
            requires
                seq_sum(s) == seq_sum(s.drop_last()) + s.last(),
                seq_sum(s.drop_last()) <= (s.len() - 1) * seq_max(s.drop_last()),
                seq_max(s.drop_last()) <= seq_max(s),
                s.last() <= seq_max(s),
        ;
    } else {
        assert(s.drop_last().len() == 0);
        assert(seq_sum(s.drop_last()) == 0 && seq_max(s.drop_last()) == 0);
        assert(seq_sum(s) == seq_max(s));
        assert(seq_sum(s) <= s.len() * seq_max(s)) by (nonlinear_arith)
            requires
                s.len() == 1,
                seq_sum(s) == seq_max(s),
        ;
    }
    assert(seq_sum(s) / s.len() <= seq_max(s)) by (nonlinear_arith)
        requires
            s.len() > 0,
            seq_sum(s) <= s.len() * seq_max(s),
    ;
}

/// Count, sum and maximum of the elapsed times recorded so far.
pub struct ElapsedSummary {
    total: u128,
    max: u64,
    samples: u64,
    recorded: Ghost<Seq<nat>>,
}

impl View for ElapsedSummary {
    type V = Seq<nat>;

    /// The elapsed times recorded so far, in nanoseconds, in order.
    closed spec fn view(&self) -> Seq<nat> {
        self.recorded@
    }
}

impl ElapsedSummary {
    pub closed spec fn wf(&self) -> bool {
        &&& self.samples == self.recorded@.len()
        &&& self.total == seq_sum(self.recorded@)
        &&& self.max == seq_max(self.recorded@)
        &&& forall|i: int| 0 <= i < self.recorded@.len() ==> self.recorded@[i] <= u64::MAX
    }

    /// A summary of nothing.
    pub fn new() -> (r: ElapsedSummary)
        ensures
            r.wf(),
            r@ == Seq::<nat>::empty(),
    {
        ElapsedSummary { total: 0, max: 0, samples: 0, recorded: Ghost(Seq::empty()) }
    }

    /// Records one elapsed time in nanoseconds.
    pub fn add(&mut self, elapsed_ns: i64)
        requires
            old(self).wf(),
            old(self)@.len() < u64::MAX,
        ensures
            final(self).wf(),
            final(self)@ == old(self)@.push(elapsed_of(elapsed_ns)),
    {
        let e: u64 = if elapsed_ns < 0 {
            0
        } else {
            elapsed_ns as u64
        };
        let ghost next = self.recorded@.push(e as nat);
        proof {
            lemma_sum_bound(self.recorded@);
            assert(next.drop_last() =~= self.recorded@);
            assert(self.total + e <= u128::MAX) by (nonlinear_arith)
                requires
                    self.total <= self.recorded@.len() * (u64::MAX as nat),
                    self.recorded@.len() < u64::MAX,
                    e <= u64::MAX,
            ;
        }
        self.total = self.total + e as u128;
        if e > self.max {
            self.max = e;
        }
        self.samples = self.samples + 1;
        self.recorded = Ghost(next);
    }

    /// Number of elapsed times recorded.
    pub fn samples(&self) -> (r: u64)
        requires
            self.wf(),
        ensures
            r == self@.len(),
    {
        self.samples
    }

    /// Largest elapsed time recorded, 0 if none.
    pub fn max(&self) -> (r: u64)
        requires
            self.wf(),
        ensures
            r == seq_max(self@),
    {
        self.max
    }

    /// Average elapsed time (rounded down), or `None` if nothing was recorded.
    pub fn average(&self) -> (r: Option<u64>)
        requires
            self.wf(),
        ensures
            self@.len() == 0 <==> r is None,
            r matches Some(a) ==> a == seq_sum(self@) / self@.len(),
    {
        if self.samples == 0 {
            None
        } else {
            proof {
                lemma_sum_bound(self.recorded@);
                lemma_average_le_max(self.recorded@);
            }
            Some((self.total / self.samples as u128) as u64)
        }
    }

    /// Average latency against `interval_ns`: the average elapsed time less
    /// the interval, 0 when below it; `None` if nothing was recorded.
    pub fn average_latency(&self, interval_ns: u64) -> (r: Option<u64>)
        requires
            self.wf(),
        ensures
            self@.len() == 0 <==> r is None,
            r matches Some(a) ==> a == minus_or_zero(seq_sum(self@) / self@.len(), interval_ns as nat),
    {
        match self.average() {
            None => None,
            Some(a) => Some(if a >= interval_ns { a - interval_ns } else { 0 }),
        }
    }

    /// Maximal latency against `interval_ns`: the largest elapsed time less
    /// the interval, 0 when below it.
    pub fn max_latency(&self, interval_ns: u64) -> (r: u64)
        requires
            self.wf(),
        ensures
            r == minus_or_zero(seq_max(self@), interval_ns as nat),
    {
        if self.max >= interval_ns {
            self.max - interval_ns
        } else {
            0
        }
    }
}

} // verus!
