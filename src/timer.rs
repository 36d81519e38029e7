//! Monotonic timestamps and the signed nanosecond difference between them.
use vstd::prelude::*;

verus! {

/// Nanoseconds in one second.
pub const NSEC_PER_SEC: i64 = 1_000_000_000;

/// A reading of the monotonic clock: whole seconds and nanoseconds (the
/// clock keeps `nsec` within `[0, NSEC_PER_SEC)`; the arithmetic here does
/// not rely on it).
#[derive(Clone, Copy, Debug, PartialEq, Eq, Structural)]
pub struct Timespec {
    pub sec: i64,
    pub nsec: i64,
}

impl Timespec {
    /// The nanoseconds from `begin` to `end`, as a mathematical integer.
    pub open spec fn difference_ns(begin: Timespec, end: Timespec) -> int {
        (end.sec - begin.sec) * NSEC_PER_SEC + (end.nsec - begin.nsec)
    }

    /// Whether the difference from `begin` to `end` fits in an `i64`.
    pub open spec fn difference_fits(begin: Timespec, end: Timespec) -> bool {
        i64::MIN <= Self::difference_ns(begin, end) <= i64::MAX
    }

    /// Returns the difference of `end - begin` in nanoseconds. A nanosecond
    /// component of `end` below that of `begin` is carried through the
    /// seconds term.
    pub fn diff_ns(begin: Timespec, end: Timespec) -> (r: i64)
        requires
            Self::difference_fits(begin, end),
        ensures
            r == Self::difference_ns(begin, end),
    {
        Self::diff_ns_wide(begin, end) as i64
    }

    /// The difference of `end - begin` in nanoseconds, exact for any two
    /// readings.
    pub fn diff_ns_wide(begin: Timespec, end: Timespec) -> (r: i128)
        ensures
            r == Self::difference_ns(begin, end),
    {
        let secs: i128 = end.sec as i128 - begin.sec as i128;
        assert(-0x1_0000_0000_0000_0000 * 1_000_000_000 <= secs * 1_000_000_000
            <= 0x1_0000_0000_0000_0000 * 1_000_000_000) by (nonlinear_arith)
            requires
                -0x1_0000_0000_0000_0000 <= secs <= 0x1_0000_0000_0000_0000,
        ;
        let diff_s: i128 = secs * (NSEC_PER_SEC as i128);
        (end.nsec as i128 - begin.nsec as i128) + diff_s
    }
}

/// The difference taken the other way round is the negation.
pub proof fn lemma_difference_antisymmetric(a: Timespec, b: Timespec)
    ensures
        Timespec::difference_ns(a, b) == -Timespec::difference_ns(b, a),
{
    assert(Timespec::difference_ns(a, b) == -Timespec::difference_ns(b, a)) by (nonlinear_arith);
}

} // verus!
