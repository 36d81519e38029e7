use cyclictest_rs::summary::ElapsedSummary;

#[test]
fn empty_summary_has_no_average() {
    let s = ElapsedSummary::new();
    assert_eq!(s.samples(), 0);
    assert_eq!(s.average(), None);
    assert_eq!(s.average_latency(1000), None);
    assert_eq!(s.max(), 0);
    assert_eq!(s.max_latency(1000), 0);
}

#[test]
fn summary_average_and_max() {
    let mut s = ElapsedSummary::new();
    for e in [1_000_100i64, 1_000_300, 1_002_000, 999_900] {
        s.add(e);
    }
    assert_eq!(s.samples(), 4);
    assert_eq!(s.average(), Some(1_000_575));
    assert_eq!(s.max(), 1_002_000);
    assert_eq!(s.average_latency(1_000_000), Some(575));
    assert_eq!(s.max_latency(1_000_000), 2_000);
    assert_eq!(s.average_latency(2_000_000), Some(0));
    assert_eq!(s.max_latency(2_000_000), 0);
}

#[test]
fn summary_counts_negative_as_zero() {
    let mut s = ElapsedSummary::new();
    s.add(-50);
    s.add(10);
    assert_eq!(s.average(), Some(5));
    assert_eq!(s.max(), 10);
}

#[test]
fn summary_of_largest_values() {
    let mut s = ElapsedSummary::new();
    s.add(i64::MAX);
    s.add(i64::MAX);
    assert_eq!(s.average(), Some(i64::MAX as u64));
}
