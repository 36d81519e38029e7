use cyclictest_rs::stats::{Stats, ThreadStats, HIST_SIZE, MAX_THREADS};

fn hist_total(t: &ThreadStats) -> u64 {
    let mut sum = 0;
    for b in 0..HIST_SIZE {
        sum += t.hist(b);
    }
    sum
}

#[test]
fn new_stats_are_in_initial_state() {
    let stats = Stats::new();
    for i in 0..MAX_THREADS {
        let t = stats.thread(i);
        assert_eq!(t.min(), u64::MAX);
        assert_eq!(t.max(), 0);
        assert_eq!(t.average(), u64::MAX);
        assert_eq!(t.overflows(), 0);
        assert_eq!(t.samples(), 0);
        assert_eq!(hist_total(t), 0);
    }
}

#[test]
fn record_buckets_by_whole_microseconds() {
    let mut t = ThreadStats::new();
    t.record(0);
    t.record(999);
    t.record(1000);
    t.record(14_999);
    t.record(15_000);
    t.record(u64::MAX);
    assert_eq!(t.hist(0), 2);
    assert_eq!(t.hist(1), 1);
    assert_eq!(t.hist(14), 1);
    assert_eq!(t.overflows(), 2);
    assert_eq!(t.samples(), 6);
    assert_eq!(hist_total(&t) + t.overflows(), 6);
}

#[test]
fn record_tracks_min_max_and_running_average() {
    let mut t = ThreadStats::new();
    t.record(3000);
    assert_eq!((t.min(), t.average(), t.max()), (3000, 3000, 3000));
    t.record(1000);
    assert_eq!((t.min(), t.average(), t.max()), (1000, 2000, 3000));
    t.record(8000);
    assert_eq!((t.min(), t.average(), t.max()), (1000, 4000, 8000));
    t.record(1);
    assert_eq!((t.min(), t.average(), t.max()), (1, 3000, 8000));
}

#[test]
fn average_stays_between_bounds() {
    let mut t = ThreadStats::new();
    let values = [5u64, 17_000, 2, 999_999, 1234, u64::MAX, 0, 42];
    for v in values {
        t.record(v);
        assert!(t.min() <= t.average());
        assert!(t.average() <= t.max());
    }
}

#[test]
fn running_average_of_largest_values_does_not_overflow() {
    let mut t = ThreadStats::new();
    t.record(u64::MAX);
    t.record(u64::MAX);
    t.record(u64::MAX);
    assert_eq!(t.average(), u64::MAX);
    assert_eq!(t.overflows(), 3);
}

#[test]
fn table_record_touches_only_its_slot() {
    let mut stats = Stats::new();
    stats.record(3, 2500);
    stats.record(3, 20_000);
    assert_eq!(stats.thread(3).hist(2), 1);
    assert_eq!(stats.thread(3).overflows(), 1);
    assert_eq!(stats.thread(3).samples(), 2);
    for i in 0..MAX_THREADS {
        if i != 3 {
            assert_eq!(stats.thread(i).samples(), 0);
            assert_eq!(stats.thread(i).min(), u64::MAX);
        }
    }
}
