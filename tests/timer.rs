use cyclictest_rs::timer::Timespec;

#[test]
fn test_diff_larger() {
    let begin = Timespec { sec: 0, nsec: 10 };
    let end = Timespec { sec: 0, nsec: 20 };
    assert_eq!(Timespec::diff_ns(begin, end), 10);
}

#[test]
fn test_diff_smaller() {
    let begin = Timespec { sec: 0, nsec: 20 };
    let end = Timespec { sec: 0, nsec: 10 };
    assert_eq!(Timespec::diff_ns(begin, end), -10);
}

#[test]
fn test_diff_1s() {
    let begin = Timespec { sec: 0, nsec: 10 };
    let end = Timespec { sec: 1, nsec: 20 };
    assert_eq!(Timespec::diff_ns(begin, end), 1_000_000_010);
}

#[test]
fn test_diff_smaller_1s() {
    let begin = Timespec { sec: 0, nsec: 20 };
    let end = Timespec { sec: 1, nsec: 10 };
    assert_eq!(Timespec::diff_ns(begin, end), 999_999_990);
}

#[test]
fn test_diff_smaller_s_overflow() {
    let begin = Timespec {
        sec: 0,
        nsec: 999_999_990,
    };
    let end = Timespec { sec: 1, nsec: 10 };
    assert_eq!(Timespec::diff_ns(begin, end), 20);
}

#[test]
fn diff_is_antisymmetric() {
    let pairs = [
        (Timespec { sec: 0, nsec: 10 }, Timespec { sec: 0, nsec: 20 }),
        (Timespec { sec: 3, nsec: 999_999_999 }, Timespec { sec: 7, nsec: 1 }),
        (Timespec { sec: -5, nsec: 500 }, Timespec { sec: 12, nsec: 0 }),
    ];
    for (a, b) in pairs {
        assert_eq!(Timespec::diff_ns(a, b), -Timespec::diff_ns(b, a));
    }
}

#[test]
fn diff_wide_handles_extreme_seconds() {
    let begin = Timespec { sec: i64::MIN, nsec: 0 };
    let end = Timespec { sec: i64::MAX, nsec: 999_999_999 };
    let expected: i128 = (i64::MAX as i128 - i64::MIN as i128) * 1_000_000_000 + 999_999_999;
    assert_eq!(Timespec::diff_ns_wide(begin, end), expected);
    assert_eq!(Timespec::diff_ns_wide(end, begin), -expected);
}

#[test]
fn diff_wide_agrees_with_diff() {
    let begin = Timespec { sec: 10, nsec: 999_999_990 };
    let end = Timespec { sec: 11, nsec: 10 };
    assert_eq!(Timespec::diff_ns_wide(begin, end), 20);
    assert_eq!(Timespec::diff_ns(begin, end) as i128, Timespec::diff_ns_wide(begin, end));
}
