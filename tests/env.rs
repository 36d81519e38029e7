use cyclictest_rs::env::{
    affinity_cpu, classify_failure, classify_last_failure, is_fatal, scheduler_request,
    FailureKind, Policy, SetupFailure, SetupStep, EACCES, EINVAL, ENODEV, ENOENT, ENOMEM, EPERM,
};

#[test]
fn policy_numbers_round_trip() {
    for p in [Policy::Other, Policy::Fifo, Policy::Rr, Policy::Idle] {
        assert_eq!(Policy::from_raw(p.raw()), Some(p));
    }
    assert_eq!(Policy::Other.raw(), 0);
    assert_eq!(Policy::Fifo.raw(), 1);
    assert_eq!(Policy::Rr.raw(), 2);
    assert_eq!(Policy::Idle.raw(), 5);
    assert_eq!(Policy::from_raw(3), None);
    assert_eq!(Policy::from_raw(-1), None);
}

#[test]
fn policy_names() {
    assert_eq!(Policy::Other.name(), "SCHED_OTHER");
    assert_eq!(Policy::Fifo.name(), "SCHED_FIFO");
    assert_eq!(Policy::Rr.name(), "SCHED_RR");
    assert_eq!(Policy::Idle.name(), "SCHED_IDLE");
}

#[test]
fn classify_each_kind() {
    let f = classify_failure(SetupStep::SetScheduler, EPERM);
    assert_eq!(f, SetupFailure { step: SetupStep::SetScheduler, kind: FailureKind::Privilege, os_error: EPERM });
    assert_eq!(classify_failure(SetupStep::LockMemory, EACCES).kind, FailureKind::Privilege);
    assert_eq!(classify_failure(SetupStep::LockMemory, ENOMEM).kind, FailureKind::Privilege);
    assert_eq!(classify_failure(SetupStep::SetAffinity, ENOMEM).kind, FailureKind::Other);
    assert_eq!(classify_failure(SetupStep::SetAffinity, EINVAL).kind, FailureKind::InvalidParameter);
    assert_eq!(classify_failure(SetupStep::DisableIdle, ENOENT).kind, FailureKind::ResourceUnavailable);
    assert_eq!(classify_failure(SetupStep::DisableIdle, ENODEV).kind, FailureKind::ResourceUnavailable);
    assert_eq!(classify_failure(SetupStep::BlockAlarm, 14).kind, FailureKind::Other);
}

#[test]
fn classify_last_failure_keeps_step_and_code() {
    let f = classify_last_failure(SetupStep::BlockAlarm);
    assert_eq!(f.step, SetupStep::BlockAlarm);
    assert_eq!(f, classify_failure(SetupStep::BlockAlarm, f.os_error));
}

#[test]
fn affinity_to_missing_cpu_is_invalid_parameter() {
    assert_eq!(affinity_cpu(0), Ok(0));
    assert_eq!(affinity_cpu(1023), Ok(1023));
    let expected = SetupFailure {
        step: SetupStep::SetAffinity,
        kind: FailureKind::InvalidParameter,
        os_error: EINVAL,
    };
    assert_eq!(affinity_cpu(1024), Err(expected));
    assert_eq!(affinity_cpu(u64::MAX), Err(expected));
    assert_eq!(classify_failure(SetupStep::SetAffinity, EINVAL), expected);
}

#[test]
fn scheduler_priorities() {
    assert_eq!(scheduler_request(99, Policy::Fifo), Ok((1, 99)));
    assert_eq!(scheduler_request(1, Policy::Rr), Ok((2, 1)));
    assert_eq!(scheduler_request(0, Policy::Other), Ok((0, 0)));
    assert_eq!(scheduler_request(0, Policy::Idle), Ok((5, 0)));
    let invalid = SetupFailure {
        step: SetupStep::SetScheduler,
        kind: FailureKind::InvalidParameter,
        os_error: EINVAL,
    };
    assert_eq!(scheduler_request(100, Policy::Fifo), Err(invalid));
    assert_eq!(scheduler_request(0, Policy::Rr), Err(invalid));
    assert_eq!(scheduler_request(5, Policy::Other), Err(invalid));
}

#[test]
fn fatal_failures() {
    let invalid = classify_failure(SetupStep::SetAffinity, EINVAL);
    assert!(is_fatal(invalid, false));
    let sched = classify_failure(SetupStep::SetScheduler, EPERM);
    assert!(!is_fatal(sched, true));
    let lock = classify_failure(SetupStep::LockMemory, EPERM);
    assert!(is_fatal(lock, true));
    assert!(!is_fatal(lock, false));
    let idle = classify_failure(SetupStep::DisableIdle, ENOENT);
    assert!(is_fatal(idle, true));
    assert!(!is_fatal(idle, false));
}
