use cyclictest_rs::env::{classify_failure, SetupStep, EINVAL, EPERM};
use cyclictest_rs::run::{Run, RunPhase};
use cyclictest_rs::sampler::{SleepPrimitive, ThreadParam};

#[test]
fn run_goes_idle_running_completed() {
    let mut run = Run::new(3, true);
    assert_eq!(run.phase(), RunPhase::Idle);
    let failures = vec![classify_failure(SetupStep::SetScheduler, EPERM)];
    assert!(run.setup_done(&failures));
    assert_eq!(run.phase(), RunPhase::Running);
    run.worker_joined(1, true);
    run.worker_joined(0, false);
    assert_eq!(run.phase(), RunPhase::Running);
    assert!(run.is_joined(0));
    assert!(!run.is_joined(2));
    run.worker_joined(2, true);
    assert_eq!(run.phase(), RunPhase::Completed);
    assert_eq!(run.failed_workers(), vec![0]);
}

#[test]
fn fatal_setup_aborts_run() {
    let mut run = Run::new(10, false);
    let failures = vec![
        classify_failure(SetupStep::LockMemory, EPERM),
        classify_failure(SetupStep::SetAffinity, EINVAL),
    ];
    assert!(!run.setup_done(&failures));
    assert_eq!(run.phase(), RunPhase::Aborted);
}

#[test]
fn unprivileged_informational_run_continues() {
    let mut run = Run::new(2, false);
    let failures = vec![
        classify_failure(SetupStep::LockMemory, EPERM),
        classify_failure(SetupStep::SetScheduler, EPERM),
    ];
    assert!(run.setup_done(&failures));
    assert_eq!(run.phase(), RunPhase::Running);
}

#[test]
fn run_without_workers_completes_at_setup() {
    let mut run = Run::new(0, true);
    assert!(run.setup_done(&vec![]));
    assert_eq!(run.phase(), RunPhase::Completed);
    assert!(run.failed_workers().is_empty());
}

#[test]
fn thread_params_have_distinct_indices() {
    let run = Run::new(10, true);
    let params = run.thread_params(1_000_000, 1000, SleepPrimitive::ClockNanosleep);
    assert_eq!(params.len(), 10);
    for (i, p) in params.iter().enumerate() {
        assert_eq!(
            *p,
            ThreadParam {
                thread_num: i as u32,
                interval: 1_000_000,
                cycles: 1000,
                sleep_fn: SleepPrimitive::ClockNanosleep
            }
        );
    }
}
