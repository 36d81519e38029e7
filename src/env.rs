//! Decisions of the real-time environment setup: scheduling policies and
//! their Linux numbers, validation of a requested priority or CPU, the
//! classification of a failed step by its OS error code, and which failures
//! stop a run.
use vstd::prelude::*;

verus! {

/// Linux `EPERM`: operation not permitted.
pub const EPERM: i32 = 1;

/// Linux `ENOENT`: no such file or directory.
pub const ENOENT: i32 = 2;

/// Linux `ENXIO`: no such device or address.
pub const ENXIO: i32 = 6;

/// Linux `ENOMEM`: out of memory, or over the memory-lock limit.
pub const ENOMEM: i32 = 12;

/// Linux `EACCES`: permission denied.
pub const EACCES: i32 = 13;

/// Linux `ENODEV`: no such device.
pub const ENODEV: i32 = 19;

/// Linux `EINVAL`: invalid argument.
pub const EINVAL: i32 = 22;

/// Number of CPUs that a Linux CPU set can name.
pub const CPU_SETSIZE: u64 = 1024;

/// Highest real-time priority on Linux.
pub const MAX_RT_PRIORITY: i32 = 99;

/// A scheduling policy.
#[derive(Clone, Copy, Debug, PartialEq, Eq, Structural)]
pub enum Policy {
    Other,
    Fifo,
    Rr,
    Idle,
}

impl Policy {
    /// The Linux number of each policy.
    pub open spec fn raw_spec(self) -> i32 {
        match self {
            Policy::Other => 0,
            Policy::Fifo => 1,
            Policy::Rr => 2,
            Policy::Idle => 5,
        }
    }

    /// The Linux number of the policy.
    pub fn raw(self) -> (r: i32)
        ensures
            r == self.raw_spec(),
    {
        match self {
            Policy::Other => 0,
            Policy::Fifo => 1,
            Policy::Rr => 2,
            Policy::Idle => 5,
        }
    }

    /// The policy with Linux number `code`, if it is one of the four.
    pub fn from_raw(code: i32) -> (r: Option<Policy>)
        ensures
            r matches Some(p) ==> p.raw_spec() == code,
            r is None <==> (forall|p: Policy| p.raw_spec() != code),
    {
        let r = if code == 0 {
            Some(Policy::Other)
        } else if code == 1 {
            Some(Policy::Fifo)
        } else if code == 2 {
            Some(Policy::Rr)
        } else if code == 5 {
            Some(Policy::Idle)
        } else {
            None
        };
        proof {
            if r is None {
                assert forall|p: Policy| p.raw_spec() != code by {
                    match p {
                        Policy::Other => {},
                        Policy::Fifo => {},
                        Policy::Rr => {},
                        Policy::Idle => {},
                    }
                }
            }
        }
        r
    }

    /// Whether the policy is one of the real-time ones.
    pub open spec fn is_real_time(self) -> bool {
        self == Policy::Fifo || self == Policy::Rr
    }

    /// The name under which the system documents the policy.
    pub fn name(self) -> (r: &'static str)
        ensures
            self == Policy::Other ==> r@ == "SCHED_OTHER"@,
            self == Policy::Fifo ==> r@ == "SCHED_FIFO"@,
            self == Policy::Rr ==> r@ == "SCHED_RR"@,
            self == Policy::Idle ==> r@ == "SCHED_IDLE"@,
    {
        match self {
            Policy::Other => "SCHED_OTHER",
            Policy::Fifo => "SCHED_FIFO",
            Policy::Rr => "SCHED_RR",
            Policy::Idle => "SCHED_IDLE",
        }
    }
}

/// One step of the environment setup.
#[derive(Clone, Copy, Debug, PartialEq, Eq, Structural)]
pub enum SetupStep {
    LockMemory,
    SetScheduler,
    SetAffinity,
    BlockAlarm,
    DisableIdle,
}

/// Kind of a setup failure.
#[derive(Clone, Copy, Debug, PartialEq, Eq, Structural)]
pub enum FailureKind {
    /// The process lacks a capability the step needs.
    Privilege,
    /// The step was asked for a CPU or priority that does not exist.
    InvalidParameter,
    /// The control interface the step uses is absent on this system.
    ResourceUnavailable,
    /// Any other OS error.
    Other,
}

/// A failed setup step, with its kind and the OS error code behind it.
#[derive(Clone, Copy, Debug, PartialEq, Eq, Structural)]
pub struct SetupFailure {
    pub step: SetupStep,
    pub kind: FailureKind,
    pub os_error: i32,
}

/// The kind of failure that OS error `code` means for `step`.
pub open spec fn kind_of(step: SetupStep, code: i32) -> FailureKind {
    if code == EPERM || code == EACCES || (code == ENOMEM && step == SetupStep::LockMemory) {
        FailureKind::Privilege
    } else if code == EINVAL {
        FailureKind::InvalidParameter
    } else if code == ENOENT || code == ENODEV || code == ENXIO {
        FailureKind::ResourceUnavailable
    } else {
        FailureKind::Other
    }
}

/// Classifies the failure of `step` with OS error `code`.
pub fn classify_failure(step: SetupStep, code: i32) -> (r: SetupFailure)
    ensures
        r == (SetupFailure { step, kind: kind_of(step, code), os_error: code }),
{
    let kind = if code == EPERM || code == EACCES || (code == ENOMEM && step == SetupStep::LockMemory) {
        FailureKind::Privilege
    } else if code == EINVAL {
        FailureKind::InvalidParameter
    } else if code == ENOENT || code == ENODEV || code == ENXIO {
        FailureKind::ResourceUnavailable
    } else {
        FailureKind::Other
    };
    SetupFailure { step, kind, os_error: code }
}

/// Relies on `errno::errno`: the calling thread's current `errno` value.
/// It depends on what the thread last did, so nothing is stated of it.
#[verifier::external_body]
fn last_os_error() -> (r: i32) {
    errno::errno().0
}

/// Classifies the failure of `step` by the calling thread's current
/// `errno`, to be called right after the step's system call failed.
pub fn classify_last_failure(step: SetupStep) -> (r: SetupFailure)
    ensures
        r.step == step,
        r.kind == kind_of(step, r.os_error),
{
    classify_failure(step, last_os_error())
}

/// The index of `cpu` in a CPU set, or `InvalidParameter` (with `EINVAL`)
/// when no CPU set can name it; in that case no affinity is requested.
pub fn affinity_cpu(cpu: u64) -> (r: Result<usize, SetupFailure>)
    ensures
        cpu < CPU_SETSIZE <==> r is Ok,
        r matches Ok(i) ==> i == cpu,
        r matches Err(f) ==> f == (SetupFailure {
            step: SetupStep::SetAffinity,
            kind: FailureKind::InvalidParameter,
            os_error: EINVAL,
        }),
{
    if cpu < CPU_SETSIZE {
        Ok(cpu as usize)
    } else {
        Err(classify_failure(SetupStep::SetAffinity, EINVAL))
    }
}

/// Whether `prio` is a priority that `policy` accepts on Linux: 1 to 99 for
/// the real-time policies, 0 for the others.
pub open spec fn priority_valid(policy: Policy, prio: i32) -> bool {
    if policy.is_real_time() {
        1 <= prio <= MAX_RT_PRIORITY
    } else {
        prio == 0
    }
}

/// The Linux policy number and priority to request, or `InvalidParameter`
/// (with `EINVAL`) when `policy` does not accept `prio`.
pub fn scheduler_request(prio: i32, policy: Policy) -> (r: Result<(i32, i32), SetupFailure>)
    ensures
        priority_valid(policy, prio) <==> r is Ok,
        r matches Ok(req) ==> req == (policy.raw_spec(), prio),
        r matches Err(f) ==> f == (SetupFailure {
            step: SetupStep::SetScheduler,
            kind: FailureKind::InvalidParameter,
            os_error: EINVAL,
        }),
{
    let ok = match policy {
        Policy::Fifo | Policy::Rr => 1 <= prio && prio <= MAX_RT_PRIORITY,
        Policy::Other | Policy::Idle => prio == 0,
    };
    if ok {
        Ok((policy.raw(), prio))
    } else {
        Err(classify_failure(SetupStep::SetScheduler, EINVAL))
    }
}

/// Whether a failure stops the run before any thread starts: a request for
/// a CPU or priority that does not exist always does; on a required run a
/// failure to lock memory or to disable the idle state does too. Missing
/// privileges otherwise only degrade the measurement.
pub open spec fn fatal_spec(f: SetupFailure, required: bool) -> bool {
    f.kind == FailureKind::InvalidParameter || (required && (f.step == SetupStep::LockMemory
        || f.step == SetupStep::DisableIdle))
}

/// Decides `fatal_spec(f, required)`.
pub fn is_fatal(f: SetupFailure, required: bool) -> (r: bool)
    ensures
        r == fatal_spec(f, required),
{
    f.kind == FailureKind::InvalidParameter || (required && (f.step == SetupStep::LockMemory
        || f.step == SetupStep::DisableIdle))
}

} // verus!
