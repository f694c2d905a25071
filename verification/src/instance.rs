//! Decision logic of the single-instance coordinator.
//!
//! The coordinator owns two named kernel synchronization objects: a
//! mutual-exclusion lock that marks the running filter instance, and a
//! manual-reset broadcast event through which a newly launched instance
//! asks the current holder to exit. The operating-system waits and
//! signals live in the unverified shell; every decision taken on their
//! outcomes is a verified function here.

use vstd::prelude::*;
use vstd::string::*;

verus! {

/// Wait code returned when the object was granted to the waiter.
pub const WAIT_CODE_GRANTED: u32 = 0x0;
/// Wait code returned when the previous holder terminated without
/// releasing; the object is granted to the waiter all the same.
pub const WAIT_CODE_ABANDONED: u32 = 0x80;
/// Wait code returned when the wait timed out.
pub const WAIT_CODE_TIMEOUT: u32 = 0x102;
/// Wait code returned when the wait itself failed.
pub const WAIT_CODE_FAILED: u32 = 0xFFFFFFFF;

/// How one run of the filter came to own the instance lock: by finding it
/// free, or by handing off from a previous instance that was asked to
/// exit.
#[derive(PartialEq, Eq, Structural, Clone, Copy, Debug)]
pub enum InstanceState {
    Fresh,
    Restarted,
}

/// Outcome of a timed wait on a kernel object, as the coordinator
/// distinguishes them.
#[derive(PartialEq, Eq, Structural, Clone, Copy, Debug)]
pub enum WaitOutcome {
    Granted,
    Abandoned,
    TimedOut,
    Failed,
    Unknown,
}

/// Why an `acquire` failed; each variant carries its own status message.
#[derive(PartialEq, Eq, Structural, Clone, Copy, Debug)]
pub enum AcquireError {
    ResetStopEventFailed,
    NotifyOldInstanceFailed,
    HandoffTimeout,
    HandoffWaitFailed,
    ProbeFailed,
    UnknownWaitState,
}

/// What the coordinator does next after the immediate (zero-timeout)
/// probe of the instance lock.
#[derive(PartialEq, Eq, Structural, Clone, Copy, Debug)]
pub enum FirstWaitStep {
    AcquiredNow,
    SignalOldAndWait,
    Fail(AcquireError),
}

/// What the coordinator does after the bounded handoff wait that follows
/// signalling the old instance.
#[derive(PartialEq, Eq, Structural, Clone, Copy, Debug)]
pub enum HandoffWaitStep {
    AcquiredAfterHandoff,
    Fail(AcquireError),
}

/// The wait outcome a raw wait code denotes.
pub open spec fn spec_wait_outcome(code: u32) -> WaitOutcome {
    if code == WAIT_CODE_GRANTED {
        WaitOutcome::Granted
    } else if code == WAIT_CODE_ABANDONED {
        WaitOutcome::Abandoned
    } else if code == WAIT_CODE_TIMEOUT {
        WaitOutcome::TimedOut
    } else if code == WAIT_CODE_FAILED {
        WaitOutcome::Failed
    } else {
        WaitOutcome::Unknown
    }
}

/// Classify a raw wait code.
pub fn classify_wait_outcome(code: u32) -> (o: WaitOutcome)
    ensures
        o == spec_wait_outcome(code),
{
    if code == WAIT_CODE_GRANTED {
        WaitOutcome::Granted
    } else if code == WAIT_CODE_ABANDONED {
        WaitOutcome::Abandoned
    } else if code == WAIT_CODE_TIMEOUT {
        WaitOutcome::TimedOut
    } else if code == WAIT_CODE_FAILED {
        WaitOutcome::Failed
    } else {
        WaitOutcome::Unknown
    }
}

/// A wait outcome grants ownership both on a clean grant and on an
/// abandoned one: a holder that terminated without releasing is treated
/// like a clean release.
pub open spec fn lock_granted(o: WaitOutcome) -> bool {
    o is Granted || o is Abandoned
}

/// The step taken after the immediate probe: a grant (clean or
/// abandoned) means this instance is now the filter; a timeout means a
/// competitor holds the lock and must be asked to exit; anything else is
/// a fatal wait error.
pub open spec fn spec_first_wait_step(o: WaitOutcome) -> FirstWaitStep {
    match o {
        WaitOutcome::Granted => FirstWaitStep::AcquiredNow,
        WaitOutcome::Abandoned => FirstWaitStep::AcquiredNow,
        WaitOutcome::TimedOut => FirstWaitStep::SignalOldAndWait,
        WaitOutcome::Failed => FirstWaitStep::Fail(AcquireError::ProbeFailed),
        WaitOutcome::Unknown => FirstWaitStep::Fail(AcquireError::UnknownWaitState),
    }
}

/// The step taken after the bounded handoff wait: a grant completes the
/// handoff; a timeout means the old instance did not exit within the
/// window; anything else is a fatal wait error.
pub open spec fn spec_handoff_wait_step(o: WaitOutcome) -> HandoffWaitStep {
    match o {
        WaitOutcome::Granted => HandoffWaitStep::AcquiredAfterHandoff,
        WaitOutcome::Abandoned => HandoffWaitStep::AcquiredAfterHandoff,
        WaitOutcome::TimedOut => HandoffWaitStep::Fail(AcquireError::HandoffTimeout),
        WaitOutcome::Failed => HandoffWaitStep::Fail(AcquireError::HandoffWaitFailed),
        WaitOutcome::Unknown => HandoffWaitStep::Fail(AcquireError::HandoffWaitFailed),
    }
}

/// The coordinator's own state: whether this instance currently holds the
/// instance lock. The flag becomes true exactly when a wait on the lock
/// granted it, and is read during teardown to decide whether to release.
pub struct InstanceGuard {
    pub owns_mutex: bool,
}

impl InstanceGuard {
    /// A coordinator starts without the lock; the named objects are
    /// created or opened before any acquisition is attempted.
    pub fn new() -> (g: Self)
        ensures
            !g.owns_mutex,
    {
        InstanceGuard { owns_mutex: false }
    }

    /// Take the step the immediate probe outcome dictates, marking
    /// ownership exactly when the lock was granted.
    pub fn first_wait_step(&mut self, o: WaitOutcome) -> (s: FirstWaitStep)
        ensures
            s == spec_first_wait_step(o),
            final(self).owns_mutex == (old(self).owns_mutex || lock_granted(o)),
    {
        match o {
            WaitOutcome::Granted | WaitOutcome::Abandoned => {
                self.owns_mutex = true;
                FirstWaitStep::AcquiredNow
            },
            WaitOutcome::TimedOut => FirstWaitStep::SignalOldAndWait,
            WaitOutcome::Failed => FirstWaitStep::Fail(AcquireError::ProbeFailed),
            WaitOutcome::Unknown => FirstWaitStep::Fail(AcquireError::UnknownWaitState),
        }
    }

    /// Take the step the handoff wait outcome dictates, marking
    /// ownership exactly when the lock was granted.
    pub fn handoff_wait_step(&mut self, o: WaitOutcome) -> (s: HandoffWaitStep)
        ensures
            s == spec_handoff_wait_step(o),
            final(self).owns_mutex == (old(self).owns_mutex || lock_granted(o)),
    {
        match o {
            WaitOutcome::Granted | WaitOutcome::Abandoned => {
                self.owns_mutex = true;
                HandoffWaitStep::AcquiredAfterHandoff
            },
            WaitOutcome::TimedOut => HandoffWaitStep::Fail(AcquireError::HandoffTimeout),
            WaitOutcome::Failed | WaitOutcome::Unknown => HandoffWaitStep::Fail(
                AcquireError::HandoffWaitFailed,
            ),
        }
    }

    /// Teardown releases the lock exactly when this instance owns it; the
    /// broadcast event is always reset and both handles always closed.
    pub fn must_release_mutex(&self) -> (r: bool)
        ensures
            r == self.owns_mutex,
    {
        self.owns_mutex
    }
}

/// After the lock was granted, the broadcast event is reset; a reset
/// failure turns an otherwise successful acquisition into an error, while
/// ownership (already marked) is kept for teardown to release.
pub fn finish_acquire(state: InstanceState, reset_ok: bool) -> (r: Result<
    InstanceState,
    AcquireError,
>)
    ensures
        reset_ok ==> r == Ok::<InstanceState, AcquireError>(state),
        !reset_ok ==> r == Err::<InstanceState, AcquireError>(AcquireError::ResetStopEventFailed),
{
    if reset_ok {
        Ok(state)
    } else {
        Err(AcquireError::ResetStopEventFailed)
    }
}

/// Signalling the old instance must succeed before the handoff wait may
/// begin; a failed signal aborts the acquisition.
pub fn signal_old_step(set_ok: bool) -> (r: Option<AcquireError>)
    ensures
        set_ok ==> r is None,
        !set_ok ==> r == Some(AcquireError::NotifyOldInstanceFailed),
{
    if set_ok {
        None
    } else {
        Some(AcquireError::NotifyOldInstanceFailed)
    }
}

/// The status message reported for each acquisition failure.
pub open spec fn spec_acquire_error_message(e: AcquireError) -> Seq<char> {
    match e {
        AcquireError::ResetStopEventFailed => "无法重置停止事件"@,
        AcquireError::NotifyOldInstanceFailed => "无法通知旧实例退出"@,
        AcquireError::HandoffTimeout => "等待旧实例退出超时"@,
        AcquireError::HandoffWaitFailed => "等待旧实例退出失败"@,
        AcquireError::ProbeFailed => "检测实例状态失败"@,
        AcquireError::UnknownWaitState => "未知的等待状态"@,
    }
}

/// Render an acquisition failure as its status message.
pub fn acquire_error_message(e: &AcquireError) -> (m: String)
    ensures
        m@ == spec_acquire_error_message(*e),
{
    match e {
        AcquireError::ResetStopEventFailed => String::from_str("无法重置停止事件"),
        AcquireError::NotifyOldInstanceFailed => String::from_str("无法通知旧实例退出"),
        AcquireError::HandoffTimeout => String::from_str("等待旧实例退出超时"),
        AcquireError::HandoffWaitFailed => String::from_str("等待旧实例退出失败"),
        AcquireError::ProbeFailed => String::from_str("检测实例状态失败"),
        AcquireError::UnknownWaitState => String::from_str("未知的等待状态"),
    }
}

/// What a shutdown request achieved: the running instance was signalled,
/// or there was no running instance to stop (a legitimate state, not an
/// error).
#[derive(PartialEq, Eq, Structural, Clone, Copy, Debug)]
pub enum ShutdownOutcome {
    Signaled,
    NoInstance,
}

/// Why a shutdown request failed.
#[derive(PartialEq, Eq, Structural, Clone, Copy, Debug)]
pub enum ShutdownError {
    SignalFailed,
}

/// The result of a shutdown request, decided from whether the named
/// event could be opened and whether signalling it succeeded. A missing
/// event means no instance is running; a present event that cannot be
/// signalled is an error.
pub fn shutdown_result(event_found: bool, set_ok: bool) -> (r: Result<
    ShutdownOutcome,
    ShutdownError,
>)
    ensures
        !event_found ==> r == Ok::<ShutdownOutcome, ShutdownError>(ShutdownOutcome::NoInstance),
        event_found && set_ok ==> r == Ok::<ShutdownOutcome, ShutdownError>(
            ShutdownOutcome::Signaled,
        ),
        event_found && !set_ok ==> r == Err::<ShutdownOutcome, ShutdownError>(
            ShutdownError::SignalFailed,
        ),
{
    if !event_found {
        Ok(ShutdownOutcome::NoInstance)
    } else if set_ok {
        Ok(ShutdownOutcome::Signaled)
    } else {
        Err(ShutdownError::SignalFailed)
    }
}

/// During a shutdown request's confirmation wait the requester releases
/// the lock exactly when the wait granted it, cleanly or abandoned.
pub fn confirm_release(o: WaitOutcome) -> (r: bool)
    ensures
        r == lock_granted(o),
{
    match o {
        WaitOutcome::Granted | WaitOutcome::Abandoned => true,
        _ => false,
    }
}

/// The status message of a failed shutdown request.
pub fn shutdown_error_message(e: &ShutdownError) -> (m: String)
    ensures
        m@ == "无法发送停止请求"@,
{
    match e {
        ShutdownError::SignalFailed => String::from_str("无法发送停止请求"),
    }
}

} // verus!
