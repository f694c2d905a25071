use chsime::instance::acquire_error_message;
use chsime::instance::classify_wait_outcome;
use chsime::instance::confirm_release;
use chsime::instance::finish_acquire;
use chsime::instance::shutdown_error_message;
use chsime::instance::shutdown_result;
use chsime::instance::signal_old_step;
use chsime::instance::AcquireError;
use chsime::instance::FirstWaitStep;
use chsime::instance::HandoffWaitStep;
use chsime::instance::InstanceGuard;
use chsime::instance::InstanceState;
use chsime::instance::ShutdownError;
use chsime::instance::ShutdownOutcome;
use chsime::instance::WaitOutcome;
use chsime::instance::WAIT_CODE_ABANDONED;
use chsime::instance::WAIT_CODE_FAILED;
use chsime::instance::WAIT_CODE_GRANTED;
use chsime::instance::WAIT_CODE_TIMEOUT;

#[test]
fn wait_codes_classify_exactly() {
    assert_eq!(classify_wait_outcome(WAIT_CODE_GRANTED), WaitOutcome::Granted);
    assert_eq!(classify_wait_outcome(WAIT_CODE_ABANDONED), WaitOutcome::Abandoned);
    assert_eq!(classify_wait_outcome(WAIT_CODE_TIMEOUT), WaitOutcome::TimedOut);
    assert_eq!(classify_wait_outcome(WAIT_CODE_FAILED), WaitOutcome::Failed);
    assert_eq!(classify_wait_outcome(7), WaitOutcome::Unknown);
}

#[test]
fn immediate_grant_marks_ownership() {
    let mut g = InstanceGuard::new();
    assert!(!g.owns_mutex);
    let s = g.first_wait_step(WaitOutcome::Granted);
    assert_eq!(s, FirstWaitStep::AcquiredNow);
    assert!(g.owns_mutex);
}

#[test]
fn abandoned_grant_treated_like_clean_grant() {
    let mut g = InstanceGuard::new();
    let s = g.first_wait_step(WaitOutcome::Abandoned);
    assert_eq!(s, FirstWaitStep::AcquiredNow);
    assert!(g.owns_mutex);

    let mut h = InstanceGuard::new();
    let s2 = h.handoff_wait_step(WaitOutcome::Abandoned);
    assert_eq!(s2, HandoffWaitStep::AcquiredAfterHandoff);
    assert!(h.owns_mutex);
}

#[test]
fn held_lock_starts_the_handoff() {
    let mut g = InstanceGuard::new();
    let s = g.first_wait_step(WaitOutcome::TimedOut);
    assert_eq!(s, FirstWaitStep::SignalOldAndWait);
    assert!(!g.owns_mutex);
}

#[test]
fn probe_failures_abort() {
    let mut g = InstanceGuard::new();
    assert_eq!(
        g.first_wait_step(WaitOutcome::Failed),
        FirstWaitStep::Fail(AcquireError::ProbeFailed)
    );
    assert_eq!(
        g.first_wait_step(WaitOutcome::Unknown),
        FirstWaitStep::Fail(AcquireError::UnknownWaitState)
    );
    assert!(!g.owns_mutex);
}

#[test]
fn handoff_timeout_and_failures_abort() {
    let mut g = InstanceGuard::new();
    assert_eq!(
        g.handoff_wait_step(WaitOutcome::TimedOut),
        HandoffWaitStep::Fail(AcquireError::HandoffTimeout)
    );
    assert_eq!(
        g.handoff_wait_step(WaitOutcome::Failed),
        HandoffWaitStep::Fail(AcquireError::HandoffWaitFailed)
    );
    assert_eq!(
        g.handoff_wait_step(WaitOutcome::Unknown),
        HandoffWaitStep::Fail(AcquireError::HandoffWaitFailed)
    );
    assert!(!g.owns_mutex);
}

#[test]
fn teardown_releases_exactly_when_owned() {
    let mut g = InstanceGuard::new();
    assert!(!g.must_release_mutex());
    g.first_wait_step(WaitOutcome::Granted);
    assert!(g.must_release_mutex());
}

#[test]
fn reset_failure_turns_success_into_error() {
    assert_eq!(finish_acquire(InstanceState::Fresh, true), Ok(InstanceState::Fresh));
    assert_eq!(finish_acquire(InstanceState::Restarted, true), Ok(InstanceState::Restarted));
    assert_eq!(
        finish_acquire(InstanceState::Fresh, false),
        Err(AcquireError::ResetStopEventFailed)
    );
}

#[test]
fn signal_failure_aborts_handoff() {
    assert_eq!(signal_old_step(true), None);
    assert_eq!(signal_old_step(false), Some(AcquireError::NotifyOldInstanceFailed));
}

#[test]
fn acquire_error_messages_are_exact() {
    assert_eq!(acquire_error_message(&AcquireError::ResetStopEventFailed), "无法重置停止事件");
    assert_eq!(acquire_error_message(&AcquireError::NotifyOldInstanceFailed), "无法通知旧实例退出");
    assert_eq!(acquire_error_message(&AcquireError::HandoffTimeout), "等待旧实例退出超时");
    assert_eq!(acquire_error_message(&AcquireError::HandoffWaitFailed), "等待旧实例退出失败");
    assert_eq!(acquire_error_message(&AcquireError::ProbeFailed), "检测实例状态失败");
    assert_eq!(acquire_error_message(&AcquireError::UnknownWaitState), "未知的等待状态");
}

#[test]
fn shutdown_result_depends_on_event_and_signal() {
    assert_eq!(shutdown_result(false, true), Ok(ShutdownOutcome::NoInstance));
    assert_eq!(shutdown_result(false, false), Ok(ShutdownOutcome::NoInstance));
    assert_eq!(shutdown_result(true, true), Ok(ShutdownOutcome::Signaled));
    assert_eq!(shutdown_result(true, false), Err(ShutdownError::SignalFailed));
}

#[test]
fn confirmation_releases_on_grant_or_abandonment_only() {
    assert!(confirm_release(WaitOutcome::Granted));
    assert!(confirm_release(WaitOutcome::Abandoned));
    assert!(!confirm_release(WaitOutcome::TimedOut));
    assert!(!confirm_release(WaitOutcome::Failed));
    assert!(!confirm_release(WaitOutcome::Unknown));
}

#[test]
fn shutdown_error_message_is_exact() {
    assert_eq!(shutdown_error_message(&ShutdownError::SignalFailed), "无法发送停止请求");
}
