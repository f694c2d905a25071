//! Step rule of the event loop that hosts the keyboard interception.
//!
//! The loop blocks on a combined wait over the coordinator's stop event
//! and the thread's pending UI input. Each wake is classified and mapped
//! to one action: exit the loop, or drain the whole pending message queue
//! before waiting again.

use vstd::prelude::*;

use crate::instance::WAIT_CODE_FAILED;
use crate::instance::WAIT_CODE_GRANTED;

verus! {

/// Why the combined wait woke up: the stop event fired, UI input is
/// pending (the wait code one past the single watched handle), the wait
/// itself failed, or some other code came back.
#[derive(PartialEq, Eq, Structural, Clone, Copy, Debug)]
pub enum LoopWake {
    StopSignaled,
    QueueReady,
    WaitFailed,
    OtherWake,
}

/// What the loop does on one wake.
#[derive(PartialEq, Eq, Structural, Clone, Copy, Debug)]
pub enum LoopAction {
    Exit,
    DrainQueue,
}

/// The wake a raw combined-wait code denotes, with one watched handle:
/// the handle's own index is the stop signal, the next index reports
/// pending queue input.
pub open spec fn spec_loop_wake(code: u32) -> LoopWake {
    if code == WAIT_CODE_GRANTED {
        LoopWake::StopSignaled
    } else if code == WAIT_CODE_GRANTED + 1 {
        LoopWake::QueueReady
    } else if code == WAIT_CODE_FAILED {
        LoopWake::WaitFailed
    } else {
        LoopWake::OtherWake
    }
}

/// The loop exits on the stop signal and on a failed wait (fatal,
/// non-retryable); every other wake drains the queue and waits again.
pub open spec fn spec_loop_action(w: LoopWake) -> LoopAction {
    match w {
        LoopWake::StopSignaled => LoopAction::Exit,
        LoopWake::WaitFailed => LoopAction::Exit,
        LoopWake::QueueReady => LoopAction::DrainQueue,
        LoopWake::OtherWake => LoopAction::DrainQueue,
    }
}

/// Classify a raw combined-wait code.
pub fn classify_loop_wake(code: u32) -> (w: LoopWake)
    ensures
        w == spec_loop_wake(code),
{
    if code == WAIT_CODE_GRANTED {
        LoopWake::StopSignaled
    } else if code == WAIT_CODE_GRANTED + 1 {
        LoopWake::QueueReady
    } else if code == WAIT_CODE_FAILED {
        LoopWake::WaitFailed
    } else {
        LoopWake::OtherWake
    }
}

/// Decide one wake of the loop.
pub fn loop_action(w: LoopWake) -> (a: LoopAction)
    ensures
        a == spec_loop_action(w),
{
    match w {
        LoopWake::StopSignaled | LoopWake::WaitFailed => LoopAction::Exit,
        LoopWake::QueueReady | LoopWake::OtherWake => LoopAction::DrainQueue,
    }
}

/// The loop terminates exactly on the stop signal or on a wait failure;
/// no other wake ends it.
pub proof fn lemma_loop_exit_conditions(w: LoopWake)
    ensures
        spec_loop_action(w) is Exit <==> (w is StopSignaled || w is WaitFailed),
{
}

} // verus!
