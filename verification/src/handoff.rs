//! Model of the cross-process single-instance protocol.
//!
//! `SyncWorld` stands for the shared state of the two named kernel
//! objects: whether they exist, which instance holds the mutual-exclusion
//! lock, whether the last holder died without releasing it, and whether
//! the broadcast stop event is signalled. The transition functions mirror
//! the coordinator's decision steps from `instance`, so the lifecycle,
//! handoff and shutdown laws proved here are statements about the same
//! decision logic the running filter uses.

use vstd::prelude::*;

use crate::instance::AcquireError;
use crate::instance::FirstWaitStep;
use crate::instance::HandoffWaitStep;
use crate::instance::InstanceGuard;
use crate::instance::InstanceState;
use crate::instance::ShutdownOutcome;
use crate::instance::WaitOutcome;
use crate::instance::lock_granted;
use crate::instance::spec_first_wait_step;
use crate::instance::spec_handoff_wait_step;

verus! {

/// How the instance currently holding the lock behaves while a competitor
/// waits for it during the bounded handoff window: it exits cleanly and
/// releases, it terminates without releasing (the lock is handed over as
/// abandoned), or it ignores the request until the window closes.
#[derive(PartialEq, Eq, Structural, Clone, Copy, Debug)]
pub enum HolderResponse {
    ExitsCleanly,
    DiesHolding,
    Ignores,
}

/// The shared state of the two named kernel objects.
#[derive(PartialEq, Eq, Structural, Clone, Copy, Debug)]
pub struct SyncWorld {
    pub objects_exist: bool,
    pub mutex_holder: Option<u64>,
    pub mutex_abandoned: bool,
    pub stop_signaled: bool,
}

/// Creating-or-opening the named objects: a fresh pair starts with the
/// lock free and the manual-reset event unsignalled; an existing pair is
/// merely opened, its state untouched.
pub open spec fn spec_create(w: SyncWorld) -> SyncWorld {
    if w.objects_exist {
        w
    } else {
        SyncWorld { objects_exist: true, mutex_holder: None, mutex_abandoned: false, stop_signaled: false }
    }
}

/// A zero-timeout probe of the lock: a free lock is granted at once,
/// cleanly or as abandoned when its last holder died with it; a held lock
/// makes the probe time out immediately.
pub open spec fn spec_try_lock(w: SyncWorld, me: u64) -> (SyncWorld, WaitOutcome) {
    if w.mutex_holder is None {
        (
            SyncWorld { mutex_holder: Some(me), mutex_abandoned: false, ..w },
            if w.mutex_abandoned {
                WaitOutcome::Abandoned
            } else {
                WaitOutcome::Granted
            },
        )
    } else {
        (w, WaitOutcome::TimedOut)
    }
}

/// The bounded wait for the old holder: if it exits cleanly the lock is
/// granted; if it dies holding the lock, the wait is granted as
/// abandoned; if it ignores the request, the wait times out.
pub open spec fn spec_handoff_wait(w: SyncWorld, me: u64, response: HolderResponse) -> (
    SyncWorld,
    WaitOutcome,
) {
    match response {
        HolderResponse::ExitsCleanly => (
            SyncWorld { mutex_holder: Some(me), mutex_abandoned: false, ..w },
            WaitOutcome::Granted,
        ),
        HolderResponse::DiesHolding => (
            SyncWorld { mutex_holder: Some(me), mutex_abandoned: false, ..w },
            WaitOutcome::Abandoned,
        ),
        HolderResponse::Ignores => (w, WaitOutcome::TimedOut),
    }
}

/// The whole acquisition protocol, composed from the coordinator's step
/// rules: probe the lock, and either own it at once (Fresh), or signal
/// the stop event and wait out the handoff window (Restarted or a
/// failure). Yields the final object state, whether the caller owns the
/// lock, and the reported result.
pub open spec fn spec_acquire(w: SyncWorld, me: u64, response: HolderResponse) -> (
    SyncWorld,
    bool,
    Result<InstanceState, AcquireError>,
) {
    let (w1, first) = spec_try_lock(w, me);
    match spec_first_wait_step(first) {
        FirstWaitStep::AcquiredNow => (
            SyncWorld { stop_signaled: false, ..w1 },
            true,
            Ok(InstanceState::Fresh),
        ),
        FirstWaitStep::SignalOldAndWait => {
            let w2 = SyncWorld { stop_signaled: true, ..w1 };
            let (w3, second) = spec_handoff_wait(w2, me, response);
            match spec_handoff_wait_step(second) {
                HandoffWaitStep::AcquiredAfterHandoff => (
                    SyncWorld { stop_signaled: false, ..w3 },
                    true,
                    Ok(InstanceState::Restarted),
                ),
                HandoffWaitStep::Fail(e) => (w3, false, Err(e)),
            }
        },
        FirstWaitStep::Fail(e) => (w1, false, Err(e)),
    }
}

/// Teardown on every exit path: the stop event is reset, and the lock is
/// released exactly when this instance owns it.
pub open spec fn spec_release(w: SyncWorld, me: u64, owns: bool) -> SyncWorld {
    SyncWorld {
        stop_signaled: false,
        mutex_holder: if owns && w.mutex_holder == Some(me) {
            None
        } else {
            w.mutex_holder
        },
        ..w
    }
}

/// An instance that terminates while holding the lock leaves it
/// abandoned; the next waiter is granted it all the same.
pub open spec fn spec_holder_dies(w: SyncWorld, me: u64) -> SyncWorld {
    if w.mutex_holder == Some(me) {
        SyncWorld { mutex_holder: None, mutex_abandoned: true, ..w }
    } else {
        w
    }
}

/// A shutdown request from a process that does not want to become the
/// filter: when the named objects do not exist there is no instance to
/// stop and nothing is created; otherwise the stop event is signalled and
/// a bounded confirmation wait observes the release (clean or abandoned,
/// treated identically, the lock released again at once) or times out,
/// which is ignored.
pub open spec fn spec_signal_shutdown(w: SyncWorld, response: HolderResponse) -> (
    SyncWorld,
    ShutdownOutcome,
) {
    if !w.objects_exist {
        (w, ShutdownOutcome::NoInstance)
    } else {
        let w1 = SyncWorld { stop_signaled: true, ..w };
        if w1.mutex_holder is None {
            (SyncWorld { mutex_abandoned: false, ..w1 }, ShutdownOutcome::Signaled)
        } else {
            match response {
                HolderResponse::ExitsCleanly | HolderResponse::DiesHolding => (
                    SyncWorld { mutex_holder: None, mutex_abandoned: false, ..w1 },
                    ShutdownOutcome::Signaled,
                ),
                HolderResponse::Ignores => (w1, ShutdownOutcome::Signaled),
            }
        }
    }
}

impl SyncWorld {
    /// A machine on which the named objects have never been created.
    pub fn no_objects() -> (w: Self)
        ensures
            !w.objects_exist,
            w.mutex_holder is None,
            !w.mutex_abandoned,
            !w.stop_signaled,
    {
        SyncWorld { objects_exist: false, mutex_holder: None, mutex_abandoned: false, stop_signaled: false }
    }

    /// Create or open the named objects.
    pub fn create(&mut self)
        ensures
            *final(self) == spec_create(*old(self)),
    {
        if !self.objects_exist {
            self.objects_exist = true;
            self.mutex_holder = None;
            self.mutex_abandoned = false;
            self.stop_signaled = false;
        }
    }

    /// Probe the lock with a zero timeout.
    pub fn try_lock(&mut self, me: u64) -> (o: WaitOutcome)
        ensures
            (*final(self), o) == spec_try_lock(*old(self), me),
    {
        if self.mutex_holder.is_none() {
            let was_abandoned = self.mutex_abandoned;
            self.mutex_holder = Some(me);
            self.mutex_abandoned = false;
            if was_abandoned {
                WaitOutcome::Abandoned
            } else {
                WaitOutcome::Granted
            }
        } else {
            WaitOutcome::TimedOut
        }
    }

    /// Wait out the handoff window while the holder responds as given.
    pub fn handoff_wait(&mut self, me: u64, response: HolderResponse) -> (o: WaitOutcome)
        ensures
            (*final(self), o) == spec_handoff_wait(*old(self), me, response),
    {
        match response {
            HolderResponse::ExitsCleanly => {
                self.mutex_holder = Some(me);
                self.mutex_abandoned = false;
                WaitOutcome::Granted
            },
            HolderResponse::DiesHolding => {
                self.mutex_holder = Some(me);
                self.mutex_abandoned = false;
                WaitOutcome::Abandoned
            },
            HolderResponse::Ignores => WaitOutcome::TimedOut,
        }
    }

    /// Signal the stop event.
    pub fn signal_stop(&mut self)
        ensures
            *final(self) == (SyncWorld { stop_signaled: true, ..*old(self) }),
    {
        self.stop_signaled = true;
    }

    /// Reset the stop event to unsignalled.
    pub fn reset_stop(&mut self)
        ensures
            *final(self) == (SyncWorld { stop_signaled: false, ..*old(self) }),
    {
        self.stop_signaled = false;
    }

    /// Tear an instance down: reset the stop event and release the lock
    /// exactly when that instance owns it.
    pub fn release(&mut self, me: u64, owns: bool)
        ensures
            *final(self) == spec_release(*old(self), me, owns),
    {
        self.stop_signaled = false;
        if owns && self.mutex_holder == Some(me) {
            self.mutex_holder = None;
        }
    }
}

impl InstanceGuard {
    /// Run the acquisition protocol against the model world: the verified
    /// counterpart of acquiring the real named objects, built from the
    /// same step rules the shell follows. On success the guard owns the
    /// lock; the ownership flag ends up true exactly when the world
    /// records this instance as the holder.
    pub fn acquire(&mut self, world: &mut SyncWorld, me: u64, response: HolderResponse) -> (r:
        Result<InstanceState, AcquireError>)
        requires
            !old(self).owns_mutex,
            old(world).objects_exist,
            old(world).mutex_holder != Some(me),
        ensures
            (*final(world), final(self).owns_mutex, r) == spec_acquire(*old(world), me, response),
            final(self).owns_mutex <==> final(world).mutex_holder == Some(me),
            r is Ok ==> final(self).owns_mutex,
    {
        let first = world.try_lock(me);
        match self.first_wait_step(first) {
            FirstWaitStep::AcquiredNow => {
                world.reset_stop();
                Ok(InstanceState::Fresh)
            },
            FirstWaitStep::SignalOldAndWait => {
                world.signal_stop();
                let second = world.handoff_wait(me, response);
                match self.handoff_wait_step(second) {
                    HandoffWaitStep::AcquiredAfterHandoff => {
                        world.reset_stop();
                        Ok(InstanceState::Restarted)
                    },
                    HandoffWaitStep::Fail(e) => Err(e),
                }
            },
            FirstWaitStep::Fail(e) => Err(e),
        }
    }
}

/// Request a running instance to stop, against the model world: report
/// that there is no instance when the named objects do not exist (and
/// touch nothing), else signal the stop event and run the confirmation
/// wait.
pub fn signal_shutdown_request(world: &mut SyncWorld, response: HolderResponse) -> (r:
    ShutdownOutcome)
    ensures
        (*final(world), r) == spec_signal_shutdown(*old(world), response),
{
    if !world.objects_exist {
        ShutdownOutcome::NoInstance
    } else {
        world.signal_stop();
        if world.mutex_holder.is_none() {
            confirm_with_lock_free(world)
        } else {
            match response {
                HolderResponse::ExitsCleanly | HolderResponse::DiesHolding => confirm_after_holder_exit(
                    world,
                ),
                HolderResponse::Ignores => ShutdownOutcome::Signaled,
            }
        }
    }
}

/// The confirmation wait acquired a free lock (clearing any abandonment)
/// and releases it again at once.
fn confirm_with_lock_free(world: &mut SyncWorld) -> (r: ShutdownOutcome)
    requires
        old(world).mutex_holder is None,
    ensures
        *final(world) == (SyncWorld { mutex_abandoned: false, ..*old(world) }),
        r == ShutdownOutcome::Signaled,
{
    world.mutex_abandoned = false;
    ShutdownOutcome::Signaled
}

/// The confirmation wait observed the holder's exit, acquired the lock
/// (cleanly or abandoned) and releases it again at once.
fn confirm_after_holder_exit(world: &mut SyncWorld) -> (r: ShutdownOutcome)
    ensures
        *final(world) == (SyncWorld { mutex_holder: None, mutex_abandoned: false, ..*old(world) }),
        r == ShutdownOutcome::Signaled,
{
    world.mutex_holder = None;
    world.mutex_abandoned = false;
    ShutdownOutcome::Signaled
}

/// Sequential lifecycle: against never-created objects, a first run
/// acquires Fresh; after it exits cleanly and releases, a second
/// independent run acquires Fresh as well, not Restarted.
pub proof fn lemma_sequential_lifecycle(
    w0: SyncWorld,
    a: u64,
    b: u64,
    response: HolderResponse,
)
    requires
        !w0.objects_exist,
    ensures
        ({
            let w1 = spec_create(w0);
            let (w2, owns_a, r_a) = spec_acquire(w1, a, response);
            let w3 = spec_release(w2, a, owns_a);
            let w4 = spec_create(w3);
            let (w5, owns_b, r_b) = spec_acquire(w4, b, response);
            r_a == Ok::<InstanceState, AcquireError>(InstanceState::Fresh) && r_b == Ok::<
                InstanceState,
                AcquireError,
            >(InstanceState::Fresh)
        }),
{
}

/// Handoff: while instance `a` holds the lock, instance `b`'s
/// acquisition observes the immediate-lock timeout and signals the stop
/// event; once `a` exits within the window (cleanly or dying with the
/// lock, treated identically), `b` acquires Restarted and owns the lock;
/// if `a` never exits, the acquisition fails with the handoff timeout and
/// the stop event stays signalled.
pub proof fn lemma_handoff(w: SyncWorld, a: u64, b: u64)
    requires
        w.objects_exist,
        w.mutex_holder == Some(a),
        a != b,
    ensures
        spec_try_lock(w, b).1 == WaitOutcome::TimedOut,
        spec_first_wait_step(spec_try_lock(w, b).1) == FirstWaitStep::SignalOldAndWait,
        ({
            let (w2, owns, r) = spec_acquire(w, b, HolderResponse::ExitsCleanly);
            r == Ok::<InstanceState, AcquireError>(InstanceState::Restarted) && owns
                && w2.mutex_holder == Some(b) && !w2.stop_signaled
        }),
        ({
            let (w2, owns, r) = spec_acquire(w, b, HolderResponse::DiesHolding);
            r == Ok::<InstanceState, AcquireError>(InstanceState::Restarted) && owns
                && w2.mutex_holder == Some(b) && !w2.stop_signaled
        }),
        ({
            let (w2, owns, r) = spec_acquire(w, b, HolderResponse::Ignores);
            r == Err::<InstanceState, AcquireError>(AcquireError::HandoffTimeout) && !owns
                && w2.mutex_holder == Some(a) && w2.stop_signaled
        }),
{
}

/// A shutdown request against never-created objects reports that no
/// instance is running and creates nothing: the world is unchanged, and a
/// subsequent acquisition in the same process still comes up Fresh.
pub proof fn lemma_shutdown_without_instance(
    w: SyncWorld,
    me: u64,
    response: HolderResponse,
    later: HolderResponse,
)
    requires
        !w.objects_exist,
    ensures
        spec_signal_shutdown(w, response) == (w, ShutdownOutcome::NoInstance),
        spec_acquire(spec_create(w), me, later).2 == Ok::<InstanceState, AcquireError>(
            InstanceState::Fresh,
        ),
{
}

} // verus!
