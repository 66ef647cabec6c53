//! Wake coordination: when a wake request must inject a synthetic event.

use std::sync::atomic::{AtomicBool, Ordering};
use vstd::prelude::*;

verus! {

/// What a non-blocking attempt to take the guard of the injection handle found.
#[derive(Debug, Clone, Copy, PartialEq, Eq, Structural)]
pub enum LockAttempt {
    /// The guard was free and is now held by this wake.
    Acquired,
    /// Another wake holds the guard and is injecting an event.
    Held,
    /// An earlier holder failed while holding the guard.
    Poisoned,
}

/// What one wake request does.
#[derive(Debug, Clone, Copy, PartialEq, Eq, Structural)]
pub enum WakeOutcome {
    /// The loop is about to poll the task anyway: nothing is sent.
    Coalesced,
    /// One synthetic event is injected into the loop.
    Inject,
    /// A concurrent wake is already injecting one: nothing is sent.
    InFlight,
    /// The guard is poisoned: a wake could be lost, which is fatal.
    Fatal,
}

/// The outcome of a wake that found `about_to_poll` and, where it tried the
/// guard, `attempt`.
pub open spec fn wake_spec(about_to_poll: bool, attempt: LockAttempt) -> WakeOutcome {
    if about_to_poll {
        WakeOutcome::Coalesced
    } else {
        match attempt {
            LockAttempt::Acquired => WakeOutcome::Inject,
            LockAttempt::Held => WakeOutcome::InFlight,
            LockAttempt::Poisoned => WakeOutcome::Fatal,
        }
    }
}

/// How many synthetic events one outcome injects.
pub open spec fn injections(o: WakeOutcome) -> nat {
    if o == WakeOutcome::Inject {
        1
    } else {
        0
    }
}

/// How many synthetic events a run of wake outcomes injects.
pub open spec fn total_injections(os: Seq<WakeOutcome>) -> nat
    decreases os.len(),
{
    if os.len() == 0 {
        0
    } else {
        total_injections(os.drop_last()) + injections(os.last())
    }
}

/// The second stage of a wake, once the guard has been tried: it is reached
/// only when the loop was not about to poll.
pub fn lock_outcome(attempt: LockAttempt) -> (r: WakeOutcome)
    ensures
        r == wake_spec(false, attempt),
{
    match attempt {
        LockAttempt::Acquired => WakeOutcome::Inject,
        LockAttempt::Held => WakeOutcome::InFlight,
        LockAttempt::Poisoned => WakeOutcome::Fatal,
    }
}

/// The first stage of a wake, from the flag it loaded: `Some(Coalesced)`
/// where the loop is about to poll, so that nothing is to be sent; `None`
/// where the guard must be tried and the decision finished with
/// [`wake_outcome`].
pub fn wake_start(about_to_poll: bool) -> (r: Option<WakeOutcome>)
    ensures
        r == (if about_to_poll { Some(WakeOutcome::Coalesced) } else { None::<WakeOutcome> }),
        r is Some ==> r == Some(wake_spec(about_to_poll, LockAttempt::Held)),
{
    if about_to_poll {
        Some(WakeOutcome::Coalesced)
    } else {
        None
    }
}

/// The whole decision of one wake, from what it observed.
pub fn wake_outcome(about_to_poll: bool, attempt: LockAttempt) -> (r: WakeOutcome)
    ensures
        r == wake_spec(about_to_poll, attempt),
        about_to_poll ==> injections(r) == 0,
{
    if about_to_poll {
        WakeOutcome::Coalesced
    } else {
        lock_outcome(attempt)
    }
}

/// A wake issued while the loop is about to poll injects no event.
pub proof fn lemma_wake_while_about_to_poll_injects_nothing(attempt: LockAttempt)
    ensures
        wake_spec(true, attempt) == WakeOutcome::Coalesced,
        injections(wake_spec(true, attempt)) == 0,
{
}

/// Wakes that each found the loop not about to poll inject at most one event
/// apiece, so at most as many events as there were wakes; and where one of
/// them took the guard, at least one event.
pub proof fn lemma_concurrent_wakes_bounded(attempts: Seq<LockAttempt>, os: Seq<WakeOutcome>)
    requires
        os.len() == attempts.len(),
        forall|i: int| 0 <= i < os.len() ==> #[trigger] os[i] == wake_spec(false, attempts[i]),
    ensures
        total_injections(os) <= os.len(),
        (exists|i: int| 0 <= i < attempts.len() && attempts[i] == LockAttempt::Acquired)
            ==> total_injections(os) >= 1,
    decreases os.len(),
{
    if os.len() > 0 {
        let n = os.len() - 1;
        lemma_concurrent_wakes_bounded(attempts.drop_last(), os.drop_last());
        if exists|i: int| 0 <= i < attempts.len() && attempts[i] == LockAttempt::Acquired {
            let i = choose|i: int| 0 <= i < attempts.len() && attempts[i] == LockAttempt::Acquired;
            if i == n {
                assert(os[n] == WakeOutcome::Inject);
            } else {
                assert(attempts.drop_last()[i] == LockAttempt::Acquired);
            }
        }
        assert forall|j: int| 0 <= j < os.drop_last().len() implies #[trigger] os.drop_last()[j]
            == wake_spec(false, attempts.drop_last()[j]) by {
            assert(os[j] == wake_spec(false, attempts[j]));
        }
    }
}

/// The flag that tells wakes whether the loop is already committed to polling
/// the task, shared between the loop thread and every waker.
pub struct WakeCoordinator {
    about_to_poll: AtomicBool,
}

impl WakeCoordinator {
    /// A coordinator whose loop is not about to poll.
    pub fn new() -> (r: WakeCoordinator) {
        WakeCoordinator { about_to_poll: AtomicBool::new(false) }
    }

    /// The loop received a callback and will poll the task: wakes from now on
    /// are coalesced.
    pub fn arm(&self) {
        self.about_to_poll.store(true, Ordering::SeqCst);
    }

    /// The loop is about to poll the task: wakes from now on must be signalled,
    /// since the poll may already have looked past what they announce.
    pub fn disarm(&self) {
        self.about_to_poll.store(false, Ordering::SeqCst);
    }

    /// Whether the loop is about to poll the task, as seen at this moment.
    pub fn is_about_to_poll(&self) -> bool {
        self.about_to_poll.load(Ordering::SeqCst)
    }
}

} // verus!
