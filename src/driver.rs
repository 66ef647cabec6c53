//! The per-iteration state machine that feeds the queue, decides when the task
//! is polled, and when the loop must exit.

use crate::queue::{event_queue, EventSender, Events, QueueFull};
use crate::wake::WakeCoordinator;
use std::sync::Arc;
use vstd::prelude::*;

verus! {

/// Where the driver stands in the task's life.
#[derive(Debug, Clone, Copy, PartialEq, Eq, Structural)]
pub enum Phase {
    /// The initializer has not run yet.
    Init,
    /// The task exists and has not completed.
    Running,
    /// The task completed: every later callback is ignored.
    Done,
}

/// The wait policy that a callback leaves the loop with.
#[derive(Debug, Clone, Copy, PartialEq, Eq, Structural)]
pub enum Flow {
    /// Block until the next event.
    Wait,
    /// Leave the loop.
    Exit,
}

/// What a callback must do with the task after the event was handled.
#[derive(Debug, Clone, Copy, PartialEq, Eq, Structural)]
pub enum Dispatch {
    /// Nothing: there is no task to poll.
    Idle,
    /// Poll the task once.
    Poll,
}

/// The events of a feed that reach the queue, in order: every one but the
/// wake markers. Each entry of `feed` is an event and whether it is the
/// wake marker.
pub open spec fn forwarded<E>(feed: Seq<(E, bool)>) -> Seq<E>
    decreases feed.len(),
{
    if feed.len() == 0 {
        Seq::empty()
    } else {
        let rest = forwarded(feed.drop_last());
        if feed.last().1 {
            rest
        } else {
            rest.push(feed.last().0)
        }
    }
}

/// The state machine of one loop: it owns the queue's producer and the wake
/// coordinator that the task's waker shares.
#[verifier::reject_recursive_types(E)]
pub struct Driver<E> {
    phase: Phase,
    tx: Option<EventSender<E>>,
    coordinator: Arc<WakeCoordinator>,
    fed: Ghost<Seq<(E, bool)>>,
    sent: Ghost<Seq<E>>,
    gone: Ghost<bool>,
    starts: Ghost<nat>,
    exits: Ghost<nat>,
}

impl<E> Driver<E> {
    /// The current phase.
    pub closed spec fn phase_of(&self) -> Phase {
        self.phase
    }

    /// Every event handed to the driver while the task was running, with
    /// whether it was the wake marker.
    pub closed spec fn fed(&self) -> Seq<(E, bool)> {
        self.fed@
    }

    /// Every event that the queue's channel accepted, in order.
    pub closed spec fn sent(&self) -> Seq<E> {
        self.sent@
    }

    /// Whether the channel has reported that the task's consumer is gone.
    pub closed spec fn consumer_gone(&self) -> bool {
        self.gone@
    }

    /// How many times the initializer was asked for.
    pub closed spec fn starts(&self) -> nat {
        self.starts@
    }

    /// How many times the loop was told to exit.
    pub closed spec fn exits(&self) -> nat {
        self.exits@
    }

    pub closed spec fn wf(&self) -> bool {
        &&& (self.phase == Phase::Running) == self.tx.is_some()
        &&& !self.gone@ ==> self.sent@ == forwarded(self.fed@)
        &&& self.tx matches Some(tx) ==> tx.pushed() == self.sent@ && tx.closed() == self.gone@
        &&& self.starts@ == (if self.phase == Phase::Init { 0nat } else { 1nat })
        &&& self.exits@ == (if self.phase == Phase::Done { 1nat } else { 0nat })
        &&& self.phase == Phase::Init ==> self.fed@.len() == 0 && !self.gone@
    }

    /// A driver whose initializer has not run.
    pub fn new() -> (r: Driver<E>)
        ensures
            r.wf(),
            r.phase_of() == Phase::Init,
            r.fed() == Seq::<(E, bool)>::empty(),
            r.sent() == Seq::<E>::empty(),
            !r.consumer_gone(),
            r.starts() == 0,
            r.exits() == 0,
    {
        Driver {
            phase: Phase::Init,
            tx: None,
            coordinator: Arc::new(WakeCoordinator::new()),
            fed: Ghost(Seq::empty()),
            sent: Ghost(Seq::empty()),
            gone: Ghost(false),
            starts: Ghost(0),
            exits: Ghost(0),
        }
    }

    /// The coordinator that the task's waker consults.
    pub fn coordinator(&self) -> (r: Arc<WakeCoordinator>) {
        self.coordinator.clone()
    }

    /// Whether the task has completed.
    pub fn is_done(&self) -> (r: bool)
        ensures
            r == (self.phase_of() == Phase::Done),
    {
        self.phase == Phase::Done
    }

    /// The first step of every loop callback. It marks the loop as about to
    /// poll, and on the first callback only it opens the queue and returns its
    /// consumer, with which the caller must run the initializer.
    pub fn begin(&mut self) -> (r: Option<Events<E>>)
        requires
            old(self).wf(),
        ensures
            final(self).wf(),
            r is Some <==> old(self).phase_of() == Phase::Init,
            final(self).phase_of() == (if old(self).phase_of() == Phase::Init {
                Phase::Running
            } else {
                old(self).phase_of()
            }),
            final(self).starts() == 1 || final(self).phase_of() == Phase::Init,
            final(self).starts() <= 1,
            final(self).fed() == old(self).fed(),
            final(self).sent() == old(self).sent(),
            final(self).consumer_gone() == old(self).consumer_gone(),
            final(self).exits() == old(self).exits(),
    {
        self.coordinator.arm();
        if self.phase == Phase::Init {
            let (tx, events) = event_queue();
            self.tx = Some(tx);
            self.phase = Phase::Running;
            self.starts = Ghost(1);
            Some(events)
        } else {
            None
        }
    }

    /// Handles one loop event. While the task runs, an event other than the
    /// wake marker is queued (or dropped silently where the consumer is gone),
    /// the loop stops being about to poll, and the task must be polled. Before
    /// the first `begin` and after completion the event is ignored. The queue
    /// is unbounded, so `Err` never comes; it stands for a queue that reports
    /// itself full, which the caller must treat as fatal.
    pub fn dispatch(&mut self, event: E, is_wake_marker: bool) -> (r: Result<Dispatch, QueueFull>)
        requires
            old(self).wf(),
        ensures
            final(self).wf(),
            final(self).phase_of() == old(self).phase_of(),
            final(self).starts() == old(self).starts(),
            final(self).exits() == old(self).exits(),
            old(self).consumer_gone() ==> final(self).consumer_gone(),
            old(self).phase_of() == Phase::Running ==> {
                &&& r == Ok::<Dispatch, QueueFull>(Dispatch::Poll)
                &&& final(self).fed() == old(self).fed().push((event, is_wake_marker))
                &&& is_wake_marker ==> final(self).sent() == old(self).sent()
                    && final(self).consumer_gone() == old(self).consumer_gone()
                &&& !is_wake_marker ==> {
                    ||| final(self).sent() == old(self).sent().push(event)
                        && final(self).consumer_gone() == old(self).consumer_gone()
                    ||| final(self).sent() == old(self).sent() && final(self).consumer_gone()
                }
            },
            old(self).phase_of() != Phase::Running ==> {
                &&& r == Ok::<Dispatch, QueueFull>(Dispatch::Idle)
                &&& final(self).fed() == old(self).fed()
                &&& final(self).sent() == old(self).sent()
                &&& final(self).consumer_gone() == old(self).consumer_gone()
            },
    {
        if self.phase != Phase::Running {
            return Ok(Dispatch::Idle);
        }
        let ghost ev = event;
        let ghost old_fed = self.fed@;
        let ghost old_sent = self.sent@;
        let mut tx = self.tx.take().unwrap();
        if !is_wake_marker {
            match tx.enqueue(event) {
                Ok(true) => {
                    assert(tx.pushed() == old_sent.push(ev));
                },
                _ => {
                    assert(tx.closed());
                },
            }
        }
        self.sent = Ghost(tx.pushed());
        self.gone = Ghost(tx.closed());
        self.tx = Some(tx);
        self.fed = Ghost(old_fed.push((ev, is_wake_marker)));
        assert(self.fed@.drop_last() =~= old_fed);
        self.coordinator.disarm();
        Ok(Dispatch::Poll)
    }

    /// Records what a poll of the task returned. Where the task completed,
    /// the driver is done, the queue's producer is dropped, and the loop is
    /// told to exit, once; otherwise the loop waits for the next event.
    pub fn complete(&mut self, ready: bool) -> (r: Flow)
        requires
            old(self).wf(),
        ensures
            final(self).wf(),
            final(self).fed() == old(self).fed(),
            final(self).sent() == old(self).sent(),
            final(self).consumer_gone() == old(self).consumer_gone(),
            final(self).starts() == old(self).starts(),
            (r == Flow::Exit) <==> (ready && old(self).phase_of() == Phase::Running),
            r == Flow::Exit ==> final(self).phase_of() == Phase::Done && final(self).exits() == 1,
            r == Flow::Wait ==> final(self).phase_of() == old(self).phase_of()
                && final(self).exits() == old(self).exits(),
    {
        if ready && self.phase == Phase::Running {
            self.phase = Phase::Done;
            self.tx = None;
            self.exits = Ghost(1);
            Flow::Exit
        } else {
            Flow::Wait
        }
    }
}

/// Splitting a feed in two splits what reaches the queue the same way: the
/// forwarded events keep their order, none is lost and none repeated.
pub proof fn lemma_forwarded_append<E>(a: Seq<(E, bool)>, b: Seq<(E, bool)>)
    ensures
        forwarded(a + b) == forwarded(a) + forwarded(b),
    decreases b.len(),
{
    if b.len() == 0 {
        assert(a + b =~= a);
        assert(forwarded(a) + forwarded(b) =~= forwarded(a));
    } else {
        lemma_forwarded_append(a, b.drop_last());
        assert((a + b).drop_last() =~= a + b.drop_last());
        assert((a + b).last() == b.last());
        if b.last().1 {
        } else {
            assert(forwarded(a) + forwarded(b.drop_last()).push(b.last().0)
                =~= (forwarded(a) + forwarded(b.drop_last())).push(b.last().0));
        }
    }
}

/// While the consumer is there, the channel has accepted every event fed to
/// the running driver that is not the wake marker, in the order fed, each
/// exactly once.
pub proof fn lemma_fifo_delivery<E>(d: &Driver<E>)
    requires
        d.wf(),
        !d.consumer_gone(),
    ensures
        d.sent() == forwarded(d.fed()),
{
}

/// The initializer is asked for once, at the first callback, and never again.
pub proof fn lemma_initializer_once<E>(d: &Driver<E>)
    requires
        d.wf(),
    ensures
        d.starts() <= 1,
        d.starts() == 1 <==> d.phase_of() != Phase::Init,
{
}

/// Once the task completed, the loop was told to exit exactly once, and the
/// driver stays done.
pub proof fn lemma_done_exits_once<E>(d: &Driver<E>)
    requires
        d.wf(),
        d.phase_of() == Phase::Done,
    ensures
        d.exits() == 1,
{
}

} // verus!
