//! The unbounded queue that carries loop events to the task, in order.

use async_channel::{Receiver, Sender, TryRecvError, TrySendError};
use vstd::prelude::*;

verus! {

#[verifier::external_type_specification]
#[verifier::external_body]
#[verifier::reject_recursive_types(T)]
pub struct ExSender<T>(Sender<T>);

#[verifier::external_type_specification]
#[verifier::external_body]
#[verifier::reject_recursive_types(T)]
pub struct ExReceiver<T>(Receiver<T>);

/// What a non-blocking send into the queue found.
#[derive(Debug, Clone, Copy, PartialEq, Eq, Structural)]
pub enum SendOutcome {
    /// The event is in the queue.
    Sent,
    /// The consumer is gone: the event was dropped.
    Closed,
    /// The queue reported that it is full.
    Full,
}

/// The queue reported that it is full, which an unbounded queue never does.
#[derive(Debug, Clone, Copy, PartialEq, Eq, Structural)]
pub struct QueueFull;

/// Relies on async_channel::unbounded: a fresh channel with no capacity bound,
/// one producer handle and one consumer handle.
#[verifier::external_body]
fn open_channel<E>() -> (Sender<E>, Receiver<E>) {
    async_channel::unbounded()
}

/// Relies on async_channel::Sender::try_send, which never blocks: it pushes
/// the event, or reports that the channel is closed or full. Whether the
/// consumer is still there depends on the other side, so `Sent` and `Closed`
/// are both possible; `Full` is not, since every `EventSender` holds a channel
/// made by `async_channel::unbounded`, whose push fails only when closed.
#[verifier::external_body]
fn channel_try_send<E>(tx: &EventSender<E>, event: E) -> (r: SendOutcome)
    ensures
        r != SendOutcome::Full,
{
    match tx.tx.try_send(event) {
        Ok(()) => SendOutcome::Sent,
        Err(TrySendError::Closed(_)) => SendOutcome::Closed,
        Err(TrySendError::Full(_)) => SendOutcome::Full,
    }
}

/// Relies on async_channel::Receiver::try_recv, which never blocks: the
/// oldest queued event, or nothing where the channel is empty.
#[verifier::external_body]
fn channel_try_recv<E>(rx: &Receiver<E>) -> (r: Option<E>) {
    match rx.try_recv() {
        Ok(event) => Some(event),
        Err(TryRecvError::Empty) => None,
        Err(TryRecvError::Closed) => None,
    }
}

/// The consumer side of the queue, handed to the task.
#[verifier::reject_recursive_types(E)]
pub struct Events<E> {
    rx: Receiver<E>,
}

impl<E> Events<E> {
    /// The oldest event not yet taken, or `None` where none is waiting.
    pub fn try_next(&self) -> (r: Option<E>) {
        channel_try_recv(&self.rx)
    }

    /// The underlying channel receiver, for a consumer that awaits events.
    pub fn into_receiver(self) -> (r: Receiver<E>) {
        self.rx
    }
}

/// The producer side of the queue, held by the driver. Its channel is always
/// one made by `async_channel::unbounded`.
#[verifier::reject_recursive_types(E)]
pub struct EventSender<E> {
    tx: Sender<E>,
    pushed: Ghost<Seq<E>>,
    closed: Ghost<bool>,
}

impl<E> EventSender<E> {
    /// Every event that the channel accepted from this producer, in order.
    pub closed spec fn pushed(&self) -> Seq<E> {
        self.pushed@
    }

    /// Whether the channel has reported that the consumer is gone.
    pub closed spec fn closed(&self) -> bool {
        self.closed@
    }
}

/// A fresh queue, into which nothing has been pushed: its producer and its
/// consumer.
pub fn event_queue<E>() -> (r: (EventSender<E>, Events<E>))
    ensures
        r.0.pushed() == Seq::<E>::empty(),
        !r.0.closed(),
{
    let (tx, rx) = open_channel();
    (EventSender { tx, pushed: Ghost(Seq::empty()), closed: Ghost(false) }, Events { rx })
}

/// Classifies what a send found: a gone consumer is no error, a full queue is.
pub fn classify_send(outcome: SendOutcome) -> (r: Result<bool, QueueFull>)
    ensures
        outcome == SendOutcome::Sent ==> r == Ok::<bool, QueueFull>(true),
        outcome == SendOutcome::Closed ==> r == Ok::<bool, QueueFull>(false),
        outcome == SendOutcome::Full ==> r == Err::<bool, QueueFull>(QueueFull),
{
    match outcome {
        SendOutcome::Sent => Ok(true),
        SendOutcome::Closed => Ok(false),
        SendOutcome::Full => Err(QueueFull),
    }
}

impl<E> EventSender<E> {
    /// Hands `event` to the queue without blocking. `Ok(true)`: the channel
    /// accepted it, after everything accepted before; `Ok(false)`: the
    /// consumer is gone and it was dropped silently. The queue is unbounded,
    /// so it never reports itself full.
    pub fn enqueue(&mut self, event: E) -> (r: Result<bool, QueueFull>)
        ensures
            r is Ok,
            r == Ok::<bool, QueueFull>(true) ==> final(self).pushed() == old(self).pushed().push(event)
                && final(self).closed() == old(self).closed(),
            r == Ok::<bool, QueueFull>(false) ==> final(self).pushed() == old(self).pushed()
                && final(self).closed(),
    {
        let ghost ev = event;
        let outcome = channel_try_send(self, event);
        let r = classify_send(outcome);
        if outcome == SendOutcome::Sent {
            self.pushed = Ghost(self.pushed@.push(ev));
        } else {
            self.closed = Ghost(true);
        }
        r
    }
}

} // verus!
