//! Wake-notification handles. A waker identifies one task by its integer id
//! and carries a clone of the send side of the executor's wake-event queue;
//! firing it enqueues that id for re-polling. Only the queue's send side
//! needs thread-safety: the registration table and the executor itself never
//! leave their thread.

use vstd::prelude::*;

use std::sync::mpsc::{Receiver, SyncSender, TryRecvError};

verus! {

/// The send side of std's bounded channel; opaque to the verifier.
#[verifier::external_type_specification]
#[verifier::external_body]
#[verifier::reject_recursive_types(T)]
pub struct ExSyncSender<T>(SyncSender<T>);

/// The receive side of std's bounded channel; opaque to the verifier.
#[verifier::external_type_specification]
#[verifier::external_body]
#[verifier::reject_recursive_types(T)]
pub struct ExReceiver<T>(Receiver<T>);

/// What taking from the wake-event queue produced.
pub enum Dequeued {
    /// A task id awaiting a re-poll.
    Id(usize),
    /// No wake event is pending right now.
    Empty,
}

/// Relies on std::sync::mpsc::sync_channel: returns the connected send and
/// receive sides of a bounded first-in-first-out queue.
#[verifier::external_body]
pub(crate) fn new_wake_queue(bound: usize) -> (SyncSender<usize>, Receiver<usize>) {
    std::sync::mpsc::sync_channel(bound)
}

/// Relies on std::sync::mpsc::SyncSender::clone: the clone is another handle
/// to the very same queue, interchangeable with the original, which the
/// contract states as value equality.
#[verifier::external_body]
pub(crate) fn clone_sender(sender: &SyncSender<usize>) -> (r: SyncSender<usize>)
    ensures
        r == *sender,
{
    sender.clone()
}

/// Relies on std::sync::mpsc::SyncSender::send: enqueues the id, blocking
/// while the queue is full (deliberate backpressure, never an error). The
/// send fails only when the receive side is gone, which means the executor
/// was destroyed while a task it owns is still alive: a programming-model
/// violation no caller can recover from, so it aborts rather than letting
/// the wake be lost without trace.
#[verifier::external_body]
pub(crate) fn queue_send(sender: &SyncSender<usize>, id: usize) {
    sender.send(id).unwrap();
}

/// Relies on std::sync::mpsc::Receiver::try_recv: hands out queued ids in
/// first-in-first-out order without blocking, or reports the queue empty.
/// try_recv reports a disconnection only once every send side is gone; the
/// caller passes a live send side of the same queue as a witness, so a
/// disconnection cannot be observed here and the empty report covers it.
#[verifier::external_body]
pub(crate) fn queue_try_take(receiver: &Receiver<usize>, live: &SyncSender<usize>) -> Dequeued {
    let _ = live;
    match receiver.try_recv() {
        Ok(id) => Dequeued::Id(id),
        Err(TryRecvError::Empty) => Dequeued::Empty,
        Err(TryRecvError::Disconnected) => Dequeued::Empty,
    }
}

/// A wake-notification handle: fires by enqueueing its task's id onto the
/// executor's wake-event queue.
pub struct Waker {
    /// A clone of the send side of the executor's wake-event queue.
    pub sender: SyncSender<usize>,
    /// The id of the task this waker re-schedules.
    pub id: usize,
}

impl Waker {
    /// Build a waker for the task with the given id.
    pub fn new(sender: SyncSender<usize>, id: usize) -> (w: Waker)
        ensures
            w.id == id,
            w.sender == sender,
    {
        Waker { sender, id }
    }

    /// Fire the waker: enqueue the carried id for re-polling. Safe to call
    /// any number of times and from any thread; its only effect is the
    /// enqueue, and a full queue stalls the caller rather than failing.
    pub fn wake(&self) {
        queue_send(&self.sender, self.id);
    }

    /// Wake-equivalence: two wakers would wake the same logical target
    /// exactly when they carry the same task id. The registration table
    /// deduplicates by this test; it is adequate because a reactor only
    /// ever holds wakers of the one executor that runs on its thread, so
    /// all of them share one queue.
    pub fn will_wake(&self, other: &Waker) -> (r: bool)
        ensures
            r == (self.id == other.id),
    {
        self.id == other.id
    }
}

impl Clone for Waker {
    /// Cloning preserves identity: the copy carries the same task id and a
    /// send handle into the same queue, so firing either enqueues the same
    /// id in the same place and wake-equivalence is preserved.
    fn clone(&self) -> (w: Self)
        ensures
            w == *self,
    {
        Waker { sender: clone_sender(&self.sender), id: self.id }
    }
}

} // verus!
