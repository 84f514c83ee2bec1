//! An asynchronous adapter around standard input: the canonical example of a
//! reactor-integrated I/O resource. On each poll it performs the non-blocking
//! read; when the read would block it stores the current waker with the
//! reactor and reports `Pending`. Standard input is a system-wide singleton,
//! so a process-wide one-bit lock allows at most one live adapter at a time.
//!
//! Putting the descriptor into non-blocking mode (and restoring it) is
//! external-interface detail, not core algorithm, and is left to the code
//! that owns the process's descriptors.

use vstd::prelude::*;

use core::sync::atomic::{AtomicBool, Ordering};
use std::io::Read;
use std::sync::Arc;

use crate::executor::waker::Waker;
use crate::reactor::{register_model, Handle, Reactor};
use crate::{RuntimeError, Status};

verus! {

/// The raw file descriptor of standard input.
pub const STDIN_FD: i32 = 0;

/// std's handle to the process's standard input; opaque to the verifier.
#[verifier::external_type_specification]
#[verifier::external_body]
pub struct ExStdinHandle(std::io::Stdin);

/// Relies on std::io::stdin: a handle to the process's standard input.
#[verifier::external_body]
fn acquire_stdin() -> std::io::Stdin {
    std::io::stdin()
}

/// What one non-blocking read attempt produced.
pub enum ReadOutcome {
    /// This many bytes were read into the front of the buffer.
    Data(usize),
    /// The descriptor has nothing to offer right now.
    WouldBlock,
    /// The read failed outright.
    Failed(std::io::Error),
}

/// Relies on std::io::Stdin's Read::read: reads whatever is available into
/// the buffer without growing or shrinking it, returning a byte count that
/// std documents to be at most the buffer's length; a descriptor in
/// non-blocking mode reports the would-block condition instead of stalling,
/// and std guarantees that no bytes were read when an error is returned, so
/// both failure outcomes leave the buffer's contents untouched.
#[verifier::external_body]
fn stdin_read(inner: &mut std::io::Stdin, buffer: &mut Vec<u8>) -> (r: ReadOutcome)
    ensures
        final(buffer)@.len() == old(buffer)@.len(),
        r matches ReadOutcome::Data(n) ==> n <= final(buffer)@.len(),
        r is WouldBlock ==> final(buffer)@ == old(buffer)@,
        r is Failed ==> final(buffer)@ == old(buffer)@,
{
    match inner.read(buffer.as_mut_slice()) {
        Ok(n) => ReadOutcome::Data(n),
        Err(e) if e.kind() == std::io::ErrorKind::WouldBlock => ReadOutcome::WouldBlock,
        Err(e) => ReadOutcome::Failed(e),
    }
}

/// The process-wide one-bit lock marking the standard-input adapter as taken.
/// Cloning hands out another reference to the same bit.
#[derive(Clone)]
pub struct StdinFlag {
    flag: Arc<AtomicBool>,
}

impl StdinFlag {
    /// A fresh, unlocked flag.
    pub fn new() -> StdinFlag {
        StdinFlag { flag: Arc::new(AtomicBool::new(false)) }
    }
}

/// An ownership token for the locked flag: while a guard is live, no second
/// one can be taken from the same flag. The lock is given back by `release`
/// alone: a guard merely dropped leaves the flag held for good, so the owner
/// of a failed or finished adapter must call it.
pub struct Guard {
    flag: StdinFlag,
}

impl Guard {
    /// Take the lock. Fails with the contention error exactly when the flag
    /// is already held by a live guard.
    pub fn take(flag: &StdinFlag) -> (r: Result<Guard, RuntimeError>)
        ensures
            r matches Err(e) ==> e is Contention,
    {
        match flag.flag.compare_exchange(false, true, Ordering::Relaxed, Ordering::Relaxed) {
            Ok(_) => Ok(Guard { flag: flag.clone() }),
            Err(_) => Err(RuntimeError::Contention),
        }
    }

    /// Release the lock, allowing a later adapter to take it again.
    pub fn release(self) {
        self.flag.flag.store(false, Ordering::Relaxed);
    }
}

/// An asynchronous wrapper around standard input.
pub struct Stdin {
    // only one adapter can exist at a time
    lock: Guard,
    // the handle owning this adapter's token in the reactor's table
    handle: Handle,
    // the descriptor itself, for reading from
    inner: std::io::Stdin,
}

impl Stdin {
    /// The token this adapter's registrations live under.
    pub closed spec fn token_spec(self) -> int {
        self.handle.token_spec()
    }

    /// Create a new adapter around standard input: take the singleton lock,
    /// obtain a registration handle from the reactor, and register the
    /// descriptor with readable interest and edge-triggered notification. A
    /// failed construction leaves the lock released and the table entry
    /// retracted.
    pub fn new(flag: &StdinFlag, reactor: &mut Reactor) -> (r: Result<Stdin, RuntimeError>)
        requires
            old(reactor).wf(),
        ensures
            final(reactor).wf(),
            r matches Ok(s) ==> 0 <= s.token_spec() < final(reactor)@.len() && (final(reactor)@[s.token_spec()] matches Some(ws) && ws@.len() == 0),
            r matches Err(e) ==> e is Contention || e is Os,
            r is Err ==> forall|t: int|
                0 <= t < old(reactor)@.len() && (#[trigger] old(reactor)@[t]) is Some
                    ==> final(reactor)@[t] == old(reactor)@[t],
    {
        let lock = match Guard::take(flag) {
            Ok(lock) => lock,
            Err(e) => {
                return Err(e);
            },
        };
        let handle = Handle::new(reactor);
        match handle.register(reactor, STDIN_FD) {
            Ok(_) => {},
            Err(e) => {
                handle.release(reactor);
                lock.release();
                return Err(e);
            },
        }
        let inner = acquire_stdin();
        Ok(Stdin { lock, handle, inner })
    }

    /// The poll-based byte-stream read: perform the non-blocking read; when
    /// it would block, store the current waker with the reactor and report
    /// `Pending` (never block the thread). The reactor's table is touched
    /// only in the would-block case, and then only this adapter's entry,
    /// which afterwards contains a waker for the caller's task.
    pub fn poll_read(
        &mut self,
        reactor: &mut Reactor,
        waker: &Waker,
        buffer: &mut Vec<u8>,
    ) -> (r: Status<Result<usize, RuntimeError>>)
        requires
            old(reactor).wf(),
            0 <= old(self).token_spec() < old(reactor)@.len(),
            old(reactor)@[old(self).token_spec()] is Some,
        ensures
            final(reactor).wf(),
            final(self).token_spec() == old(self).token_spec(),
            final(buffer)@.len() == old(buffer)@.len(),
            final(reactor)@.len() == old(reactor)@.len(),
            forall|t: int|
                0 <= t < old(reactor)@.len() && t != old(self).token_spec() ==> final(reactor)@[t]
                    == old(reactor)@[t],
            r matches Status::Ready(res) ==> final(reactor)@ == old(reactor)@ && (res matches Ok(n)
                ==> n <= final(buffer)@.len()) && (res matches Err(_)
                ==> final(buffer)@ == old(buffer)@),
            r is Pending ==> final(buffer)@ == old(buffer)@,
            r is Pending ==> (final(reactor)@[old(self).token_spec()] matches Some(new_ws)
                && (old(reactor)@[old(self).token_spec()] matches Some(old_ws) && new_ws@
                == register_model(old_ws@, *waker))),
    {
        let outcome = stdin_read(&mut self.inner, buffer);
        self.resolve_read(reactor, waker, outcome)
    }

    /// What the poll protocol reports for each read outcome, fixed for every
    /// value the descriptor can produce: read data surfaces unchanged as
    /// `Ready(Ok(n))` and a failure as `Ready(Err(..))`, both leaving the
    /// registration table untouched; only the would-block outcome stores the
    /// caller's waker (deduplicated) under the adapter's token and reports
    /// `Pending`.
    pub fn resolve_read(
        &self,
        reactor: &mut Reactor,
        waker: &Waker,
        outcome: ReadOutcome,
    ) -> (r: Status<Result<usize, RuntimeError>>)
        requires
            old(reactor).wf(),
            0 <= self.token_spec() < old(reactor)@.len(),
            old(reactor)@[self.token_spec()] is Some,
        ensures
            final(reactor).wf(),
            final(reactor)@.len() == old(reactor)@.len(),
            forall|t: int|
                0 <= t < old(reactor)@.len() && t != self.token_spec() ==> final(reactor)@[t]
                    == old(reactor)@[t],
            outcome matches ReadOutcome::Data(n) ==> r == Status::<Result<
                usize,
                RuntimeError,
            >>::Ready(Ok(n)) && final(reactor)@ == old(reactor)@,
            outcome matches ReadOutcome::Failed(e) ==> r == Status::<Result<
                usize,
                RuntimeError,
            >>::Ready(Err(RuntimeError::Os(e))) && final(reactor)@ == old(reactor)@,
            outcome is WouldBlock <==> r is Pending,
            r is Pending ==> (final(reactor)@[self.token_spec()] matches Some(new_ws)
                && (old(reactor)@[self.token_spec()] matches Some(old_ws) && new_ws@
                == register_model(old_ws@, *waker))),
    {
        match outcome {
            ReadOutcome::Data(n) => Status::Ready(Ok(n)),
            ReadOutcome::WouldBlock => {
                self.handle.add_waker(reactor, waker.clone());
                Status::Pending
            },
            ReadOutcome::Failed(e) => Status::Ready(Err(RuntimeError::Os(e))),
        }
    }

    /// Tear the adapter down: retract its registration entry and release the
    /// singleton lock. This is the adapter's one way out: one merely dropped
    /// leaks its table entry and leaves the singleton flag held for good.
    /// Restoring the descriptor's original mode flags is the descriptor
    /// owner's responsibility.
    pub fn close(self, reactor: &mut Reactor)
        requires
            old(reactor).wf(),
            0 <= self.token_spec() < old(reactor)@.len(),
        ensures
            final(reactor).wf(),
            final(reactor)@ =~= old(reactor)@.update(self.token_spec(), None),
    {
        let Stdin { lock, handle, inner } = self;
        let _ = inner;
        handle.release(reactor);
        lock.release();
    }
}

} // verus!
