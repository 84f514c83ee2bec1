//! A minimal single-threaded cooperative task runtime: an executor that
//! drives suspended computations to completion, a waker mechanism that lets
//! suspended work request re-polling, and a reactor that turns OS-level I/O
//! readiness into wake events.

use vstd::prelude::*;

pub mod executor;
pub mod reactor;

use crate::executor::waker::Waker;

verus! {

/// The result of polling a suspended computation: either a finished value, or
/// a report that the computation cannot progress yet and has arranged (through
/// the waker it was handed) to be woken when it can.
pub enum Status<T> {
    Ready(T),
    Pending,
}

/// A suspended computation driven by polling. An implementor that cannot make
/// progress must arrange, through the waker it was handed (directly or via a
/// resource adapter), to be woken once it can, and then report `Pending`.
pub trait Pollable<T>: Sized {
    /// What one poll call did: the relation between the state before the
    /// call, the state after it, and the reported result. Each implementor
    /// gives this its own meaning; the executor's contracts are stated over
    /// it, so that a value the runtime returns is provably one that some
    /// poll of the primary computation produced.
    spec fn polled(pre: Self, post: Self, r: Status<T>) -> bool;

    /// Attempt to make progress, yielding either the finished value or
    /// `Pending`.
    fn poll(&mut self, waker: &Waker) -> (r: Status<T>)
        ensures
            Self::polled(*old(self), *final(self), r),
    ;
}

/// std's opaque OS-error value, carried through the runtime's error type.
#[verifier::external_type_specification]
#[verifier::external_body]
pub struct ExIoError(std::io::Error);

/// The runtime's recoverable failures. Invariant violations (a misplaced
/// sentinel id, a wake queue whose receiver died while tasks are live) are
/// not represented here: they are unreachable under the runtime's own
/// invariants rather than reportable errors.
#[derive(Debug)]
pub enum RuntimeError {
    /// The singleton resource guard was already held by another adapter.
    Contention,
    /// An OS-level failure from the readiness multiplexer or from
    /// registering an I/O source with it.
    Os(std::io::Error),
}

} // verus!
