//! A task wraps an in-progress suspended computation so that differently
//! built computations can be driven through one common shape.

use vstd::prelude::*;

use crate::{Pollable, Status};
use crate::executor::waker::Waker;

verus! {

/// A task that wraps around an in-progress suspended computation.
pub struct Task<F> {
    inner: F,
}

impl<F> Task<F> {
    /// The suspended computation held inside.
    pub closed spec fn wrapped(self) -> F {
        self.inner
    }

    /// Create a new task, wrapping a suspended computation.
    pub fn new(inner: F) -> (t: Self)
        ensures
            t.wrapped() == inner,
    {
        Task { inner }
    }
}

impl<T, F: Pollable<T>> Pollable<T> for Task<F> {
    /// One poll of the task is one poll of the wrapped computation.
    open spec fn polled(pre: Self, post: Self, r: Status<T>) -> bool {
        F::polled(pre.wrapped(), post.wrapped(), r)
    }

    /// Polling the task polls the wrapped computation.
    fn poll(&mut self, waker: &Waker) -> (r: Status<T>)
        ensures
            Self::polled(*old(self), *final(self), r),
    {
        self.inner.poll(waker)
    }
}

} // verus!
