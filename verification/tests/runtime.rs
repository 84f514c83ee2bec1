//! Tests for the executor: running a primary future to completion, servicing
//! background tasks, and the registry's reserved sentinel id.

use std::cell::Cell;
use std::rc::Rc;
use std::sync::mpsc;

use nt::executor::task::Task;
use nt::executor::waker::Waker;
use nt::executor::{Executor, Registry, SENTINEL_ID};
use nt::reactor::Reactor;
use nt::{Pollable, Status};

/// A computation that pauses a given number of times (re-arming its own waker
/// before each pause) and then yields its value.
struct CountDown {
    remaining: usize,
    value: i32,
}

impl Pollable<i32> for CountDown {
    // the poll relation is specification-level and never evaluated at run time
    fn polled(_: Self, _: Self, _: Status<i32>) -> bool {
        true
    }

    fn poll(&mut self, waker: &Waker) -> Status<i32> {
        if self.remaining == 0 {
            Status::Ready(self.value)
        } else {
            self.remaining -= 1;
            waker.wake();
            Status::Pending
        }
    }
}

/// A background task that pauses a given number of times and then bumps a
/// shared counter as its observable side effect.
struct BgBump {
    left: usize,
    counter: Rc<Cell<u32>>,
}

impl Pollable<()> for BgBump {
    fn polled(_: Self, _: Self, _: Status<()>) -> bool {
        true
    }

    fn poll(&mut self, waker: &Waker) -> Status<()> {
        if self.left == 0 {
            self.counter.set(self.counter.get() + 1);
            Status::Ready(())
        } else {
            self.left -= 1;
            waker.wake();
            Status::Pending
        }
    }
}

/// A primary future that completes only once the shared counter reaches its
/// target, re-arming its waker on every miss.
struct WaitForCounter {
    counter: Rc<Cell<u32>>,
    target: u32,
    value: i32,
}

impl Pollable<i32> for WaitForCounter {
    fn polled(_: Self, _: Self, _: Status<i32>) -> bool {
        true
    }

    fn poll(&mut self, waker: &Waker) -> Status<i32> {
        if self.counter.get() == self.target {
            Status::Ready(self.value)
        } else {
            waker.wake();
            Status::Pending
        }
    }
}

fn expect_ready(r: Result<Status<i32>, nt::RuntimeError>) -> i32 {
    match r {
        Ok(Status::Ready(v)) => v,
        Ok(Status::Pending) => panic!("future did not complete within the budget"),
        Err(_) => panic!("runtime error"),
    }
}

#[test]
fn immediate() {
    let future = CountDown { remaining: 0, value: 5 };
    let mut future = future;
    let mut executor: Executor<BgBump> = Executor::new();
    let reactor = Reactor::new().unwrap();
    // a zero budget leaves only the bootstrap sweep: an immediately ready
    // future completes without the reactor's blocking wait ever running
    assert_eq!(5, expect_ready(executor.complete(&mut future, &reactor, 0)));
}

#[test]
fn immediate_with_spare_budget() {
    // nothing is registered with the reactor, so if the executor consulted
    // its blocking wait at all this test would hang rather than pass
    let mut future = CountDown { remaining: 0, value: 5 };
    let mut executor: Executor<BgBump> = Executor::new();
    let reactor = Reactor::new().unwrap();
    assert_eq!(5, expect_ready(executor.complete(&mut future, &reactor, 1000)));
}

#[test]
fn pause_once() {
    let mut future = CountDown { remaining: 1, value: 5 };
    let mut executor: Executor<BgBump> = Executor::new();
    let reactor = Reactor::new().unwrap();
    assert_eq!(5, expect_ready(executor.complete(&mut future, &reactor, 100)));
}

#[test]
fn pause_once_takes_one_turn() {
    // one pause costs exactly one wake-queue turn: a zero budget is not
    // enough, a budget of one is
    let mut executor: Executor<BgBump> = Executor::new();
    let reactor = Reactor::new().unwrap();

    let mut future = CountDown { remaining: 1, value: 5 };
    assert!(matches!(executor.complete(&mut future, &reactor, 0), Ok(Status::Pending)));

    let mut future = CountDown { remaining: 1, value: 5 };
    assert_eq!(5, expect_ready(executor.complete(&mut future, &reactor, 1)));
}

#[test]
fn many_pauses() {
    let mut future = CountDown { remaining: 10, value: 5 };
    let mut executor: Executor<BgBump> = Executor::new();
    let reactor = Reactor::new().unwrap();
    assert_eq!(5, expect_ready(executor.complete(&mut future, &reactor, 100)));
}

#[test]
fn background_tasks_complete() {
    let counter: Rc<Cell<u32>> = Rc::new(Cell::new(0));
    let mut executor: Executor<BgBump> = Executor::new();
    let reactor = Reactor::new().unwrap();
    executor.spawn(BgBump { left: 0, counter: Rc::clone(&counter) });
    executor.spawn(BgBump { left: 1, counter: Rc::clone(&counter) });
    executor.spawn(BgBump { left: 3, counter: Rc::clone(&counter) });
    // the primary future depends on all three side effects having happened
    let mut future = WaitForCounter { counter: Rc::clone(&counter), target: 3, value: 7 };
    assert_eq!(7, expect_ready(executor.complete(&mut future, &reactor, 1000)));
    assert_eq!(3, counter.get());
}

#[test]
fn complete_reusable_across_calls() {
    // background tasks spawned before one complete call are still serviced
    // by a later call on the same executor
    let counter: Rc<Cell<u32>> = Rc::new(Cell::new(0));
    let mut executor: Executor<BgBump> = Executor::new();
    let reactor = Reactor::new().unwrap();
    executor.spawn(BgBump { left: 50, counter: Rc::clone(&counter) });
    let mut first = CountDown { remaining: 0, value: 1 };
    assert_eq!(1, expect_ready(executor.complete(&mut first, &reactor, 0)));
    assert_eq!(0, counter.get());
    let mut second = WaitForCounter { counter: Rc::clone(&counter), target: 1, value: 2 };
    assert_eq!(2, expect_ready(executor.complete(&mut second, &reactor, 1000)));
    assert_eq!(1, counter.get());
}

#[test]
fn sentinel_never_allocated() {
    // across repeated allocate/free cycles the reserved sentinel id is never
    // handed out for a background task
    let mut registry: Registry<BgBump> = Registry::new();
    for _ in 0..8 {
        let id = registry.allocate_slot();
        assert_ne!(SENTINEL_ID, id);
        assert_eq!(1, id);
        registry.free(id);
    }
    let first = registry.allocate_slot();
    let second = registry.allocate_slot();
    assert_eq!(1, first);
    assert_eq!(2, second);
    registry.free(first);
    // the freed lower id is reused, and still is not the sentinel
    let third = registry.allocate_slot();
    assert_eq!(1, third);
    assert_ne!(SENTINEL_ID, third);
}

#[test]
fn task_wraps_a_computation() {
    let mut future = Task::new(CountDown { remaining: 2, value: 9 });
    let mut executor: Executor<BgBump> = Executor::new();
    let reactor = Reactor::new().unwrap();
    assert_eq!(9, expect_ready(executor.complete(&mut future, &reactor, 100)));
}

#[test]
fn waker_enqueues_its_id() {
    let (sender, receiver) = mpsc::sync_channel::<usize>(4);
    let waker = Waker::new(sender, 9);
    waker.wake();
    waker.wake();
    assert_eq!(9, receiver.try_recv().unwrap());
    assert_eq!(9, receiver.try_recv().unwrap());
    assert!(receiver.try_recv().is_err());
}

#[test]
fn waker_clone_preserves_identity() {
    let (sender, receiver) = mpsc::sync_channel::<usize>(4);
    let waker = Waker::new(sender, 3);
    let copy = waker.clone();
    assert!(waker.will_wake(&copy));
    copy.wake();
    // the clone sends the same id into the same queue
    assert_eq!(3, receiver.try_recv().unwrap());
}

#[test]
fn will_wake_compares_targets() {
    let (sender, _receiver) = mpsc::sync_channel::<usize>(4);
    let a = Waker::new(sender.clone(), 1);
    let b = Waker::new(sender.clone(), 1);
    let c = Waker::new(sender, 2);
    assert!(a.will_wake(&b));
    assert!(!a.will_wake(&c));
}
