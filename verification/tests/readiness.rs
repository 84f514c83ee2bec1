//! Tests for the reactor's registration table, waker deduplication and
//! dispatch, and the standard-input adapter's singleton lock.

use std::sync::mpsc;

use nt::executor::waker::Waker;
use nt::reactor::stdin::{Guard, StdinFlag};
use nt::reactor::{Handle, Reactor};
use nt::RuntimeError;

#[test]
fn duplicate_registration_dispatches_once() {
    let mut reactor = Reactor::new().unwrap();
    let handle = Handle::new(&mut reactor);
    let (sender, receiver) = mpsc::sync_channel::<usize>(8);
    // two wakers for the same logical target, registered against one token
    handle.add_waker(&mut reactor, Waker::new(sender.clone(), 3));
    handle.add_waker(&mut reactor, Waker::new(sender.clone(), 3));
    reactor.dispatch(&vec![handle.token()]);
    assert_eq!(3, receiver.try_recv().unwrap());
    // no duplicate wake dispatch for the deduplicated registration
    assert!(receiver.try_recv().is_err());
}

#[test]
fn dispatch_fires_every_distinct_target() {
    let mut reactor = Reactor::new().unwrap();
    let handle = Handle::new(&mut reactor);
    let (sender, receiver) = mpsc::sync_channel::<usize>(8);
    handle.add_waker(&mut reactor, Waker::new(sender.clone(), 1));
    handle.add_waker(&mut reactor, Waker::new(sender.clone(), 2));
    reactor.dispatch(&vec![handle.token()]);
    let mut woken = vec![receiver.try_recv().unwrap(), receiver.try_recv().unwrap()];
    woken.sort();
    assert_eq!(vec![1, 2], woken);
    assert!(receiver.try_recv().is_err());
}

#[test]
fn dispatch_ignores_unknown_tokens() {
    let mut reactor = Reactor::new().unwrap();
    let handle = Handle::new(&mut reactor);
    let (sender, receiver) = mpsc::sync_channel::<usize>(8);
    handle.add_waker(&mut reactor, Waker::new(sender, 1));
    // readiness for a token nobody owns is ignored, not an error
    reactor.dispatch(&vec![handle.token() + 17]);
    assert!(receiver.try_recv().is_err());
}

#[test]
fn released_handle_is_not_dispatched() {
    let mut reactor = Reactor::new().unwrap();
    let handle = Handle::new(&mut reactor);
    let token = handle.token();
    let (sender, receiver) = mpsc::sync_channel::<usize>(8);
    handle.add_waker(&mut reactor, Waker::new(sender, 5));
    handle.release(&mut reactor);
    reactor.dispatch(&vec![token]);
    assert!(receiver.try_recv().is_err());
}

#[test]
fn released_token_is_reused() {
    let mut reactor = Reactor::new().unwrap();
    let first = Handle::new(&mut reactor);
    let first_token = first.token();
    first.release(&mut reactor);
    let second = Handle::new(&mut reactor);
    assert_eq!(first_token, second.token());
    let third = Handle::new(&mut reactor);
    assert_ne!(second.token(), third.token());
}

#[test]
fn register_with_bad_descriptor_reports_os_error() {
    let mut reactor = Reactor::new().unwrap();
    let handle = Handle::new(&mut reactor);
    let r = handle.register(&reactor, -1);
    assert!(matches!(r, Err(RuntimeError::Os(_))));
}

#[test]
fn singleton_guard_contention() {
    let flag = StdinFlag::new();
    let first = Guard::take(&flag).unwrap();
    // a second adapter cannot take the singleton while the first is live
    let second = Guard::take(&flag);
    assert!(matches!(second, Err(RuntimeError::Contention)));
    first.release();
    // once the first is gone, a third construction succeeds
    let third = Guard::take(&flag);
    assert!(third.is_ok());
}
