//! The reactor: the part of the runtime responsible for the pauses between
//! I/O tasks. It owns the OS readiness multiplexer and a registration table
//! mapping tokens to the wakers interested in each I/O source; blocking until
//! something is ready and firing the associated wakers turns OS readiness
//! into wake events. The reactor is meant to stay on one thread for its whole
//! lifetime: only the wake-event queue crosses threads.

use vstd::prelude::*;
use vstd::pervasive::unreached;

pub mod stdin;

pub use self::stdin::Stdin;

use crate::executor::waker::Waker;
use crate::RuntimeError;

verus! {

/// mio's readiness multiplexer; opaque to the verifier.
#[verifier::external_type_specification]
#[verifier::external_body]
pub struct ExMioPoll(mio::Poll);

/// Relies on mio::Poll::new: creates the OS-level readiness multiplexer.
#[verifier::external_body]
fn mio_poll_new() -> Result<mio::Poll, std::io::Error> {
    mio::Poll::new()
}

/// Relies on mio::Poll::register, with readable interest and edge-triggered
/// notification, for the raw file descriptor under the given token.
#[verifier::external_body]
fn mio_register_readable(inner: &mio::Poll, fd: i32, token: usize) -> Result<(), std::io::Error> {
    inner.register(
        &mio::unix::EventedFd(&fd),
        mio::Token(token),
        mio::Ready::readable(),
        mio::PollOpt::edge(),
    )
}

/// Relies on mio::Poll::poll with no deadline: blocks the calling thread
/// until at least one registered source is ready, then reports the tokens of
/// the ready sources. Which tokens arrive, how often, and in what order
/// depend on the operating system: nothing is promised of the result.
#[verifier::external_body]
fn mio_wait(inner: &mio::Poll) -> Result<Vec<usize>, std::io::Error> {
    let mut events = mio::Events::with_capacity(32);
    inner.poll(&mut events, None)?;
    let mut ready = Vec::new();
    for event in events.iter() {
        let mio::Token(token) = event.token();
        ready.push(token);
    }
    Ok(ready)
}

/// No two wakers in a registration entry target the same task.
pub open spec fn nodup_ids(ws: Seq<Waker>) -> bool {
    forall|i: int, j: int|
        0 <= i < ws.len() && 0 <= j < ws.len() && i != j ==> ws[i].id != ws[j].id
}

/// Whether some waker in the entry already targets the given id.
pub open spec fn has_id(ws: Seq<Waker>, id: usize) -> bool {
    exists|k: int| 0 <= k < ws.len() && ws[k].id == id
}

/// What registering a waker does to an entry: appended only if no present
/// waker would wake the same logical target.
pub open spec fn register_model(ws: Seq<Waker>, w: Waker) -> Seq<Waker> {
    if has_id(ws, w.id) {
        ws
    } else {
        ws.push(w)
    }
}

/// Law: registering preserves deduplication, and registering a second waker
/// that is wake-equivalent to the first changes nothing, so one readiness
/// event can never dispatch the same logical target twice.
pub proof fn lemma_duplicate_registration_is_noop(ws: Seq<Waker>, w1: Waker, w2: Waker)
    requires
        nodup_ids(ws),
        w1.id == w2.id,
    ensures
        nodup_ids(register_model(ws, w1)),
        register_model(register_model(ws, w1), w2) == register_model(ws, w1),
{
    if !has_id(ws, w1.id) {
        let pushed = ws.push(w1);
        assert(pushed[ws.len() as int].id == w1.id);
        assert(has_id(pushed, w2.id));
        assert forall|i: int, j: int|
            0 <= i < pushed.len() && 0 <= j < pushed.len() && i != j implies pushed[i].id
            != pushed[j].id by {
            if i < ws.len() && j < ws.len() {
            } else if i == ws.len() {
                assert(pushed[j] == ws[j]);
                assert(ws[j].id != w1.id);
            } else {
                assert(pushed[i] == ws[i]);
                assert(ws[i].id != w1.id);
            }
        }
    } else {
        assert(has_id(register_model(ws, w1), w2.id));
    }
}

/// The wakers that dispatching these tokens fires, in order: every waker
/// stored under each listed live token, once per stored waker; a token
/// without a live entry contributes nothing.
pub open spec fn dispatch_model(table: Seq<Option<Vec<Waker>>>, ready: Seq<usize>) -> Seq<Waker>
    decreases ready.len(),
{
    if ready.len() == 0 {
        Seq::empty()
    } else {
        (if 0 <= ready[0] < table.len() && table[ready[0] as int] is Some {
            table[ready[0] as int]->0@
        } else {
            Seq::empty()
        }) + dispatch_model(table, ready.skip(1))
    }
}

/// A table that agrees with a deduplicated one everywhere but at one
/// position, which it leaves retired or freshly empty, stays deduplicated.
proof fn lemma_nodup_preserved(
    s: Seq<Option<Vec<Waker>>>,
    s2: Seq<Option<Vec<Waker>>>,
    i: int,
)
    requires
        forall|t: int|
            0 <= t < s.len() && (#[trigger] s[t]) is Some ==> nodup_ids(s[t]->0@),
        forall|t: int|
            0 <= t < s2.len() && t != i ==> 0 <= t < s.len() && (#[trigger] s2[t]) == s[t],
        0 <= i < s2.len() ==> (s2[i] is Some ==> s2[i]->0@.len() == 0),
    ensures
        forall|t: int|
            0 <= t < s2.len() && (#[trigger] s2[t]) is Some ==> nodup_ids(s2[t]->0@),
{
}

/// The reactor: one OS multiplexer plus the registration table. Entry `t` of
/// the view is `None` where no handle owns token `t`, and `Some(wakers)`
/// where a live handle does.
pub struct Reactor {
    inner: mio::Poll,
    tokens: Vec<Option<Vec<Waker>>>,
}

impl View for Reactor {
    type V = Seq<Option<Vec<Waker>>>;

    closed spec fn view(&self) -> Seq<Option<Vec<Waker>>> {
        self.tokens@
    }
}

impl Reactor {
    /// Well-formed: every live registration entry is deduplicated by
    /// wake-equivalence.
    pub open spec fn wf(self) -> bool {
        forall|t: int|
            0 <= t < self@.len() && (#[trigger] self@[t]) is Some ==> nodup_ids(self@[t]->0@)
    }

    /// Create a new reactor, ready to be linked to I/O sources.
    pub fn new() -> (r: Result<Reactor, RuntimeError>)
        ensures
            r matches Ok(re) ==> re.wf() && re@.len() == 0,
            r matches Err(e) ==> e is Os,
    {
        match mio_poll_new() {
            Ok(inner) => Ok(Reactor { inner, tokens: Vec::new() }),
            Err(e) => Err(RuntimeError::Os(e)),
        }
    }

    /// Block until at least one registered I/O source is ready, then fire
    /// every waker registered under every ready token. The registration
    /// table itself is left untouched; no ordering across tokens or within
    /// one token's wakers is promised, and which tokens the OS reports is
    /// not either. The returned record names the wakers fired: none when the
    /// wait failed, and exactly `dispatch_model` of some token list when it
    /// succeeded. The next poll of the woken tasks, not this function,
    /// re-checks whether the operation now succeeds.
    pub fn spin(&self) -> (r: (Result<(), RuntimeError>, Ghost<Seq<Waker>>))
        ensures
            r.0 matches Err(e) ==> e is Os && r.1@ == Seq::<Waker>::empty(),
            r.0 is Ok ==> exists|ready: Seq<usize>| r.1@ == dispatch_model(self@, ready),
    {
        let ready = match mio_wait(&self.inner) {
            Ok(tokens) => tokens,
            Err(e) => {
                return (Err(RuntimeError::Os(e)), Ghost(Seq::empty()));
            },
        };
        let fired = self.dispatch(&ready);
        proof {
            assert(fired@ == dispatch_model(self@, ready@));
        }
        (Ok(()), fired)
    }

    /// Fire every waker registered under each listed token, exactly once per
    /// stored waker, and no other: the returned record of the wakers fired,
    /// in order, is fixed by the table and the token list. A token without a
    /// live entry is ignored: readiness may race with a handle being
    /// released.
    pub fn dispatch(&self, ready: &Vec<usize>) -> (fired: Ghost<Seq<Waker>>)
        ensures
            fired@ == dispatch_model(self@, ready@),
    {
        let ghost table = self@;
        let mut fired: Ghost<Seq<Waker>> = Ghost(Seq::empty());
        proof {
            assert(ready@.skip(0) =~= ready@);
            assert(Seq::<Waker>::empty() + dispatch_model(table, ready@) =~= dispatch_model(
                table,
                ready@,
            ));
        }
        let mut i: usize = 0;
        while i < ready.len()
            invariant
                i <= ready@.len(),
                self@ == table,
                dispatch_model(table, ready@) == fired@ + dispatch_model(
                    table,
                    ready@.skip(i as int),
                ),
            decreases ready.len() - i,
        {
            let ghost suffix = ready@.skip(i as int);
            proof {
                assert(suffix[0] == ready@[i as int]);
                assert(suffix.skip(1) =~= ready@.skip(i as int + 1));
            }
            let token: usize = ready[i];
            if token < self.tokens.len() {
                match &self.tokens[token] {
                    Some(wakers) => {
                        let ghost entry = wakers@;
                        let ghost base = fired@;
                        let mut k: usize = 0;
                        while k < wakers.len()
                            invariant
                                k <= entry.len(),
                                wakers@ == entry,
                                fired@ == base + entry.take(k as int),
                            decreases wakers.len() - k,
                        {
                            wakers[k].wake();
                            proof {
                                assert(entry.take(k as int + 1) =~= entry.take(k as int).push(
                                    entry[k as int],
                                ));
                                fired@ = fired@.push(entry[k as int]);
                            }
                            k += 1;
                        }
                        proof {
                            assert(entry.take(entry.len() as int) =~= entry);
                            assert(fired@ + dispatch_model(table, ready@.skip(i as int + 1))
                                == dispatch_model(table, ready@));
                        }
                    },
                    None => {},
                }
            }
            i += 1;
        }
        proof {
            assert(ready@.skip(ready@.len() as int) =~= Seq::<usize>::empty());
        }
        fired
    }
}

/// A handle to one registration within the reactor: the unit of ownership
/// for a token. Wakers are associated with the handle's token, and releasing
/// the handle retracts the whole entry.
pub struct Handle {
    token: usize,
}

impl Handle {
    /// The token this handle owns, as a specification-level value.
    pub closed spec fn token_spec(self) -> int {
        self.token as int
    }

    /// The token this handle owns.
    pub fn token(&self) -> (t: usize)
        ensures
            t == self.token_spec(),
    {
        self.token
    }

    /// Create a handle bound to a freshly allocated token, with an empty
    /// waker entry: the lowest retired token is reused, or a new one is
    /// added at the end of the table.
    pub fn new(reactor: &mut Reactor) -> (h: Handle)
        requires
            old(reactor).wf(),
        ensures
            final(reactor).wf(),
            0 <= h.token_spec() < final(reactor)@.len(),
            h.token_spec() <= old(reactor)@.len(),
            h.token_spec() < old(reactor)@.len() ==> old(reactor)@[h.token_spec()] is None
                && final(reactor)@.len() == old(reactor)@.len(),
            h.token_spec() == old(reactor)@.len() ==> final(reactor)@.len() == old(
                reactor,
            )@.len() + 1,
            forall|t: int|
                0 <= t < old(reactor)@.len() && t != h.token_spec() ==> final(reactor)@[t] == old(
                    reactor,
                )@[t],
            final(reactor)@[h.token_spec()] matches Some(ws) && ws@ =~= Seq::<Waker>::empty(),
    {
        let ghost s = reactor@;
        let mut t: usize = 0;
        while t < reactor.tokens.len()
            invariant
                t <= s.len(),
                reactor@ == s,
                s == old(reactor)@,
                old(reactor).wf(),
            decreases s.len() - t,
        {
            let retired = match &reactor.tokens[t] {
                Some(_) => false,
                None => true,
            };
            if retired {
                let fresh: Vec<Waker> = Vec::new();
                reactor.tokens[t] = Some(fresh);
                proof {
                    lemma_nodup_preserved(s, reactor@, t as int);
                }
                return Handle { token: t };
            }
            t += 1;
        }
        let fresh: Vec<Waker> = Vec::new();
        reactor.tokens.push(Some(fresh));
        proof {
            lemma_nodup_preserved(s, reactor@, t as int);
        }
        Handle { token: t }
    }

    /// Associate a waker with this handle's token. Deduplicated by
    /// wake-equivalence: the waker is appended only if none of the present
    /// wakers would wake the same logical target. When the token's source
    /// becomes ready, every stored waker fires.
    pub fn add_waker(&self, reactor: &mut Reactor, waker: Waker)
        requires
            old(reactor).wf(),
            0 <= self.token_spec() < old(reactor)@.len(),
            old(reactor)@[self.token_spec()] is Some,
        ensures
            final(reactor).wf(),
            final(reactor)@.len() == old(reactor)@.len(),
            forall|t: int|
                0 <= t < old(reactor)@.len() && t != self.token_spec() ==> final(reactor)@[t]
                    == old(reactor)@[t],
            final(reactor)@[self.token_spec()] matches Some(new_ws) && (old(reactor)@[self.token_spec()] matches Some(old_ws) && new_ws@ == register_model(old_ws@, waker)),
    {
        let token: usize = self.token;
        let mut entry: Option<Vec<Waker>> = None;
        core::mem::swap(&mut entry, &mut reactor.tokens[token]);
        match entry {
            Some(mut wakers) => {
                let ghost old_ws = wakers@;
                let mut k: usize = 0;
                let mut found = false;
                while k < wakers.len()
                    invariant
                        k <= wakers.len(),
                        wakers@ == old_ws,
                        found <==> exists|j: int| 0 <= j < k && old_ws[j].id == waker.id,
                    decreases wakers.len() - k,
                {
                    if wakers[k].will_wake(&waker) {
                        found = true;
                    }
                    k += 1;
                }
                assert(found <==> has_id(old_ws, waker.id));
                if !found {
                    wakers.push(waker);
                }
                reactor.tokens[token] = Some(wakers);
                proof {
                    if !has_id(old_ws, waker.id) {
                        lemma_duplicate_registration_is_noop(old_ws, waker, waker);
                    }
                    assert(final(reactor)@[self.token_spec()] matches Some(new_ws) && new_ws@
                        == register_model(old_ws, waker));
                }
            },
            None => {
                proof {
                    assert(false);
                }
                unreached()
            },
        }
    }

    /// Register the I/O source behind the raw file descriptor under this
    /// handle's token, with readable interest and edge-triggered
    /// notification.
    pub fn register(&self, reactor: &Reactor, fd: i32) -> (r: Result<(), RuntimeError>)
        ensures
            r matches Err(e) ==> e is Os,
    {
        match mio_register_readable(&reactor.inner, fd, self.token) {
            Ok(_) => Ok(()),
            Err(e) => Err(RuntimeError::Os(e)),
        }
    }

    /// Retract this handle's registration: its token's entry is removed
    /// whole, and the token may be reused by a later handle. The OS-level
    /// source is not deregistered here; closing the resource is its owner's
    /// responsibility.
    pub fn release(self, reactor: &mut Reactor)
        requires
            old(reactor).wf(),
            0 <= self.token_spec() < old(reactor)@.len(),
        ensures
            final(reactor).wf(),
            final(reactor)@ =~= old(reactor)@.update(self.token_spec(), None),
    {
        reactor.tokens[self.token] = None;
    }
}

} // verus!
