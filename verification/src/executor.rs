//! The executor: the part of the runtime responsible for running tasks when
//! they need to be run. It owns the task registry and the wake-event queue,
//! and calls into the reactor when no task is immediately ready.

use vstd::prelude::*;
use vstd::pervasive::unreached;

pub mod task;
pub mod waker;

use crate::reactor::Reactor;
use crate::{Pollable, RuntimeError, Status};
use self::waker::{clone_sender, new_wake_queue, queue_try_take, Dequeued, Waker};
use std::sync::mpsc::{Receiver, SyncSender};

verus! {

/// The reserved sentinel id: the registry's first-allocated slot. It is never
/// handed out for a background task and never holds a payload; it names the
/// primary (run-to-completion) future in the wake-event queue.
pub const SENTINEL_ID: usize = 0;

/// Capacity of the wake-event queue. A full queue blocks the sender: a
/// deliberate backpressure point, not an error.
pub const WAKE_QUEUE_BOUND: usize = 64;

/// One slot of the task registry.
pub enum Slot<B> {
    /// Nothing is stored; the id is available for reuse.
    Free,
    /// The id has been handed out but no payload stored yet (the two-phase
    /// insert), or the slot is the permanently reserved sentinel.
    Reserved,
    /// A stored background task, paired with the waker it was handed.
    Occupied(B, Waker),
}

impl<B> Slot<B> {
    /// Whether this slot holds a task.
    pub fn holds_task(&self) -> (r: bool)
        ensures
            r == (*self is Occupied),
    {
        match self {
            Slot::Occupied(_, _) => true,
            _ => false,
        }
    }

    /// Whether this slot's id is available.
    pub fn is_free(&self) -> (r: bool)
        ensures
            r == (*self is Free),
    {
        match self {
            Slot::Free => true,
            _ => false,
        }
    }
}

/// An indexed, reusable-slot store of in-flight background tasks. The slot at
/// `SENTINEL_ID` is allocated once at construction and permanently reserved,
/// so the identifier space used for the primary future can never collide with
/// a background task's id.
pub struct Registry<B> {
    slots: Vec<Slot<B>>,
}

impl<B> View for Registry<B> {
    type V = Seq<Slot<B>>;

    closed spec fn view(&self) -> Seq<Slot<B>> {
        self.slots@
    }
}

impl<B> Registry<B> {
    /// Well-formed: the sentinel slot exists, is the first-allocated id, and
    /// stays reserved; every stored waker targets its own slot's id.
    pub open spec fn wf(self) -> bool {
        &&& self@.len() >= 1
        &&& self@[SENTINEL_ID as int] is Reserved
        &&& forall|i: int|
            0 <= i < self@.len() && (#[trigger] self@[i]) is Occupied ==> self@[i]->Occupied_1.id
                == i
    }

    /// The id `allocate_slot` hands out on a registry in this state: the
    /// lowest free index after the sentinel, or a fresh index at the end.
    pub open spec fn lowest_free_from(s: Seq<Slot<B>>, i: int) -> int
        decreases s.len() - i when 0 <= i <= s.len()
    {
        if i >= s.len() {
            s.len() as int
        } else if s[i] is Free {
            i
        } else {
            Self::lowest_free_from(s, i + 1)
        }
    }

    pub open spec fn next_id(s: Seq<Slot<B>>) -> int {
        Self::lowest_free_from(s, 1)
    }

    /// Scanning from the start reaches position `i` unchanged as long as no
    /// earlier slot past the sentinel is free.
    proof fn lemma_lowest_free_scan(s: Seq<Slot<B>>, i: int)
        requires
            1 <= i <= s.len(),
            forall|k: int| 1 <= k < i ==> !((#[trigger] s[k]) is Free),
        ensures
            Self::lowest_free_from(s, 1) == Self::lowest_free_from(s, i),
        decreases i,
    {
        if i > 1 {
            Self::lemma_lowest_free_scan(s, i - 1);
        }
    }

    /// The scan never lands before where it starts, nor past the end.
    proof fn lemma_lowest_free_bounds(s: Seq<Slot<B>>, i: int)
        requires
            0 <= i <= s.len(),
        ensures
            i <= Self::lowest_free_from(s, i) <= s.len(),
        decreases s.len() - i,
    {
        if i < s.len() && !(s[i] is Free) {
            Self::lemma_lowest_free_bounds(s, i + 1);
        }
    }

    /// Law: whatever allocations and removals came before, the id handed out
    /// for the next background task is never the reserved sentinel, and it
    /// stays within one slot of the table's end.
    pub proof fn lemma_sentinel_never_reused(s: Seq<Slot<B>>)
        requires
            s.len() >= 1,
        ensures
            SENTINEL_ID < Self::next_id(s) <= s.len(),
    {
        Self::lemma_lowest_free_bounds(s, 1);
    }

    /// A table that agrees with a well-formed one everywhere but at one
    /// position, which it does not fill with a task, keeps every stored
    /// waker targeting its own slot.
    proof fn lemma_waker_ids_preserved(s: Seq<Slot<B>>, s2: Seq<Slot<B>>, i: int)
        requires
            forall|k: int|
                0 <= k < s.len() && (#[trigger] s[k]) is Occupied ==> s[k]->Occupied_1.id == k,
            forall|k: int|
                0 <= k < s2.len() && k != i ==> 0 <= k < s.len() && (#[trigger] s2[k]) == s[k],
            0 <= i < s2.len() ==> !(s2[i] is Occupied),
        ensures
            forall|k: int|
                0 <= k < s2.len() && (#[trigger] s2[k]) is Occupied ==> s2[k]->Occupied_1.id == k,
    {
    }

    /// A fresh registry: one slot, the reserved sentinel, at id
    /// `SENTINEL_ID`. That the reserved id is the first-allocated id is
    /// established here once and for all.
    pub fn new() -> (r: Self)
        ensures
            r.wf(),
            r@.len() == 1,
            r@[SENTINEL_ID as int] is Reserved,
    {
        let mut slots: Vec<Slot<B>> = Vec::new();
        slots.push(Slot::Reserved);
        Registry { slots }
    }

    /// How many slots exist (free, reserved or occupied).
    pub fn len(&self) -> (n: usize)
        ensures
            n == self@.len(),
    {
        self.slots.len()
    }

    /// Whether the slot with this id currently holds a task.
    pub fn is_occupied(&self, id: usize) -> (r: bool)
        requires
            id < self@.len(),
        ensures
            r == (self@[id as int] is Occupied),
    {
        self.slots[id].holds_task()
    }

    /// Reserve the next free id and hand it back before the payload is known,
    /// so a waker referencing the id can be built first (two-phase insert).
    /// The sentinel id is never returned: the result is always positive.
    pub fn allocate_slot(&mut self) -> (id: usize)
        requires
            old(self).wf(),
        ensures
            final(self).wf(),
            id == Self::next_id(old(self)@),
            SENTINEL_ID < id <= old(self)@.len(),
            id < old(self)@.len() ==> old(self)@[id as int] is Free && final(self)@ =~= old(self)@.update(id as int, Slot::Reserved),
            id == old(self)@.len() ==> final(self)@ =~= old(self)@.push(Slot::Reserved),
    {
        let ghost s = self@;
        let mut i: usize = 1;
        while i < self.slots.len()
            invariant
                1 <= i <= s.len(),
                self@ == s,
                s == old(self)@,
                old(self).wf(),
                forall|k: int| 1 <= k < i ==> !((#[trigger] s[k]) is Free),
            decreases s.len() - i,
        {
            if self.slots[i].is_free() {
                proof {
                    Self::lemma_lowest_free_scan(s, i as int);
                }
                self.slots[i] = Slot::Reserved;
                proof {
                    Self::lemma_waker_ids_preserved(s, self@, i as int);
                }
                return i;
            }
            i += 1;
        }
        proof {
            Self::lemma_lowest_free_scan(s, s.len() as int);
        }
        self.slots.push(Slot::Reserved);
        proof {
            Self::lemma_waker_ids_preserved(s, self@, s.len() as int);
        }
        i
    }

    /// Store a task in a previously reserved slot, completing the two-phase
    /// insert. The stored waker must target this very slot.
    pub fn store(&mut self, id: usize, task: B, waker: Waker)
        requires
            old(self).wf(),
            SENTINEL_ID < id < old(self)@.len(),
            old(self)@[id as int] is Reserved,
            waker.id == id,
        ensures
            final(self).wf(),
            final(self)@ =~= old(self)@.update(id as int, Slot::Occupied(task, waker)),
    {
        self.slots[id] = Slot::Occupied(task, waker);
    }

    /// Take the task and its waker out of an occupied slot, leaving the slot
    /// reserved until the caller either stores the task back or frees the id.
    pub fn extract(&mut self, id: usize) -> (r: (B, Waker))
        requires
            old(self).wf(),
            SENTINEL_ID < id < old(self)@.len(),
            old(self)@[id as int] is Occupied,
        ensures
            final(self).wf(),
            final(self)@ =~= old(self)@.update(id as int, Slot::Reserved),
            old(self)@[id as int] == Slot::Occupied(r.0, r.1),
            r.1.id == id,
    {
        let mut slot = Slot::Reserved;
        core::mem::swap(&mut slot, &mut self.slots[id]);
        match slot {
            Slot::Occupied(task, waker) => (task, waker),
            _ => {
                proof {
                    assert(false);
                }
                unreached()
            },
        }
    }

    /// Free a non-sentinel slot for reuse, dropping its payload if any.
    pub fn free(&mut self, id: usize)
        requires
            old(self).wf(),
            SENTINEL_ID < id < old(self)@.len(),
        ensures
            final(self).wf(),
            final(self)@ =~= old(self)@.update(id as int, Slot::Free),
    {
        self.slots[id] = Slot::Free;
    }
}

/// A chain of `n` polls, each reporting Pending, leading from one task state
/// to another.
pub open spec fn polled_chain<B: Pollable<()>>(a: B, b: B, n: nat) -> bool
    decreases n,
{
    if n == 0 {
        a == b
    } else {
        exists|m: B| polled_chain(a, m, (n - 1) as nat) && B::polled(m, b, Status::Pending)
    }
}

/// `b` is reachable from `a` by some chain of Pending-reporting polls.
pub open spec fn descended<B: Pollable<()>>(a: B, b: B) -> bool {
    exists|n: nat| polled_chain(a, b, n)
}

/// Some chain of Pending-reporting polls from `a` ends in a state whose next
/// poll reported Ready: the task ran to completion.
pub open spec fn ran_to_completion<B: Pollable<()>>(a: B) -> bool {
    exists|m: B, post: B|
        descended(a, m) && #[trigger] B::polled(m, post, Status::Ready(()))
}

/// Every task state descends from itself, by the empty chain.
pub proof fn lemma_descended_refl<B: Pollable<()>>(a: B)
    ensures
        descended(a, a),
{
    assert(polled_chain(a, a, 0));
}

/// A descendant's Pending-reporting poll yields another descendant.
pub proof fn lemma_descended_step<B: Pollable<()>>(a: B, b: B, c: B)
    requires
        descended(a, b),
        B::polled(b, c, Status::Pending),
    ensures
        descended(a, c),
{
    let n = choose|n: nat| polled_chain(a, b, n);
    assert(polled_chain(a, b, ((n + 1) - 1) as nat));
    assert(polled_chain(a, c, n + 1));
}

/// A descendant's Ready-reporting poll completes the original task.
pub proof fn lemma_descended_completes<B: Pollable<()>>(a: B, b: B, post: B)
    requires
        descended(a, b),
        B::polled(b, post, Status::Ready(())),
    ensures
        ran_to_completion(a),
{
}

/// The executor: the entrypoint to the runtime. It owns the task registry and
/// the wake-event queue; wakers carry clones of the queue's send side, and the
/// receive side is the executor's alone.
pub struct Executor<B> {
    to_do: Receiver<usize>,
    send_handle: SyncSender<usize>,
    tasks: Registry<B>,
}

impl<B> View for Executor<B> {
    type V = Seq<Slot<B>>;

    closed spec fn view(&self) -> Seq<Slot<B>> {
        self.tasks@
    }
}

impl<B: Pollable<()>> Executor<B> {
    /// The send side of this executor's wake-event queue, as a
    /// specification-level value: the queue that every waker this executor
    /// issues sends into.
    pub closed spec fn queue(self) -> SyncSender<usize> {
        self.send_handle
    }

    /// Well-formed: the registry's sentinel invariant holds.
    pub open spec fn wf(self) -> bool {
        &&& self@.len() >= 1
        &&& self@[SENTINEL_ID as int] is Reserved
        &&& forall|i: int|
            0 <= i < self@.len() && (#[trigger] self@[i]) is Occupied ==> self@[i]->Occupied_1.id
                == i
    }

    /// Create a new executor with an empty registry (sentinel only) and a
    /// fresh wake-event queue.
    pub fn new() -> (r: Self)
        ensures
            r.wf(),
            r@.len() == 1,
    {
        let (send_handle, to_do) = new_wake_queue(WAKE_QUEUE_BOUND);
        let tasks = Registry::new();
        // the reserved id must be the registry's first-allocated id
        assert(tasks@[SENTINEL_ID as int] is Reserved);
        Executor { to_do, send_handle, tasks }
    }

    /// Spawn a background task: allocate a slot, build the waker that names
    /// it, and store both. The task is not polled here; it becomes eligible
    /// only when `complete` runs. The sentinel slot is never the one used.
    pub fn spawn(&mut self, task: B)
        requires
            old(self).wf(),
        ensures
            final(self).wf(),
            final(self).queue() == old(self).queue(),
            ({
                let id = Registry::<B>::next_id(old(self)@);
                &&& SENTINEL_ID < id <= old(self)@.len()
                &&& final(self)@.len() == if id < old(self)@.len() {
                    old(self)@.len()
                } else {
                    old(self)@.len() + 1
                }
                &&& id < old(self)@.len() ==> old(self)@[id] is Free
                &&& forall|j: int|
                    0 <= j < old(self)@.len() && j != id ==> final(self)@[j] == old(self)@[j]
                &&& final(self)@[id] matches Slot::Occupied(t, w) && t == task && w.id == id
                    && w.sender == old(self).queue()
            }),
    {
        let id: usize = self.tasks.allocate_slot();
        let waker = Waker::new(clone_sender(&self.send_handle), id);
        self.tasks.store(id, task, waker);
    }

    /// Poll one stored background task: take it out, poll it with the waker
    /// it was paired with, and either free its slot (completed) or put it
    /// back in place (still pending, its waker may fire again later). The
    /// slot is freed exactly when the task's poll reported Ready.
    fn poll_background(&mut self, id: usize)
        requires
            old(self).wf(),
            SENTINEL_ID < id < old(self)@.len(),
            old(self)@[id as int] is Occupied,
        ensures
            final(self).wf(),
            final(self).queue() == old(self).queue(),
            final(self)@.len() == old(self)@.len(),
            forall|j: int|
                0 <= j < old(self)@.len() && j != id ==> final(self)@[j] == old(self)@[j],
            ({
                let pre = old(self)@[id as int]->Occupied_0;
                let w = old(self)@[id as int]->Occupied_1;
                ||| (final(self)@[id as int] is Free && exists|post: B|
                    B::polled(pre, post, Status::Ready(())))
                ||| (final(self)@[id as int] matches Slot::Occupied(post, w2) && w2 == w
                    && B::polled(pre, post, Status::Pending))
            }),
    {
        let (mut task, waker) = self.tasks.extract(id);
        let ghost pre = task;
        let step = task.poll(&waker);
        match step {
            Status::Ready(u) => {
                self.tasks.free(id);
                proof {
                    assert(u == ());
                    assert(B::polled(pre, task, Status::Ready(())));
                    assert(pre == old(self)@[id as int]->Occupied_0);
                    assert(exists|post: B| B::polled(pre, post, Status::Ready(())));
                }
            },
            Status::Pending => self.tasks.store(id, task, waker),
        }
    }

    /// Run the primary future, servicing background tasks meanwhile, for at
    /// most `budget` wake-queue turns. First a bootstrap sweep polls the
    /// primary future and then every stored task once, in slot order, so
    /// trivially ready work finishes without an external wake signal; then
    /// wake events are taken from the queue in first-in-first-out order and
    /// the named task is re-polled, blocking in the reactor whenever the
    /// queue is empty.
    ///
    /// `Ok(Status::Ready(v))` is the primary future's value; `Ok(Pending)`
    /// means the budget was spent first (the bound on turns is a termination
    /// artifact: callers that want to run to completion simply call again,
    /// and a generous budget is never exhausted in practice). Any reactor
    /// wait error propagates immediately, abandoning in-flight tasks. A wake
    /// event for an id whose slot was already freed is a safe no-op. A
    /// background slot is freed only by its own task completing, and one
    /// still occupied afterwards keeps the waker it was stored with.
    pub fn complete<T, F: Pollable<T>>(
        &mut self,
        future: &mut F,
        reactor: &Reactor,
        budget: u64,
    ) -> (r: Result<Status<T>, RuntimeError>)
        requires
            old(self).wf(),
        ensures
            final(self).wf(),
            final(self).queue() == old(self).queue(),
            final(self)@.len() == old(self)@.len(),
            forall|i: int|
                0 <= i < old(self)@.len() && (#[trigger] final(self)@[i]) is Occupied ==> old(self)@[i] is Occupied
                    && final(self)@[i]->Occupied_1 == old(self)@[i]->Occupied_1 && descended(
                    old(self)@[i]->Occupied_0,
                    final(self)@[i]->Occupied_0,
                ),
            forall|i: int|
                0 <= i < old(self)@.len() && (#[trigger] old(self)@[i]) is Occupied && !(final(self)@[i] is Occupied) ==> ran_to_completion(old(self)@[i]->Occupied_0),
            r matches Ok(s) ==> (s matches Status::Ready(v) ==> exists|pre: F|
                F::polled(pre, *final(future), Status::Ready(v))),
            (forall|post: F, s: Status<T>| F::polled(*old(future), post, s) ==> s is Ready)
                ==> (r matches Ok(st) && st is Ready && final(self)@ == old(self)@),
            r matches Err(e) ==> e is Os,
    {
        // the primary future uses the reserved sentinel id
        let waker = Waker::new(clone_sender(&self.send_handle), SENTINEL_ID);
        proof {
            assert forall|j: int|
                0 <= j < self@.len() && (#[trigger] self@[j]) is Occupied implies descended(
                self@[j]->Occupied_0,
                self@[j]->Occupied_0,
            ) by {
                lemma_descended_refl(self@[j]->Occupied_0);
            }
        }

        // bootstrap sweep: the sentinel is the first id in slot order, so the
        // primary future is polled first and, if it is already done, no
        // background task needs cleanup yet
        let ghost pre_sweep = *future;
        match future.poll(&waker) {
            Status::Ready(value) => {
                proof {
                    assert(F::polled(pre_sweep, *future, Status::Ready(value)));
                }
                return Ok(Status::Ready(value));
            },
            Status::Pending => {
                // the first poll itself refutes the hypothesis that every
                // poll from the starting state reports Ready
                proof {
                    if forall|post: F, s: Status<T>| F::polled(*old(future), post, s) ==> s
                        is Ready {
                        assert(F::polled(*old(future), *future, Status::<T>::Pending));
                        assert(false);
                    }
                }
            },
        }
        let mut i: usize = 1;
        while i < self.tasks.len()
            invariant
                !(forall|post: F, s: Status<T>| F::polled(*old(future), post, s) ==> s is Ready),
                1 <= i,
                self.queue() == old(self).queue(),
                self.wf(),
                self@.len() == old(self)@.len(),
                forall|j: int|
                    0 <= j < old(self)@.len() && (#[trigger] self@[j]) is Occupied ==> old(self)@[j] is Occupied
                        && self@[j]->Occupied_1 == old(self)@[j]->Occupied_1 && descended(
                        old(self)@[j]->Occupied_0,
                        self@[j]->Occupied_0,
                    ),
                forall|j: int|
                    0 <= j < old(self)@.len() && (#[trigger] old(self)@[j]) is Occupied && !(self@[j] is Occupied) ==> ran_to_completion(old(self)@[j]->Occupied_0),
            decreases self@.len() - i,
        {
            if self.tasks.is_occupied(i) {
                let ghost prev = self@;
                self.poll_background(i);
                proof {
                    let orig = old(self)@[i as int]->Occupied_0;
                    let pre = prev[i as int]->Occupied_0;
                    if self@[i as int] is Occupied {
                        lemma_descended_step(orig, pre, self@[i as int]->Occupied_0);
                    } else {
                        let post = choose|post: B| B::polled(pre, post, Status::Ready(()));
                        lemma_descended_completes(orig, pre, post);
                    }
                }
            }
            i += 1;
        }

        // main loop: service wake events until the primary future completes,
        // an OS wait fails, or the turn budget runs out
        let mut turns: u64 = 0;
        while turns < budget
            invariant
                !(forall|post: F, s: Status<T>| F::polled(*old(future), post, s) ==> s is Ready),
                self.queue() == old(self).queue(),
                self.wf(),
                self@.len() == old(self)@.len(),
                forall|j: int|
                    0 <= j < old(self)@.len() && (#[trigger] self@[j]) is Occupied ==> old(self)@[j] is Occupied
                        && self@[j]->Occupied_1 == old(self)@[j]->Occupied_1 && descended(
                        old(self)@[j]->Occupied_0,
                        self@[j]->Occupied_0,
                    ),
                forall|j: int|
                    0 <= j < old(self)@.len() && (#[trigger] old(self)@[j]) is Occupied && !(self@[j] is Occupied) ==> ran_to_completion(old(self)@[j]->Occupied_0),
            decreases budget - turns,
        {
            turns += 1;
            match queue_try_take(&self.to_do, &self.send_handle) {
                Dequeued::Id(id) => {
                    if id == SENTINEL_ID {
                        let ghost pre_poll = *future;
                        match future.poll(&waker) {
                            Status::Ready(value) => {
                                proof {
                                    assert(F::polled(pre_poll, *future, Status::Ready(value)));
                                }
                                return Ok(Status::Ready(value));
                            },
                            Status::Pending => {},
                        }
                    } else if id < self.tasks.len() {
                        // a wake for an already-freed slot is a safe no-op
                        if self.tasks.is_occupied(id) {
                            let ghost prev = self@;
                            self.poll_background(id);
                            proof {
                                let orig = old(self)@[id as int]->Occupied_0;
                                let pre = prev[id as int]->Occupied_0;
                                if self@[id as int] is Occupied {
                                    lemma_descended_step(orig, pre, self@[id as int]->Occupied_0);
                                } else {
                                    let post = choose|post: B|
                                        B::polled(pre, post, Status::Ready(()));
                                    lemma_descended_completes(orig, pre, post);
                                }
                            }
                        }
                    }
                },
                Dequeued::Empty => {
                    let (waited, _fired) = reactor.spin();
                    match waited {
                        Ok(_) => {},
                        Err(e) => {
                            return Err(e);
                        },
                    }
                },
            }
        }
        Ok(Status::Pending)
    }
}

} // verus!
