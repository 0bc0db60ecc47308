//! Bounded FIFO of event records with push, pop and drop counters.
//!
//! The storage is crossbeam's lock-free `ArrayQueue`. This type takes it by
//! exclusive reference, so every operation's effect on the contents is
//! exact; hosts that share one queue between threads put it behind their
//! own guard.

use vstd::prelude::*;
use crossbeam::queue::ArrayQueue;
use crate::event::Event;

verus! {

#[verifier::external_type_specification]
#[verifier::external_body]
#[verifier::reject_recursive_types(T)]
pub struct ExArrayQueue<T>(ArrayQueue<T>);

/// The events an `ArrayQueue` holds, oldest first.
pub uninterp spec fn queued_events(q: ArrayQueue<Event>) -> Seq<Event>;

/// The capacity an `ArrayQueue` was created with.
pub uninterp spec fn queue_bound(q: ArrayQueue<Event>) -> nat;

/// Relies on `ArrayQueue::new`: an empty queue of the given capacity. It
/// panics on a zero capacity, and where the slot buffer's size in bytes
/// would not fit in `isize`; a slot holding an event takes far less than
/// 4096 bytes.
#[verifier::external_body]
fn array_queue_new(cap: usize) -> (r: ArrayQueue<Event>)
    requires
        0 < cap <= isize::MAX / 4096,
    ensures
        queued_events(r) == Seq::<Event>::empty(),
        queue_bound(r) == cap,
{
    ArrayQueue::new(cap)
}

/// Relies on `ArrayQueue::push_mut`: appends at the back unless the queue
/// holds `capacity` items, in which case it hands the value back.
#[verifier::external_body]
fn array_queue_push(q: &mut ArrayQueue<Event>, e: Event) -> (r: Result<(), Event>)
    ensures
        queue_bound(*final(q)) == queue_bound(*old(q)),
        queued_events(*old(q)).len() < queue_bound(*old(q)) ==> r is Ok
            && queued_events(*final(q)) == queued_events(*old(q)).push(e),
        queued_events(*old(q)).len() >= queue_bound(*old(q)) ==> r is Err && r->Err_0 == e
            && queued_events(*final(q)) == queued_events(*old(q)),
{
    q.push_mut(e)
}

/// Relies on `ArrayQueue::pop_mut`: takes the oldest item, or `None` when
/// the queue is empty.
#[verifier::external_body]
fn array_queue_pop(q: &mut ArrayQueue<Event>) -> (r: Option<Event>)
    ensures
        queue_bound(*final(q)) == queue_bound(*old(q)),
        queued_events(*old(q)).len() == 0 ==> r is None && queued_events(*final(q))
            == queued_events(*old(q)),
        queued_events(*old(q)).len() > 0 ==> r == Some(queued_events(*old(q))[0])
            && queued_events(*final(q)) == queued_events(*old(q)).drop_first(),
{
    q.pop_mut()
}

/// Relies on `ArrayQueue::len`: the number of items held.
#[verifier::external_body]
fn array_queue_len(q: &ArrayQueue<Event>) -> (r: usize)
    ensures
        r == queued_events(*q).len(),
{
    q.len()
}

/// Relies on `ArrayQueue::capacity`: the capacity given at creation.
#[verifier::external_body]
fn array_queue_capacity(q: &ArrayQueue<Event>) -> (r: usize)
    ensures
        r == queue_bound(*q),
{
    q.capacity()
}

/// The history of a queue: every event that entered it, every event it
/// handed out, how many were turned away, and its capacity.
pub struct QueueView {
    pub pushed: Seq<Event>,
    pub popped: Seq<Event>,
    pub drops: nat,
    pub capacity: nat,
}

impl QueueView {
    /// Every push attempt, accepted or dropped.
    pub open spec fn attempts(self) -> nat {
        self.pushed.len() + self.drops
    }

    /// The events still waiting, oldest first.
    pub open spec fn items(self) -> Seq<Event> {
        self.pushed.skip(self.popped.len() as int)
    }
}

/// Snapshot of a queue's counters.
#[derive(Debug, Clone, Copy, PartialEq, Eq, Structural)]
pub struct QueueStats {
    /// Events accepted.
    pub push_count: u64,
    /// Events handed out.
    pub pop_count: u64,
    /// Events turned away because the queue was full.
    pub drop_count: u64,
    /// Events waiting.
    pub current_size: usize,
    /// Capacity.
    pub capacity: usize,
}

/// Bounded FIFO of events that never blocks a producer: when full, the
/// event is handed back and counted as a drop.
pub struct EventQueue {
    queue: ArrayQueue<Event>,
    push_count: u64,
    pop_count: u64,
    drop_count: u64,
    pushed: Ghost<Seq<Event>>,
    popped: Ghost<Seq<Event>>,
}

impl View for EventQueue {
    type V = QueueView;

    closed spec fn view(&self) -> QueueView {
        QueueView {
            pushed: self.pushed@,
            popped: self.popped@,
            drops: self.drop_count as nat,
            capacity: queue_bound(self.queue),
        }
    }
}

impl EventQueue {
    /// The queue's internal invariant: what it holds is exactly what was
    /// pushed and not yet popped, in order, within capacity.
    pub closed spec fn wf(&self) -> bool {
        &&& self.pushed@.len() == self.push_count
        &&& self.popped@.len() == self.pop_count
        &&& self.popped@.len() <= self.pushed@.len()
        &&& self.pushed@ == self.popped@ + queued_events(self.queue)
        &&& queued_events(self.queue).len() <= queue_bound(self.queue)
        &&& 0 < queue_bound(self.queue)
    }

    /// An empty queue holding at most `capacity` events.
    pub fn new(capacity: usize) -> (r: Self)
        requires
            0 < capacity <= isize::MAX / 4096,
        ensures
            r.wf(),
            r@.pushed.len() == 0,
            r@.popped.len() == 0,
            r@.drops == 0,
            r@.capacity == capacity,
    {
        let r = EventQueue {
            queue: array_queue_new(capacity),
            push_count: 0,
            pop_count: 0,
            drop_count: 0,
            pushed: Ghost(Seq::empty()),
            popped: Ghost(Seq::empty()),
        };
        assert(r.pushed@ =~= r.popped@ + queued_events(r.queue));
        r
    }

    proof fn lemma_items(&self)
        requires
            self.wf(),
        ensures
            self@.items() == queued_events(self.queue),
    {
        assert(self.pushed@.skip(self.popped@.len() as int) =~= queued_events(self.queue));
    }

    /// Pushes `event` unless the queue is full; a full queue hands the
    /// event back and counts a drop. Never blocks.
    pub fn push(&mut self, event: Event) -> (r: Result<(), Event>)
        requires
            old(self).wf(),
            old(self)@.attempts() < u64::MAX,
        ensures
            final(self).wf(),
            final(self)@.capacity == old(self)@.capacity,
            final(self)@.popped == old(self)@.popped,
            old(self)@.items().len() < old(self)@.capacity ==> r is Ok && final(self)@.pushed
                == old(self)@.pushed.push(event) && final(self)@.drops == old(self)@.drops,
            old(self)@.items().len() >= old(self)@.capacity ==> r is Err && r->Err_0 == event
                && final(self)@.pushed == old(self)@.pushed && final(self)@.drops
                == old(self)@.drops + 1,
    {
        proof {
            self.lemma_items();
        }
        let ghost e = event;
        match array_queue_push(&mut self.queue, event) {
            Ok(()) => {
                self.push_count = self.push_count + 1;
                proof {
                    self.pushed@ = self.pushed@.push(e);
                    assert(self.pushed@ =~= self.popped@ + queued_events(self.queue));
                }
                Ok(())
            },
            Err(back) => {
                self.drop_count = self.drop_count + 1;
                Err(back)
            },
        }
    }

    /// Takes the oldest waiting event, if any.
    pub fn try_pop(&mut self) -> (r: Option<Event>)
        requires
            old(self).wf(),
        ensures
            final(self).wf(),
            final(self)@.capacity == old(self)@.capacity,
            final(self)@.pushed == old(self)@.pushed,
            final(self)@.drops == old(self)@.drops,
            old(self)@.items().len() == 0 ==> r is None && final(self)@.popped
                == old(self)@.popped,
            old(self)@.items().len() > 0 ==> r == Some(old(self)@.items()[0])
                && final(self)@.popped == old(self)@.popped.push(old(self)@.items()[0]),
    {
        proof {
            self.lemma_items();
        }
        let ghost before = queued_events(self.queue);
        let r = array_queue_pop(&mut self.queue);
        match r {
            Some(e) => {
                self.pop_count = self.pop_count + 1;
                proof {
                    self.popped@ = self.popped@.push(e);
                    assert(self.pushed@ =~= self.popped@ + queued_events(self.queue));
                }
                Some(e)
            },
            None => None,
        }
    }

    /// Counters and size at this moment.
    pub fn stats(&self) -> (r: QueueStats)
        requires
            self.wf(),
        ensures
            r.push_count == self@.pushed.len(),
            r.pop_count == self@.popped.len(),
            r.drop_count == self@.drops,
            r.current_size == self@.items().len(),
            r.capacity == self@.capacity,
    {
        proof {
            self.lemma_items();
        }
        QueueStats {
            push_count: self.push_count,
            pop_count: self.pop_count,
            drop_count: self.drop_count,
            current_size: array_queue_len(&self.queue),
            capacity: array_queue_capacity(&self.queue),
        }
    }

    pub fn is_empty(&self) -> (r: bool)
        requires
            self.wf(),
        ensures
            r <==> self@.items().len() == 0,
    {
        proof {
            self.lemma_items();
        }
        array_queue_len(&self.queue) == 0
    }

    pub fn is_full(&self) -> (r: bool)
        requires
            self.wf(),
        ensures
            r <==> self@.items().len() == self@.capacity,
    {
        proof {
            self.lemma_items();
        }
        array_queue_len(&self.queue) == array_queue_capacity(&self.queue)
    }

    pub fn len(&self) -> (r: usize)
        requires
            self.wf(),
        ensures
            r == self@.items().len(),
    {
        proof {
            self.lemma_items();
        }
        array_queue_len(&self.queue)
    }

    pub fn capacity(&self) -> (r: usize)
        requires
            self.wf(),
        ensures
            r == self@.capacity,
    {
        array_queue_capacity(&self.queue)
    }
}

/// For every sequence of pushes and pops: each push attempt was either
/// popped, dropped, or is still waiting; the popped events are exactly the
/// first ones pushed, in push order; and the queue never exceeds its
/// capacity.
pub proof fn lemma_queue_accounting(q: &EventQueue)
    requires
        q.wf(),
    ensures
        q@.attempts() == q@.popped.len() + q@.drops + q@.items().len(),
        q@.popped == q@.pushed.take(q@.popped.len() as int),
        q@.items().len() <= q@.capacity,
        forall|i: int| 0 <= i < q@.popped.len() ==> q@.pushed.contains(#[trigger] q@.popped[i]),
{
    q.lemma_items();
    assert(q@.popped =~= q@.pushed.take(q@.popped.len() as int));
    assert forall|i: int| 0 <= i < q@.popped.len() implies q@.pushed.contains(
        #[trigger] q@.popped[i],
    ) by {
        assert(q@.pushed[i] == q@.popped[i]);
    }
}

} // verus!
