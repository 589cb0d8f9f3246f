//! The handoff queue between the transports and the persistence worker: a
//! bounded first-in, first-out queue that its consumer can close.

use std::collections::VecDeque;
use vstd::prelude::*;

verus! {

/// The mathematical value of a handoff queue.
pub struct QueueModel<T> {
    /// The items that wait to be taken, oldest first.
    pub pending: Seq<T>,
    /// The most items that may wait at one time.
    pub capacity: nat,
    /// Whether the consumer has gone away.
    pub closed: bool,
}

impl<T> QueueModel<T> {
    /// The empty, open queue of a capacity.
    pub open spec fn empty(capacity: nat) -> Self {
        QueueModel { pending: Seq::empty(), capacity, closed: false }
    }

    /// No more items wait than the capacity allows. The empty queue is
    /// bounded, and every operation keeps a bounded queue bounded.
    pub open spec fn bounded(self) -> bool {
        self.pending.len() <= self.capacity
    }

    /// Whether one more item is taken in.
    pub open spec fn accepts(self) -> bool {
        !self.closed && self.pending.len() < self.capacity
    }

    /// The queue after an item was offered: it joins at the end if the queue
    /// accepts it, and the queue is unchanged if not.
    pub open spec fn enqueue(self, item: T) -> Self {
        if self.accepts() {
            QueueModel { pending: self.pending.push(item), ..self }
        } else {
            self
        }
    }

    /// The queue after its oldest item, if it has one, was taken.
    pub open spec fn dequeue(self) -> Self {
        if self.pending.len() > 0 {
            QueueModel { pending: self.pending.drop_first(), ..self }
        } else {
            self
        }
    }

    /// The queue after its consumer went away.
    pub open spec fn close(self) -> Self {
        QueueModel { closed: true, ..self }
    }
}

/// Why an item was not taken in. The item is handed back.
#[derive(Debug)]
pub enum Rejected<T> {
    /// The consumer has gone away.
    Closed(T),
    /// As many items wait as the queue may hold.
    Full(T),
}

/// A bounded first-in, first-out queue.
pub struct HandoffQueue<T> {
    items: VecDeque<T>,
    capacity: usize,
    closed: bool,
}

impl<T> View for HandoffQueue<T> {
    type V = QueueModel<T>;

    closed spec fn view(&self) -> QueueModel<T> {
        QueueModel { pending: self.items@, capacity: self.capacity as nat, closed: self.closed }
    }
}

impl<T> HandoffQueue<T> {
    /// An empty, open queue.
    pub fn new(capacity: usize) -> (q: Self)
        ensures
            q@ == QueueModel::<T>::empty(capacity as nat),
            q@.bounded(),
    {
        HandoffQueue { items: VecDeque::new(), capacity, closed: false }
    }

    /// Offers an item. It joins the end of the queue unless the queue is
    /// closed or full; then it comes back with the reason, closed before
    /// full, and the queue stays as it was.
    pub fn enqueue(&mut self, item: T) -> (r: Result<(), Rejected<T>>)
        ensures
            final(self)@ == old(self)@.enqueue(item),
            old(self)@.bounded() ==> final(self)@.bounded(),
            match r {
                Ok(_) => old(self)@.accepts(),
                Err(Rejected::Closed(back)) => old(self)@.closed && back == item,
                Err(Rejected::Full(back)) => !old(self)@.closed && !old(self)@.accepts() && back
                    == item,
            },
    {
        if self.closed {
            Err(Rejected::Closed(item))
        } else if self.items.len() >= self.capacity {
            Err(Rejected::Full(item))
        } else {
            self.items.push_back(item);
            Ok(())
        }
    }

    /// Takes the oldest item, if there is one.
    pub fn dequeue(&mut self) -> (r: Option<T>)
        ensures
            final(self)@ == old(self)@.dequeue(),
            old(self)@.bounded() ==> final(self)@.bounded(),
            r == if old(self)@.pending.len() > 0 {
                Some(old(self)@.pending[0])
            } else {
                None
            },
    {
        self.items.pop_front()
    }

    /// Marks the queue as closed: from now on nothing is taken in. What
    /// waits can still be taken.
    pub fn close(&mut self)
        ensures
            final(self)@ == old(self)@.close(),
            old(self)@.bounded() ==> final(self)@.bounded(),
    {
        self.closed = true;
    }

    /// Whether the queue was closed.
    pub fn is_closed(&self) -> (r: bool)
        ensures
            r == self@.closed,
    {
        self.closed
    }

    /// The number of items that wait.
    pub fn len(&self) -> (n: usize)
        ensures
            n == self@.pending.len(),
    {
        self.items.len()
    }

    /// Whether no item waits.
    pub fn is_empty(&self) -> (r: bool)
        ensures
            r == (self@.pending.len() == 0),
    {
        self.items.len() == 0
    }

    /// The most items that may wait at one time.
    pub fn capacity(&self) -> (n: usize)
        ensures
            n == self@.capacity,
    {
        self.capacity
    }
}

/// One operation on a queue, as one of the threads that share it performs it.
pub enum QueueOp<T> {
    /// A producer offers an item.
    Enqueue(T),
    /// The consumer takes the oldest item.
    Dequeue,
    /// The consumer goes away.
    Close,
}

/// A queue together with what went into it and what came out of it.
pub struct History<T> {
    pub queue: QueueModel<T>,
    /// The items that were taken in, in the order in which they were.
    pub accepted: Seq<T>,
    /// The items that were taken out, in the order in which they were.
    pub taken: Seq<T>,
}

/// The history after one more operation.
pub open spec fn apply<T>(h: History<T>, op: QueueOp<T>) -> History<T> {
    match op {
        QueueOp::Enqueue(item) => History {
            queue: h.queue.enqueue(item),
            accepted: if h.queue.accepts() {
                h.accepted.push(item)
            } else {
                h.accepted
            },
            taken: h.taken,
        },
        QueueOp::Dequeue => History {
            queue: h.queue.dequeue(),
            accepted: h.accepted,
            taken: if h.queue.pending.len() > 0 {
                h.taken.push(h.queue.pending[0])
            } else {
                h.taken
            },
        },
        QueueOp::Close => History { queue: h.queue.close(), accepted: h.accepted, taken: h.taken },
    }
}

/// The history of an empty queue after a sequence of operations, in the
/// order in which the queue performed them.
pub open spec fn replay<T>(capacity: nat, ops: Seq<QueueOp<T>>) -> History<T>
    decreases ops.len(),
{
    if ops.len() == 0 {
        History { queue: QueueModel::empty(capacity), accepted: Seq::empty(), taken: Seq::empty() }
    } else {
        apply(replay(capacity, ops.drop_last()), ops.last())
    }
}

/// However the operations of producers and consumer interleave, what was
/// taken out followed by what still waits is what was taken in, item for
/// item and in the same order: nothing is lost, nothing comes out twice,
/// and no item overtakes another.
pub proof fn lemma_handoff_in_order<T>(capacity: nat, ops: Seq<QueueOp<T>>)
    ensures
        replay(capacity, ops).taken + replay(capacity, ops).queue.pending == replay(
            capacity,
            ops,
        ).accepted,
        replay(capacity, ops).queue.bounded(),
    decreases ops.len(),
{
    if ops.len() > 0 {
        lemma_handoff_in_order(capacity, ops.drop_last());
        let before = replay(capacity, ops.drop_last());
        let after = replay(capacity, ops);
        assert(after.taken + after.queue.pending =~= after.accepted);
    } else {
        let h = replay(capacity, ops);
        assert(h.taken + h.queue.pending =~= h.accepted);
    }
}

/// Once everything that waits was taken, the items of each producer, picked
/// out by `of_producer`, came out in the order in which that producer's
/// items went in, and as many came out in all as went in.
pub proof fn lemma_handoff_per_producer<T>(
    capacity: nat,
    ops: Seq<QueueOp<T>>,
    of_producer: spec_fn(T) -> bool,
)
    requires
        replay(capacity, ops).queue.pending.len() == 0,
    ensures
        replay(capacity, ops).taken.filter(of_producer) == replay(capacity, ops).accepted.filter(
            of_producer,
        ),
        replay(capacity, ops).taken.len() == replay(capacity, ops).accepted.len(),
{
    lemma_handoff_in_order(capacity, ops);
    let h = replay(capacity, ops);
    assert(h.taken + h.queue.pending =~= h.taken);
}

} // verus!
