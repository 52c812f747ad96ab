//! The bounded work queue of pending messages.

use crate::error::ServiceError;
use crate::models::Message;
use crate::text::{decimal, decimal_digits};
use std::collections::VecDeque;
use vstd::prelude::*;

verus! {

/// What a [`MessageQueue`] is, mathematically: the pending messages, oldest
/// first, and the limit on their number.
pub struct QueueModel {
    pub items: Seq<Message>,
    pub max_size: nat,
}

impl QueueModel {
    /// The queue with no message and room for `max_size`.
    pub open spec fn empty(max_size: nat) -> QueueModel {
        QueueModel { items: Seq::empty(), max_size }
    }

    /// Whether another message is turned away.
    pub open spec fn is_full(self) -> bool {
        self.items.len() >= self.max_size
    }

    /// The queue after an attempt to add `m`: unchanged when it is full,
    /// otherwise with `m` at the tail.
    pub open spec fn enqueue(self, m: Message) -> QueueModel {
        if self.is_full() {
            self
        } else {
            QueueModel { items: self.items.push(m), max_size: self.max_size }
        }
    }

    /// The message that leaves next, if there is one.
    pub open spec fn head(self) -> Option<Message> {
        if self.items.len() > 0 {
            Some(self.items[0])
        } else {
            None
        }
    }

    /// The queue after its head has left.
    pub open spec fn dequeue(self) -> QueueModel {
        if self.items.len() > 0 {
            QueueModel { items: self.items.drop_first(), max_size: self.max_size }
        } else {
            self
        }
    }

    /// The queue after each of `ms` was offered in turn.
    pub open spec fn enqueue_all(self, ms: Seq<Message>) -> QueueModel
        decreases ms.len(),
    {
        if ms.len() == 0 {
            self
        } else {
            self.enqueue_all(ms.drop_last()).enqueue(ms.last())
        }
    }

    /// The messages that the first `n` removals hand out, in that order; a
    /// removal from an empty queue hands out nothing.
    pub open spec fn dequeued(self, n: nat) -> Seq<Message>
        decreases n,
    {
        if n == 0 {
            Seq::empty()
        } else {
            match self.head() {
                Some(m) => seq![m] + self.dequeue().dequeued((n - 1) as nat),
                None => Seq::empty(),
            }
        }
    }

    /// The text that a rejected message is answered with.
    pub open spec fn full_text(self) -> Seq<char> {
        "Message queue is at capacity: "@ + decimal_digits(self.items.len()) + "/"@
            + decimal_digits(self.max_size)
    }
}

/// A first-in, first-out queue that holds at most `max_size` messages.
#[derive(Debug)]
pub struct MessageQueue {
    queue: VecDeque<Message>,
    max_size: usize,
}

impl View for MessageQueue {
    type V = QueueModel;

    closed spec fn view(&self) -> QueueModel {
        QueueModel { items: self.queue@, max_size: self.max_size as nat }
    }
}

impl MessageQueue {
    /// An empty queue with room for `max_size` messages. Room is a limit, not
    /// a reservation: memory is taken as messages come.
    pub fn new(max_size: usize) -> (q: Self)
        ensures
            q@ == QueueModel::empty(max_size as nat),
    {
        MessageQueue { queue: VecDeque::new(), max_size }
    }

    /// Adds `message` at the tail, or fails with `QueueFull` when the queue
    /// already holds `max_size` messages or more.
    pub fn push(&mut self, message: Message) -> (r: Result<(), ServiceError>)
        ensures
            final(self)@ == old(self)@.enqueue(message),
            r is Ok <==> !old(self)@.is_full(),
            r matches Err(e) ==> e is QueueFull && e.detail() == old(self)@.full_text(),
            old(self)@.items.len() <= old(self)@.max_size
                ==> final(self)@.items.len() <= final(self)@.max_size,
    {
        broadcast use vstd::std_specs::vecdeque::group_vec_dequeue_axioms;

        if self.queue.len() >= self.max_size {
            let text: String = String::from_str("Message queue is at capacity: ").concat(
                decimal(self.queue.len() as u64).as_str(),
            ).concat("/").concat(decimal(self.max_size as u64).as_str());
            return Err(ServiceError::QueueFull(text));
        }
        self.queue.push_back(message);
        Ok(())
    }

    /// Removes and returns the message at the head, or `None` when the queue
    /// is empty.
    pub fn pop(&mut self) -> (m: Option<Message>)
        ensures
            m == old(self)@.head(),
            final(self)@ == old(self)@.dequeue(),
    {
        broadcast use vstd::std_specs::vecdeque::group_vec_dequeue_axioms;

        let m = self.queue.pop_front();
        assert(m is Some ==> final(self).queue@ =~= old(self).queue@.drop_first());
        m
    }

    /// The number of pending messages.
    pub fn len(&self) -> (n: usize)
        ensures
            n == self@.items.len(),
    {
        broadcast use vstd::std_specs::vecdeque::group_vec_dequeue_axioms;

        self.queue.len()
    }

    /// Whether no message is pending.
    pub fn is_empty(&self) -> (b: bool)
        ensures
            b == (self@.items.len() == 0),
    {
        broadcast use vstd::std_specs::vecdeque::group_vec_dequeue_axioms;

        self.queue.len() == 0
    }

    /// The limit on the number of pending messages.
    pub fn max_size(&self) -> (n: usize)
        ensures
            n == self@.max_size,
    {
        self.max_size
    }

    /// Changes the limit. Messages that are already pending stay, also where
    /// they are more than the new limit allows.
    pub fn set_max_size(&mut self, size: usize)
        ensures
            final(self)@ == (QueueModel { items: old(self)@.items, max_size: size as nat }),
    {
        self.max_size = size;
    }

    /// Discards every pending message.
    pub fn clear(&mut self)
        ensures
            final(self)@ == QueueModel::empty(old(self)@.max_size),
    {
        self.queue.clear();
    }
}

/// Those of `ms` that the queue `q` takes when they are offered in turn: as
/// many from the front as the queue has room for.
pub open spec fn accepted(q: QueueModel, ms: Seq<Message>) -> Seq<Message> {
    let room = q.max_size - q.items.len();
    if ms.len() <= room {
        ms
    } else if room >= 0 {
        ms.take(room)
    } else {
        Seq::empty()
    }
}

/// Offering messages to a queue appends those that it has room for, in the
/// order in which they were offered, and turns the others away.
pub proof fn lemma_enqueue_all(q: QueueModel, ms: Seq<Message>)
    ensures
        q.enqueue_all(ms).items == q.items + accepted(q, ms),
        q.enqueue_all(ms).max_size == q.max_size,
    decreases ms.len(),
{
    if ms.len() == 0 {
        assert(q.items + accepted(q, ms) =~= q.items);
    } else {
        let front = ms.drop_last();
        lemma_enqueue_all(q, front);
        let room = q.max_size - q.items.len();
        if ms.len() <= room {
            assert(q.items + ms =~= (q.items + front).push(ms.last()));
        } else if room >= 0 {
            assert(front.take(room) =~= ms.take(room));
            assert((q.items + ms.take(room)).len() >= q.max_size);
        } else {
            assert(q.items + Seq::<Message>::empty() =~= q.items);
        }
    }
}

/// The first `n` removals hand out the first `n` pending messages.
pub proof fn lemma_dequeued_prefix(q: QueueModel, n: nat)
    requires
        n <= q.items.len(),
    ensures
        q.dequeued(n) == q.items.subrange(0, n as int),
    decreases n,
{
    if n == 0 {
        assert(q.items.subrange(0, 0) =~= Seq::<Message>::empty());
    } else {
        lemma_dequeued_prefix(q.dequeue(), (n - 1) as nat);
        assert(q.items.subrange(0, n as int) =~= seq![q.items[0]] + q.items.drop_first().subrange(
            0,
            n - 1,
        ));
    }
}

/// Removals hand messages out in the order in which they were added. After
/// any messages `ms` were offered to a queue, the removals that follow hand
/// out what was pending before and then those of `ms` that the queue took,
/// each in the order in which it was added.
pub proof fn lemma_fifo(q: QueueModel, ms: Seq<Message>, n: nat)
    requires
        n <= q.enqueue_all(ms).items.len(),
    ensures
        q.enqueue_all(ms).dequeued(n) == (q.items + accepted(q, ms)).subrange(0, n as int),
{
    lemma_enqueue_all(q, ms);
    lemma_dequeued_prefix(q.enqueue_all(ms), n);
}

/// The number of pending messages never passes the limit by adding: whatever
/// is offered, a queue within its limit stays within it, and a full queue
/// takes nothing.
pub proof fn lemma_capacity(q: QueueModel, ms: Seq<Message>)
    requires
        q.items.len() <= q.max_size,
    ensures
        q.enqueue_all(ms).items.len() <= q.max_size,
        q.enqueue_all(ms).max_size == q.max_size,
        q.is_full() ==> q.enqueue_all(ms) == q,
    decreases ms.len(),
{
    if ms.len() > 0 {
        lemma_capacity(q, ms.drop_last());
    }
}

} // verus!
