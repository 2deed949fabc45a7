//! The one-slot write-behind coalescing buffer, owned exclusively by the
//! writer: pushing an event holds it back and evicts the previously held
//! one, so an event is serialized only when its successor arrives (or at
//! shutdown). Backed by a fixed-capacity lock-free queue.

use vstd::prelude::*;

use crate::event::SimpleEvent;
use crossbeam_queue::ArrayQueue;

verus! {

/// The single-slot coalescing buffer (a capacity-one queue).
#[verifier::external_body]
pub struct CoalescingBuffer {
    queue: ArrayQueue<SimpleEvent>,
}

/// What the buffer currently holds, oldest first (here never more than one
/// event).
pub uninterp spec fn buffer_seq(b: CoalescingBuffer) -> Seq<SimpleEvent>;

impl CoalescingBuffer {
    /// Relies on crossbeam_queue::ArrayQueue::new: a freshly created queue
    /// is empty (capacity one here).
    #[verifier::external_body]
    pub fn new() -> (b: CoalescingBuffer)
        ensures
            buffer_seq(b) == Seq::<SimpleEvent>::empty(),
    {
        CoalescingBuffer { queue: ArrayQueue::new(1) }
    }

    /// Relies on crossbeam_queue::ArrayQueue::force_push: inserts the
    /// element; when the queue is full, the oldest element is replaced and
    /// returned.
    #[verifier::external_body]
    pub fn force_push(&mut self, e: SimpleEvent) -> (evicted: Option<SimpleEvent>)
        requires
            buffer_seq(*old(self)).len() <= 1,
        ensures
            buffer_seq(*final (self)) == seq![e],
            match evicted {
                None => buffer_seq(*old(self)).len() == 0,
                Some(prev) => buffer_seq(*old(self)) == seq![prev],
            },
    {
        self.queue.force_push(e)
    }

    /// Relies on crossbeam_queue::ArrayQueue::pop: removes and returns the
    /// oldest element, or returns None when the queue is empty.
    #[verifier::external_body]
    pub fn pop(&mut self) -> (r: Option<SimpleEvent>)
        ensures
            match r {
                None => buffer_seq(*old(self)).len() == 0 && buffer_seq(*final (self))
                    == buffer_seq(*old(self)),
                Some(e) => buffer_seq(*old(self)).len() > 0 && e == buffer_seq(*old(self))[0]
                    && buffer_seq(*final (self)) == buffer_seq(*old(self)).drop_first(),
            },
    {
        self.queue.pop()
    }
}

} // verus!
