//! The ingestion queue: pending creations, first in, first out.

use vstd::prelude::*;
use crate::model::{QueueEvent, QueueEventView};

verus! {

/// `deadqueue::unlimited::Queue`, opaque here: what it holds is known
/// through `queue_items` only.
#[verifier::external_type_specification]
#[verifier::external_body]
#[verifier::reject_recursive_types(T)]
pub struct ExUnlimitedQueue<T>(deadqueue::unlimited::Queue<T>);

/// The events that an unlimited queue holds, oldest first.
pub uninterp spec fn queue_items(q: deadqueue::unlimited::Queue<QueueEvent>) -> Seq<QueueEventView>;

/// `deadqueue::unlimited::Queue::new`: the new queue holds nothing.
#[verifier::external_body]
fn queue_new() -> (q: deadqueue::unlimited::Queue<QueueEvent>)
    ensures
        queue_items(q) == Seq::<QueueEventView>::empty(),
{
    deadqueue::unlimited::Queue::new()
}

/// `deadqueue::unlimited::Queue::push`: the event goes behind those already
/// held. The exclusive borrow rules out a concurrent change.
#[verifier::external_body]
fn queue_push(q: &mut deadqueue::unlimited::Queue<QueueEvent>, event: QueueEvent)
    ensures
        queue_items(*final(q)) == queue_items(*old(q)).push(event@),
{
    q.push(event)
}

/// `deadqueue::unlimited::Queue::try_pop`: on an empty queue nothing comes and
/// nothing changes; otherwise the oldest event leaves and is returned.
#[verifier::external_body]
fn queue_try_pop(q: &mut deadqueue::unlimited::Queue<QueueEvent>) -> (r: Option<QueueEvent>)
    ensures
        match r {
            None => queue_items(*old(q)).len() == 0 && queue_items(*final(q)) == queue_items(
                *old(q),
            ),
            Some(event) => queue_items(*old(q)).len() > 0 && event@ == queue_items(*old(q))[0]
                && queue_items(*final(q)) == queue_items(*old(q)).subrange(
                1,
                queue_items(*old(q)).len() as int,
            ),
        },
{
    q.try_pop()
}

/// `deadqueue::unlimited::Queue::len`: the number of events held.
#[verifier::external_body]
fn queue_len(q: &deadqueue::unlimited::Queue<QueueEvent>) -> (n: usize)
    ensures
        n == queue_items(*q).len(),
{
    q.len()
}

/// Buffer between the request handlers, which push, and the flusher, which
/// drains.
pub struct IngestionQueue {
    inner: deadqueue::unlimited::Queue<QueueEvent>,
}

impl View for IngestionQueue {
    type V = Seq<QueueEventView>;

    closed spec fn view(&self) -> Seq<QueueEventView> {
        queue_items(self.inner)
    }
}

impl IngestionQueue {
    /// An empty queue.
    pub fn new() -> (q: IngestionQueue)
        ensures
            q@ == Seq::<QueueEventView>::empty(),
    {
        IngestionQueue { inner: queue_new() }
    }

    /// Adds an event behind those already queued. Never refuses.
    pub fn push(&mut self, event: QueueEvent)
        ensures
            final(self)@ == old(self)@.push(event@),
    {
        queue_push(&mut self.inner, event);
    }

    /// The number of queued events.
    pub fn len(&self) -> (n: usize)
        ensures
            n == self@.len(),
    {
        queue_len(&self.inner)
    }

    /// Whether nothing is queued.
    pub fn is_empty(&self) -> (b: bool)
        ensures
            b == (self@.len() == 0),
    {
        queue_len(&self.inner) == 0
    }

    /// Removes and returns everything queued, oldest first.
    pub fn drain(&mut self) -> (batch: Vec<QueueEvent>)
        ensures
            batch.deep_view() == old(self)@,
            final(self)@ == Seq::<QueueEventView>::empty(),
    {
        let mut batch: Vec<QueueEvent> = Vec::new();
        let ghost before = self@;
        loop
            invariant
                before == old(self)@,
                before == batch.deep_view() + self@,
            decreases self@.len(),
        {
            let ghost held = self@;
            let ghost taken = batch.deep_view();
            match queue_try_pop(&mut self.inner) {
                None => {
                    proof {
                        assert(self@ =~= Seq::<QueueEventView>::empty());
                        assert(batch.deep_view() + self@ =~= batch.deep_view());
                    }
                    return batch;
                },
                Some(event) => {
                    batch.push(event);
                    proof {
                        assert(batch.deep_view() =~= taken.push(held[0]));
                        assert(taken.push(held[0]) + held.subrange(1, held.len() as int) =~= taken
                            + held);
                    }
                },
            }
        }
    }
}

} // verus!
