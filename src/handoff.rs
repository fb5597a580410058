use std::collections::VecDeque;

use vstd::prelude::*;

verus! {

/// What became of an item offered to the handoff.
pub enum SendOutcome<T> {
    /// The item is queued for the consumer.
    Accepted,
    /// Every slot is taken: the producer waits and offers the item again.
    Full(T),
    /// The consumer has stopped: the producer stops too.
    Closed(T),
}

/// What the consumer found in the handoff.
pub enum RecvOutcome<T> {
    /// The oldest queued item.
    Item(T),
    /// Nothing is queued yet: the consumer waits.
    Empty,
    /// The producer has finished and everything it sent has been taken.
    Finished,
}

/// A bounded, order-preserving queue between one producer and one consumer.
///
/// The producer never runs more than `capacity` items ahead of the consumer,
/// and the consumer takes the items in exactly the order they were accepted.
/// Either side can end the exchange: the producer by finishing, the consumer
/// by abandoning it, after which every offer is refused so that a waiting
/// producer is released.
pub struct Handoff<T> {
    slots: VecDeque<T>,
    capacity: usize,
    producer_done: bool,
    consumer_gone: bool,
    accepted: Ghost<Seq<T>>,
    delivered: Ghost<Seq<T>>,
}

impl<T> Handoff<T> {
    /// The items queued and not yet taken, oldest first.
    pub closed spec fn queued(&self) -> Seq<T> {
        self.slots@
    }

    pub closed spec fn spec_capacity(&self) -> nat {
        self.capacity as nat
    }

    pub closed spec fn is_finished(&self) -> bool {
        self.producer_done
    }

    pub closed spec fn is_abandoned(&self) -> bool {
        self.consumer_gone
    }

    /// Every item accepted so far, in the order of acceptance.
    pub closed spec fn accepted(&self) -> Seq<T> {
        self.accepted@
    }

    /// Every item handed to the consumer so far, in the order of delivery.
    pub closed spec fn delivered(&self) -> Seq<T> {
        self.delivered@
    }

    /// The queue never holds more than its capacity, and what was accepted is
    /// exactly what was delivered followed by what is still queued.
    pub closed spec fn wf(&self) -> bool {
        &&& self.capacity > 0
        &&& self.slots@.len() <= self.capacity
        &&& self.accepted@ == self.delivered@ + self.slots@
    }

    pub fn new(capacity: usize) -> (r: Handoff<T>)
        requires
            capacity > 0,
        ensures
            r.wf(),
            r.spec_capacity() == capacity,
            r.queued() == Seq::<T>::empty(),
            r.accepted() == Seq::<T>::empty(),
            r.delivered() == Seq::<T>::empty(),
            !r.is_finished(),
            !r.is_abandoned(),
    {
        let r = Handoff {
            slots: VecDeque::new(),
            capacity,
            producer_done: false,
            consumer_gone: false,
            accepted: Ghost(Seq::empty()),
            delivered: Ghost(Seq::empty()),
        };
        proof {
            assert(r.accepted@ == r.delivered@ + r.slots@);
        }
        r
    }

    /// Offers an item: it is queued unless the consumer is gone or every slot
    /// is taken, in which case it comes back.
    pub fn try_send(&mut self, item: T) -> (r: SendOutcome<T>)
        requires
            old(self).wf(),
        ensures
            final(self).wf(),
            final(self).spec_capacity() == old(self).spec_capacity(),
            final(self).is_finished() == old(self).is_finished(),
            final(self).is_abandoned() == old(self).is_abandoned(),
            final(self).delivered() == old(self).delivered(),
            old(self).is_abandoned() ==> r == SendOutcome::Closed(item)
                && final(self).queued() == old(self).queued()
                && final(self).accepted() == old(self).accepted(),
            !old(self).is_abandoned() && old(self).queued().len() >= old(self).spec_capacity()
                ==> r == SendOutcome::Full(item) && final(self).queued() == old(self).queued()
                && final(self).accepted() == old(self).accepted(),
            !old(self).is_abandoned() && old(self).queued().len() < old(self).spec_capacity()
                ==> r is Accepted && final(self).queued() == old(self).queued().push(item)
                && final(self).accepted() == old(self).accepted().push(item),
    {
        if self.consumer_gone {
            return SendOutcome::Closed(item);
        }
        if self.slots.len() >= self.capacity {
            return SendOutcome::Full(item);
        }
        proof {
            self.accepted@ = self.accepted@.push(item);
            assert(self.accepted@ == self.delivered@ + self.slots@.push(item));
        }
        self.slots.push_back(item);
        SendOutcome::Accepted
    }

    /// Takes the oldest queued item, if there is one.
    pub fn try_recv(&mut self) -> (r: RecvOutcome<T>)
        requires
            old(self).wf(),
        ensures
            final(self).wf(),
            final(self).spec_capacity() == old(self).spec_capacity(),
            final(self).is_finished() == old(self).is_finished(),
            final(self).is_abandoned() == old(self).is_abandoned(),
            final(self).accepted() == old(self).accepted(),
            old(self).queued().len() > 0 ==> r == RecvOutcome::Item(old(self).queued()[0])
                && final(self).queued() == old(self).queued().drop_first()
                && final(self).delivered() == old(self).delivered().push(old(self).queued()[0]),
            old(self).queued().len() == 0 ==> final(self).queued() == old(self).queued()
                && final(self).delivered() == old(self).delivered()
                && (if old(self).is_finished() { r is Finished } else { r is Empty }),
    {
        match self.slots.pop_front() {
            Some(item) => {
                proof {
                    let old_slots = old(self).slots@;
                    assert(old_slots.drop_first() == self.slots@);
                    self.delivered@ = self.delivered@.push(item);
                    assert(self.accepted@ == self.delivered@ + self.slots@) by {
                        assert(old_slots == seq![item] + old_slots.drop_first());
                        assert(self.delivered@ + self.slots@ == old(self).delivered@ + old_slots);
                    }
                }
                RecvOutcome::Item(item)
            },
            None => {
                if self.producer_done {
                    RecvOutcome::Finished
                } else {
                    RecvOutcome::Empty
                }
            },
        }
    }

    /// The producer has nothing more to send; what is queued can still be taken.
    pub fn finish(&mut self)
        requires
            old(self).wf(),
        ensures
            final(self).wf(),
            final(self).is_finished(),
            final(self).is_abandoned() == old(self).is_abandoned(),
            final(self).spec_capacity() == old(self).spec_capacity(),
            final(self).queued() == old(self).queued(),
            final(self).accepted() == old(self).accepted(),
            final(self).delivered() == old(self).delivered(),
    {
        self.producer_done = true;
    }

    /// The consumer stops taking items: every later offer is refused.
    pub fn abandon(&mut self)
        requires
            old(self).wf(),
        ensures
            final(self).wf(),
            final(self).is_abandoned(),
            final(self).is_finished() == old(self).is_finished(),
            final(self).spec_capacity() == old(self).spec_capacity(),
            final(self).queued() == old(self).queued(),
            final(self).accepted() == old(self).accepted(),
            final(self).delivered() == old(self).delivered(),
    {
        self.consumer_gone = true;
    }

    pub fn len(&self) -> (r: usize)
        requires
            self.wf(),
        ensures
            r == self.queued().len(),
    {
        self.slots.len()
    }

    pub fn capacity(&self) -> (r: usize)
        ensures
            r == self.spec_capacity(),
    {
        self.capacity
    }

    pub fn abandoned(&self) -> (r: bool)
        ensures
            r == self.is_abandoned(),
    {
        self.consumer_gone
    }

    pub fn finished(&self) -> (r: bool)
        ensures
            r == self.is_finished(),
    {
        self.producer_done
    }
}

/// Delivery keeps the order of production: at every point the items handed
/// to the consumer are the oldest accepted items, in the order they were
/// accepted, and no more than `capacity` accepted items are waiting.
pub proof fn lemma_delivery_in_order<T>(h: &Handoff<T>)
    requires
        h.wf(),
    ensures
        h.delivered() == h.accepted().subrange(0, h.delivered().len() as int),
        h.accepted().len() - h.delivered().len() <= h.spec_capacity(),
{
    assert(h.delivered() == (h.delivered() + h.queued()).subrange(0, h.delivered().len() as int));
}

} // verus!
