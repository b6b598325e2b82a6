//! Event fan-out: delivers decoded dispatch events, in arrival order, to
//! every subscriber, each behind a bounded buffer.  A slow subscriber
//! never blocks the others and never corrupts order: once its buffer is
//! full, further events are dropped for it and the overflow is flagged.

use vstd::prelude::*;
use crate::codec::DispatchEvent;

verus! {

/// The bounded event buffer of one subscriber.
#[derive(Debug)]
pub struct SubscriberBuffer {
    capacity: usize,
    events: Vec<DispatchEvent>,
    overflowed: bool,
}

/// What one offered event does to a buffer: appended while there is
/// room, dropped with the overflow flagged once there is none.
pub open spec fn spec_offer_rel(pre: SubscriberBuffer, post: SubscriberBuffer, e: DispatchEvent) -> bool {
    &&& post.view_capacity() == pre.view_capacity()
    &&& if pre.view_events().len() < pre.view_capacity() {
        post.view_events() == pre.view_events().push(e) && post.view_overflowed()
            == pre.view_overflowed()
    } else {
        post.view_events() == pre.view_events() && post.view_overflowed()
    }
}

impl SubscriberBuffer {
    /// The buffered events, oldest first.
    pub closed spec fn view_events(self) -> Seq<DispatchEvent> {
        self.events@
    }

    /// How many events the buffer holds at most.
    pub closed spec fn view_capacity(self) -> nat {
        self.capacity as nat
    }

    /// Events were dropped because the buffer was full.
    pub closed spec fn view_overflowed(self) -> bool {
        self.overflowed
    }

    /// An empty buffer for `capacity` events.
    pub fn new(capacity: usize) -> (b: SubscriberBuffer)
        ensures
            b.view_events() == Seq::<DispatchEvent>::empty(),
            b.view_capacity() == capacity,
            !b.view_overflowed(),
    {
        SubscriberBuffer { capacity, events: Vec::new(), overflowed: false }
    }

    /// Offers one event: buffered in order while there is room, dropped
    /// with the overflow flagged once there is none.
    pub fn offer(&mut self, e: DispatchEvent)
        ensures
            spec_offer_rel(*old(self), *final(self), e),
    {
        if self.events.len() < self.capacity {
            self.events.push(e);
        } else {
            self.overflowed = true;
        }
    }

    /// Takes every buffered event, oldest first, and clears the overflow
    /// flag; the caller learns from the returned flag whether events were
    /// dropped since the last drain.
    pub fn drain(&mut self) -> (r: (Vec<DispatchEvent>, bool))
        ensures
            r.0@ == old(self).view_events(),
            r.1 == old(self).view_overflowed(),
            final(self).view_events() == Seq::<DispatchEvent>::empty(),
            !final(self).view_overflowed(),
            final(self).view_capacity() == old(self).view_capacity(),
    {
        let mut taken: Vec<DispatchEvent> = Vec::new();
        core::mem::swap(&mut taken, &mut self.events);
        let had = self.overflowed;
        self.overflowed = false;
        (taken, had)
    }
}

/// Fans each event out to every subscriber's buffer.
#[derive(Debug)]
pub struct EventDispatcher {
    subscribers: Vec<SubscriberBuffer>,
}

impl EventDispatcher {
    /// The subscriber buffers, in subscription order.
    pub closed spec fn view_subs(self) -> Seq<SubscriberBuffer> {
        self.subscribers@
    }

    /// A dispatcher with no subscribers yet.
    pub fn new() -> (d: EventDispatcher)
        ensures
            d.view_subs() == Seq::<SubscriberBuffer>::empty(),
    {
        EventDispatcher { subscribers: Vec::new() }
    }

    /// Adds a subscriber with a buffer for `capacity` events and returns
    /// its handle.
    pub fn subscribe(&mut self, capacity: usize) -> (id: usize)
        ensures
            id == old(self).view_subs().len(),
            final(self).view_subs().len() == old(self).view_subs().len() + 1,
            final(self).view_subs().subrange(0, old(self).view_subs().len() as int) == old(
                self,
            ).view_subs(),
            final(self).view_subs()[id as int].view_events() == Seq::<DispatchEvent>::empty(),
            final(self).view_subs()[id as int].view_capacity() == capacity,
            !final(self).view_subs()[id as int].view_overflowed(),
    {
        let id = self.subscribers.len();
        self.subscribers.push(SubscriberBuffer::new(capacity));
        proof {
            assert(self.subscribers@.subrange(0, old(self).subscribers@.len() as int) =~= old(
                self,
            ).subscribers@);
        }
        id
    }

    /// Delivers one event to every subscriber, in subscription order:
    /// each buffer changes exactly as [`spec_offer_rel`] prescribes.
    pub fn broadcast(&mut self, e: &DispatchEvent)
        ensures
            final(self).view_subs().len() == old(self).view_subs().len(),
            forall|k: int|
                0 <= k < old(self).view_subs().len() ==> spec_offer_rel(
                    #[trigger] old(self).view_subs()[k],
                    final(self).view_subs()[k],
                    *e,
                ),
    {
        let n = self.subscribers.len();
        let mut i: usize = 0;
        while i < n
            invariant
                0 <= i <= n,
                n == self.subscribers@.len(),
                n == old(self).subscribers@.len(),
                forall|k: int|
                    i <= k < n ==> #[trigger] self.subscribers@[k] == old(self).subscribers@[k],
                forall|k: int|
                    0 <= k < i ==> spec_offer_rel(
                        #[trigger] old(self).subscribers@[k],
                        self.subscribers@[k],
                        *e,
                    ),
            decreases n - i,
        {
            let mut b = self.subscribers.remove(i);
            b.offer(e.clone());
            self.subscribers.insert(i, b);
            proof {
                assert forall|k: int| i + 1 <= k < n implies #[trigger] self.subscribers@[k]
                    == old(self).subscribers@[k] by {
                }
            }
            i = i + 1;
        }
    }

    /// Takes the buffered events of one subscriber, oldest first, with
    /// its overflow flag; the buffer is emptied.
    pub fn drain(&mut self, id: usize) -> (r: (Vec<DispatchEvent>, bool))
        requires
            id < old(self).view_subs().len(),
        ensures
            r.0@ == old(self).view_subs()[id as int].view_events(),
            r.1 == old(self).view_subs()[id as int].view_overflowed(),
            final(self).view_subs().len() == old(self).view_subs().len(),
            final(self).view_subs()[id as int].view_events() == Seq::<DispatchEvent>::empty(),
            !final(self).view_subs()[id as int].view_overflowed(),
            forall|k: int|
                0 <= k < old(self).view_subs().len() && k != id ==> final(self).view_subs()[k]
                    == #[trigger] old(self).view_subs()[k],
    {
        let mut b = self.subscribers.remove(id);
        let r = b.drain();
        self.subscribers.insert(id, b);
        r
    }
}

} // verus!
