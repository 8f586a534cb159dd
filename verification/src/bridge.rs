//! The bounded queue that carries events from the mouse-hook thread to
//! the controller loop.
//!
//! The hook thread must never block: when the queue is full the oldest
//! event is dropped to make room, the new one is kept, and a counter
//! records the loss. The consumer pops in FIFO order.

use vstd::prelude::*;
use crate::events::RawMouseEvent;

verus! {

/// Default capacity of the bridge.
pub const DEFAULT_CAPACITY: usize = 100;

/// A bounded FIFO of raw mouse events with drop-oldest-on-full
/// semantics and a dropped-event counter for diagnostics.
pub struct EventBridge {
    events: Vec<RawMouseEvent>,
    capacity: usize,
    dropped: u64,
}

impl EventBridge {
    /// The queued events, oldest first.
    pub closed spec fn view(&self) -> Seq<RawMouseEvent> {
        self.events@
    }

    /// The fixed capacity the bridge was created with.
    pub closed spec fn cap(&self) -> int {
        self.capacity as int
    }

    /// How many events have been dropped to make room so far
    /// (saturating at `u64::MAX`).
    pub closed spec fn dropped_count(&self) -> int {
        self.dropped as int
    }

    /// The queue never exceeds its positive capacity.
    pub closed spec fn wf(&self) -> bool {
        &&& 1 <= self.capacity
        &&& self.events@.len() <= self.capacity
    }

    /// An empty bridge of capacity `capacity`.
    pub fn new(capacity: usize) -> (r: EventBridge)
        requires
            capacity >= 1,
        ensures
            r.wf(),
            r.view() == Seq::<RawMouseEvent>::empty(),
            r.cap() == capacity,
            r.dropped_count() == 0,
    {
        EventBridge { events: Vec::new(), capacity, dropped: 0 }
    }

    /// Enqueues `e` without ever blocking. Returns `false` exactly when
    /// the queue was full, in which case the oldest event has been
    /// dropped (counted) and `e` has still been kept.
    pub fn send(&mut self, e: RawMouseEvent) -> (ok: bool)
        requires
            old(self).wf(),
        ensures
            final(self).wf(),
            final(self).cap() == old(self).cap(),
            ok == (old(self).view().len() < old(self).cap()),
            ok ==> final(self).view() == old(self).view().push(e) && final(self).dropped_count()
                == old(self).dropped_count(),
            !ok ==> final(self).view() == old(self).view().subrange(
                1,
                old(self).view().len() as int,
            ).push(e) && final(self).dropped_count() == if old(self).dropped_count() < u64::MAX {
                old(self).dropped_count() + 1
            } else {
                old(self).dropped_count()
            },
    {
        if self.events.len() < self.capacity {
            self.events.push(e);
            true
        } else {
            self.events.remove(0);
            self.events.push(e);
            if self.dropped < u64::MAX {
                self.dropped = self.dropped + 1;
            }
            assert(self.events@ == old(self).view().subrange(
                1,
                old(self).view().len() as int,
            ).push(e));
            false
        }
    }

    /// Pops the oldest event, or `None` when the queue is empty.
    pub fn receive(&mut self) -> (r: Option<RawMouseEvent>)
        requires
            old(self).wf(),
        ensures
            final(self).wf(),
            final(self).cap() == old(self).cap(),
            final(self).dropped_count() == old(self).dropped_count(),
            old(self).view().len() == 0 ==> r is None && *final(self) == *old(self),
            old(self).view().len() > 0 ==> r == Option::Some(old(self).view()[0])
                && final(self).view() == old(self).view().subrange(
                1,
                old(self).view().len() as int,
            ),
    {
        if self.events.len() == 0 {
            None
        } else {
            let e = self.events.remove(0);
            assert(self.events@ == old(self).view().subrange(1, old(self).view().len() as int));
            Some(e)
        }
    }

    /// How many events are queued.
    pub fn len(&self) -> (r: usize)
        ensures
            r == self.view().len(),
    {
        self.events.len()
    }

    /// The dropped-event counter.
    pub fn dropped_events(&self) -> (r: u64)
        ensures
            r as int == self.dropped_count(),
    {
        self.dropped
    }

    /// The capacity the bridge was created with.
    pub fn capacity(&self) -> (r: usize)
        ensures
            r as int == self.cap(),
    {
        self.capacity
    }
}

} // verus!
