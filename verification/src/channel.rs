//! The FIFO channel between the control handler and the service-main
//! function.
//!
//! The control handler is the single producer and the service-main function
//! the single consumer; the queue delivers events in the order they were
//! pushed, drops none, and performs no reordering or batching. Within the
//! library the two ends are one value: the holder may both send and receive.

use vstd::prelude::*;
use crate::ServiceEvent;

verus! {

/// An ordered queue of service events, viewed as the sequence of events
/// pushed but not yet received, oldest first.
pub struct EventQueue<T> {
    items: Vec<ServiceEvent<T>>,
}

impl<T> View for EventQueue<T> {
    type V = Seq<ServiceEvent<T>>;

    closed spec fn view(&self) -> Seq<ServiceEvent<T>> {
        self.items@
    }
}

impl<T> EventQueue<T> {
    /// An empty channel.
    pub fn new() -> (q: EventQueue<T>)
        ensures
            q@ == Seq::<ServiceEvent<T>>::empty(),
    {
        EventQueue { items: Vec::new() }
    }

    /// The number of pending events.
    pub fn len(&self) -> (n: usize)
        ensures
            n == self@.len(),
    {
        self.items.len()
    }

    /// Whether no event is pending.
    pub fn is_empty(&self) -> (b: bool)
        ensures
            b == (self@.len() == 0),
    {
        self.items.len() == 0
    }

    /// Appends `event` behind every event already pending.
    pub fn send(&mut self, event: ServiceEvent<T>)
        ensures
            final(self)@ == old(self)@.push(event),
    {
        self.items.push(event);
    }

    /// Removes and returns the oldest pending event, or `None` when the
    /// queue is empty.
    pub fn try_recv(&mut self) -> (r: Option<ServiceEvent<T>>)
        ensures
            old(self)@.len() == 0 ==> r is None && final(self)@ == old(self)@,
            old(self)@.len() > 0 ==> r == Some(old(self)@[0]) && final(self)@ == old(self)@.skip(1),
    {
        if self.items.len() == 0 {
            None
        } else {
            let ev = self.items.remove(0);
            proof {
                assert(self@ =~= old(self)@.skip(1));
            }
            Some(ev)
        }
    }

    /// Removes and returns the oldest pending event.
    pub fn recv(&mut self) -> (r: ServiceEvent<T>)
        requires
            old(self)@.len() > 0,
        ensures
            r == old(self)@[0],
            final(self)@ == old(self)@.skip(1),
    {
        let ev = self.items.remove(0);
        proof {
            assert(self@ =~= old(self)@.skip(1));
        }
        ev
    }
}

/// FIFO order: a queue holding the pending events `pending` hands them out
/// by ascending index. After `i` receives the queue holds `pending.skip(i)`
/// (each receive keeps order, by the contract of `try_recv` and `recv`), so
/// the next event received is exactly `pending[i]`: events are received in
/// the order they were sent, with none lost, duplicated or reordered.
pub proof fn lemma_fifo_order<T>(pending: Seq<ServiceEvent<T>>, i: int)
    requires
        0 <= i < pending.len(),
    ensures
        pending.skip(i).len() == pending.len() - i,
        pending.skip(i)[0] == pending[i],
        pending.skip(i).skip(1) == pending.skip(i + 1),
{
    assert(pending.skip(i)[0] == pending[i]);
    assert(pending.skip(i).skip(1) =~= pending.skip(i + 1));
}

} // verus!
