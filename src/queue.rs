//! Bounded FIFO message queue of a fixed number of slots. A send into a full
//! queue and a receive from an empty one fail with distinct error kinds once
//! their timeout runs out; items leave in the order they came.
use vstd::prelude::*;
use std::collections::VecDeque;
use crate::{RTResult, RTTError};
use crate::time::forever;

verus! {

/// Contents after a send of `x` to a queue of `cap` slots holding `s`.
pub open spec fn after_send<T>(s: Seq<T>, cap: nat, x: T) -> Seq<T> {
    if s.len() < cap {
        s.push(x)
    } else {
        s
    }
}

/// Contents after a receive.
pub open spec fn after_recv<T>(s: Seq<T>) -> Seq<T> {
    if s.len() > 0 {
        s.drop_first()
    } else {
        s
    }
}

/// Contents after sending each of `xs` in order.
pub open spec fn sent_all<T>(s: Seq<T>, cap: nat, xs: Seq<T>) -> Seq<T>
    decreases xs.len(),
{
    if xs.len() == 0 {
        s
    } else {
        sent_all(after_send(s, cap, xs[0]), cap, xs.drop_first())
    }
}

/// Items that `k` receives in a row hand out.
pub open spec fn received<T>(s: Seq<T>, k: nat) -> Seq<T>
    decreases k,
{
    if k == 0 || s.len() == 0 {
        Seq::empty()
    } else {
        seq![s[0]] + received(s.drop_first(), (k - 1) as nat)
    }
}

/// A message queue with `capacity` slots.
pub struct Queue<T> {
    items: VecDeque<T>,
    capacity: usize,
}

impl<T> View for Queue<T> {
    type V = Seq<T>;

    closed spec fn view(&self) -> Seq<T> {
        self.items@
    }
}

impl<T> Queue<T> {
    /// Number of slots.
    pub closed spec fn cap(&self) -> nat {
        self.capacity as nat
    }

    /// The queue holds no more items than it has slots, and has one at least.
    pub closed spec fn wf(&self) -> bool {
        &&& 1 <= self.capacity
        &&& self.items@.len() <= self.capacity
    }

    /// An empty queue of `capacity` slots.
    pub fn new(capacity: usize) -> (r: Queue<T>)
        requires
            capacity >= 1,
        ensures
            r.wf(),
            r@ == Seq::<T>::empty(),
            r.cap() == capacity,
    {
        Queue { items: VecDeque::new(), capacity }
    }

    /// Number of items waiting.
    pub fn len(&self) -> (r: usize)
        requires
            self.wf(),
        ensures
            r == self@.len(),
    {
        self.items.len()
    }

    /// Number of slots.
    pub fn capacity(&self) -> (r: usize)
        ensures
            r == self.cap(),
    {
        self.capacity
    }

    /// Sends `item`, waiting up to `tick` ticks for a free slot (zero: not at
    /// all). A negative `tick` waits without bound, so it needs a free slot.
    pub fn send(&mut self, item: T, tick: i32) -> (r: RTResult<()>)
        requires
            old(self).wf(),
            !forever(tick) || old(self)@.len() < old(self).cap(),
        ensures
            final(self).wf(),
            final(self).cap() == old(self).cap(),
            final(self)@ == after_send(old(self)@, old(self).cap(), item),
            r == (if old(self)@.len() < old(self).cap() {
                Ok::<(), RTTError>(())
            } else {
                Err(RTTError::QueueSendTimeout)
            }),
    {
        if self.items.len() < self.capacity {
            self.items.push_back(item);
            Ok(())
        } else {
            Err(RTTError::QueueSendTimeout)
        }
    }

    /// Sends `item` without waiting.
    pub fn try_send(&mut self, item: T) -> (r: RTResult<()>)
        requires
            old(self).wf(),
        ensures
            final(self).wf(),
            final(self).cap() == old(self).cap(),
            final(self)@ == after_send(old(self)@, old(self).cap(), item),
            r == (if old(self)@.len() < old(self).cap() {
                Ok::<(), RTTError>(())
            } else {
                Err(RTTError::QueueSendTimeout)
            }),
    {
        self.send(item, 0)
    }

    /// Receives the oldest item, waiting up to `tick` ticks for one (zero: not
    /// at all). A negative `tick` waits without bound, so it needs an item.
    pub fn recv(&mut self, tick: i32) -> (r: RTResult<T>)
        requires
            old(self).wf(),
            !forever(tick) || old(self)@.len() > 0,
        ensures
            final(self).wf(),
            final(self).cap() == old(self).cap(),
            final(self)@ == after_recv(old(self)@),
            r == (if old(self)@.len() > 0 {
                Ok::<T, RTTError>(old(self)@[0])
            } else {
                Err(RTTError::QueueReceiveTimeout)
            }),
    {
        match self.items.pop_front() {
            Some(x) => Ok(x),
            None => Err(RTTError::QueueReceiveTimeout),
        }
    }

    /// Receives the oldest item without waiting.
    pub fn try_recv(&mut self) -> (r: RTResult<T>)
        requires
            old(self).wf(),
        ensures
            final(self).wf(),
            final(self).cap() == old(self).cap(),
            final(self)@ == after_recv(old(self)@),
            r == (if old(self)@.len() > 0 {
                Ok::<T, RTTError>(old(self)@[0])
            } else {
                Err(RTTError::QueueReceiveTimeout)
            }),
    {
        self.recv(0)
    }

    /// Receives the oldest item, waiting without bound; an item must be there.
    pub fn recv_wait_forever(&mut self) -> (r: RTResult<T>)
        requires
            old(self).wf(),
            old(self)@.len() > 0,
        ensures
            final(self).wf(),
            final(self).cap() == old(self).cap(),
            final(self)@ == old(self)@.drop_first(),
            r == Ok::<T, RTTError>(old(self)@[0]),
    {
        self.recv(-1)
    }
}

/// FIFO order: items sent into a queue with room for all of them come out of
/// as many receives in the order they were sent.
pub proof fn lemma_fifo<T>(cap: nat, xs: Seq<T>)
    requires
        xs.len() <= cap,
    ensures
        sent_all(Seq::<T>::empty(), cap, xs) == xs,
        received(sent_all(Seq::<T>::empty(), cap, xs), xs.len()) == xs,
{
    lemma_sent_all(Seq::<T>::empty(), cap, xs);
    assert(Seq::<T>::empty() + xs =~= xs);
    lemma_received_all(xs);
}

proof fn lemma_sent_all<T>(s: Seq<T>, cap: nat, xs: Seq<T>)
    requires
        s.len() + xs.len() <= cap,
    ensures
        sent_all(s, cap, xs) == s + xs,
    decreases xs.len(),
{
    if xs.len() > 0 {
        lemma_sent_all(s.push(xs[0]), cap, xs.drop_first());
        assert(s.push(xs[0]) + xs.drop_first() =~= s + xs);
    } else {
        assert(s + xs =~= s);
    }
}

proof fn lemma_received_all<T>(s: Seq<T>)
    ensures
        received(s, s.len()) == s,
    decreases s.len(),
{
    if s.len() > 0 {
        lemma_received_all(s.drop_first());
        assert(seq![s[0]] + s.drop_first() =~= s);
    } else {
        assert(received(s, 0) =~= s);
    }
}

} // verus!
