//! The channel core behind every `mpmc` handle.

use std::task::Waker;

use vstd::prelude::*;

use super::model::ChanState;
use crate::effect::{record_discard, record_wakes, take_effects, Effect};
use crate::queue::Flavor;
use crate::wakers::WakerList;

verus! {

/// The outcome of one step of taking an item.
pub enum TakeStep<T> {
    /// The next item.
    Item(T),
    /// Nothing is left to be received.
    Empty,
    /// The next item is set aside while parked senders are woken: perform the effects that
    /// are due, then step again.
    Wake,
}

/// The state shared by the handles of one channel.
pub struct Chan<T> {
    flavor: Flavor<T>,
    /// An item popped from the queue but not yet handed to a receiver: it is set aside
    /// while parked senders are woken, so that an interrupted wake does not lose it. The
    /// next receive drains it first.
    redelivery: Option<T>,
    /// Live sender count. Once it hits zero the receivers drain what is queued and then
    /// report disconnect.
    senders: usize,
    /// Live receiver count. Once it hits zero sends fail closed and the last receiver
    /// drains the queue.
    receivers: usize,
    /// Set by an explicit close, independently of the counts: sends then fail closed and
    /// receivers drain then disconnect, even while both halves are still alive.
    closed: bool,
    /// Wakers of receivers parked on an empty channel. A push wakes every one of them;
    /// whichever polls first gets the item, the rest park again.
    recv_wakers: WakerList,
    /// Wakers of senders parked on a full bounded channel.
    send_wakers: WakerList,
    /// Wakes and waker drops that are due.
    effects: Vec<Effect>,
}

impl<T> View for Chan<T> {
    type V = ChanState<T>;

    closed spec fn view(&self) -> ChanState<T> {
        ChanState {
            cap: self.flavor.spec_cap(),
            queue: self.flavor@,
            redelivery: self.redelivery,
            senders: self.senders as nat,
            receivers: self.receivers as nat,
            closed: self.closed,
            recv_wakers: self.recv_wakers.entries(),
            next_recv_id: self.recv_wakers.next(),
            send_wakers: self.send_wakers.entries(),
            next_send_id: self.send_wakers.next(),
            effects: self.effects@,
        }
    }
}

impl<T> Chan<T> {
    /// Whether the queue is well-formed and the state valid.
    pub closed spec fn wf(&self) -> bool {
        &&& self.flavor.wf()
        &&& self@.valid()
    }

    /// A well-formed channel is in a valid state.
    pub proof fn lemma_valid(&self)
        requires
            self.wf(),
        ensures
            self@.valid(),
    {
    }

    /// A bounded channel with one sender and one receiver.
    pub fn bounded(cap: usize) -> (chan: Self)
        requires
            cap > 0,
        ensures
            chan.wf(),
            chan@ == ChanState::<T>::opened(Some(cap as nat)),
    {
        Self::new(Flavor::bounded(cap))
    }

    /// An unbounded channel with one sender and one receiver.
    pub fn unbounded() -> (chan: Self)
        ensures
            chan.wf(),
            chan@ == ChanState::<T>::opened(None),
    {
        Self::new(Flavor::unbounded())
    }

    fn new(flavor: Flavor<T>) -> (chan: Self)
        requires
            flavor.wf(),
            flavor@ == Seq::<T>::empty(),
        ensures
            chan.wf(),
            chan@ == ChanState::<T>::opened(flavor.spec_cap()),
    {
        proof {
            flavor.lemma_within_capacity();
        }
        Chan {
            flavor,
            redelivery: None,
            senders: 1,
            receivers: 1,
            closed: false,
            recv_wakers: WakerList::new(),
            send_wakers: WakerList::new(),
            effects: Vec::new(),
        }
    }

    /// The capacity, or `None` when unbounded.
    pub fn cap(&self) -> (c: Option<usize>)
        ensures
            match c {
                Some(n) => self@.cap == Some(n as nat),
                None => self@.cap == None::<nat>,
            },
    {
        self.flavor.cap()
    }

    /// The number of items still to be received, the one in transit included.
    pub fn len(&self) -> (n: usize)
        requires
            self.wf(),
            self@.len_fits(),
        ensures
            n == self@.items().len(),
    {
        if self.redelivery.is_some() {
            self.flavor.len() + 1
        } else {
            self.flavor.len()
        }
    }

    /// Whether nothing is left to be received.
    pub fn is_empty(&self) -> (b: bool)
        requires
            self.wf(),
        ensures
            b == (self@.items().len() == 0),
    {
        self.redelivery.is_none() && self.flavor.is_empty()
    }

    /// Whether the queue is at capacity. An item in transit takes up none.
    pub fn is_full(&self) -> (b: bool)
        requires
            self.wf(),
        ensures
            b == self@.full(),
    {
        self.flavor.is_full()
    }

    /// Whether at least one receiver is alive.
    pub fn receiver_alive(&self) -> (b: bool)
        ensures
            b == (self@.receivers > 0),
    {
        self.receivers > 0
    }

    /// The number of live senders.
    pub fn senders(&self) -> (n: usize)
        ensures
            n == self@.senders,
    {
        self.senders
    }

    /// Counts one more sender.
    pub fn incr_senders(&mut self)
        requires
            old(self).wf(),
            old(self)@.senders < usize::MAX,
        ensures
            final(self).wf(),
            final(self)@ == old(self)@.sender_cloned(),
    {
        self.senders = self.senders + 1;
    }

    /// Counts one sender less, returning the count before, so that the caller can detect
    /// the last sender leaving.
    pub fn decr_senders(&mut self) -> (before: usize)
        requires
            old(self).wf(),
            old(self)@.senders > 0,
        ensures
            final(self).wf(),
            before == old(self)@.senders,
            final(self)@ == (ChanState { senders: (before - 1) as nat, ..old(self)@ }),
    {
        let n: usize = self.senders;
        self.senders = n - 1;
        n
    }

    /// The number of live receivers.
    pub fn receivers(&self) -> (n: usize)
        ensures
            n == self@.receivers,
    {
        self.receivers
    }

    /// Counts one more receiver.
    pub fn incr_receivers(&mut self)
        requires
            old(self).wf(),
            old(self)@.receivers < usize::MAX,
        ensures
            final(self).wf(),
            final(self)@ == old(self)@.receiver_cloned(),
    {
        self.receivers = self.receivers + 1;
    }

    /// Counts one receiver less, returning the count before, so that the caller can detect
    /// the last receiver leaving.
    pub fn decr_receivers(&mut self) -> (before: usize)
        requires
            old(self).wf(),
            old(self)@.receivers > 0,
        ensures
            final(self).wf(),
            before == old(self)@.receivers,
            final(self)@ == (ChanState { receivers: (before - 1) as nat, ..old(self)@ }),
    {
        let n: usize = self.receivers;
        self.receivers = n - 1;
        n
    }

    /// Marks the channel explicitly closed and wakes the parked receivers, so that they
    /// observe the disconnection. The close goes on with [`Closing::finish`] once those
    /// wakes are performed. Idempotent: a repeat skips the redundant wakes.
    pub fn close(&mut self) -> (closing: Closing)
        requires
            old(self).wf(),
        ensures
            final(self).wf(),
            closing.newly == !old(self)@.closed,
            final(self)@ == old(self)@.closed_now(),
    {
        if self.closed {
            return Closing { newly: false };
        }
        self.closed = true;
        self.wake_receivers();
        Closing { newly: true }
    }

    /// Whether [`close`](Self::close) has been called.
    pub fn is_closed(&self) -> (b: bool)
        ensures
            b == self@.closed,
    {
        self.closed
    }

    /// Registers a parked receiver's waker, returning a stable id for later removal. Once
    /// the channel is terminal (every sender gone, closed, or every receiver gone) the
    /// waker is not kept; the id is used up all the same, so that a later removal finds
    /// nothing.
    pub fn add_recv_waker(&mut self, waker: Waker) -> (id: u64)
        requires
            old(self).wf(),
        ensures
            final(self).wf(),
            id == old(self)@.next_recv_id,
            final(self)@ == old(self)@.recv_waker_added(waker),
    {
        if self.senders == 0 || self.closed || self.receivers == 0 {
            self.effects.push(Effect::Discard(waker));
            self.recv_wakers.skip()
        } else {
            self.recv_wakers.insert(waker)
        }
    }

    /// Removes the receiver's waker registered under `id`, if still present, and records
    /// its drop.
    pub fn remove_recv_waker(&mut self, id: u64)
        requires
            old(self).wf(),
        ensures
            final(self).wf(),
            final(self)@ == old(self)@.recv_waker_removed(Some(id)),
    {
        let waker = self.recv_wakers.remove(id);
        record_discard(&mut self.effects, waker);
    }

    /// Moves every parked receiver's waker out and records the wakes, in registration
    /// order.
    pub fn wake_receivers(&mut self)
        requires
            old(self).wf(),
        ensures
            final(self).wf(),
            final(self)@ == old(self)@.receivers_woken(),
    {
        let wakers = self.recv_wakers.take_all();
        record_wakes(&mut self.effects, wakers);
    }

    /// Registers a parked sender's waker, returning a stable id for later removal.
    pub fn add_send_waker(&mut self, waker: Waker) -> (id: u64)
        requires
            old(self).wf(),
        ensures
            final(self).wf(),
            id == old(self)@.next_send_id,
            final(self)@ == old(self)@.send_waker_added(waker),
    {
        self.send_wakers.insert(waker)
    }

    /// Removes the sender's waker registered under `id`, if still present, and records its
    /// drop.
    pub fn remove_send_waker(&mut self, id: u64)
        requires
            old(self).wf(),
        ensures
            final(self).wf(),
            final(self)@ == old(self)@.send_waker_removed(Some(id)),
    {
        let waker = self.send_wakers.remove(id);
        record_discard(&mut self.effects, waker);
    }

    /// The number of registered send-wakers.
    pub fn send_wakers_len(&self) -> (n: usize)
        ensures
            n == self@.send_wakers.len(),
    {
        self.send_wakers.len()
    }

    /// The number of registered recv-wakers.
    pub fn recv_wakers_len(&self) -> (n: usize)
        ensures
            n == self@.recv_wakers.len(),
    {
        self.recv_wakers.len()
    }

    /// Moves every parked sender's waker out and records the wakes, in registration order.
    pub fn wake_senders(&mut self)
        requires
            old(self).wf(),
        ensures
            final(self).wf(),
            final(self)@ == old(self)@.senders_woken(),
    {
        let wakers = self.send_wakers.take_all();
        record_wakes(&mut self.effects, wakers);
    }

    /// Pushes if there is room; returns `Err(item)` when a bounded channel is full.
    pub fn try_push(&mut self, item: T) -> (r: Result<(), T>)
        requires
            old(self).wf(),
            old(self)@.countable(),
        ensures
            final(self).wf(),
            old(self)@.full() ==> r == Err::<(), T>(item) && final(self)@ == old(self)@,
            !old(self)@.full() ==> {
                &&& r == Ok::<(), T>(())
                &&& final(self)@ == old(self)@.pushed(item)
            },
    {
        self.flavor.try_push(item)
    }

    /// Removes and returns the oldest queued item, or `None` when the queue is empty. An
    /// item in transit is left where it is.
    pub fn pop(&mut self) -> (r: Option<T>)
        requires
            old(self).wf(),
        ensures
            final(self).wf(),
            old(self)@.queue.len() > 0 ==> {
                &&& r == Some(old(self)@.queue[0])
                &&& final(self)@ == old(self)@.popped()
            },
            old(self)@.queue.len() == 0 ==> r == None::<T> && final(self)@ == old(self)@,
    {
        self.flavor.pop()
    }

    /// Whether an item is in transit.
    pub fn in_transit(&self) -> (b: bool)
        ensures
            b == (self@.redelivery is Some),
    {
        self.redelivery.is_some()
    }

    /// Whether at least one sender is parked on a full bounded channel.
    pub fn has_parked_senders(&self) -> (b: bool)
        ensures
            b == (self@.send_wakers.len() > 0),
    {
        !self.send_wakers.is_empty()
    }

    /// Takes one step towards the next item, to be repeated until it is there. An item in
    /// transit is delivered first: it left the queue before everything still in it. While
    /// senders are parked, a queued item goes in transit and their wakes become due; should
    /// performing them fail or hand the item to another consumer, the next step picks up
    /// from there.
    pub fn try_take(&mut self) -> (r: TakeStep<T>)
        requires
            old(self).wf(),
        ensures
            final(self).wf(),
            r == old(self)@.take_step_result(),
            final(self)@ == old(self)@.take_stepped(),
    {
        if let Some(item) = self.redelivery.take() {
            return TakeStep::Item(item);
        }
        match self.flavor.pop() {
            None => TakeStep::Empty,
            Some(item) => {
                if !self.has_parked_senders() {
                    return TakeStep::Item(item);
                }
                self.redelivery = Some(item);
                self.wake_senders();
                TakeStep::Wake
            },
        }
    }

    /// Removes and returns the next item, the one in transit before the queued ones, and
    /// wakes nobody: one step of emptying the channel once the last receiver is gone. The
    /// caller drops the item while the channel is released, since a payload's destructor
    /// may use it again.
    pub fn drain(&mut self) -> (r: Option<T>)
        requires
            old(self).wf(),
        ensures
            final(self).wf(),
            r == old(self)@.next_item(),
            final(self)@ == old(self)@.released(),
    {
        match self.redelivery.take() {
            Some(parked) => Some(parked),
            None => self.pop(),
        }
    }

    /// Moves out the effects that are due. The caller performs them, in order, without
    /// holding the channel.
    pub fn take_effects(&mut self) -> (effects: Vec<Effect>)
        requires
            old(self).wf(),
        ensures
            final(self).wf(),
            effects@ == old(self)@.effects,
            final(self)@ == (ChanState { effects: Seq::empty(), ..old(self)@ }),
    {
        take_effects(&mut self.effects)
    }
}

/// A close under way: the channel is closed and the wakes of the receiving side are due. Once
/// they are performed, [`finish`](Self::finish) wakes the senders.
#[must_use]
pub struct Closing {
    /// Whether this close found the channel open. If not, there is nothing to finish.
    pub newly: bool,
}

impl Closing {
    /// Ends the close by waking the parked senders, so that they fail closed. Returns
    /// whether it closed a still-open channel.
    pub fn finish<T>(self, chan: &mut Chan<T>) -> (b: bool)
        requires
            old(chan).wf(),
        ensures
            final(chan).wf(),
            b == self.newly,
            final(chan)@ == (if self.newly {
                old(chan)@.senders_woken()
            } else {
                old(chan)@
            }),
    {
        if self.newly {
            chan.wake_senders();
        }
        self.newly
    }
}

} // verus!
