//! The channel core behind every `mpsc` handle.

use std::task::Waker;

use vstd::prelude::*;

use super::model::ChanState;
use crate::effect::{record_discard, record_wake, record_wakes, take_effects, Effect};
use crate::queue::Flavor;
use crate::wakers::WakerList;

verus! {

/// The state shared by the handles of one channel.
pub struct Chan<T> {
    flavor: Flavor<T>,
    /// Live sender count. Once it hits zero the receiver drains what is queued and then
    /// reports disconnect.
    senders: usize,
    /// Cleared when the single receiver drops; sends then fail closed.
    receiver_alive: bool,
    /// Set by an explicit close from either handle, independently of the counts.
    closed: bool,
    /// The receiver's waker, woken when an item is pushed or the last sender drops.
    recv_waker: Option<Waker>,
    /// Wakers of senders parked on a full bounded channel.
    send_wakers: WakerList,
    /// Wakes and waker drops that are due.
    effects: Vec<Effect>,
}

impl<T> View for Chan<T> {
    type V = ChanState<T>;

    closed spec fn view(&self) -> ChanState<T> {
        ChanState {
            cap: self.flavor.spec_cap(),
            queue: self.flavor@,
            senders: self.senders as nat,
            receiver_alive: self.receiver_alive,
            closed: self.closed,
            recv_waker: self.recv_waker,
            send_wakers: self.send_wakers.entries(),
            next_send_id: self.send_wakers.next(),
            effects: self.effects@,
        }
    }
}

impl<T> Chan<T> {
    /// Whether the queue is well-formed; the rest of the state is unconstrained.
    pub closed spec fn wf(&self) -> bool {
        self.flavor.wf()
    }

    /// A well-formed channel is in a valid state.
    pub proof fn lemma_valid(&self)
        requires
            self.wf(),
        ensures
            self@.valid(),
    {
        self.flavor.lemma_within_capacity();
    }

    /// A bounded channel with one sender and its receiver.
    pub fn bounded(cap: usize) -> (chan: Self)
        requires
            cap > 0,
        ensures
            chan.wf(),
            chan@ == ChanState::<T>::opened(Some(cap as nat)),
    {
        Self::new(Flavor::bounded(cap))
    }

    /// An unbounded channel with one sender and its receiver.
    pub fn unbounded() -> (chan: Self)
        ensures
            chan.wf(),
            chan@ == ChanState::<T>::opened(None),
    {
        Self::new(Flavor::unbounded())
    }

    fn new(flavor: Flavor<T>) -> (chan: Self)
        requires
            flavor.wf(),
            flavor@ == Seq::<T>::empty(),
        ensures
            chan.wf(),
            chan@ == ChanState::<T>::opened(flavor.spec_cap()),
    {
        Chan {
            flavor,
            senders: 1,
            receiver_alive: true,
            closed: false,
            recv_waker: None,
            send_wakers: WakerList::new(),
            effects: Vec::new(),
        }
    }

    /// The capacity, or `None` when unbounded.
    pub fn cap(&self) -> (c: Option<usize>)
        ensures
            match c {
                Some(n) => self@.cap == Some(n as nat),
                None => self@.cap == None::<nat>,
            },
    {
        self.flavor.cap()
    }

    /// The number of queued items.
    pub fn len(&self) -> (n: usize)
        requires
            self.wf(),
        ensures
            n == self@.queue.len(),
    {
        self.flavor.len()
    }

    /// Whether no item is queued.
    pub fn is_empty(&self) -> (b: bool)
        requires
            self.wf(),
        ensures
            b == (self@.queue.len() == 0),
    {
        self.flavor.is_empty()
    }

    /// Whether the queue is at capacity.
    pub fn is_full(&self) -> (b: bool)
        requires
            self.wf(),
        ensures
            b == self@.full(),
    {
        self.flavor.is_full()
    }

    /// Whether the receiver is alive.
    pub fn receiver_alive(&self) -> (b: bool)
        ensures
            b == self@.receiver_alive,
    {
        self.receiver_alive
    }

    /// The number of live senders.
    pub fn senders(&self) -> (n: usize)
        ensures
            n == self@.senders,
    {
        self.senders
    }

    /// Counts one more sender.
    pub fn incr_senders(&mut self)
        requires
            old(self).wf(),
            old(self)@.senders < usize::MAX,
        ensures
            final(self).wf(),
            final(self)@ == old(self)@.sender_cloned(),
    {
        self.senders = self.senders + 1;
    }

    /// Counts one sender less, returning the count before, so that the caller can detect
    /// the last sender leaving.
    pub fn decr_senders(&mut self) -> (before: usize)
        requires
            old(self).wf(),
            old(self)@.senders > 0,
        ensures
            final(self).wf(),
            before == old(self)@.senders,
            final(self)@ == (ChanState { senders: (before - 1) as nat, ..old(self)@ }),
    {
        let n: usize = self.senders;
        self.senders = n - 1;
        n
    }

    /// Marks the receiver as gone.
    pub fn clear_receiver(&mut self)
        requires
            old(self).wf(),
        ensures
            final(self).wf(),
            final(self)@ == (ChanState { receiver_alive: false, ..old(self)@ }),
    {
        self.receiver_alive = false;
    }

    /// Marks the channel explicitly closed and wakes a parked recv, so that it observes the
    /// disconnection. The close goes on with [`Closing::finish`] once that wake is
    /// performed. Idempotent: a repeat skips the redundant wakes.
    pub fn close(&mut self) -> (closing: Closing)
        requires
            old(self).wf(),
        ensures
            final(self).wf(),
            closing.newly == !old(self)@.closed,
            final(self)@ == old(self)@.closed_now(),
    {
        if self.closed {
            return Closing { newly: false };
        }
        self.closed = true;
        self.wake_receiver();
        Closing { newly: true }
    }

    /// Whether [`close`](Self::close) has been called.
    pub fn is_closed(&self) -> (b: bool)
        ensures
            b == self@.closed,
    {
        self.closed
    }

    /// Moves the receiver's waker out and records its wake.
    pub fn wake_receiver(&mut self)
        requires
            old(self).wf(),
        ensures
            final(self).wf(),
            final(self)@ == old(self)@.receiver_woken(),
    {
        let waker = self.recv_waker.take();
        record_wake(&mut self.effects, waker);
    }

    /// Stores the receiver's waker, replacing an earlier one. Once the channel is terminal
    /// (the receiver is gone, every sender has dropped, or it was closed) the waker is not
    /// kept: a terminal recv never clears it.
    pub fn register_recv_waker(&mut self, waker: Waker)
        requires
            old(self).wf(),
        ensures
            final(self).wf(),
            final(self)@ == old(self)@.recv_waker_registered(waker),
    {
        if !self.receiver_alive || self.senders == 0 || self.closed {
            self.effects.push(Effect::Discard(waker));
            return;
        }
        let replaced = self.recv_waker.take();
        self.recv_waker = Some(waker);
        record_discard(&mut self.effects, replaced);
    }

    /// Drops the receiver's registered waker: used when a pending `recv` is canceled or
    /// completes disconnected, so that its waker is not retained.
    pub fn clear_recv_waker(&mut self)
        requires
            old(self).wf(),
        ensures
            final(self).wf(),
            final(self)@ == old(self)@.recv_waker_cleared(),
    {
        let waker = self.recv_waker.take();
        record_discard(&mut self.effects, waker);
    }

    /// Whether a receiver waker is currently registered.
    pub fn recv_waker_registered(&self) -> (b: bool)
        ensures
            b == (self@.recv_waker is Some),
    {
        self.recv_waker.is_some()
    }

    /// Registers a parked sender's waker, returning a stable id for later removal.
    pub fn add_send_waker(&mut self, waker: Waker) -> (id: u64)
        requires
            old(self).wf(),
        ensures
            final(self).wf(),
            id == old(self)@.next_send_id,
            final(self)@ == old(self)@.send_waker_added(waker),
    {
        self.send_wakers.insert(waker)
    }

    /// Removes the sender's waker registered under `id`, if still present, and records its
    /// drop.
    pub fn remove_send_waker(&mut self, id: u64)
        requires
            old(self).wf(),
        ensures
            final(self).wf(),
            final(self)@ == old(self)@.send_waker_removed(Some(id)),
    {
        let waker = self.send_wakers.remove(id);
        record_discard(&mut self.effects, waker);
    }

    /// The number of registered send-wakers.
    pub fn send_wakers_len(&self) -> (n: usize)
        ensures
            n == self@.send_wakers.len(),
    {
        self.send_wakers.len()
    }

    /// Moves every parked sender's waker out and records the wakes, in registration order.
    pub fn wake_senders(&mut self)
        requires
            old(self).wf(),
        ensures
            final(self).wf(),
            final(self)@ == old(self)@.senders_woken(),
    {
        let wakers = self.send_wakers.take_all();
        record_wakes(&mut self.effects, wakers);
    }

    /// Pushes if there is room; returns `Err(item)` when a bounded channel is full.
    pub fn try_push(&mut self, item: T) -> (r: Result<(), T>)
        requires
            old(self).wf(),
            old(self)@.countable(),
        ensures
            final(self).wf(),
            old(self)@.full() ==> r == Err::<(), T>(item) && final(self)@ == old(self)@,
            !old(self)@.full() ==> {
                &&& r == Ok::<(), T>(())
                &&& final(self)@ == old(self)@.pushed(item)
            },
    {
        self.flavor.try_push(item)
    }

    /// Removes and returns the oldest item, or `None` when the queue is empty.
    pub fn pop(&mut self) -> (r: Option<T>)
        requires
            old(self).wf(),
        ensures
            final(self).wf(),
            old(self)@.queue.len() > 0 ==> {
                &&& r == Some(old(self)@.queue[0])
                &&& final(self)@ == old(self)@.popped()
            },
            old(self)@.queue.len() == 0 ==> r == None::<T> && final(self)@ == old(self)@,
    {
        self.flavor.pop()
    }

    /// Moves out the effects that are due. The caller performs them, in order, without
    /// holding the channel.
    pub fn take_effects(&mut self) -> (effects: Vec<Effect>)
        requires
            old(self).wf(),
        ensures
            final(self).wf(),
            effects@ == old(self)@.effects,
            final(self)@ == (ChanState { effects: Seq::empty(), ..old(self)@ }),
    {
        take_effects(&mut self.effects)
    }
}

/// A close under way: the channel is closed and the wake of the receiving side is due. Once
/// it is performed, [`finish`](Self::finish) wakes the senders.
#[must_use]
pub struct Closing {
    /// Whether this close found the channel open. If not, there is nothing to finish.
    pub newly: bool,
}

impl Closing {
    /// Ends the close by waking the parked senders, so that they fail closed. Returns
    /// whether it closed a still-open channel.
    pub fn finish<T>(self, chan: &mut Chan<T>) -> (b: bool)
        requires
            old(chan).wf(),
        ensures
            final(chan).wf(),
            b == self.newly,
            final(chan)@ == (if self.newly {
                old(chan)@.senders_woken()
            } else {
                old(chan)@
            }),
    {
        if self.newly {
            chan.wake_senders();
        }
        self.newly
    }
}

} // verus!
