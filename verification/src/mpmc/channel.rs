//! The `mpmc` channel handles, [`Sender`] and [`Receiver`], shared by both flavors.

use std::marker::PhantomData;
use std::task::Waker;

use vstd::prelude::*;

use super::chan::{Chan, TakeStep};
use super::model::RecvState;
use super::recv::Recv;
use super::send::Send;
use crate::mpsc::error::{TryRecvError, TrySendError};
use crate::mpsc::model::SendState;
use crate::step::{DropStep, Step};

verus! {

/// The sending half of an `mpmc` channel: one live producer.
pub struct Sender<T> {
    marker: PhantomData<T>,
}

impl<T> Sender<T> {
    pub(super) fn new() -> Self {
        Sender { marker: PhantomData }
    }

    /// Pushes an item without waiting. Returns [`TrySendError::Full`] when the channel is
    /// at capacity, or [`TrySendError::Closed`] when every receiver is gone or the channel
    /// was closed; either way the item is carried back.
    pub fn try_send(&self, chan: &mut Chan<T>, item: T) -> (r: Result<(), TrySendError<T>>)
        requires
            old(chan).wf(),
            old(chan)@.countable(),
        ensures
            final(chan).wf(),
            r == old(chan)@.try_send_result(item),
            final(chan)@ == old(chan)@.try_send(item),
    {
        if !chan.receiver_alive() || chan.is_closed() {
            return Err(TrySendError::Closed(item));
        }
        match chan.try_push(item) {
            Ok(()) => {
                chan.wake_receivers();
                Ok(())
            },
            Err(item) => Err(TrySendError::Full(item)),
        }
    }

    /// The channel's capacity, or `None` if the channel is unbounded.
    ///
    /// A bounded channel queues at most this many items. A receive interrupted while it
    /// wakes senders keeps its one item in transit until the next receive, so that
    /// [`len`](Self::len) can briefly exceed this, never by more than one.
    pub fn capacity(&self, chan: &Chan<T>) -> (c: Option<usize>)
        ensures
            match c {
                Some(n) => chan@.cap == Some(n as nat),
                None => chan@.cap == None::<nat>,
            },
    {
        chan.cap()
    }

    /// The number of items currently in the channel, the one in transit included.
    pub fn len(&self, chan: &Chan<T>) -> (n: usize)
        requires
            chan.wf(),
            chan@.len_fits(),
        ensures
            n == chan@.items().len(),
    {
        chan.len()
    }

    /// Returns `true` if the channel has no items left to receive.
    pub fn is_empty(&self, chan: &Chan<T>) -> (b: bool)
        requires
            chan.wf(),
        ensures
            b == (chan@.items().len() == 0),
    {
        chan.is_empty()
    }

    /// Returns `true` if the channel is at capacity.
    pub fn is_full(&self, chan: &Chan<T>) -> (b: bool)
        requires
            chan.wf(),
        ensures
            b == chan@.full(),
    {
        chan.is_full()
    }

    /// Returns `true` once every receiver has been dropped.
    pub fn is_closed(&self, chan: &Chan<T>) -> (b: bool)
        ensures
            b == (chan@.receivers == 0),
    {
        !chan.receiver_alive()
    }

    /// Returns a future that sends `item`, awaiting capacity when a bounded channel is
    /// full. Resolves to [`SendError`](super::SendError), carrying the item, if the
    /// channel is closed.
    pub fn send(&self, item: T) -> (fut: Send<'_, T>)
        ensures
            fut@ == SendState::started(item),
    {
        Send::new(self, item)
    }

    /// Adds another producer.
    pub fn clone(&self, chan: &mut Chan<T>) -> (other: Self)
        requires
            old(chan).wf(),
            old(chan)@.senders < usize::MAX,
        ensures
            final(chan).wf(),
            final(chan)@ == old(chan)@.sender_cloned(),
    {
        chan.incr_senders();
        Sender::new()
    }

    /// Ends this producer. The last one to go wakes every parked receiver, so that each
    /// observes the disconnection.
    pub fn drop(self, chan: &mut Chan<T>)
        requires
            old(chan).wf(),
            old(chan)@.senders > 0,
        ensures
            final(chan).wf(),
            final(chan)@ == old(chan)@.sender_dropped(),
    {
        if chan.decr_senders() == 1 {
            chan.wake_receivers();
        }
    }
}

/// The receiving half of an `mpmc` channel: one live consumer. The channel stays open for
/// sends until the last one drops.
pub struct Receiver<T> {
    marker: PhantomData<T>,
    /// This receiver's stream-registration id, so that polling it as a stream replaces the
    /// registration rather than accumulate entries. Each clone has its own.
    stream_waker_id: Option<u64>,
}

impl<T> Receiver<T> {
    /// The id under which this receiver's waker is registered when polled as a stream.
    pub closed spec fn stream_id(&self) -> Option<u64> {
        self.stream_waker_id
    }

    pub(super) fn new() -> (rx: Self)
        ensures
            rx.stream_id() is None,
    {
        Receiver { marker: PhantomData, stream_waker_id: None }
    }

    /// Pops an item without waiting: [`TryRecvError::Empty`] when nothing is left, or
    /// [`TryRecvError::Disconnected`] when in addition every sender has dropped or the
    /// channel was closed. On [`Step::Perform`] the item is in transit while parked senders
    /// are woken: the caller performs the effects, then calls again.
    pub fn try_recv(&self, chan: &mut Chan<T>) -> (r: Step<Result<T, TryRecvError>>)
        requires
            old(chan).wf(),
        ensures
            final(chan).wf(),
            r == old(chan)@.try_recv_step(),
            final(chan)@ == old(chan)@.take_stepped(),
    {
        match chan.try_take() {
            TakeStep::Item(item) => Step::Ready(Ok(item)),
            TakeStep::Wake => Step::Perform,
            TakeStep::Empty => Step::Ready(Err(self.why_nothing(chan))),
        }
    }

    fn why_nothing(&self, chan: &Chan<T>) -> (e: TryRecvError)
        ensures
            e == chan@.nothing_received(),
    {
        if chan.senders() == 0 || chan.is_closed() {
            TryRecvError::Disconnected
        } else {
            TryRecvError::Empty
        }
    }

    /// Returns a future that resolves to the next item, or `None` once the channel is empty
    /// and disconnected. Several consumers may await concurrently: a delivered item goes to
    /// exactly one of them, while the rest stay parked.
    pub fn recv(&self) -> (fut: Recv<'_, T>)
        ensures
            fut@ == (RecvState { done: false, waker_id: None }),
    {
        Recv::new(self)
    }

    /// Returns an iterator over the items currently queued, without waiting: it yields each
    /// ready item and stops at the first empty-or-disconnected poll.
    pub fn try_iter(&self) -> (it: TryIter<'_, T>)
        ensures
            it.receiver == self,
    {
        TryIter { receiver: self }
    }

    /// Takes the first step of a receive, shared by the [`Recv`] future and by polling the
    /// receiver as a stream; `slot` holds the caller's registration.
    ///
    /// A registration left by an earlier poll is removed first, and its waker dropped
    /// before any item is touched. Then the receive takes an item (setting it aside while
    /// parked senders are woken) or reports `None` once disconnected. Otherwise it asks
    /// for a waker: after [`register_recv`](Self::register_recv) it goes on with
    /// [`recheck_recv`](Self::recheck_recv).
    pub fn poll_recv(&self, chan: &mut Chan<T>, slot: &mut Option<u64>) -> (r: Step<Option<T>>)
        requires
            old(chan).wf(),
        ensures
            final(chan).wf(),
            r == old(chan)@.polled_step(*old(slot)),
            *final(slot) == None::<u64>,
            final(chan)@ == old(chan)@.polled(*old(slot)),
    {
        Self::poll_slot(chan, slot)
    }

    /// Registers `waker` for the parked receive and records the id in `slot`.
    pub fn register_recv(&self, chan: &mut Chan<T>, slot: &mut Option<u64>, waker: Waker)
        requires
            old(chan).wf(),
            *old(slot) is None,
        ensures
            final(chan).wf(),
            *final(slot) == Some(old(chan)@.next_recv_id),
            final(chan)@ == old(chan)@.recv_waker_added(waker),
    {
        *slot = Some(chan.add_recv_waker(waker));
    }

    /// Takes the step after a registration. Cloning the waker may have run code that pushed
    /// an item or disconnected the channel, so the receive looks again before it parks.
    /// The registration stays when an item is delivered, and is removed when the channel
    /// turns out disconnected.
    pub fn recheck_recv(&self, chan: &mut Chan<T>, slot: &mut Option<u64>) -> (r: Step<Option<T>>)
        requires
            old(chan).wf(),
        ensures
            final(chan).wf(),
            r == old(chan)@.rechecked_step(),
            *final(slot) == old(chan)@.rechecked_slot(*old(slot)),
            final(chan)@ == old(chan)@.rechecked(*old(slot)),
    {
        Self::recheck_slot(chan, slot)
    }

    fn poll_slot(chan: &mut Chan<T>, slot: &mut Option<u64>) -> (r: Step<Option<T>>)
        requires
            old(chan).wf(),
        ensures
            final(chan).wf(),
            r == old(chan)@.polled_step(*old(slot)),
            *final(slot) == None::<u64>,
            final(chan)@ == old(chan)@.polled(*old(slot)),
    {
        if let Some(stale) = slot.take() {
            chan.remove_recv_waker(stale);
            return Step::Perform;
        }
        match chan.try_take() {
            TakeStep::Item(item) => Step::Ready(Some(item)),
            TakeStep::Wake => Step::Perform,
            TakeStep::Empty => {
                if chan.senders() == 0 || chan.is_closed() {
                    Step::Ready(None)
                } else {
                    Step::Register
                }
            },
        }
    }

    fn recheck_slot(chan: &mut Chan<T>, slot: &mut Option<u64>) -> (r: Step<Option<T>>)
        requires
            old(chan).wf(),
        ensures
            final(chan).wf(),
            r == old(chan)@.rechecked_step(),
            *final(slot) == old(chan)@.rechecked_slot(*old(slot)),
            final(chan)@ == old(chan)@.rechecked(*old(slot)),
    {
        match chan.try_take() {
            TakeStep::Item(item) => Step::Ready(Some(item)),
            TakeStep::Wake => Step::Perform,
            TakeStep::Empty => {
                if chan.senders() == 0 || chan.is_closed() {
                    if let Some(id) = slot.take() {
                        chan.remove_recv_waker(id);
                    }
                    Step::Ready(None)
                } else {
                    Step::Pending
                }
            },
        }
    }

    /// [`poll_recv`](Self::poll_recv) with the receiver's own stream registration.
    pub fn poll_next(&mut self, chan: &mut Chan<T>) -> (r: Step<Option<T>>)
        requires
            old(chan).wf(),
        ensures
            final(chan).wf(),
            r == old(chan)@.polled_step(old(self).stream_id()),
            final(self).stream_id() == None::<u64>,
            final(chan)@ == old(chan)@.polled(old(self).stream_id()),
    {
        Self::poll_slot(chan, &mut self.stream_waker_id)
    }

    /// [`register_recv`](Self::register_recv) with the receiver's own stream registration.
    pub fn register_next(&mut self, chan: &mut Chan<T>, waker: Waker)
        requires
            old(chan).wf(),
            old(self).stream_id() is None,
        ensures
            final(chan).wf(),
            final(self).stream_id() == Some(old(chan)@.next_recv_id),
            final(chan)@ == old(chan)@.recv_waker_added(waker),
    {
        self.stream_waker_id = Some(chan.add_recv_waker(waker));
    }

    /// [`recheck_recv`](Self::recheck_recv) with the receiver's own stream registration.
    pub fn recheck_next(&mut self, chan: &mut Chan<T>) -> (r: Step<Option<T>>)
        requires
            old(chan).wf(),
        ensures
            final(chan).wf(),
            r == old(chan)@.rechecked_step(),
            final(self).stream_id() == old(chan)@.rechecked_slot(old(self).stream_id()),
            final(chan)@ == old(chan)@.rechecked(old(self).stream_id()),
    {
        Self::recheck_slot(chan, &mut self.stream_waker_id)
    }

    /// The number of items currently in the channel, the one in transit included.
    pub fn len(&self, chan: &Chan<T>) -> (n: usize)
        requires
            chan.wf(),
            chan@.len_fits(),
        ensures
            n == chan@.items().len(),
    {
        chan.len()
    }

    /// Returns `true` if the channel has no items left to receive.
    pub fn is_empty(&self, chan: &Chan<T>) -> (b: bool)
        requires
            chan.wf(),
        ensures
            b == (chan@.items().len() == 0),
    {
        chan.is_empty()
    }

    /// Whether a stream over this receiver is over: nothing is left, every sender has
    /// dropped, and no registration is outstanding. While one is, the stream has to be
    /// polled once more to remove it.
    pub fn is_terminated(&self, chan: &Chan<T>) -> (b: bool)
        requires
            chan.wf(),
        ensures
            b == (self.stream_id() is None && chan@.senders == 0 && chan@.items().len() == 0),
    {
        self.stream_waker_id.is_none() && chan.senders() == 0 && chan.is_empty()
    }

    /// Adds another consumer, with no stream registration of its own.
    pub fn clone(&self, chan: &mut Chan<T>) -> (other: Self)
        requires
            old(chan).wf(),
            old(chan)@.receivers < usize::MAX,
        ensures
            final(chan).wf(),
            final(chan)@ == old(chan)@.receiver_cloned(),
            other.stream_id() is None,
    {
        chan.incr_receivers();
        Receiver::new()
    }

    /// Ends this consumer. When it is the last one, parked senders are woken to fail
    /// closed. Once those wakes are performed, [`Dropping::step`] releases what the
    /// receiver leaves behind.
    pub fn drop(self, chan: &mut Chan<T>) -> (dropping: Dropping)
        requires
            old(chan).wf(),
            old(chan)@.receivers > 0,
        ensures
            final(chan).wf(),
            dropping.drains() == (old(chan)@.receivers == 1),
            dropping.stream_id() == self.stream_id(),
            final(chan)@ == old(chan)@.receiver_gone(),
    {
        let was_last = chan.decr_receivers() == 1;
        if was_last {
            chan.wake_senders();
        }
        Dropping { drains: was_last, stream_waker_id: self.stream_waker_id }
    }
}

/// A receiver being ended: the last one first drops every item left, each in turn, then
/// each drops its own stream registration. Dropping either runs foreign code, which sees
/// the channel as it is by then.
#[must_use]
pub struct Dropping {
    drains: bool,
    stream_waker_id: Option<u64>,
}

impl Dropping {
    /// Whether items are still to be dropped.
    pub closed spec fn drains(&self) -> bool {
        self.drains
    }

    /// The stream registration that is still to be removed.
    pub closed spec fn stream_id(&self) -> Option<u64> {
        self.stream_waker_id
    }

    /// Takes the next step.
    pub fn step<T>(&mut self, chan: &mut Chan<T>) -> (r: DropStep<T>)
        requires
            old(chan).wf(),
        ensures
            final(chan).wf(),
            old(self).drains() && old(chan)@.items().len() > 0 ==> {
                &&& r == DropStep::Release(old(chan)@.items()[0])
                &&& final(chan)@ == old(chan)@.released()
                &&& final(self).drains()
                &&& final(self).stream_id() == old(self).stream_id()
            },
            !(old(self).drains() && old(chan)@.items().len() > 0) ==> {
                &&& r == (if old(self).stream_id() is Some {
                    DropStep::<T>::Perform
                } else {
                    DropStep::<T>::Done
                })
                &&& final(chan)@ == old(chan)@.recv_waker_removed(old(self).stream_id())
                &&& !final(self).drains()
                &&& final(self).stream_id() is None
            },
    {
        if self.drains {
            if let Some(item) = chan.drain() {
                return DropStep::Release(item);
            }
            self.drains = false;
        }
        match self.stream_waker_id.take() {
            Some(id) => {
                chan.remove_recv_waker(id);
                DropStep::Perform
            },
            None => DropStep::Done,
        }
    }
}

/// A non-blocking iterator over the currently-available items of a [`Receiver`], returned
/// by [`Receiver::try_iter`].
pub struct TryIter<'a, T> {
    pub receiver: &'a Receiver<T>,
}

impl<'a, T> TryIter<'a, T> {
    /// Yields the next item; stops when the channel is empty or disconnected. On
    /// [`Step::Perform`] the caller performs the effects, then calls again.
    pub fn next(&mut self, chan: &mut Chan<T>) -> (r: Step<Option<T>>)
        requires
            old(chan).wf(),
        ensures
            final(chan).wf(),
            r == (match old(chan)@.take_step_result() {
                TakeStep::Item(item) => Step::Ready(Some(item)),
                TakeStep::Wake => Step::<Option<T>>::Perform,
                TakeStep::Empty => Step::Ready(None::<T>),
            }),
            final(self).receiver == old(self).receiver,
            final(chan)@ == old(chan)@.take_stepped(),
    {
        match self.receiver.try_recv(chan) {
            Step::Ready(received) => Step::Ready(received.ok()),
            _ => Step::Perform,
        }
    }
}

} // verus!
