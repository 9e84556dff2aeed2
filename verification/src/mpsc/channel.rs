//! The `mpsc` channel handles, [`Sender`] and [`Receiver`], shared by both flavors.

use std::marker::PhantomData;
use std::task::Waker;

use vstd::prelude::*;

use super::chan::{Chan, Closing};
use super::error::{TryRecvError, TrySendError};
use super::model::SendState;
use super::recv::Recv;
use super::send::Send;
use crate::step::{DropStep, Step};

verus! {

/// The sending half of an `mpsc` channel: one live producer.
pub struct Sender<T> {
    marker: PhantomData<T>,
}

impl<T> Sender<T> {
    pub(super) fn new() -> Self {
        Sender { marker: PhantomData }
    }

    /// Pushes an item without waiting. Returns [`TrySendError::Full`] when the channel is
    /// at capacity, or [`TrySendError::Closed`] when the receiver is gone or the channel
    /// was closed; either way the item is carried back.
    pub fn try_send(&self, chan: &mut Chan<T>, item: T) -> (r: Result<(), TrySendError<T>>)
        requires
            old(chan).wf(),
            old(chan)@.countable(),
        ensures
            final(chan).wf(),
            r == old(chan)@.try_send_result(item),
            final(chan)@ == old(chan)@.try_send(item),
    {
        if !chan.receiver_alive() || chan.is_closed() {
            return Err(TrySendError::Closed(item));
        }
        match chan.try_push(item) {
            Ok(()) => {
                chan.wake_receiver();
                Ok(())
            },
            Err(item) => Err(TrySendError::Full(item)),
        }
    }

    /// The channel's capacity, or `None` if the channel is unbounded.
    pub fn capacity(&self, chan: &Chan<T>) -> (c: Option<usize>)
        ensures
            match c {
                Some(n) => chan@.cap == Some(n as nat),
                None => chan@.cap == None::<nat>,
            },
    {
        chan.cap()
    }

    /// The number of currently-queued items.
    pub fn len(&self, chan: &Chan<T>) -> (n: usize)
        requires
            chan.wf(),
        ensures
            n == chan@.queue.len(),
    {
        chan.len()
    }

    /// Returns `true` if no items are queued.
    pub fn is_empty(&self, chan: &Chan<T>) -> (b: bool)
        requires
            chan.wf(),
        ensures
            b == (chan@.queue.len() == 0),
    {
        chan.is_empty()
    }

    /// Returns `true` if the channel is at capacity.
    pub fn is_full(&self, chan: &Chan<T>) -> (b: bool)
        requires
            chan.wf(),
        ensures
            b == chan@.full(),
    {
        chan.is_full()
    }

    /// Returns `true` once the receiver has been dropped or the channel has been
    /// [`close`](Self::close)d.
    pub fn is_closed(&self, chan: &Chan<T>) -> (b: bool)
        ensures
            b == chan@.send_closed(),
    {
        !chan.receiver_alive() || chan.is_closed()
    }

    /// Closes the channel. Every subsequent send fails closed, and the receiver observes
    /// disconnect once it has drained what is already queued. The close is `newly` made if
    /// this call closed a still-open channel, and not if it was already closed, whether by
    /// a prior `close` or by the receiver dropping. It goes on with [`Closing::finish`].
    pub fn close(&self, chan: &mut Chan<T>) -> (closing: Closing)
        requires
            old(chan).wf(),
        ensures
            final(chan).wf(),
            closing.newly == !old(chan)@.send_closed(),
            final(chan)@ == (if closing.newly {
                old(chan)@.closed_now()
            } else {
                old(chan)@
            }),
    {
        if self.is_closed(chan) {
            return Closing { newly: false };
        }
        chan.close()
    }

    /// Returns a future that sends `item`, awaiting capacity when a bounded channel is
    /// full. Resolves to [`SendError`](super::SendError), carrying the item, if the
    /// channel is closed.
    pub fn send(&self, item: T) -> (fut: Send<'_, T>)
        ensures
            fut@ == SendState::started(item),
    {
        Send::new(self, item)
    }

    /// Adds another producer.
    pub fn clone(&self, chan: &mut Chan<T>) -> (other: Self)
        requires
            old(chan).wf(),
            old(chan)@.senders < usize::MAX,
        ensures
            final(chan).wf(),
            final(chan)@ == old(chan)@.sender_cloned(),
    {
        chan.incr_senders();
        Sender::new()
    }

    /// Ends this producer. The last one to go wakes a parked receiver, so that it observes
    /// the disconnection.
    pub fn drop(self, chan: &mut Chan<T>)
        requires
            old(chan).wf(),
            old(chan)@.senders > 0,
        ensures
            final(chan).wf(),
            final(chan)@ == old(chan)@.sender_dropped(),
    {
        if chan.decr_senders() == 1 {
            chan.wake_receiver();
        }
    }
}

/// The receiving half of an `mpsc` channel: the single consumer.
pub struct Receiver<T> {
    marker: PhantomData<T>,
}

impl<T> Receiver<T> {
    pub(super) fn new() -> Self {
        Receiver { marker: PhantomData }
    }

    /// Pops an item without waiting. Returns [`TryRecvError::Empty`] when nothing is
    /// queued, or [`TryRecvError::Disconnected`] when the queue is empty and every sender
    /// has dropped or the channel was closed.
    pub fn try_recv(&mut self, chan: &mut Chan<T>) -> (r: Result<T, TryRecvError>)
        requires
            old(chan).wf(),
        ensures
            final(chan).wf(),
            r == old(chan)@.try_recv_result(),
            final(chan)@ == old(chan)@.try_recv(),
    {
        match chan.pop() {
            Some(item) => {
                chan.wake_senders();
                Ok(item)
            },
            None => {
                if self.is_closed(chan) {
                    Err(TryRecvError::Disconnected)
                } else {
                    Err(TryRecvError::Empty)
                }
            },
        }
    }

    /// Returns a future that resolves to the next item, or `None` once the channel is empty
    /// and disconnected.
    pub fn recv(&mut self) -> (fut: Recv<'_, T>)
        ensures
            !fut.done(),
    {
        Recv::new(self)
    }

    /// Returns an iterator over the items currently queued, without waiting: it yields each
    /// ready item and stops at the first empty-or-disconnected poll.
    pub fn try_iter(&mut self) -> (it: TryIter<'_, T>)
        ensures
            *it.receiver == *old(self),
            *final(self) == *final(it.receiver),
    {
        TryIter { receiver: self }
    }

    /// Takes the first step of a receive, shared by the [`Recv`] future and by polling the
    /// receiver as a stream. Pops an item, waking parked senders, or reports `None` once
    /// disconnected, dropping a waker left registered by an earlier poll. Otherwise it
    /// asks for a waker: after [`register_recv`](Self::register_recv) the receive goes on
    /// with [`recheck_recv`](Self::recheck_recv).
    pub fn poll_recv(&mut self, chan: &mut Chan<T>) -> (r: Step<Option<T>>)
        requires
            old(chan).wf(),
        ensures
            final(chan).wf(),
            old(chan)@.recv_ready() ==> {
                &&& r == Step::Ready(old(chan)@.received_result())
                &&& final(chan)@ == old(chan)@.received()
            },
            !old(chan)@.recv_ready() ==> {
                &&& r == Step::<Option<T>>::Register
                &&& final(chan)@ == old(chan)@
            },
    {
        if let Some(item) = chan.pop() {
            chan.wake_senders();
            return Step::Ready(Some(item));
        }
        if self.is_closed(chan) {
            chan.clear_recv_waker();
            return Step::Ready(None);
        }
        Step::Register
    }

    /// Registers `waker` for the parked receive, replacing an earlier one.
    pub fn register_recv(&mut self, chan: &mut Chan<T>, waker: Waker)
        requires
            old(chan).wf(),
        ensures
            final(chan).wf(),
            final(chan)@ == old(chan)@.recv_waker_registered(waker),
    {
        chan.register_recv_waker(waker);
    }

    /// Takes the step after a registration. Cloning the waker may have run code that
    /// pushed an item or disconnected the channel, so the receive looks again before it
    /// parks. A waker just registered stays when an item is delivered, and is dropped
    /// when the channel turns out disconnected.
    pub fn recheck_recv(&mut self, chan: &mut Chan<T>) -> (r: Step<Option<T>>)
        requires
            old(chan).wf(),
        ensures
            final(chan).wf(),
            old(chan)@.recv_ready() ==> {
                &&& r == Step::Ready(old(chan)@.received_result())
                &&& final(chan)@ == old(chan)@.received()
            },
            !old(chan)@.recv_ready() ==> {
                &&& r == Step::<Option<T>>::Pending
                &&& final(chan)@ == old(chan)@
            },
    {
        match self.poll_recv(chan) {
            Step::Register => Step::Pending,
            other => other,
        }
    }

    /// The number of currently-queued items.
    pub fn len(&self, chan: &Chan<T>) -> (n: usize)
        requires
            chan.wf(),
        ensures
            n == chan@.queue.len(),
    {
        chan.len()
    }

    /// Returns `true` if no items are queued.
    pub fn is_empty(&self, chan: &Chan<T>) -> (b: bool)
        requires
            chan.wf(),
        ensures
            b == (chan@.queue.len() == 0),
    {
        chan.is_empty()
    }

    /// Returns `true` once every sender has been dropped or the channel has been
    /// [`close`](Self::close)d. Items may still be queued for draining.
    pub fn is_closed(&self, chan: &Chan<T>) -> (b: bool)
        ensures
            b == chan@.recv_closed(),
    {
        chan.senders() == 0 || chan.is_closed()
    }

    /// Closes the channel. Every subsequent send fails closed; this receiver can still
    /// drain what is already queued, after which it observes disconnect. The close is
    /// `newly` made if this call closed a still-open channel, and not if it was already
    /// closed, whether by a prior `close` or by every sender dropping. It goes on with
    /// [`Closing::finish`].
    pub fn close(&self, chan: &mut Chan<T>) -> (closing: Closing)
        requires
            old(chan).wf(),
        ensures
            final(chan).wf(),
            closing.newly == !old(chan)@.recv_closed(),
            final(chan)@ == (if closing.newly {
                old(chan)@.closed_now()
            } else {
                old(chan)@
            }),
    {
        if self.is_closed(chan) {
            return Closing { newly: false };
        }
        chan.close()
    }

    /// Whether a stream over this receiver is over: the channel is drained and
    /// disconnected, so that polling only gives `None`.
    pub fn is_terminated(&self, chan: &Chan<T>) -> (b: bool)
        requires
            chan.wf(),
        ensures
            b == (chan@.recv_closed() && chan@.queue.len() == 0),
    {
        self.is_closed(chan) && chan.is_empty()
    }

    /// Ends the consumer: sends fail closed from here on, and parked senders are woken. Once
    /// those wakes are performed, [`Dropping::step`] releases what the receiver leaves
    /// behind.
    pub fn drop(self, chan: &mut Chan<T>) -> (dropping: Dropping)
        requires
            old(chan).wf(),
        ensures
            final(chan).wf(),
            dropping.clears(),
            final(chan)@ == old(chan)@.receiver_gone(),
    {
        chan.clear_receiver();
        chan.wake_senders();
        Dropping { clears: true }
    }
}

/// A receiver being ended: its registered waker is dropped first, then each queued item in
/// turn. Dropping either runs foreign code, which sees the channel as it is by then.
#[must_use]
pub struct Dropping {
    clears: bool,
}

impl Dropping {
    /// Whether the registered waker is still to be dropped.
    pub closed spec fn clears(&self) -> bool {
        self.clears
    }

    /// Takes the next step.
    pub fn step<T>(&mut self, chan: &mut Chan<T>) -> (r: DropStep<T>)
        requires
            old(chan).wf(),
        ensures
            final(chan).wf(),
            !final(self).clears(),
            old(self).clears() ==> {
                &&& r == DropStep::<T>::Perform
                &&& final(chan)@ == old(chan)@.recv_waker_cleared()
            },
            !old(self).clears() && old(chan)@.queue.len() > 0 ==> {
                &&& r == DropStep::Release(old(chan)@.queue[0])
                &&& final(chan)@ == old(chan)@.popped()
            },
            !old(self).clears() && old(chan)@.queue.len() == 0 ==> {
                &&& r == DropStep::<T>::Done
                &&& final(chan)@ == old(chan)@
            },
    {
        if self.clears {
            self.clears = false;
            chan.clear_recv_waker();
            return DropStep::Perform;
        }
        match chan.pop() {
            Some(item) => DropStep::Release(item),
            None => DropStep::Done,
        }
    }

    /// Leaves the registered waker where it is and goes on with the queue: what is left to
    /// do when the wake of a sender has failed.
    pub fn skip_clear(&mut self)
        ensures
            !final(self).clears(),
    {
        self.clears = false;
    }
}

/// A non-blocking iterator over the currently-available items of a [`Receiver`], returned
/// by [`Receiver::try_iter`].
pub struct TryIter<'a, T> {
    pub receiver: &'a mut Receiver<T>,
}

impl<'a, T> TryIter<'a, T> {
    /// Yields the next queued item; stops when the channel is empty or disconnected.
    pub fn next(&mut self, chan: &mut Chan<T>) -> (r: Option<T>)
        requires
            old(chan).wf(),
        ensures
            final(chan).wf(),
            r == old(chan)@.received_result(),
            final(chan)@ == old(chan)@.try_recv(),
    {
        self.receiver.try_recv(chan).ok()
    }
}

} // verus!
