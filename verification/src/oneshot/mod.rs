//! One-shot channel: a single value sent once from the producer to the consumer.
//!
//! The [`Sender`] delivers one value, consuming itself; the [`Receiver`] is itself a
//! steppable future and also offers a non-blocking [`Receiver::try_recv`].

pub mod behaviour;
pub mod laws;
pub mod model;

use std::marker::PhantomData;
use std::task::Waker;

use vstd::prelude::*;

use crate::effect::{record_discard, record_wake, take_effects, Effect};
use crate::step::Step;
use model::InnerState;

verus! {

/// The state shared by the two halves.
pub struct Inner<T> {
    /// The value, sent and not yet taken.
    value: Option<T>,
    /// The sender has dropped, so that the receiver observes [`Canceled`] if no value came.
    sender_dropped: bool,
    /// The receiver has dropped, so that the sender's `send` fails.
    receiver_dropped: bool,
    /// The parked receiver's waker.
    recv_waker: Option<Waker>,
    /// Wakes and waker drops that are due.
    effects: Vec<Effect>,
}

impl<T> View for Inner<T> {
    type V = InnerState<T>;

    closed spec fn view(&self) -> InnerState<T> {
        InnerState {
            value: self.value,
            sender_dropped: self.sender_dropped,
            receiver_dropped: self.receiver_dropped,
            recv_waker: self.recv_waker,
            effects: self.effects@,
        }
    }
}

impl<T> Inner<T> {
    /// Stores the receiver's waker, replacing an earlier one. Once the receiver is gone the
    /// waker is not kept.
    pub fn register_recv_waker(&mut self, waker: Waker)
        requires
            old(self)@.valid(),
        ensures
            final(self)@.valid(),
            final(self)@ == old(self)@.recv_waker_registered(waker),
    {
        if self.receiver_dropped {
            self.effects.push(Effect::Discard(waker));
            return;
        }
        let replaced = self.recv_waker.take();
        self.recv_waker = Some(waker);
        record_discard(&mut self.effects, replaced);
    }

    /// Moves the receiver's waker out and records its wake.
    pub fn wake_receiver(&mut self)
        ensures
            old(self)@.valid() ==> final(self)@.valid(),
            final(self)@ == old(self)@.receiver_woken(),
    {
        let waker = self.recv_waker.take();
        record_wake(&mut self.effects, waker);
    }

    /// Drops the receiver's registered waker.
    pub fn clear_recv_waker(&mut self)
        ensures
            old(self)@.valid() ==> final(self)@.valid(),
            final(self)@ == old(self)@.recv_waker_cleared(),
    {
        let waker = self.recv_waker.take();
        record_discard(&mut self.effects, waker);
    }

    /// Moves the value out, if it is there.
    pub fn take_value(&mut self) -> (value: Option<T>)
        ensures
            old(self)@.valid() ==> final(self)@.valid(),
            value == old(self)@.value,
            final(self)@ == old(self)@.taken(),
    {
        self.value.take()
    }

    /// Whether the sender is gone.
    pub fn sender_dropped(&self) -> (b: bool)
        ensures
            b == self@.sender_dropped,
    {
        self.sender_dropped
    }

    /// Whether the receiver is gone.
    pub fn receiver_dropped(&self) -> (b: bool)
        ensures
            b == self@.receiver_dropped,
    {
        self.receiver_dropped
    }

    /// Whether a receiver waker is currently registered.
    pub fn recv_waker_registered(&self) -> (b: bool)
        ensures
            b == (self@.recv_waker is Some),
    {
        self.recv_waker.is_some()
    }

    /// Moves out the effects that are due. The caller performs them, in order, without
    /// holding the channel.
    pub fn take_effects(&mut self) -> (effects: Vec<Effect>)
        ensures
            old(self)@.valid() ==> final(self)@.valid(),
            effects@ == old(self)@.effects,
            final(self)@ == (InnerState { effects: Seq::empty(), ..old(self)@ }),
    {
        take_effects(&mut self.effects)
    }
}

/// Creates a one-shot channel.
pub fn channel<T>() -> (r: (Inner<T>, Sender<T>, Receiver<T>))
    ensures
        r.0@.valid(),
        r.0@ == InnerState::<T>::opened(),
        !r.2.done(),
{
    let inner = Inner {
        value: None,
        sender_dropped: false,
        receiver_dropped: false,
        recv_waker: None,
        effects: Vec::new(),
    };
    (inner, Sender { marker: PhantomData }, Receiver { marker: PhantomData, done: false })
}

/// The sending half. Sends exactly one value, consuming itself.
pub struct Sender<T> {
    marker: PhantomData<T>,
}

impl<T> Sender<T> {
    /// Sends `value`. Returns `Err(value)` if the receiver has already dropped.
    pub fn send(self, inner: &mut Inner<T>, value: T) -> (r: Result<(), T>)
        requires
            old(inner)@.valid(),
            !old(inner)@.sender_dropped,
        ensures
            final(inner)@.valid(),
            r == (if old(inner)@.receiver_dropped {
                Err::<(), T>(value)
            } else {
                Ok::<(), T>(())
            }),
            final(inner)@ == old(inner)@.sent(value),
    {
        let r = if inner.receiver_dropped {
            Err(value)
        } else {
            inner.value = Some(value);
            inner.wake_receiver();
            Ok(())
        };
        self.drop(inner);
        r
    }

    /// Returns `true` once the receiver has dropped.
    pub fn is_closed(&self, inner: &Inner<T>) -> (b: bool)
        ensures
            b == inner@.receiver_dropped,
    {
        inner.receiver_dropped
    }

    /// Ends the sender. Without a value waiting, the receiver is woken so that it observes
    /// [`Canceled`].
    pub fn drop(self, inner: &mut Inner<T>)
        ensures
            old(inner)@.valid() ==> final(inner)@.valid(),
            final(inner)@ == old(inner)@.sender_gone(),
    {
        inner.sender_dropped = true;
        if inner.value.is_none() {
            inner.wake_receiver();
        }
    }
}

/// The receiving half. It is itself a future resolving to the sent value, or to
/// [`Canceled`] if the sender dropped without sending.
pub struct Receiver<T> {
    marker: PhantomData<T>,
    done: bool,
}

impl<T> Receiver<T> {
    /// Whether the value or the cancellation has been handed out.
    pub closed spec fn done(&self) -> bool {
        self.done
    }

    /// Takes the value without waiting: `Ok(Some(v))` if it has arrived, `Ok(None)` if not
    /// yet, `Err(Canceled)` if the sender dropped without sending. Once either has been
    /// handed out there is nothing more: `Ok(None)`.
    pub fn try_recv(&mut self, inner: &mut Inner<T>) -> (r: Result<Option<T>, Canceled>)
        requires
            old(inner)@.valid(),
        ensures
            final(inner)@.valid(),
            r == old(inner)@.try_recv_result(old(self).done()),
            final(self).done() == old(inner)@.polled_done(old(self).done()),
            final(inner)@ == old(inner)@.polled(old(self).done()),
    {
        if let Some(value) = self.take_value(inner) {
            return Ok(Some(value));
        }
        if !self.done && inner.sender_dropped {
            self.done = true;
            return Err(Canceled);
        }
        Ok(None)
    }

    /// Takes a delivered value if one is there, without observing the cancellation: a later
    /// poll still sees [`Canceled`].
    pub fn take_value(&mut self, inner: &mut Inner<T>) -> (r: Option<T>)
        requires
            old(inner)@.valid(),
        ensures
            final(inner)@.valid(),
            r == (if old(self).done() {
                None::<T>
            } else {
                old(inner)@.value
            }),
            final(self).done() == (old(self).done() || r is Some),
            final(inner)@ == old(inner)@.polled(old(self).done()),
    {
        if self.done {
            return None;
        }
        let value = inner.take_value();
        if value.is_some() {
            self.done = true;
        }
        value
    }

    /// Returns an iterator that yields the value if it has arrived (at most one item),
    /// without waiting.
    pub fn try_iter(&mut self) -> (it: TryIter<'_, T>)
        ensures
            *it.receiver == *old(self),
            *final(self) == *final(it.receiver),
    {
        TryIter { receiver: self }
    }

    /// Takes the first step of a poll: resolves to the value or to the cancellation,
    /// whichever is there, and asks for a waker when neither is. A receiver that is done
    /// stays pending.
    pub fn poll(&mut self, inner: &mut Inner<T>) -> (r: Step<Result<T, Canceled>>)
        requires
            old(inner)@.valid(),
        ensures
            final(inner)@.valid(),
            r == old(inner)@.polled_step(old(self).done(), Step::Register),
            final(self).done() == old(inner)@.polled_done(old(self).done()),
            final(inner)@ == old(inner)@.polled(old(self).done()),
    {
        if self.done {
            return Step::Pending;
        }
        if let Some(value) = inner.take_value() {
            self.done = true;
            return Step::Ready(Ok(value));
        }
        if inner.sender_dropped {
            self.done = true;
            return Step::Ready(Err(Canceled));
        }
        Step::Register
    }

    /// Registers `waker` for the parked receiver, replacing an earlier one.
    pub fn register(&mut self, inner: &mut Inner<T>, waker: Waker)
        requires
            old(inner)@.valid(),
        ensures
            final(inner)@.valid(),
            *final(self) == *old(self),
            final(inner)@ == old(inner)@.recv_waker_registered(waker),
    {
        inner.register_recv_waker(waker);
    }

    /// Takes the step after a registration. Cloning the waker may have run code that
    /// delivered the value or dropped the sender, so the receiver looks again before it
    /// parks. A waker just registered stays.
    pub fn recheck(&mut self, inner: &mut Inner<T>) -> (r: Step<Result<T, Canceled>>)
        requires
            old(inner)@.valid(),
        ensures
            final(inner)@.valid(),
            r == old(inner)@.polled_step(old(self).done(), Step::Pending),
            final(self).done() == old(inner)@.polled_done(old(self).done()),
            final(inner)@ == old(inner)@.polled(old(self).done()),
    {
        match self.poll(inner) {
            Step::Register => Step::Pending,
            other => other,
        }
    }

    /// Whether the value or the cancellation has been handed out.
    pub fn is_terminated(&self) -> (b: bool)
        ensures
            b == self.done(),
    {
        self.done
    }

    /// Ends the receiver: a later send fails, and a registered waker is dropped. Hands back
    /// a value that was sent and not received, for the caller to drop.
    pub fn drop(self, inner: &mut Inner<T>) -> (value: Option<T>)
        requires
            old(inner)@.valid(),
        ensures
            final(inner)@.valid(),
            value == old(inner)@.value,
            final(inner)@ == old(inner)@.receiver_gone(),
    {
        inner.receiver_dropped = true;
        inner.clear_recv_waker();
        inner.take_value()
    }
}

/// A non-blocking iterator over a [`Receiver`], returned by [`Receiver::try_iter`]. It
/// yields the value if it has arrived (at most one item), then `None`.
pub struct TryIter<'a, T> {
    pub receiver: &'a mut Receiver<T>,
}

impl<'a, T> TryIter<'a, T> {
    /// Yields the value if it has arrived.
    pub fn next(&mut self, inner: &mut Inner<T>) -> (r: Option<T>)
        requires
            old(inner)@.valid(),
        ensures
            final(inner)@.valid(),
            r == (if old(self).receiver.done() {
                None::<T>
            } else {
                old(inner)@.value
            }),
            final(self).receiver.done() == (old(self).receiver.done() || r is Some),
            *final(final(self).receiver) == *final(old(self).receiver),
            final(inner)@ == old(inner)@.polled(old(self).receiver.done()),
    {
        self.receiver.take_value(inner)
    }
}

/// Error returned by a [`Receiver`] whose [`Sender`] dropped without sending.
#[derive(Debug, Clone, Copy, PartialEq, Eq, Structural)]
pub struct Canceled;

impl Canceled {
    /// What went wrong, in words.
    pub fn message(&self) -> (s: &'static str)
        ensures
            s@ == "oneshot sender dropped without sending a value"@,
    {
        "oneshot sender dropped without sending a value"
    }
}

} // verus!
