//! The mathematical model of a one-shot channel: its state and what each operation makes
//! of it.

use std::task::Waker;

use vstd::prelude::*;

use super::Canceled;
use crate::effect::Effect;
use crate::step::Step;

verus! {

/// The state of a one-shot channel.
#[verifier::ext_equal]
pub ghost struct InnerState<T> {
    /// The value, once sent and until it is received.
    pub value: Option<T>,
    /// Whether the sender is gone.
    pub sender_dropped: bool,
    /// Whether the receiver is gone.
    pub receiver_dropped: bool,
    /// The waker of the parked receiver.
    pub recv_waker: Option<Waker>,
    /// The effects that are due, in order.
    pub effects: Seq<Effect>,
}

impl<T> InnerState<T> {
    /// A channel with both halves, nothing sent and nobody parked.
    pub open spec fn opened() -> Self {
        InnerState {
            value: None,
            sender_dropped: false,
            receiver_dropped: false,
            recv_waker: None,
            effects: Seq::empty(),
        }
    }

    /// A value waits only between its sender and a live receiver, and a receiver that is
    /// gone has left no waker.
    pub open spec fn valid(self) -> bool {
        &&& self.value is Some ==> self.sender_dropped && !self.receiver_dropped
        &&& self.receiver_dropped ==> self.recv_waker is None
    }

    /// The parked receiver's waker is moved out and its wake is due.
    pub open spec fn receiver_woken(self) -> Self {
        InnerState {
            recv_waker: None,
            effects: self.effects + crate::effect::wake_of(self.recv_waker),
            ..self
        }
    }

    /// The receiver's waker is dropped without being woken.
    pub open spec fn recv_waker_cleared(self) -> Self {
        InnerState {
            recv_waker: None,
            effects: self.effects + crate::effect::discard_of(self.recv_waker),
            ..self
        }
    }

    /// `waker` replaces the receiver's waker, or is dropped at once when the receiver is
    /// gone.
    pub open spec fn recv_waker_registered(self, waker: Waker) -> Self {
        if self.receiver_dropped {
            InnerState { effects: self.effects.push(Effect::Discard(waker)), ..self }
        } else {
            InnerState {
                recv_waker: Some(waker),
                effects: self.effects + crate::effect::discard_of(self.recv_waker),
                ..self
            }
        }
    }

    /// The sender is gone; without a value waiting, the parked receiver is woken to observe
    /// the cancellation.
    pub open spec fn sender_gone(self) -> Self {
        let gone = InnerState { sender_dropped: true, ..self };
        if self.value is Some {
            gone
        } else {
            gone.receiver_woken()
        }
    }

    /// What sending `value` makes of the channel: a live receiver gets it and is woken.
    /// Sending uses the sender up.
    pub open spec fn sent(self, value: T) -> Self {
        if self.receiver_dropped {
            self.sender_gone()
        } else {
            (InnerState { value: Some(value), ..self }).receiver_woken().sender_gone()
        }
    }

    /// The value is moved out.
    pub open spec fn taken(self) -> Self {
        InnerState { value: None, ..self }
    }

    /// The receiver is gone: its waker and a value that was not received are dropped.
    pub open spec fn receiver_gone(self) -> Self {
        (InnerState { receiver_dropped: true, ..self }).recv_waker_cleared().taken()
    }

    /// Whether a receive that is not done completes now: with the value, or canceled.
    pub open spec fn recv_ready(self) -> bool {
        self.value is Some || self.sender_dropped
    }

    /// What a receive that completes resolves to.
    pub open spec fn received_result(self) -> Result<T, Canceled> {
        match self.value {
            Some(value) => Ok(value),
            None => Err(Canceled),
        }
    }

    /// What one look of a receiver makes of the channel.
    pub open spec fn polled(self, done: bool) -> Self {
        if done {
            self
        } else {
            self.taken()
        }
    }

    /// Whether a receiver is done after one look.
    pub open spec fn polled_done(self, done: bool) -> bool {
        done || self.recv_ready()
    }

    /// What one look of a receiver gives: nothing more once it is done, and `otherwise`
    /// when neither a value nor the cancellation is there.
    pub open spec fn polled_step(self, done: bool, otherwise: Step<Result<T, Canceled>>) -> Step<
        Result<T, Canceled>,
    > {
        if done {
            Step::Pending
        } else if self.recv_ready() {
            Step::Ready(self.received_result())
        } else {
            otherwise
        }
    }

    /// What `try_recv` returns.
    pub open spec fn try_recv_result(self, done: bool) -> Result<Option<T>, Canceled> {
        if done {
            Ok(None)
        } else if self.recv_ready() {
            match self.value {
                Some(value) => Ok(Some(value)),
                None => Err(Canceled),
            }
        } else {
            Ok(None)
        }
    }
}

} // verus!
