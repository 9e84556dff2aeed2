//! The `send` future.

use std::task::Waker;

use vstd::prelude::*;

use super::chan::Chan;
use super::channel::Sender;
use crate::mpsc::error::SendError;
use crate::mpsc::model::SendState;
use crate::step::Step;

verus! {

/// The future returned by [`Sender::send`]. It holds the pending item.
///
/// Its outcome is decided in one step and handed out in a later one, after the wakes of
/// the deciding step have been performed: an interrupted wake leaves the outcome in place.
pub struct Send<'a, T> {
    sender: &'a Sender<T>,
    item: Option<T>,
    waker_id: Option<u64>,
    outcome: Option<Result<(), SendError<T>>>,
    done: bool,
}

impl<'a, T> View for Send<'a, T> {
    type V = SendState<T>;

    closed spec fn view(&self) -> SendState<T> {
        SendState {
            item: self.item,
            waker_id: self.waker_id,
            outcome: self.outcome,
            done: self.done,
        }
    }
}

impl<'a, T> Send<'a, T> {
    pub(super) fn new(sender: &'a Sender<T>, item: T) -> (fut: Self)
        ensures
            fut@ == SendState::started(item),
    {
        Send { sender, item: Some(item), waker_id: None, outcome: None, done: false }
    }

    /// Takes the first step of a poll: hands out an outcome decided earlier, or tries to
    /// decide. A decided send asks for its wakes to be performed, then drops its own
    /// registration, then hands the outcome out; one that finds the channel full asks for
    /// a waker.
    ///
    /// A future that is done must not be polled again.
    pub fn poll(&mut self, chan: &mut Chan<T>) -> (r: Step<Result<(), SendError<T>>>)
        requires
            old(self)@.valid(),
            !old(self)@.done,
            old(chan).wf(),
            old(self)@.outcome is None ==> old(chan)@.countable(),
        ensures
            final(self)@.valid(),
            final(chan).wf(),
            old(self)@.outcome is Some && old(self)@.waker_id is Some ==> {
                &&& r == Step::<Result<(), SendError<T>>>::Perform
                &&& final(self)@ == old(self)@.deregistered()
                &&& final(chan)@ == old(chan)@.send_waker_removed(old(self)@.waker_id)
            },
            old(self)@.outcome is Some && old(self)@.waker_id is None ==> {
                &&& r == Step::Ready(old(self)@.outcome.unwrap())
                &&& final(self)@ == old(self)@.delivered()
                &&& final(chan)@ == old(chan)@
            },
            old(self)@.outcome is None ==> {
                &&& final(self)@ == old(chan)@.send_state_tried(old(self)@)
                &&& final(chan)@ == old(chan)@.send_tried(old(self)@)
                &&& r == (if final(self)@.outcome is Some {
                    Step::<Result<(), SendError<T>>>::Perform
                } else {
                    Step::<Result<(), SendError<T>>>::Register
                })
            },
    {
        if self.outcome.is_some() && self.waker_id.is_some() {
            self.deregister(chan);
            return Step::Perform;
        }
        if let Some(outcome) = self.outcome.take() {
            self.done = true;
            return Step::Ready(outcome);
        }
        if self.try_decide(chan) {
            Step::Perform
        } else {
            Step::Register
        }
    }

    /// Registers `waker` for the parked send, replacing an earlier registration.
    pub fn register(&mut self, chan: &mut Chan<T>, waker: Waker)
        requires
            old(self)@.valid(),
            old(self)@.item is Some,
            old(chan).wf(),
        ensures
            final(self)@.valid(),
            final(chan).wf(),
            final(self)@ == (SendState { waker_id: Some(old(chan)@.next_send_id), ..old(self)@ }),
            final(chan)@ == old(chan)@.send_parked(old(self)@, waker),
    {
        if let Some(id) = self.waker_id.take() {
            chan.remove_send_waker(id);
        }
        self.waker_id = Some(chan.add_send_waker(waker));
    }

    /// Takes the step after a registration: the same as [`poll`](Self::poll), but a send
    /// that still finds the channel full stays parked.
    pub fn recheck(&mut self, chan: &mut Chan<T>) -> (r: Step<Result<(), SendError<T>>>)
        requires
            old(self)@.valid(),
            !old(self)@.done,
            old(chan).wf(),
            old(self)@.outcome is None ==> old(chan)@.countable(),
        ensures
            final(self)@.valid(),
            final(chan).wf(),
            old(self)@.outcome is Some && old(self)@.waker_id is Some ==> {
                &&& r == Step::<Result<(), SendError<T>>>::Perform
                &&& final(self)@ == old(self)@.deregistered()
                &&& final(chan)@ == old(chan)@.send_waker_removed(old(self)@.waker_id)
            },
            old(self)@.outcome is Some && old(self)@.waker_id is None ==> {
                &&& r == Step::Ready(old(self)@.outcome.unwrap())
                &&& final(self)@ == old(self)@.delivered()
                &&& final(chan)@ == old(chan)@
            },
            old(self)@.outcome is None ==> {
                &&& final(self)@ == old(chan)@.send_state_tried(old(self)@)
                &&& final(chan)@ == old(chan)@.send_tried(old(self)@)
                &&& r == (if final(self)@.outcome is Some {
                    Step::<Result<(), SendError<T>>>::Perform
                } else {
                    Step::<Result<(), SendError<T>>>::Pending
                })
            },
    {
        match self.poll(chan) {
            Step::Register => Step::Pending,
            other => other,
        }
    }

    /// Decides the send if the channel lets it: `true` once an outcome is there. An item
    /// that finds the channel full goes back into the future.
    fn try_decide(&mut self, chan: &mut Chan<T>) -> (decided: bool)
        requires
            old(self)@.valid(),
            old(self)@.item is Some,
            old(chan).wf(),
            old(chan)@.countable(),
        ensures
            final(self)@.valid(),
            final(chan).wf(),
            final(self)@ == old(chan)@.send_state_tried(old(self)@),
            final(chan)@ == old(chan)@.send_tried(old(self)@),
            decided == (final(self)@.outcome is Some),
    {
        if let Some(item) = self.item.take() {
            if !chan.receiver_alive() || chan.is_closed() {
                self.outcome = Some(Err(SendError::new(item)));
                return true;
            }
            match chan.try_push(item) {
                Ok(()) => {
                    self.outcome = Some(Ok(()));
                    chan.wake_receivers();
                    true
                },
                Err(item) => {
                    self.item = Some(item);
                    false
                },
            }
        } else {
            false
        }
    }

    /// Removes the future's registration, if it left one. A decided send does so by itself
    /// once its wakes are performed; should they fail, the caller does it in their place.
    pub fn deregister(&mut self, chan: &mut Chan<T>)
        requires
            old(chan).wf(),
        ensures
            final(chan).wf(),
            old(self)@.valid() ==> final(self)@.valid(),
            final(self)@ == old(self)@.deregistered(),
            final(chan)@ == old(chan)@.send_waker_removed(old(self)@.waker_id),
    {
        if let Some(id) = self.waker_id.take() {
            chan.remove_send_waker(id);
        }
    }

    /// Whether the outcome is decided and not yet handed out.
    pub fn is_decided(&self) -> (b: bool)
        ensures
            b == (self@.outcome is Some),
    {
        self.outcome.is_some()
    }

    /// Whether the outcome has been handed out.
    pub fn is_terminated(&self) -> (b: bool)
        ensures
            b == self@.done,
    {
        self.done
    }

    /// Ends the future: a parked one leaves no registration behind. Hands back an item
    /// that was not sent, undecided or refused, for the caller to drop once the channel is
    /// released.
    pub fn drop(self, chan: &mut Chan<T>) -> (item: Option<T>)
        requires
            self@.valid(),
            old(chan).wf(),
        ensures
            final(chan).wf(),
            item == self@.unsent(),
            final(chan)@ == old(chan)@.send_waker_removed(self@.waker_id),
    {
        let mut fut = self;
        fut.deregister(chan);
        match (fut.item, fut.outcome) {
            (Some(item), _) => Some(item),
            (None, Some(Err(e))) => Some(e.into_inner()),
            _ => None,
        }
    }
}

} // verus!
