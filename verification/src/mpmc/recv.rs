//! The `recv` future.

use std::task::Waker;

use vstd::prelude::*;

use super::chan::Chan;
use super::channel::Receiver;
use super::model::RecvState;
use crate::step::Step;

verus! {

/// The future returned by [`Receiver::recv`]. Several may be pending on one receiver.
pub struct Recv<'a, T> {
    receiver: &'a Receiver<T>,
    done: bool,
    /// This future's recv-waker registration id, if it left one.
    waker_id: Option<u64>,
}

impl<'a, T> View for Recv<'a, T> {
    type V = RecvState;

    closed spec fn view(&self) -> RecvState {
        RecvState { done: self.done, waker_id: self.waker_id }
    }
}

impl<'a, T> Recv<'a, T> {
    pub(super) fn new(receiver: &'a Receiver<T>) -> (fut: Self)
        ensures
            fut@ == (RecvState { done: false, waker_id: None }),
    {
        Recv { receiver, done: false, waker_id: None }
    }

    /// Takes the first step of a poll, see [`Receiver::poll_recv`]. A receive that is ready
    /// has completed once the effects are performed and [`complete`](Self::complete) is
    /// called: should one of them fail, it can be polled again.
    ///
    /// A completed receive takes no further item. If it left its waker registered, that
    /// registration is removed now and the task asked to poll again, so that it sees the
    /// future terminated instead of parking with nothing to wake it.
    pub fn poll(&mut self, chan: &mut Chan<T>) -> (r: Step<Option<T>>)
        requires
            old(chan).wf(),
        ensures
            final(chan).wf(),
            old(self)@.done ==> {
                &&& r == (if old(self)@.waker_id is Some {
                    Step::<Option<T>>::Repoll
                } else {
                    Step::<Option<T>>::Pending
                })
                &&& final(self)@ == (RecvState { done: true, waker_id: None })
                &&& final(chan)@ == old(chan)@.recv_waker_removed(old(self)@.waker_id)
            },
            !old(self)@.done ==> {
                &&& r == old(chan)@.polled_step(old(self)@.waker_id)
                &&& final(self)@ == (RecvState { done: false, waker_id: None })
                &&& final(chan)@ == old(chan)@.polled(old(self)@.waker_id)
            },
    {
        if self.done {
            if let Some(id) = self.waker_id.take() {
                chan.remove_recv_waker(id);
                return Step::Repoll;
            }
            return Step::Pending;
        }
        self.receiver.poll_recv(chan, &mut self.waker_id)
    }

    /// Registers `waker` for the parked receive.
    pub fn register(&mut self, chan: &mut Chan<T>, waker: Waker)
        requires
            old(chan).wf(),
            old(self)@.waker_id is None,
        ensures
            final(chan).wf(),
            final(self)@ == (RecvState { waker_id: Some(old(chan)@.next_recv_id), ..old(self)@ }),
            final(chan)@ == old(chan)@.recv_waker_added(waker),
    {
        self.receiver.register_recv(chan, &mut self.waker_id, waker);
    }

    /// Takes the step after a registration, see [`Receiver::recheck_recv`].
    pub fn recheck(&mut self, chan: &mut Chan<T>) -> (r: Step<Option<T>>)
        requires
            old(chan).wf(),
            !old(self)@.done,
        ensures
            final(chan).wf(),
            r == old(chan)@.rechecked_step(),
            final(self)@ == (RecvState {
                done: false,
                waker_id: old(chan)@.rechecked_slot(old(self)@.waker_id),
            }),
            final(chan)@ == old(chan)@.rechecked(old(self)@.waker_id),
    {
        self.receiver.recheck_recv(chan, &mut self.waker_id)
    }

    /// Records the completion, after the effects of the step that was ready.
    pub fn complete(&mut self)
        ensures
            final(self)@ == (RecvState { done: true, ..old(self)@ }),
    {
        self.done = true;
    }

    /// Whether the receive has completed and left no registration behind. One that did has
    /// to be polled once more to clear it.
    pub fn is_terminated(&self) -> (b: bool)
        ensures
            b == (self@.done && self@.waker_id is None),
    {
        self.done && self.waker_id.is_none()
    }

    /// Ends the future, removing a registration that it left.
    pub fn drop(self, chan: &mut Chan<T>)
        requires
            old(chan).wf(),
        ensures
            final(chan).wf(),
            final(chan)@ == old(chan)@.recv_waker_removed(self@.waker_id),
    {
        if let Some(id) = self.waker_id {
            chan.remove_recv_waker(id);
        }
    }
}

} // verus!
