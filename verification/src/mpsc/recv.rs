//! The `recv` future.

use std::task::Waker;

use vstd::prelude::*;

use super::chan::Chan;
use super::channel::Receiver;
use crate::step::Step;

verus! {

/// The future returned by [`Receiver::recv`]. It borrows the receiver, so that there is one
/// pending receive at a time.
pub struct Recv<'a, T> {
    receiver: &'a mut Receiver<T>,
    done: bool,
}

impl<'a, T> Recv<'a, T> {
    /// Whether the receive has completed.
    pub closed spec fn done(&self) -> bool {
        self.done
    }

    pub(super) fn new(receiver: &'a mut Receiver<T>) -> (fut: Self)
        ensures
            !fut.done(),
    {
        Recv { receiver, done: false }
    }

    /// Takes the first step of a poll, see [`Receiver::poll_recv`]. A receive that is ready
    /// has completed once the effects are performed and [`complete`](Self::complete) is
    /// called: should one of them fail, it can be polled again.
    pub fn poll(&mut self, chan: &mut Chan<T>) -> (r: Step<Option<T>>)
        requires
            old(chan).wf(),
        ensures
            final(chan).wf(),
            old(chan)@.recv_ready() ==> {
                &&& r == Step::Ready(old(chan)@.received_result())
                &&& final(chan)@ == old(chan)@.received()
            },
            !old(chan)@.recv_ready() ==> {
                &&& r == Step::<Option<T>>::Register
                &&& final(chan)@ == old(chan)@
            },
            final(self).done() == old(self).done(),
    {
        self.receiver.poll_recv(chan)
    }

    /// Registers `waker` for the parked receive, replacing an earlier one.
    pub fn register(&mut self, chan: &mut Chan<T>, waker: Waker)
        requires
            old(chan).wf(),
        ensures
            final(chan).wf(),
            final(chan)@ == old(chan)@.recv_waker_registered(waker),
            final(self).done() == old(self).done(),
    {
        self.receiver.register_recv(chan, waker);
    }

    /// Takes the step after a registration, see [`Receiver::recheck_recv`].
    pub fn recheck(&mut self, chan: &mut Chan<T>) -> (r: Step<Option<T>>)
        requires
            old(chan).wf(),
        ensures
            final(chan).wf(),
            old(chan)@.recv_ready() ==> {
                &&& r == Step::Ready(old(chan)@.received_result())
                &&& final(chan)@ == old(chan)@.received()
            },
            !old(chan)@.recv_ready() ==> {
                &&& r == Step::<Option<T>>::Pending
                &&& final(chan)@ == old(chan)@
            },
            final(self).done() == old(self).done(),
    {
        self.receiver.recheck_recv(chan)
    }

    /// Records the completion, after the effects of the step that was ready.
    pub fn complete(&mut self)
        ensures
            final(self).done(),
    {
        self.done = true;
    }

    /// Whether the receive has completed.
    pub fn is_terminated(&self) -> (b: bool)
        ensures
            b == self.done(),
    {
        self.done
    }

    /// Ends the future: a receive that did not complete clears its registered waker, so
    /// that it is not retained until a later send.
    pub fn drop(self, chan: &mut Chan<T>)
        requires
            old(chan).wf(),
        ensures
            final(chan).wf(),
            final(chan)@ == (if self.done() {
                old(chan)@
            } else {
                old(chan)@.recv_waker_cleared()
            }),
    {
        if !self.done {
            chan.clear_recv_waker();
        }
    }
}

} // verus!
