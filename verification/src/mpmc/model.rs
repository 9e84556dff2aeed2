//! The mathematical model of an `mpmc` channel: its state and what each operation makes
//! of it.

use std::task::Waker;

use vstd::prelude::*;

use super::chan::TakeStep;
use crate::effect::Effect;
use crate::mpsc::error::{TryRecvError, TrySendError};
use crate::mpsc::model::SendState;
use crate::step::Step;

verus! {

/// The state of a channel.
#[verifier::ext_equal]
pub ghost struct ChanState<T> {
    /// The capacity, or `None` when unbounded.
    pub cap: Option<nat>,
    /// The queued items, oldest first.
    pub queue: Seq<T>,
    /// An item that has left the queue and not yet reached a receiver: it is the next one
    /// to be delivered.
    pub redelivery: Option<T>,
    /// The number of live senders.
    pub senders: nat,
    /// The number of live receivers.
    pub receivers: nat,
    /// Whether the channel was explicitly closed.
    pub closed: bool,
    /// The wakers of parked receivers, with their registration ids.
    pub recv_wakers: Seq<(u64, Waker)>,
    /// The id that the next parked receiver gets.
    pub next_recv_id: u64,
    /// The wakers of parked senders, with their registration ids.
    pub send_wakers: Seq<(u64, Waker)>,
    /// The id that the next parked sender gets.
    pub next_send_id: u64,
    /// The effects that are due, in order.
    pub effects: Seq<Effect>,
}

impl<T> ChanState<T> {
    /// A channel with one sender and one receiver, nothing queued and nobody parked.
    pub open spec fn opened(cap: Option<nat>) -> Self {
        ChanState {
            cap,
            queue: Seq::empty(),
            redelivery: None,
            senders: 1,
            receivers: 1,
            closed: false,
            recv_wakers: Seq::empty(),
            next_recv_id: 0,
            send_wakers: Seq::empty(),
            next_send_id: 0,
            effects: Seq::empty(),
        }
    }

    /// The items that are still to be received, in the order of delivery.
    pub open spec fn items(self) -> Seq<T> {
        match self.redelivery {
            Some(item) => seq![item] + self.queue,
            None => self.queue,
        }
    }

    /// A bounded channel has room for at least one item, and queues at most its capacity;
    /// the items of an unbounded one are few enough to be counted.
    pub open spec fn valid(self) -> bool {
        &&& self.cap matches Some(c) ==> 0 < c <= usize::MAX && self.queue.len() <= c
        &&& self.cap is None ==> self.items().len() <= usize::MAX
    }

    /// Whether the number of items fits a `usize`. It always does, except where the queue
    /// of the largest capacity is full and one more item is in transit.
    pub open spec fn len_fits(self) -> bool {
        self.cap == Some(usize::MAX as nat) ==> self.items().len() <= usize::MAX
    }

    /// Whether the queue is at capacity. An item in transit takes up no capacity, and an
    /// unbounded queue is never full.
    pub open spec fn full(self) -> bool {
        self.cap == Some(self.queue.len())
    }

    /// Whether one more item can be counted in a `usize`, where nothing else limits the
    /// queue.
    pub open spec fn countable(self) -> bool {
        self.cap is None ==> self.items().len() < usize::MAX
    }

    /// Whether sends fail closed.
    pub open spec fn send_closed(self) -> bool {
        self.receivers == 0 || self.closed
    }

    /// Whether no further item can arrive, so that no item left means disconnection.
    pub open spec fn recv_closed(self) -> bool {
        self.senders == 0 || self.closed
    }

    pub open spec fn pushed(self, item: T) -> Self {
        ChanState { queue: self.queue.push(item), ..self }
    }

    pub open spec fn popped(self) -> Self {
        ChanState { queue: self.queue.drop_first(), ..self }
    }

    /// Every parked receiver's waker is moved out and its wake is due.
    pub open spec fn receivers_woken(self) -> Self {
        ChanState {
            recv_wakers: Seq::empty(),
            effects: self.effects + crate::effect::wakes(self.recv_wakers),
            ..self
        }
    }

    /// Every parked sender's waker is moved out and its wake is due.
    pub open spec fn senders_woken(self) -> Self {
        ChanState {
            send_wakers: Seq::empty(),
            effects: self.effects + crate::effect::wakes(self.send_wakers),
            ..self
        }
    }

    /// Whether a receiver's waker is still taken: not once the channel is terminal, when
    /// nothing would ever wake or remove it.
    pub open spec fn takes_recv_waker(self) -> bool {
        self.receivers > 0 && !self.recv_closed()
    }

    /// `waker` is registered for a parked receiver under the next id. When the channel is
    /// terminal the id is used up and the waker dropped at once.
    pub open spec fn recv_waker_added(self, waker: Waker) -> Self {
        let next_recv_id = crate::wakers::next_id(self.next_recv_id);
        if self.takes_recv_waker() {
            ChanState {
                recv_wakers: self.recv_wakers.push((self.next_recv_id, waker)),
                next_recv_id,
                ..self
            }
        } else {
            ChanState { next_recv_id, effects: self.effects.push(Effect::Discard(waker)), ..self }
        }
    }

    /// The receiver's waker registered under `id`, if any, is dropped without being woken.
    pub open spec fn recv_waker_removed(self, id: Option<u64>) -> Self {
        match id {
            Some(id) => ChanState {
                recv_wakers: crate::wakers::without(self.recv_wakers, id),
                effects: self.effects + crate::effect::discard_of(
                    crate::wakers::registered(self.recv_wakers, id),
                ),
                ..self
            },
            None => self,
        }
    }

    /// `waker` is registered for a parked sender under the next id.
    pub open spec fn send_waker_added(self, waker: Waker) -> Self {
        ChanState {
            send_wakers: self.send_wakers.push((self.next_send_id, waker)),
            next_send_id: crate::wakers::next_id(self.next_send_id),
            ..self
        }
    }

    /// The sender's waker registered under `id`, if any, is dropped without being woken.
    pub open spec fn send_waker_removed(self, id: Option<u64>) -> Self {
        match id {
            Some(id) => ChanState {
                send_wakers: crate::wakers::without(self.send_wakers, id),
                effects: self.effects + crate::effect::discard_of(
                    crate::wakers::registered(self.send_wakers, id),
                ),
                ..self
            },
            None => self,
        }
    }

    /// The channel is explicitly closed and the receivers woken, the first half of a close;
    /// closing again changes nothing. The second half wakes the senders.
    pub open spec fn closed_now(self) -> Self {
        if self.closed {
            self
        } else {
            (ChanState { closed: true, ..self }).receivers_woken()
        }
    }

    pub open spec fn sender_cloned(self) -> Self {
        ChanState { senders: self.senders + 1, ..self }
    }

    pub open spec fn receiver_cloned(self) -> Self {
        ChanState { receivers: self.receivers + 1, ..self }
    }

    /// One sender is gone; when it was the last, every parked receiver is woken to observe
    /// the disconnection.
    pub open spec fn sender_dropped(self) -> Self {
        let left = ChanState { senders: (self.senders - 1) as nat, ..self };
        if self.senders == 1 {
            left.receivers_woken()
        } else {
            left
        }
    }

    /// One receiver is gone; when it was the last, parked senders are woken to fail closed.
    /// What it leaves behind is released after that.
    pub open spec fn receiver_gone(self) -> Self {
        let left = ChanState { receivers: (self.receivers - 1) as nat, ..self };
        if self.receivers == 1 {
            left.senders_woken()
        } else {
            left
        }
    }

    /// What `try_send` makes of the channel.
    pub open spec fn try_send(self, item: T) -> Self {
        if self.send_closed() || self.full() {
            self
        } else {
            self.pushed(item).receivers_woken()
        }
    }

    /// What `try_send` returns.
    pub open spec fn try_send_result(self, item: T) -> Result<(), TrySendError<T>> {
        if self.send_closed() {
            Err(TrySendError::Closed(item))
        } else if self.full() {
            Err(TrySendError::Full(item))
        } else {
            Ok(())
        }
    }

    /// What one step of taking an item makes of the channel. An item in transit is
    /// delivered first. With senders parked, the oldest queued item goes in transit while
    /// they are woken; without, it is delivered at once.
    pub open spec fn take_stepped(self) -> Self {
        if self.redelivery is Some {
            ChanState { redelivery: None, ..self }
        } else if self.queue.len() == 0 {
            self
        } else if self.send_wakers.len() == 0 {
            self.popped()
        } else {
            (ChanState {
                redelivery: Some(self.queue[0]),
                ..self
            }).popped().senders_woken()
        }
    }

    /// What one step of taking an item gives.
    pub open spec fn take_step_result(self) -> TakeStep<T> {
        if self.redelivery is Some {
            TakeStep::Item(self.redelivery.unwrap())
        } else if self.queue.len() == 0 {
            TakeStep::Empty
        } else if self.send_wakers.len() == 0 {
            TakeStep::Item(self.queue[0])
        } else {
            TakeStep::Wake
        }
    }

    /// The next item to be received.
    pub open spec fn next_item(self) -> Option<T> {
        if self.items().len() > 0 {
            Some(self.items()[0])
        } else {
            None
        }
    }

    /// The channel without its next item, nobody being woken.
    pub open spec fn released(self) -> Self {
        if self.redelivery is Some {
            ChanState { redelivery: None, ..self }
        } else if self.queue.len() > 0 {
            self.popped()
        } else {
            self
        }
    }

    /// What one step of `try_recv` gives.
    pub open spec fn try_recv_step(self) -> Step<Result<T, TryRecvError>> {
        match self.take_step_result() {
            TakeStep::Item(item) => Step::Ready(Ok(item)),
            TakeStep::Wake => Step::Perform,
            TakeStep::Empty => Step::Ready(Err(self.nothing_received())),
        }
    }

    /// Why there is nothing to receive, when there is not.
    pub open spec fn nothing_received(self) -> TryRecvError {
        if self.recv_closed() {
            TryRecvError::Disconnected
        } else {
            TryRecvError::Empty
        }
    }

    /// What the first step of a receive makes of the channel: a registration left by an
    /// earlier poll is dropped before any item is touched.
    pub open spec fn polled(self, slot: Option<u64>) -> Self {
        if slot is Some {
            self.recv_waker_removed(slot)
        } else {
            self.take_stepped()
        }
    }

    /// What the first step of a receive gives.
    pub open spec fn polled_step(self, slot: Option<u64>) -> Step<Option<T>> {
        if slot is Some {
            Step::Perform
        } else {
            match self.take_step_result() {
                TakeStep::Item(item) => Step::Ready(Some(item)),
                TakeStep::Wake => Step::Perform,
                TakeStep::Empty => if self.recv_closed() {
                    Step::Ready(None)
                } else {
                    Step::Register
                },
            }
        }
    }

    /// Whether a receive that looks now finds the channel drained and disconnected.
    pub open spec fn disconnected(self) -> bool {
        self.items().len() == 0 && self.recv_closed()
    }

    /// What the step after a registration makes of the channel: the registration is
    /// dropped when the channel turns out disconnected, and stays otherwise.
    pub open spec fn rechecked(self, slot: Option<u64>) -> Self {
        if self.disconnected() {
            self.recv_waker_removed(slot)
        } else {
            self.take_stepped()
        }
    }

    /// The registration after that step.
    pub open spec fn rechecked_slot(self, slot: Option<u64>) -> Option<u64> {
        if self.disconnected() {
            None
        } else {
            slot
        }
    }

    /// What the step after a registration gives.
    pub open spec fn rechecked_step(self) -> Step<Option<T>> {
        match self.take_step_result() {
            TakeStep::Item(item) => Step::Ready(Some(item)),
            TakeStep::Wake => Step::Perform,
            TakeStep::Empty => if self.recv_closed() {
                Step::Ready(None)
            } else {
                Step::Pending
            },
        }
    }

    /// The channel after the future `fut` tried to decide: an accepted item is queued and
    /// the receivers woken.
    pub open spec fn send_tried(self, fut: SendState<T>) -> Self {
        self.try_send(fut.item.unwrap())
    }

    /// The future `fut` after it tried to decide against this channel.
    pub open spec fn send_state_tried(self, fut: SendState<T>) -> SendState<T> {
        fut.tried_against(self.send_closed(), self.full())
    }

    /// The channel after the future `fut` parked with `waker`, replacing its registration.
    pub open spec fn send_parked(self, fut: SendState<T>, waker: Waker) -> Self {
        self.send_waker_removed(fut.waker_id).send_waker_added(waker)
    }
}

/// The state of a `recv` future.
#[verifier::ext_equal]
pub ghost struct RecvState {
    /// Whether the receive has completed.
    pub done: bool,
    /// The id under which the future's waker is registered.
    pub waker_id: Option<u64>,
}

} // verus!
