//! The mathematical model of an `mpsc` channel: its state and what each operation makes
//! of it.

use std::task::Waker;

use vstd::prelude::*;

use super::error::{SendError, TryRecvError, TrySendError};
use crate::effect::Effect;

verus! {

/// The state of a channel.
#[verifier::ext_equal]
pub ghost struct ChanState<T> {
    /// The capacity, or `None` when unbounded.
    pub cap: Option<nat>,
    /// The queued items, oldest first.
    pub queue: Seq<T>,
    /// The number of live senders.
    pub senders: nat,
    /// Whether the receiver is alive.
    pub receiver_alive: bool,
    /// Whether the channel was explicitly closed.
    pub closed: bool,
    /// The waker of the parked receiver.
    pub recv_waker: Option<Waker>,
    /// The wakers of parked senders, with their registration ids.
    pub send_wakers: Seq<(u64, Waker)>,
    /// The id that the next parked sender gets.
    pub next_send_id: u64,
    /// The effects that are due, in order.
    pub effects: Seq<Effect>,
}

impl<T> ChanState<T> {
    /// A channel with one sender and its receiver, nothing queued and nobody parked.
    pub open spec fn opened(cap: Option<nat>) -> Self {
        ChanState {
            cap,
            queue: Seq::empty(),
            senders: 1,
            receiver_alive: true,
            closed: false,
            recv_waker: None,
            send_wakers: Seq::empty(),
            next_send_id: 0,
            effects: Seq::empty(),
        }
    }

    /// A bounded channel has room for at least one item and holds at most its capacity.
    pub open spec fn valid(self) -> bool {
        self.cap matches Some(c) ==> 0 < c && self.queue.len() <= c
    }

    /// Whether the queue is at capacity. An unbounded queue never is.
    pub open spec fn full(self) -> bool {
        self.cap == Some(self.queue.len())
    }

    /// Whether one more item can be counted in a `usize`, where nothing else limits the
    /// queue.
    pub open spec fn countable(self) -> bool {
        self.cap is None ==> self.queue.len() < usize::MAX
    }

    /// Whether sends fail closed.
    pub open spec fn send_closed(self) -> bool {
        !self.receiver_alive || self.closed
    }

    /// Whether no further item can arrive, so that an empty queue means disconnection.
    pub open spec fn recv_closed(self) -> bool {
        self.senders == 0 || self.closed
    }

    pub open spec fn pushed(self, item: T) -> Self {
        ChanState { queue: self.queue.push(item), ..self }
    }

    pub open spec fn popped(self) -> Self {
        ChanState { queue: self.queue.drop_first(), ..self }
    }

    /// The parked receiver's waker is moved out and its wake is due.
    pub open spec fn receiver_woken(self) -> Self {
        ChanState {
            recv_waker: None,
            effects: self.effects + crate::effect::wake_of(self.recv_waker),
            ..self
        }
    }

    /// Every parked sender's waker is moved out and its wake is due.
    pub open spec fn senders_woken(self) -> Self {
        ChanState {
            send_wakers: Seq::empty(),
            effects: self.effects + crate::effect::wakes(self.send_wakers),
            ..self
        }
    }

    /// The receiver's waker is dropped without being woken.
    pub open spec fn recv_waker_cleared(self) -> Self {
        ChanState {
            recv_waker: None,
            effects: self.effects + crate::effect::discard_of(self.recv_waker),
            ..self
        }
    }

    /// Whether a receiver's waker is still taken: not once the channel is terminal, when
    /// nothing would ever wake or clear it.
    pub open spec fn takes_recv_waker(self) -> bool {
        self.receiver_alive && !self.recv_closed()
    }

    /// `waker` replaces the receiver's waker, or is dropped at once when the channel is
    /// terminal.
    pub open spec fn recv_waker_registered(self, waker: Waker) -> Self {
        if self.takes_recv_waker() {
            ChanState {
                recv_waker: Some(waker),
                effects: self.effects + crate::effect::discard_of(self.recv_waker),
                ..self
            }
        } else {
            ChanState { effects: self.effects.push(Effect::Discard(waker)), ..self }
        }
    }

    /// `waker` is registered for a parked sender under the next id.
    pub open spec fn send_waker_added(self, waker: Waker) -> Self {
        ChanState {
            send_wakers: self.send_wakers.push((self.next_send_id, waker)),
            next_send_id: crate::wakers::next_id(self.next_send_id),
            ..self
        }
    }

    /// The sender's waker registered under `id`, if any, is dropped without being woken.
    pub open spec fn send_waker_removed(self, id: Option<u64>) -> Self {
        match id {
            Some(id) => ChanState {
                send_wakers: crate::wakers::without(self.send_wakers, id),
                effects: self.effects + crate::effect::discard_of(
                    crate::wakers::registered(self.send_wakers, id),
                ),
                ..self
            },
            None => self,
        }
    }

    /// The channel is explicitly closed and the receiver woken, the first half of a close;
    /// closing again changes nothing. The second half wakes the senders.
    pub open spec fn closed_now(self) -> Self {
        if self.closed {
            self
        } else {
            (ChanState { closed: true, ..self }).receiver_woken()
        }
    }

    pub open spec fn sender_cloned(self) -> Self {
        ChanState { senders: self.senders + 1, ..self }
    }

    /// One sender is gone; when it was the last, the parked receiver is woken to observe
    /// the disconnection.
    pub open spec fn sender_dropped(self) -> Self {
        let left = ChanState { senders: (self.senders - 1) as nat, ..self };
        if self.senders == 1 {
            left.receiver_woken()
        } else {
            left
        }
    }

    /// The receiver is gone and parked senders are woken to fail closed. What it leaves
    /// behind, its waker and the queue, is released after that.
    pub open spec fn receiver_gone(self) -> Self {
        (ChanState { receiver_alive: false, ..self }).senders_woken()
    }

    /// What `try_send` makes of the channel.
    pub open spec fn try_send(self, item: T) -> Self {
        if self.send_closed() || self.full() {
            self
        } else {
            self.pushed(item).receiver_woken()
        }
    }

    /// What `try_send` returns.
    pub open spec fn try_send_result(self, item: T) -> Result<(), TrySendError<T>> {
        if self.send_closed() {
            Err(TrySendError::Closed(item))
        } else if self.full() {
            Err(TrySendError::Full(item))
        } else {
            Ok(())
        }
    }

    /// What `try_recv` makes of the channel: an item leaves and parked senders are woken.
    pub open spec fn try_recv(self) -> Self {
        if self.queue.len() > 0 {
            self.popped().senders_woken()
        } else {
            self
        }
    }

    /// What `try_recv` returns.
    pub open spec fn try_recv_result(self) -> Result<T, TryRecvError> {
        if self.queue.len() > 0 {
            Ok(self.queue[0])
        } else if self.recv_closed() {
            Err(TryRecvError::Disconnected)
        } else {
            Err(TryRecvError::Empty)
        }
    }

    /// Whether a receive completes at once: with an item, or with the disconnection.
    pub open spec fn recv_ready(self) -> bool {
        self.queue.len() > 0 || self.recv_closed()
    }

    /// What a receive that completes makes of the channel.
    pub open spec fn received(self) -> Self {
        if self.queue.len() > 0 {
            self.try_recv()
        } else {
            self.recv_waker_cleared()
        }
    }

    /// What a receive that completes resolves to.
    pub open spec fn received_result(self) -> Option<T> {
        if self.queue.len() > 0 {
            Some(self.queue[0])
        } else {
            None
        }
    }
}

/// The state of a `send` future.
#[verifier::ext_equal]
pub ghost struct SendState<T> {
    /// The item, until the send is decided.
    pub item: Option<T>,
    /// The id under which the future's waker is registered, while it is parked.
    pub waker_id: Option<u64>,
    /// The decided outcome, until it is handed out.
    pub outcome: Option<Result<(), SendError<T>>>,
    /// Whether the outcome has been handed out.
    pub done: bool,
}

impl<T> SendState<T> {
    /// A send that has not been polled.
    pub open spec fn started(item: T) -> Self {
        SendState { item: Some(item), waker_id: None, outcome: None, done: false }
    }

    /// The future holds its item, or its outcome, or is done; a future that is done is not
    /// registered.
    pub open spec fn valid(self) -> bool {
        &&& self.item is Some ==> self.outcome is None && !self.done
        &&& self.item is None ==> (self.outcome is None <==> self.done)
        &&& self.done ==> self.waker_id is None
    }

    /// The send is decided and the item gone. A registration stays until the wakes of the
    /// deciding step are performed.
    pub open spec fn decided(self, outcome: Result<(), SendError<T>>) -> Self {
        SendState { item: None, outcome: Some(outcome), ..self }
    }

    /// The registration is removed.
    pub open spec fn deregistered(self) -> Self {
        SendState { waker_id: None, ..self }
    }

    /// The item that the future still holds: undecided, or to be carried back.
    pub open spec fn unsent(self) -> Option<T> {
        match (self.item, self.outcome) {
            (Some(item), _) => Some(item),
            (None, Some(Err(e))) => Some(e.item),
            _ => None,
        }
    }

    /// The decided outcome is handed out.
    pub open spec fn delivered(self) -> Self {
        SendState { outcome: None, done: true, ..self }
    }

    /// The future after it tried to decide against a channel in which sends fail closed, or
    /// which is full, or neither.
    pub open spec fn tried_against(self, closed: bool, full: bool) -> Self {
        if closed {
            self.decided(Err(SendError { item: self.item.unwrap() }))
        } else if full {
            self
        } else {
            self.decided(Ok(()))
        }
    }
}

impl<T> ChanState<T> {
    /// The channel after the future `fut` tried to decide: an accepted item is queued and
    /// the receiver woken.
    pub open spec fn send_tried(self, fut: SendState<T>) -> Self {
        self.try_send(fut.item.unwrap())
    }

    /// The future `fut` after it tried to decide against this channel.
    pub open spec fn send_state_tried(self, fut: SendState<T>) -> SendState<T> {
        fut.tried_against(self.send_closed(), self.full())
    }

    /// The channel after the future `fut` parked with `waker`, replacing its registration.
    pub open spec fn send_parked(self, fut: SendState<T>, waker: Waker) -> Self {
        self.send_waker_removed(fut.waker_id).send_waker_added(waker)
    }
}

} // verus!
