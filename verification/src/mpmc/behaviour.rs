//! What each operation on an `mpmc` channel is for: which results it gives on which
//! channels, what it changes and what it leaves alone, and what later operations then find.
//! All of it is told by the channel's plain state: its items, its handles and its wakers.

use std::task::Waker;

use vstd::prelude::*;

use super::chan::TakeStep;
use super::laws::{run, run_enabled, Op};
use super::model::ChanState;
use crate::effect::{wakes_each, Effect};
use crate::mpsc::error::{SendError, TryRecvError, TrySendError};
use crate::mpsc::model::SendState;
use crate::step::Step;

verus! {

/// A new channel is open on both sides, with one producer and one consumer, nothing queued or
/// in transit, nobody parked and nothing due.
pub proof fn law_new_channel<T>(cap: Option<nat>)
    ensures
        ChanState::<T>::opened(cap).cap == cap,
        ChanState::<T>::opened(cap).queue.len() == 0,
        ChanState::<T>::opened(cap).redelivery is None,
        ChanState::<T>::opened(cap).senders == 1,
        ChanState::<T>::opened(cap).receivers == 1,
        !ChanState::<T>::opened(cap).closed,
        ChanState::<T>::opened(cap).recv_wakers.len() == 0,
        ChanState::<T>::opened(cap).next_recv_id == 0,
        ChanState::<T>::opened(cap).send_wakers.len() == 0,
        ChanState::<T>::opened(cap).next_send_id == 0,
        ChanState::<T>::opened(cap).effects.len() == 0,
{
}

/// The items still to be received are the one in transit, if there is one, and then those in
/// the queue.
pub proof fn law_items_in_order_of_delivery<T>(s: ChanState<T>)
    ensures
        s.redelivery is None ==> s.items() == s.queue,
        s.redelivery is Some ==> {
            &&& s.items().len() == s.queue.len() + 1
            &&& s.items()[0] == s.redelivery.unwrap()
            &&& s.items().drop_first() == s.queue
        },
        s.next_item() is Some <==> (s.redelivery is Some || s.queue.len() > 0),
        s.redelivery is Some ==> s.next_item() == s.redelivery,
        s.redelivery is None && s.queue.len() > 0 ==> s.next_item() == Some(s.queue[0]),
{
    if s.redelivery is Some {
        assert(s.items().drop_first() =~= s.queue);
    }
}

/// A channel is closed for sends exactly when its last receiver is gone or it was closed,
/// closed for receives exactly when its last sender is gone or it was closed, and full exactly
/// when it is bounded and as many items are queued as its capacity.
pub proof fn law_open_closed_and_full<T>(s: ChanState<T>)
    ensures
        s.send_closed() <==> (s.receivers == 0 || s.closed),
        s.recv_closed() <==> (s.senders == 0 || s.closed),
        s.full() <==> (s.cap is Some && s.cap.unwrap() == s.queue.len()),
        s.takes_recv_waker() <==> (s.receivers > 0 && s.senders > 0 && !s.closed),
        s.disconnected() <==> (s.redelivery is None && s.queue.len() == 0 && (s.senders == 0
            || s.closed)),
        s.countable() <==> (s.cap is Some || s.queue.len() + (if s.redelivery is Some {
            1int
        } else {
            0int
        }) < usize::MAX),
        s.len_fits() <==> (s.cap != Some(usize::MAX as nat) || s.queue.len() + (
        if s.redelivery is Some {
            1int
        } else {
            0int
        }) <= usize::MAX),
        s.valid() <==> {
            &&& s.cap is Some ==> 0 < s.cap.unwrap() <= usize::MAX && s.queue.len()
                <= s.cap.unwrap()
            &&& s.cap is None ==> s.queue.len() + (if s.redelivery is Some {
                1int
            } else {
                0int
            }) <= usize::MAX
        },
{
}

/// Cloning a sender adds exactly one producer, and cloning a receiver exactly one consumer, in
/// every state; nothing else changes.
pub proof fn law_clone_adds_one<T>(s: ChanState<T>)
    ensures
        s.sender_cloned().senders == s.senders + 1,
        s.sender_cloned() == (ChanState { senders: s.sender_cloned().senders, ..s }),
        s.receiver_cloned().receivers == s.receivers + 1,
        s.receiver_cloned() == (ChanState { receivers: s.receiver_cloned().receivers, ..s }),
{
}

/// Dropping a sender takes exactly one producer off, in every state. The last one to go wakes
/// every parked receiver, once and in order; any other wakes nobody. Nothing else changes.
pub proof fn law_drop_takes_one_sender_off<T>(s: ChanState<T>)
    requires
        s.senders > 0,
    ensures
        s.sender_dropped().senders + 1 == s.senders,
        s.sender_dropped() == (ChanState {
            senders: s.sender_dropped().senders,
            recv_wakers: s.sender_dropped().recv_wakers,
            effects: s.sender_dropped().effects,
            ..s
        }),
        s.senders > 1 ==> s.sender_dropped().recv_wakers == s.recv_wakers
            && s.sender_dropped().effects == s.effects,
        s.senders == 1 ==> s.sender_dropped().recv_wakers.len() == 0,
        s.senders == 1 ==> wakes_each(s.effects, s.sender_dropped().effects, s.recv_wakers),
{
}

/// Once the last sender is dropped, receivers take what is left and then end: a channel with
/// nothing left reports the disconnection, whoever was parked on it.
pub proof fn law_last_sender_ends_the_receive<T>(s: ChanState<T>, k: int)
    requires
        s.senders == 1,
    ensures
        0 <= k < s.recv_wakers.len() ==> s.sender_dropped().effects[s.effects.len() + k]
            == Effect::Wake(s.recv_wakers[k].1),
        s.redelivery is None && s.queue.len() == 0 ==> {
            &&& s.sender_dropped().polled_step(None) == Step::Ready(None::<T>)
            &&& s.sender_dropped().rechecked_step() == Step::Ready(None::<T>)
            &&& s.sender_dropped().try_recv_step() == Step::Ready(
                Err::<T, TryRecvError>(TryRecvError::Disconnected),
            )
        },
{
}

/// Dropping a receiver takes exactly one consumer off, in every state. The last one to go
/// wakes every parked sender, once and in order; any other wakes nobody. The items and all
/// registrations of receivers are still there.
pub proof fn law_drop_takes_one_receiver_off<T>(s: ChanState<T>)
    requires
        s.receivers > 0,
    ensures
        s.receiver_gone().receivers + 1 == s.receivers,
        s.receiver_gone() == (ChanState {
            receivers: s.receiver_gone().receivers,
            send_wakers: s.receiver_gone().send_wakers,
            effects: s.receiver_gone().effects,
            ..s
        }),
        s.receivers > 1 ==> s.receiver_gone().send_wakers == s.send_wakers
            && s.receiver_gone().effects == s.effects,
        s.receivers == 1 ==> s.receiver_gone().send_wakers.len() == 0,
        s.receivers == 1 ==> wakes_each(s.effects, s.receiver_gone().effects, s.send_wakers),
{
}

/// A consumer made by cloning keeps the channel going: when the other one drops, sends are
/// answered as before, and the clone receives what the other would have received.
pub proof fn law_a_clone_keeps_the_channel_going<T>(s: ChanState<T>, item: T)
    requires
        s.receivers > 0,
    ensures
        s.receiver_cloned().receiver_gone() == s,
        s.receiver_cloned().receiver_gone().try_send_result(item) == s.try_send_result(item),
        s.receiver_cloned().receiver_gone().try_recv_step() == s.try_recv_step(),
        s.senders > 0 ==> s.sender_cloned().sender_dropped() == s,
{
}

/// `try_send` is refused as closed exactly when no receiver is left or the channel was closed,
/// as full exactly when an open bounded queue has no room, and succeeds otherwise. A refused
/// send changes nothing. An accepted one stands at the back of the queue, and every parked
/// receiver is woken, once and in order.
pub proof fn law_try_send<T>(s: ChanState<T>, item: T)
    ensures
        s.try_send_result(item) == Err::<(), TrySendError<T>>(TrySendError::Closed(item)) <==> (
        s.receivers == 0 || s.closed),
        s.try_send_result(item) == Err::<(), TrySendError<T>>(TrySendError::Full(item)) <==> (
        s.receivers > 0 && !s.closed && s.cap == Some(s.queue.len())),
        s.try_send_result(item) is Ok <==> (s.receivers > 0 && !s.closed && s.cap != Some(
            s.queue.len(),
        )),
        s.try_send_result(item) is Err ==> s.try_send(item) == s,
        s.try_send_result(item) is Ok ==> {
            &&& s.try_send(item).queue.len() == s.queue.len() + 1
            &&& s.try_send(item).queue.drop_last() == s.queue
            &&& s.try_send(item).queue.last() == item
            &&& s.try_send(item).recv_wakers.len() == 0
            &&& wakes_each(s.effects, s.try_send(item).effects, s.recv_wakers)
            &&& s.try_send(item) == (ChanState {
                queue: s.try_send(item).queue,
                recv_wakers: s.try_send(item).recv_wakers,
                effects: s.try_send(item).effects,
                ..s
            })
        },
{
    assert(s.queue.push(item).drop_last() =~= s.queue);
}

/// One step of taking an item gives the one in transit, else the oldest queued one when no
/// sender is parked, else sets that one aside and wakes every parked sender, once and in
/// order. It finds nothing exactly when nothing is left. Nothing else changes.
pub proof fn law_take_step<T>(s: ChanState<T>)
    ensures
        s.redelivery is Some ==> {
            &&& s.take_step_result() == TakeStep::Item(s.redelivery.unwrap())
            &&& s.take_stepped().redelivery is None
            &&& s.take_stepped() == (ChanState { redelivery: s.take_stepped().redelivery, ..s })
        },
        s.redelivery is None && s.queue.len() == 0 ==> {
            &&& s.take_step_result() == TakeStep::<T>::Empty
            &&& s.take_stepped() == s
        },
        s.redelivery is None && s.queue.len() > 0 && s.send_wakers.len() == 0 ==> {
            &&& s.take_step_result() == TakeStep::Item(s.queue[0])
            &&& s.queue == seq![s.queue[0]] + s.take_stepped().queue
            &&& s.take_stepped() == (ChanState { queue: s.take_stepped().queue, ..s })
        },
        s.redelivery is None && s.queue.len() > 0 && s.send_wakers.len() > 0 ==> {
            &&& s.take_step_result() == TakeStep::<T>::Wake
            &&& s.take_stepped().redelivery == Some(s.queue[0])
            &&& s.queue == seq![s.queue[0]] + s.take_stepped().queue
            &&& s.take_stepped().send_wakers.len() == 0
            &&& wakes_each(s.effects, s.take_stepped().effects, s.send_wakers)
            &&& s.take_stepped() == (ChanState {
                redelivery: s.take_stepped().redelivery,
                queue: s.take_stepped().queue,
                send_wakers: s.take_stepped().send_wakers,
                effects: s.take_stepped().effects,
                ..s
            })
        },
{
    if s.redelivery is None && s.queue.len() > 0 {
        assert(s.queue =~= seq![s.queue[0]] + s.take_stepped().queue);
    }
}

/// A step of `try_recv` gives an item exactly when one is in transit, or queued with no sender
/// parked; asks to wake parked senders exactly when one is queued and they are there; reports
/// the disconnection exactly when nothing is left and no sender is, or the channel was closed;
/// and reports the channel empty otherwise.
pub proof fn law_try_recv<T>(s: ChanState<T>)
    ensures
        s.redelivery is Some ==> s.try_recv_step() == Step::Ready(
            Ok::<T, TryRecvError>(s.redelivery.unwrap()),
        ),
        s.redelivery is None && s.queue.len() > 0 && s.send_wakers.len() == 0
            ==> s.try_recv_step() == Step::Ready(Ok::<T, TryRecvError>(s.queue[0])),
        s.redelivery is None && s.queue.len() > 0 && s.send_wakers.len() > 0 ==> s.try_recv_step()
            == Step::<Result<T, TryRecvError>>::Perform,
        s.try_recv_step() == Step::Ready(Err::<T, TryRecvError>(TryRecvError::Disconnected)) <==> (
        s.redelivery is None && s.queue.len() == 0 && (s.senders == 0 || s.closed)),
        s.try_recv_step() == Step::Ready(Err::<T, TryRecvError>(TryRecvError::Empty)) <==> (
        s.redelivery is None && s.queue.len() == 0 && s.senders > 0 && !s.closed),
        s.nothing_received() == TryRecvError::Disconnected <==> (s.senders == 0 || s.closed),
        s.nothing_received() == TryRecvError::Empty <==> (s.senders > 0 && !s.closed),
{
}

/// A receive that is polled without a registration does as `try_recv` does, `None` standing
/// for the disconnection, but waits where that reports the channel empty: it asks for a waker
/// exactly when nothing is left, a sender is and the channel was not closed. One that holds a
/// registration first has it removed, and touches no item.
pub proof fn law_poll_receives_or_waits<T>(s: ChanState<T>, id: u64)
    ensures
        s.polled(None) == s.take_stepped(),
        forall|item: T|
            s.polled_step(None) == Step::Ready(Some(item)) <==> #[trigger] s.try_recv_step()
                == Step::Ready(Ok::<T, TryRecvError>(item)),
        s.polled_step(None) == Step::Ready(None::<T>) <==> (s.redelivery is None && s.queue.len()
            == 0 && (s.senders == 0 || s.closed)),
        s.polled_step(None) == Step::<Option<T>>::Register <==> (s.redelivery is None
            && s.queue.len() == 0 && s.senders > 0 && !s.closed),
        s.polled_step(None) == Step::<Option<T>>::Perform <==> (s.redelivery is None
            && s.queue.len() > 0 && s.send_wakers.len() > 0),
        s.polled_step(Some(id)) == Step::<Option<T>>::Perform,
        s.polled(Some(id)) == s.recv_waker_removed(Some(id)),
{
}

/// The step after a registration does the same, but stays parked where the first step asked
/// for a waker. The registration stays, except that a receive that ends disconnected takes it
/// away.
pub proof fn law_recheck_receives_or_parks<T>(s: ChanState<T>, slot: Option<u64>)
    ensures
        forall|item: T|
            s.rechecked_step() == Step::Ready(Some(item)) <==> #[trigger] s.try_recv_step()
                == Step::Ready(Ok::<T, TryRecvError>(item)),
        s.rechecked_step() == Step::Ready(None::<T>) <==> (s.redelivery is None && s.queue.len()
            == 0 && (s.senders == 0 || s.closed)),
        s.rechecked_step() == Step::<Option<T>>::Pending <==> (s.redelivery is None
            && s.queue.len() == 0 && s.senders > 0 && !s.closed),
        s.rechecked_step() == Step::<Option<T>>::Perform <==> (s.redelivery is None
            && s.queue.len() > 0 && s.send_wakers.len() > 0),
        s.rechecked_step() == Step::Ready(None::<T>) ==> s.rechecked(slot) == s.recv_waker_removed(
            slot,
        ) && s.rechecked_slot(slot) is None,
        s.rechecked_step() != Step::Ready(None::<T>) ==> s.rechecked(slot) == s.take_stepped()
            && s.rechecked_slot(slot) == slot,
{
}

/// Waiting for an item ends in delivery: a receive on an open channel with nothing for it
/// parks; the next accepted send makes its wake due; and it then gives that item, at once or
/// after waking the senders that are parked by then.
pub proof fn law_receive_waits_for_an_item<T>(s: ChanState<T>, waker: Waker, item: T)
    requires
        s.valid(),
        s.redelivery is None,
        s.queue.len() == 0,
        s.senders > 0,
        s.receivers > 0,
        !s.closed,
    ensures
        ({
            let parked = s.recv_waker_added(waker);
            let sent = parked.try_send(item);
            &&& s.polled_step(None) == Step::<Option<T>>::Register
            &&& parked.rechecked_step() == Step::<Option<T>>::Pending
            &&& parked.try_send_result(item) is Ok
            &&& sent.effects.last() == Effect::Wake(waker)
            &&& s.send_wakers.len() == 0 ==> sent.polled_step(None) == Step::Ready(Some(item))
            &&& s.send_wakers.len() > 0 ==> sent.take_stepped().polled_step(None) == Step::Ready(
                Some(item),
            )
        }),
{
    let sent = s.recv_waker_added(waker).try_send(item);
    assert(sent.effects.last() == Effect::Wake(waker));
}

/// A push stands at the back of the queue and a pop takes its front, whatever else the channel
/// holds. Releasing takes the next item of all, and wakes nobody.
pub proof fn law_push_pop_and_release<T>(s: ChanState<T>, item: T)
    ensures
        s.pushed(item).queue.len() == s.queue.len() + 1,
        s.pushed(item).queue.drop_last() == s.queue,
        s.pushed(item).queue.last() == item,
        s.pushed(item) == (ChanState { queue: s.pushed(item).queue, ..s }),
        s.queue.len() > 0 ==> s.queue == seq![s.queue[0]] + s.popped().queue,
        s.popped() == (ChanState { queue: s.popped().queue, ..s }),
        s.released() == (ChanState {
            queue: s.released().queue,
            redelivery: s.released().redelivery,
            ..s
        }),
        s.released().redelivery is None,
        s.redelivery is Some || s.queue.len() == 0 ==> s.released().queue == s.queue,
        s.redelivery is None && s.queue.len() > 0 ==> s.queue == seq![s.queue[0]]
            + s.released().queue,
{
    assert(s.pushed(item).queue.drop_last() =~= s.queue);
    if s.queue.len() > 0 {
        assert(s.queue =~= seq![s.queue[0]] + s.popped().queue);
    }
}

/// Waking one side makes the wake of everyone parked on it due, once and in order, and leaves
/// none registered there. Nothing else changes.
pub proof fn law_wake_one_side<T>(s: ChanState<T>)
    ensures
        s.senders_woken().send_wakers.len() == 0,
        wakes_each(s.effects, s.senders_woken().effects, s.send_wakers),
        s.senders_woken() == (ChanState {
            send_wakers: s.senders_woken().send_wakers,
            effects: s.senders_woken().effects,
            ..s
        }),
        s.receivers_woken().recv_wakers.len() == 0,
        wakes_each(s.effects, s.receivers_woken().effects, s.recv_wakers),
        s.receivers_woken() == (ChanState {
            recv_wakers: s.receivers_woken().recv_wakers,
            effects: s.receivers_woken().effects,
            ..s
        }),
{
}

/// A `send` future fails exactly when no receiver is left or the channel was closed, carrying
/// its item back; it waits, keeping its item, exactly when an open bounded queue has no room;
/// and it succeeds otherwise. It so decides as `try_send` does at that moment, and does to the
/// channel what that does.
pub proof fn law_send_decides_as_try_send<T>(s: ChanState<T>, fut: SendState<T>)
    requires
        fut.valid(),
        fut.item is Some,
    ensures
        s.send_state_tried(fut).outcome == Some(
            Err::<(), SendError<T>>(SendError { item: fut.item.unwrap() }),
        ) <==> (s.receivers == 0 || s.closed),
        s.send_state_tried(fut).outcome is None <==> (s.receivers > 0 && !s.closed && s.cap == Some(
            s.queue.len(),
        )),
        s.send_state_tried(fut).outcome == Some(Ok::<(), SendError<T>>(())) <==> (s.receivers > 0
            && !s.closed && s.cap != Some(s.queue.len())),
        s.send_state_tried(fut).outcome is None ==> s.send_state_tried(fut) == fut,
        s.send_state_tried(fut).outcome is Some ==> {
            &&& s.send_state_tried(fut).item is None
            &&& s.send_state_tried(fut).waker_id == fut.waker_id
            &&& !s.send_state_tried(fut).done
        },
        s.send_tried(fut) == s.try_send(fut.item.unwrap()),
{
}

/// Waiting for room ends in delivery: a send that finds an open queue full parks; the next
/// receive sets the oldest item aside and makes its wake due; and its next step then queues
/// the item behind what is left and succeeds.
pub proof fn law_send_waits_for_room<T>(s: ChanState<T>, fut: SendState<T>, waker: Waker)
    requires
        fut.valid(),
        fut.item is Some,
        fut.waker_id is None,
        s.receivers > 0,
        !s.closed,
        s.redelivery is None,
        s.cap == Some(s.queue.len()),
        s.queue.len() > 0,
    ensures
        ({
            let parked = s.send_parked(fut, waker);
            let freed = parked.take_stepped();
            &&& s.send_state_tried(fut).outcome is None
            &&& freed.effects.last() == Effect::Wake(waker)
            &&& freed.send_state_tried(fut).outcome == Some(Ok::<(), SendError<T>>(()))
            &&& freed.send_tried(fut).items() == s.queue + seq![fut.item.unwrap()]
        }),
{
    let parked = s.send_parked(fut, waker);
    let freed = parked.take_stepped();
    assert(freed.effects.last() == Effect::Wake(waker));
    assert(freed.send_tried(fut).items() =~= s.queue + seq![fut.item.unwrap()]);
}

/// Parking a send registers its waker under the next id, and the counter moves on by one,
/// starting over at zero after the largest.
pub proof fn law_park_sender<T>(s: ChanState<T>, fut: SendState<T>, waker: Waker)
    ensures
        s.send_waker_added(waker).send_wakers.drop_last() == s.send_wakers,
        s.send_waker_added(waker).send_wakers.len() == s.send_wakers.len() + 1,
        s.send_waker_added(waker).send_wakers.last() == (s.next_send_id, waker),
        s.next_send_id < u64::MAX ==> s.send_waker_added(waker).next_send_id == s.next_send_id + 1,
        s.next_send_id == u64::MAX ==> s.send_waker_added(waker).next_send_id == 0,
        s.send_waker_added(waker) == (ChanState {
            send_wakers: s.send_waker_added(waker).send_wakers,
            next_send_id: s.send_waker_added(waker).next_send_id,
            ..s
        }),
        s.send_parked(fut, waker) == s.send_waker_removed(fut.waker_id).send_waker_added(waker),
{
    assert(s.send_waker_added(waker).send_wakers.drop_last() =~= s.send_wakers);
}

/// Parking a receive uses up the next id, in every state, the counter starting over at zero
/// after the largest. The waker is kept under that id exactly while something can still wake
/// it: a receiver and a sender are there and the channel was not closed. Otherwise it is
/// dropped at once. Nobody is woken.
pub proof fn law_park_receiver<T>(s: ChanState<T>, waker: Waker)
    ensures
        s.next_recv_id < u64::MAX ==> s.recv_waker_added(waker).next_recv_id == s.next_recv_id + 1,
        s.next_recv_id == u64::MAX ==> s.recv_waker_added(waker).next_recv_id == 0,
        s.recv_waker_added(waker) == (ChanState {
            recv_wakers: s.recv_waker_added(waker).recv_wakers,
            next_recv_id: s.recv_waker_added(waker).next_recv_id,
            effects: s.recv_waker_added(waker).effects,
            ..s
        }),
        s.receivers > 0 && s.senders > 0 && !s.closed ==> {
            &&& s.recv_waker_added(waker).recv_wakers.drop_last() == s.recv_wakers
            &&& s.recv_waker_added(waker).recv_wakers.len() == s.recv_wakers.len() + 1
            &&& s.recv_waker_added(waker).recv_wakers.last() == (s.next_recv_id, waker)
            &&& s.recv_waker_added(waker).effects == s.effects
        },
        !(s.receivers > 0 && s.senders > 0 && !s.closed) ==> {
            &&& s.recv_waker_added(waker).recv_wakers == s.recv_wakers
            &&& s.recv_waker_added(waker).effects == s.effects.push(Effect::Discard(waker))
        },
{
    if s.receivers > 0 && s.senders > 0 && !s.closed {
        assert(s.recv_waker_added(waker).recv_wakers.drop_last() =~= s.recv_wakers);
    }
}

/// Removing a send's registration drops the waker that stands first under its id, wakes
/// nobody, and keeps every other entry: the last one takes its place.
pub proof fn law_unpark_sender<T>(s: ChanState<T>, id: u64, k: int)
    requires
        0 <= k < s.send_wakers.len(),
        s.send_wakers[k].0 == id,
        forall|j: int| 0 <= j < k ==> (#[trigger] s.send_wakers[j]).0 != id,
    ensures
        s.send_waker_removed(Some(id)).effects == s.effects.push(
            Effect::Discard(s.send_wakers[k].1),
        ),
        s.send_waker_removed(Some(id)).send_wakers == s.send_wakers.update(
            k,
            s.send_wakers.last(),
        ).drop_last(),
        s.send_waker_removed(Some(id)) == (ChanState {
            send_wakers: s.send_waker_removed(Some(id)).send_wakers,
            effects: s.send_waker_removed(Some(id)).effects,
            ..s
        }),
{
    crate::wakers::law_remove_finds_the_first(s.send_wakers, id, k);
}

/// Removing a receive's registration drops the waker that stands first under its id, wakes
/// nobody, and keeps every other entry: the last one takes its place.
pub proof fn law_unpark_receiver<T>(s: ChanState<T>, id: u64, k: int)
    requires
        0 <= k < s.recv_wakers.len(),
        s.recv_wakers[k].0 == id,
        forall|j: int| 0 <= j < k ==> (#[trigger] s.recv_wakers[j]).0 != id,
    ensures
        s.recv_waker_removed(Some(id)).effects == s.effects.push(
            Effect::Discard(s.recv_wakers[k].1),
        ),
        s.recv_waker_removed(Some(id)).recv_wakers == s.recv_wakers.update(
            k,
            s.recv_wakers.last(),
        ).drop_last(),
        s.recv_waker_removed(Some(id)) == (ChanState {
            recv_wakers: s.recv_waker_removed(Some(id)).recv_wakers,
            effects: s.recv_waker_removed(Some(id)).effects,
            ..s
        }),
{
    crate::wakers::law_remove_finds_the_first(s.recv_wakers, id, k);
}

/// Without an entry under its id, or without an id, removing a registration changes nothing.
pub proof fn law_unpark_unregistered<T>(s: ChanState<T>, id: u64)
    ensures
        (forall|j: int| 0 <= j < s.send_wakers.len() ==> (#[trigger] s.send_wakers[j]).0 != id)
            ==> s.send_waker_removed(Some(id)) == s,
        (forall|j: int| 0 <= j < s.recv_wakers.len() ==> (#[trigger] s.recv_wakers[j]).0 != id)
            ==> s.recv_waker_removed(Some(id)) == s,
        s.send_waker_removed(None) == s,
        s.recv_waker_removed(None) == s,
{
    if forall|j: int| 0 <= j < s.send_wakers.len() ==> (#[trigger] s.send_wakers[j]).0 != id {
        crate::wakers::law_remove_without_an_entry(s.send_wakers, id);
    }
    if forall|j: int| 0 <= j < s.recv_wakers.len() ==> (#[trigger] s.recv_wakers[j]).0 != id {
        crate::wakers::law_remove_without_an_entry(s.recv_wakers, id);
    }
}

/// The first half of a close, of a channel not yet closed, marks it closed and wakes every
/// parked receiver, once and in order; the items, the handles and the parked senders stay. Of
/// a closed channel it changes nothing. From then on sends are refused as closed, and a
/// channel with nothing left reports the disconnection.
pub proof fn law_close<T>(s: ChanState<T>, item: T)
    ensures
        s.closed_now().closed,
        s.closed ==> s.closed_now() == s,
        s.closed_now() == (ChanState {
            closed: true,
            recv_wakers: s.closed_now().recv_wakers,
            effects: s.closed_now().effects,
            ..s
        }),
        !s.closed ==> s.closed_now().recv_wakers.len() == 0,
        !s.closed ==> wakes_each(s.effects, s.closed_now().effects, s.recv_wakers),
        s.closed_now().try_send_result(item) == Err::<(), TrySendError<T>>(
            TrySendError::Closed(item),
        ),
        s.redelivery is None && s.queue.len() == 0 ==> s.closed_now().polled_step(None)
            == Step::Ready(None::<T>),
{
}

/// How many operations of a run satisfy a condition.
pub open spec fn count_ops<T>(ops: Seq<Op<T>>, counted: spec_fn(Op<T>) -> bool) -> nat
    decreases ops.len(),
{
    if ops.len() == 0 {
        0
    } else {
        count_ops(ops.drop_first(), counted) + (if counted(ops[0]) {
            1nat
        } else {
            0nat
        })
    }
}

/// Over every run, the live handles of each side are those there at the start and those
/// cloned, less those dropped; the capacity stays.
pub proof fn law_handles_are_counted<T>(s: ChanState<T>, ops: Seq<Op<T>>)
    requires
        run_enabled(s, ops),
    ensures
        run(s, ops).senders + count_ops(ops, |op: Op<T>| op is DropSender) == s.senders + count_ops(
            ops,
            |op: Op<T>| op is CloneSender,
        ),
        run(s, ops).receivers + count_ops(ops, |op: Op<T>| op is DropReceiver) == s.receivers
            + count_ops(ops, |op: Op<T>| op is CloneReceiver),
        run(s, ops).cap == s.cap,
    decreases ops.len(),
{
    if ops.len() > 0 {
        law_handles_are_counted(ops[0].apply(s), ops.drop_first());
    }
}

/// Over every run, a channel that was closed stays closed, and one that was never closed
/// stays open.
pub proof fn law_only_a_close_closes<T>(s: ChanState<T>, ops: Seq<Op<T>>)
    requires
        run_enabled(s, ops),
    ensures
        run(s, ops).closed <==> (s.closed || count_ops(ops, |op: Op<T>| op is Close) > 0),
    decreases ops.len(),
{
    if ops.len() > 0 {
        law_only_a_close_closes(ops[0].apply(s), ops.drop_first());
    }
}

/// From its creation on, a channel refuses sends as closed exactly when as many receivers were
/// dropped as were ever made, or it was closed.
pub proof fn law_sends_fail_once_every_receiver_dropped<T>(
    cap: Option<nat>,
    ops: Seq<Op<T>>,
    item: T,
)
    requires
        run_enabled(ChanState::<T>::opened(cap), ops),
    ensures
        run(ChanState::<T>::opened(cap), ops).try_send_result(item) == Err::<(), TrySendError<T>>(
            TrySendError::Closed(item),
        ) <==> {
            ||| count_ops(ops, |op: Op<T>| op is DropReceiver) == 1 + count_ops(
                ops,
                |op: Op<T>| op is CloneReceiver,
            )
            ||| count_ops(ops, |op: Op<T>| op is Close) > 0
        },
{
    law_handles_are_counted(ChanState::<T>::opened(cap), ops);
    law_only_a_close_closes(ChanState::<T>::opened(cap), ops);
}

} // verus!
