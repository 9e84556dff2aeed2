//! What each operation on an `mpsc` channel is for: which results it gives on which
//! channels, what it changes and what it leaves alone, and what later operations then find.
//! All of it is told by the channel's plain state: its queue, its handles and its wakers.

use std::task::Waker;

use vstd::prelude::*;

use super::error::{SendError, TryRecvError, TrySendError};
use super::laws::{run, run_enabled, Op};
use super::model::{ChanState, SendState};
use crate::effect::{wakes_each, Effect};

verus! {

/// A new channel is open on both sides, with one producer and its consumer, nothing queued,
/// nobody parked and nothing due.
pub proof fn law_new_channel<T>(cap: Option<nat>)
    ensures
        ChanState::<T>::opened(cap).cap == cap,
        ChanState::<T>::opened(cap).queue.len() == 0,
        ChanState::<T>::opened(cap).senders == 1,
        ChanState::<T>::opened(cap).receiver_alive,
        !ChanState::<T>::opened(cap).closed,
        ChanState::<T>::opened(cap).recv_waker is None,
        ChanState::<T>::opened(cap).send_wakers.len() == 0,
        ChanState::<T>::opened(cap).next_send_id == 0,
        ChanState::<T>::opened(cap).effects.len() == 0,
{
}

/// A channel is closed for sends exactly when its receiver is gone or it was closed, closed
/// for receives exactly when its last sender is gone or it was closed, and full exactly when
/// it is bounded and holds as many items as its capacity.
pub proof fn law_open_closed_and_full<T>(s: ChanState<T>)
    ensures
        s.send_closed() <==> (!s.receiver_alive || s.closed),
        s.recv_closed() <==> (s.senders == 0 || s.closed),
        s.full() <==> (s.cap is Some && s.cap.unwrap() == s.queue.len()),
        s.takes_recv_waker() <==> (s.receiver_alive && s.senders > 0 && !s.closed),
        s.countable() <==> (s.cap is Some || s.queue.len() < usize::MAX),
        s.valid() <==> (s.cap is Some ==> 0 < s.cap.unwrap() && s.queue.len() <= s.cap.unwrap()),
{
}

/// Cloning a sender adds exactly one producer, in every state, and changes nothing else.
pub proof fn law_clone_adds_one_sender<T>(s: ChanState<T>)
    ensures
        s.sender_cloned().senders == s.senders + 1,
        s.sender_cloned() == (ChanState { senders: s.sender_cloned().senders, ..s }),
{
}

/// Dropping a sender takes exactly one producer off, in every state. The last one to go
/// wakes the parked receiver, once; any other wakes nobody. Nothing else changes.
pub proof fn law_drop_takes_one_sender_off<T>(s: ChanState<T>)
    requires
        s.senders > 0,
    ensures
        s.sender_dropped().senders + 1 == s.senders,
        s.sender_dropped() == (ChanState {
            senders: s.sender_dropped().senders,
            recv_waker: s.sender_dropped().recv_waker,
            effects: s.sender_dropped().effects,
            ..s
        }),
        s.senders > 1 ==> s.sender_dropped().recv_waker == s.recv_waker
            && s.sender_dropped().effects == s.effects,
        s.senders == 1 ==> s.sender_dropped().recv_waker is None,
        s.senders == 1 && s.recv_waker is None ==> s.sender_dropped().effects == s.effects,
        s.senders == 1 && s.recv_waker is Some ==> s.sender_dropped().effects == s.effects.push(
            Effect::Wake(s.recv_waker.unwrap()),
        ),
{
}

/// Once the last sender is dropped, a receive gives what is queued and then ends: an empty
/// channel reports the disconnection, whether or not the receiver was parked.
pub proof fn law_last_sender_ends_the_receive<T>(s: ChanState<T>)
    requires
        s.senders == 1,
    ensures
        s.sender_dropped().recv_ready(),
        s.queue.len() == 0 ==> s.sender_dropped().received_result() is None,
        s.queue.len() == 0 ==> s.sender_dropped().try_recv_result() == Err::<T, TryRecvError>(
            TryRecvError::Disconnected,
        ),
        s.queue.len() > 0 ==> s.sender_dropped().received_result() == Some(s.queue[0]),
{
}

/// `try_send` is refused as closed exactly when the receiver is gone or the channel was
/// closed, as full exactly when an open bounded channel has no room, and succeeds otherwise.
/// A refused send changes nothing. An accepted one stands at the back of the queue, and the
/// parked receiver is woken, once.
pub proof fn law_try_send<T>(s: ChanState<T>, item: T)
    ensures
        s.try_send_result(item) == Err::<(), TrySendError<T>>(TrySendError::Closed(item)) <==> (
        !s.receiver_alive || s.closed),
        s.try_send_result(item) == Err::<(), TrySendError<T>>(TrySendError::Full(item)) <==> (
        s.receiver_alive && !s.closed && s.cap == Some(s.queue.len())),
        s.try_send_result(item) is Ok <==> (s.receiver_alive && !s.closed && s.cap != Some(
            s.queue.len(),
        )),
        s.try_send_result(item) is Err ==> s.try_send(item) == s,
        s.try_send_result(item) is Ok ==> {
            &&& s.try_send(item).queue.len() == s.queue.len() + 1
            &&& s.try_send(item).queue.drop_last() == s.queue
            &&& s.try_send(item).queue.last() == item
            &&& s.try_send(item).recv_waker is None
            &&& s.recv_waker is None ==> s.try_send(item).effects == s.effects
            &&& s.recv_waker is Some ==> s.try_send(item).effects == s.effects.push(
                Effect::Wake(s.recv_waker.unwrap()),
            )
            &&& s.try_send(item) == (ChanState {
                queue: s.try_send(item).queue,
                recv_waker: s.try_send(item).recv_waker,
                effects: s.try_send(item).effects,
                ..s
            })
        },
{
    assert(s.queue.push(item).drop_last() =~= s.queue);
}

/// `try_recv` gives the oldest item exactly when one is queued, reports the disconnection
/// exactly when none is and no sender is left or the channel was closed, and reports the
/// channel empty otherwise. Only a receive that gave an item changes the channel: the item
/// leaves the queue and every parked sender is woken, once.
pub proof fn law_try_recv<T>(s: ChanState<T>)
    ensures
        s.queue.len() > 0 ==> s.try_recv_result() == Ok::<T, TryRecvError>(s.queue[0]),
        s.try_recv_result() is Ok <==> s.queue.len() > 0,
        s.try_recv_result() == Err::<T, TryRecvError>(TryRecvError::Disconnected) <==> (
        s.queue.len() == 0 && (s.senders == 0 || s.closed)),
        s.try_recv_result() == Err::<T, TryRecvError>(TryRecvError::Empty) <==> (s.queue.len() == 0
            && s.senders > 0 && !s.closed),
        s.queue.len() == 0 ==> s.try_recv() == s,
        s.queue.len() > 0 ==> {
            &&& s.queue == seq![s.queue[0]] + s.try_recv().queue
            &&& s.try_recv().send_wakers.len() == 0
            &&& wakes_each(s.effects, s.try_recv().effects, s.send_wakers)
            &&& s.try_recv() == (ChanState {
                queue: s.try_recv().queue,
                send_wakers: s.try_recv().send_wakers,
                effects: s.try_recv().effects,
                ..s
            })
        },
{
    if s.queue.len() > 0 {
        assert(s.queue =~= seq![s.queue[0]] + s.try_recv().queue);
    }
}

/// A receive completes exactly when an item is queued or no further one can come: no sender
/// is left, or the channel was closed. It then gives what `try_recv` gives, `None` standing
/// for the disconnection, and otherwise leaves everything to the parked receiver.
pub proof fn law_receive_completes<T>(s: ChanState<T>)
    ensures
        s.recv_ready() <==> (s.queue.len() > 0 || s.senders == 0 || s.closed),
        s.recv_ready() <==> s.try_recv_result() != Err::<T, TryRecvError>(TryRecvError::Empty),
        s.recv_ready() ==> (s.received_result() is None <==> s.try_recv_result() == Err::<
            T,
            TryRecvError,
        >(TryRecvError::Disconnected)),
        s.received_result() is Some <==> s.queue.len() > 0,
        s.queue.len() > 0 ==> s.received_result() == Some(s.queue[0]) && s.received()
            == s.try_recv(),
        s.queue.len() == 0 ==> s.received() == (ChanState {
            recv_waker: s.received().recv_waker,
            effects: s.received().effects,
            ..s
        }),
        s.queue.len() == 0 ==> s.received().recv_waker is None,
        s.queue.len() == 0 && s.recv_waker is None ==> s.received().effects == s.effects,
        s.queue.len() == 0 && s.recv_waker is Some ==> s.received().effects == s.effects.push(
            Effect::Discard(s.recv_waker.unwrap()),
        ),
{
}

/// The receiver's waker is kept exactly while something can still wake it: the receiver and
/// a sender are there and the channel was not closed. Otherwise it is dropped at once. A
/// waker that it replaces is dropped, and nobody is woken.
pub proof fn law_park_receiver<T>(s: ChanState<T>, waker: Waker)
    ensures
        s.recv_waker_registered(waker) == (ChanState {
            recv_waker: s.recv_waker_registered(waker).recv_waker,
            effects: s.recv_waker_registered(waker).effects,
            ..s
        }),
        s.receiver_alive && s.senders > 0 && !s.closed ==> {
            &&& s.recv_waker_registered(waker).recv_waker == Some(waker)
            &&& s.recv_waker is None ==> s.recv_waker_registered(waker).effects == s.effects
            &&& s.recv_waker is Some ==> s.recv_waker_registered(waker).effects == s.effects.push(
                Effect::Discard(s.recv_waker.unwrap()),
            )
        },
        !(s.receiver_alive && s.senders > 0 && !s.closed) ==> {
            &&& s.recv_waker_registered(waker).recv_waker == s.recv_waker
            &&& s.recv_waker_registered(waker).effects == s.effects.push(Effect::Discard(waker))
        },
{
}

/// Clearing the receiver's waker drops it, waking nobody; waking it moves it out and makes
/// its wake due. Either is done once, and touches nothing else.
pub proof fn law_clear_or_wake_receiver<T>(s: ChanState<T>)
    ensures
        s.recv_waker_cleared().recv_waker is None,
        s.receiver_woken().recv_waker is None,
        s.recv_waker is None ==> s.recv_waker_cleared() == s && s.receiver_woken() == s,
        s.recv_waker is Some ==> {
            &&& s.recv_waker_cleared().effects == s.effects.push(
                Effect::Discard(s.recv_waker.unwrap()),
            )
            &&& s.receiver_woken().effects == s.effects.push(Effect::Wake(s.recv_waker.unwrap()))
        },
        s.recv_waker_cleared() == (ChanState {
            recv_waker: s.recv_waker_cleared().recv_waker,
            effects: s.recv_waker_cleared().effects,
            ..s
        }),
        s.receiver_woken() == (ChanState {
            recv_waker: s.receiver_woken().recv_waker,
            effects: s.receiver_woken().effects,
            ..s
        }),
{
}

/// Waking the senders makes the wake of every parked one due, once and in order, and leaves
/// none registered. Nothing else changes.
pub proof fn law_wake_senders<T>(s: ChanState<T>)
    ensures
        s.senders_woken().send_wakers.len() == 0,
        wakes_each(s.effects, s.senders_woken().effects, s.send_wakers),
        s.senders_woken() == (ChanState {
            send_wakers: s.senders_woken().send_wakers,
            effects: s.senders_woken().effects,
            ..s
        }),
{
}

/// A push stands at the back and a pop takes the front, whatever else the channel holds.
pub proof fn law_push_and_pop<T>(s: ChanState<T>, item: T)
    ensures
        s.pushed(item).queue.len() == s.queue.len() + 1,
        s.pushed(item).queue.drop_last() == s.queue,
        s.pushed(item).queue.last() == item,
        s.pushed(item) == (ChanState { queue: s.pushed(item).queue, ..s }),
        s.queue.len() > 0 ==> s.queue == seq![s.queue[0]] + s.popped().queue,
        s.popped() == (ChanState { queue: s.popped().queue, ..s }),
{
    assert(s.pushed(item).queue.drop_last() =~= s.queue);
    if s.queue.len() > 0 {
        assert(s.queue =~= seq![s.queue[0]] + s.popped().queue);
    }
}

/// A `send` future fails exactly when the receiver is gone or the channel was closed, carrying
/// its item back; it waits, keeping its item, exactly when an open bounded channel has no
/// room; and it succeeds otherwise. It so decides as `try_send` does at that moment, and does
/// to the channel what that does.
pub proof fn law_send_decides_as_try_send<T>(s: ChanState<T>, fut: SendState<T>)
    requires
        fut.valid(),
        fut.item is Some,
    ensures
        s.send_state_tried(fut).outcome == Some(
            Err::<(), SendError<T>>(SendError { item: fut.item.unwrap() }),
        ) <==> (!s.receiver_alive || s.closed),
        s.send_state_tried(fut).outcome is None <==> (s.receiver_alive && !s.closed && s.cap
            == Some(s.queue.len())),
        s.send_state_tried(fut).outcome == Some(Ok::<(), SendError<T>>(())) <==> (s.receiver_alive
            && !s.closed && s.cap != Some(s.queue.len())),
        s.send_state_tried(fut).outcome is None ==> s.send_state_tried(fut) == fut,
        s.send_state_tried(fut).outcome is Some ==> {
            &&& s.send_state_tried(fut).item is None
            &&& s.send_state_tried(fut).waker_id == fut.waker_id
            &&& !s.send_state_tried(fut).done
        },
        s.send_tried(fut) == s.try_send(fut.item.unwrap()),
{
}

/// Waiting for room ends in delivery: a send that finds an open channel full parks; the next
/// receive frees a slot and makes its wake due; and its next step then queues the item behind
/// what is left and succeeds.
pub proof fn law_send_waits_for_room<T>(s: ChanState<T>, fut: SendState<T>, waker: Waker)
    requires
        fut.valid(),
        fut.item is Some,
        fut.waker_id is None,
        s.receiver_alive,
        !s.closed,
        s.cap == Some(s.queue.len()),
        s.queue.len() > 0,
    ensures
        ({
            let parked = s.send_parked(fut, waker);
            let freed = parked.try_recv();
            &&& s.send_state_tried(fut).outcome is None
            &&& freed.effects.last() == Effect::Wake(waker)
            &&& freed.send_state_tried(fut).outcome == Some(Ok::<(), SendError<T>>(()))
            &&& s.queue + seq![fut.item.unwrap()] == seq![s.queue[0]] + freed.send_tried(fut).queue
        }),
{
    let parked = s.send_parked(fut, waker);
    let freed = parked.try_recv();
    assert(freed.effects.last() == Effect::Wake(waker));
    assert(s.queue + seq![fut.item.unwrap()] =~= seq![s.queue[0]] + freed.send_tried(fut).queue);
}

/// Waiting for an item ends in delivery: a receive on an open, empty channel does not
/// complete; it parks; the next accepted send makes its wake due; and it then gives that item.
pub proof fn law_receive_waits_for_an_item<T>(s: ChanState<T>, waker: Waker, item: T)
    requires
        s.valid(),
        s.queue.len() == 0,
        s.senders > 0,
        s.receiver_alive,
        !s.closed,
    ensures
        !s.recv_ready(),
        !s.recv_waker_registered(waker).recv_ready(),
        s.recv_waker_registered(waker).try_send_result(item) is Ok,
        s.recv_waker_registered(waker).try_send(item).effects.last() == Effect::Wake(waker),
        s.recv_waker_registered(waker).try_send(item).recv_ready(),
        s.recv_waker_registered(waker).try_send(item).received_result() == Some(item),
{
}

/// Parking a send registers its waker under the next id, and the counter moves on by one,
/// starting over at zero after the largest.
pub proof fn law_park_sender<T>(s: ChanState<T>, fut: SendState<T>, waker: Waker)
    ensures
        s.send_waker_added(waker).send_wakers.drop_last() == s.send_wakers,
        s.send_waker_added(waker).send_wakers.len() == s.send_wakers.len() + 1,
        s.send_waker_added(waker).send_wakers.last() == (s.next_send_id, waker),
        s.next_send_id < u64::MAX ==> s.send_waker_added(waker).next_send_id == s.next_send_id + 1,
        s.next_send_id == u64::MAX ==> s.send_waker_added(waker).next_send_id == 0,
        s.send_waker_added(waker) == (ChanState {
            send_wakers: s.send_waker_added(waker).send_wakers,
            next_send_id: s.send_waker_added(waker).next_send_id,
            ..s
        }),
        s.send_parked(fut, waker) == s.send_waker_removed(fut.waker_id).send_waker_added(waker),
{
    assert(s.send_waker_added(waker).send_wakers.drop_last() =~= s.send_wakers);
}

/// Removing a send's registration drops the waker that stands first under its id, wakes
/// nobody, and keeps every other entry: the last one takes its place.
pub proof fn law_unpark_sender<T>(s: ChanState<T>, id: u64, k: int)
    requires
        0 <= k < s.send_wakers.len(),
        s.send_wakers[k].0 == id,
        forall|j: int| 0 <= j < k ==> (#[trigger] s.send_wakers[j]).0 != id,
    ensures
        s.send_waker_removed(Some(id)).effects == s.effects.push(
            Effect::Discard(s.send_wakers[k].1),
        ),
        s.send_waker_removed(Some(id)).send_wakers == s.send_wakers.update(
            k,
            s.send_wakers.last(),
        ).drop_last(),
        s.send_waker_removed(Some(id)) == (ChanState {
            send_wakers: s.send_waker_removed(Some(id)).send_wakers,
            effects: s.send_waker_removed(Some(id)).effects,
            ..s
        }),
{
    crate::wakers::law_remove_finds_the_first(s.send_wakers, id, k);
}

/// Without an entry under its id, or without an id, removing a send's registration changes
/// nothing.
pub proof fn law_unpark_unregistered_sender<T>(s: ChanState<T>, id: u64)
    requires
        forall|j: int| 0 <= j < s.send_wakers.len() ==> (#[trigger] s.send_wakers[j]).0 != id,
    ensures
        s.send_waker_removed(Some(id)) == s,
        s.send_waker_removed(None) == s,
{
    crate::wakers::law_remove_without_an_entry(s.send_wakers, id);
}

/// The first half of a close, of a channel not yet closed, marks it closed and wakes the
/// receiver, once; the items, the handles and the parked senders stay. Of a closed channel it
/// changes nothing.
pub proof fn law_close<T>(s: ChanState<T>)
    ensures
        s.closed_now().closed,
        s.closed ==> s.closed_now() == s,
        s.closed_now() == (ChanState {
            closed: true,
            recv_waker: s.closed_now().recv_waker,
            effects: s.closed_now().effects,
            ..s
        }),
        !s.closed ==> s.closed_now().recv_waker is None,
        !s.closed && s.recv_waker is None ==> s.closed_now().effects == s.effects,
        !s.closed && s.recv_waker is Some ==> s.closed_now().effects == s.effects.push(
            Effect::Wake(s.recv_waker.unwrap()),
        ),
{
}

/// Dropping the receiver ends it and wakes every parked sender, once and in order; the queue
/// and its own waker are still there. Every send is refused as closed from then on.
pub proof fn law_drop_receiver<T>(s: ChanState<T>, item: T)
    ensures
        !s.receiver_gone().receiver_alive,
        s.receiver_gone().send_wakers.len() == 0,
        wakes_each(s.effects, s.receiver_gone().effects, s.send_wakers),
        s.receiver_gone() == (ChanState {
            receiver_alive: false,
            send_wakers: s.receiver_gone().send_wakers,
            effects: s.receiver_gone().effects,
            ..s
        }),
        s.receiver_gone().try_send_result(item) == Err::<(), TrySendError<T>>(
            TrySendError::Closed(item),
        ),
{
}

/// A `send` future starts with its item, unregistered and undecided. It is always in one of
/// three conditions: it holds its item; or its outcome; or it is done, and then it is not
/// registered either.
pub proof fn law_send_future_holds_item_or_outcome<T>(fut: SendState<T>, item: T)
    ensures
        SendState::started(item).valid(),
        SendState::started(item).item == Some(item),
        SendState::started(item).waker_id is None,
        SendState::started(item).outcome is None,
        !SendState::started(item).done,
        fut.valid() <==> {
            ||| fut.item is Some && fut.outcome is None && !fut.done
            ||| fut.item is None && fut.outcome is Some && !fut.done
            ||| fut.item is None && fut.outcome is None && fut.done && fut.waker_id is None
        },
        fut.deregistered().waker_id is None,
        fut.deregistered() == (SendState { waker_id: fut.deregistered().waker_id, ..fut }),
        fut.delivered().outcome is None,
        fut.delivered().done,
        fut.delivered().item == fut.item,
        fut.delivered().waker_id == fut.waker_id,
{
}

/// An item is never lost in a `send` future: until it is accepted, dropping the future hands
/// back the very item it was made with, refused or not; once it is accepted or the error is
/// handed out, nothing.
pub proof fn law_unsent_item_is_handed_back<T>(s: ChanState<T>, fut: SendState<T>)
    requires
        fut.valid(),
    ensures
        fut.item is Some ==> fut.unsent() == fut.item,
        fut.item is Some && s.send_state_tried(fut).outcome != Some(Ok::<(), SendError<T>>(()))
            ==> s.send_state_tried(fut).unsent() == fut.item,
        fut.item is Some && s.send_state_tried(fut).outcome == Some(Ok::<(), SendError<T>>(()))
            ==> s.send_state_tried(fut).unsent() is None,
        fut.outcome == Some(Ok::<(), SendError<T>>(())) ==> fut.unsent() is None,
        fut.outcome is Some && fut.outcome.unwrap() is Err ==> fut.unsent() == Some(
            fut.outcome.unwrap()->Err_0.item,
        ),
        fut.done ==> fut.unsent() is None,
{
}

/// How many operations of a run satisfy a condition.
pub open spec fn count_ops<T>(ops: Seq<Op<T>>, counted: spec_fn(Op<T>) -> bool) -> nat
    decreases ops.len(),
{
    if ops.len() == 0 {
        0
    } else {
        count_ops(ops.drop_first(), counted) + (if counted(ops[0]) {
            1nat
        } else {
            0nat
        })
    }
}

/// Over every run, the live senders are those there at the start and those cloned, less those
/// dropped; the receiver is alive exactly until it is dropped; and the capacity stays.
pub proof fn law_handles_are_counted<T>(s: ChanState<T>, ops: Seq<Op<T>>)
    requires
        run_enabled(s, ops),
    ensures
        run(s, ops).senders + count_ops(ops, |op: Op<T>| op is DropSender) == s.senders + count_ops(
            ops,
            |op: Op<T>| op is CloneSender,
        ),
        run(s, ops).receiver_alive <==> (s.receiver_alive && count_ops(
            ops,
            |op: Op<T>| op is DropReceiver,
        ) == 0),
        run(s, ops).cap == s.cap,
    decreases ops.len(),
{
    if ops.len() > 0 {
        law_handles_are_counted(ops[0].apply(s), ops.drop_first());
    }
}

/// Over every run, a channel that was closed stays closed, and one that no handle closed
/// stays open.
pub proof fn law_only_a_close_closes<T>(s: ChanState<T>, ops: Seq<Op<T>>)
    requires
        run_enabled(s, ops),
    ensures
        s.closed ==> run(s, ops).closed,
        count_ops(ops, |op: Op<T>| op is CloseBySender || op is CloseByReceiver) == 0 ==> run(
            s,
            ops,
        ).closed == s.closed,
    decreases ops.len(),
{
    if ops.len() > 0 {
        law_only_a_close_closes(ops[0].apply(s), ops.drop_first());
    }
}

/// After a close through a sender every send is refused as closed, and after one through the
/// receiver the queue is drained and then reports the disconnection.
pub proof fn law_close_by_either_side<T>(s: ChanState<T>, item: T)
    ensures
        Op::CloseBySender.apply(s).try_send_result(item) == Err::<(), TrySendError<T>>(
            TrySendError::Closed(item),
        ),
        Op::CloseByReceiver.apply(s).recv_ready(),
        Op::CloseByReceiver.apply(s).queue == s.queue,
        s.queue.len() == 0 ==> Op::CloseByReceiver.apply(s).try_recv_result() == Err::<
            T,
            TryRecvError,
        >(TryRecvError::Disconnected),
{
}

/// A failed send carries its item back, whichever way it failed.
pub proof fn law_errors_carry_the_item<T>(item: T)
    ensures
        TrySendError::Full(item).item() == item,
        TrySendError::Closed(item).item() == item,
{
}

} // verus!
