//! What holds of an `mpmc` channel over every run of operations on it.

use std::task::Waker;

use vstd::prelude::*;

use super::chan::TakeStep;
use super::model::ChanState;
use crate::effect::Effect;
use crate::mpsc::error::{SendError, TryRecvError, TrySendError};
use crate::mpsc::model::SendState;
use crate::step::Step;
use crate::wakers::{orderly, registered, without};

verus! {

/// One operation of a handle or a future on a channel, at the level of the model.
pub ghost enum Op<T> {
    /// `Sender::try_send`.
    TrySend(T),
    /// A step of a `send` future that is in the given state and undecided.
    SendStep(SendState<T>),
    /// The `send` future in the given state parks with the waker.
    SendPark(SendState<T>, Waker),
    /// The `send` future in the given state is dropped, or removes its registration.
    SendDrop(SendState<T>),
    /// `Sender::clone`.
    CloneSender,
    /// `Sender::drop`.
    DropSender,
    /// A step of `Receiver::try_recv`.
    TryRecv,
    /// The first step of a receive, with the registration it holds.
    RecvPoll(Option<u64>),
    /// A receive parks with the waker.
    RecvPark(Waker),
    /// The step of a receive after its registration.
    RecvRecheck(Option<u64>),
    /// A `recv` future with the given registration is dropped, or polled after completion.
    RecvDrop(Option<u64>),
    /// `Receiver::clone`.
    CloneReceiver,
    /// `Receiver::drop`.
    DropReceiver,
    /// A step of `Dropping` that releases an item.
    DropRelease,
    /// The step of `Dropping` that removes the stream registration.
    DropStream(u64),
    /// `Chan::close`, the first half of a close.
    Close,
    /// `Closing::finish` of a close that was newly made.
    FinishClose,
    /// `Chan::take_effects`.
    TakeEffects,
}

impl<T> Op<T> {
    /// Whether the handle that performs the operation is alive, and the operation open to
    /// it.
    pub open spec fn enabled(self, s: ChanState<T>) -> bool {
        match self {
            Op::TrySend(_) => s.senders > 0 && s.countable(),
            Op::SendStep(fut) => {
                s.senders > 0 && s.countable() && fut.valid() && fut.item is Some
            },
            Op::SendPark(fut, _) => s.senders > 0 && fut.valid() && fut.item is Some,
            Op::SendDrop(fut) => s.senders > 0 && fut.valid(),
            Op::CloneSender | Op::DropSender => s.senders > 0,
            Op::TryRecv | Op::RecvPoll(_) | Op::RecvPark(_) | Op::RecvRecheck(_)
            | Op::RecvDrop(_) | Op::CloneReceiver | Op::DropReceiver => s.receivers > 0,
            Op::DropRelease => s.receivers == 0,
            Op::FinishClose => s.closed,
            Op::DropStream(_) | Op::Close | Op::TakeEffects => true,
        }
    }

    /// What the operation makes of the channel.
    pub open spec fn apply(self, s: ChanState<T>) -> ChanState<T> {
        match self {
            Op::TrySend(item) => s.try_send(item),
            Op::SendStep(fut) => s.send_tried(fut),
            Op::SendPark(fut, waker) => s.send_parked(fut, waker),
            Op::SendDrop(fut) => s.send_waker_removed(fut.waker_id),
            Op::CloneSender => s.sender_cloned(),
            Op::DropSender => s.sender_dropped(),
            Op::TryRecv => s.take_stepped(),
            Op::RecvPoll(slot) => s.polled(slot),
            Op::RecvPark(waker) => s.recv_waker_added(waker),
            Op::RecvRecheck(slot) => s.rechecked(slot),
            Op::RecvDrop(slot) => s.recv_waker_removed(slot),
            Op::CloneReceiver => s.receiver_cloned(),
            Op::DropReceiver => s.receiver_gone(),
            Op::DropRelease => s.released(),
            Op::DropStream(id) => s.recv_waker_removed(Some(id)),
            Op::Close => s.closed_now(),
            Op::FinishClose => s.senders_woken(),
            Op::TakeEffects => ChanState { effects: Seq::empty(), ..s },
        }
    }

    /// The item that the operation gets accepted into the channel.
    pub open spec fn accepted(self, s: ChanState<T>) -> Seq<T> {
        match self {
            Op::TrySend(item) => if s.try_send_result(item) is Ok {
                seq![item]
            } else {
                Seq::empty()
            },
            Op::SendStep(fut) => if s.send_state_tried(fut).outcome == Some(
                Ok::<(), SendError<T>>(()),
            ) {
                seq![fut.item.unwrap()]
            } else {
                Seq::empty()
            },
            _ => Seq::empty(),
        }
    }

    /// The items that the operation hands out: to one consumer, or back for dropping when
    /// the last consumer goes.
    pub open spec fn handed_out(self, s: ChanState<T>) -> Seq<T> {
        match self {
            Op::TryRecv => match s.try_recv_step() {
                Step::Ready(Ok(item)) => seq![item],
                _ => Seq::empty(),
            },
            Op::RecvPoll(slot) => match s.polled_step(slot) {
                Step::Ready(Some(item)) => seq![item],
                _ => Seq::empty(),
            },
            Op::RecvRecheck(_) => match s.rechecked_step() {
                Step::Ready(Some(item)) => seq![item],
                _ => Seq::empty(),
            },
            Op::DropRelease => match s.next_item() {
                Some(item) => seq![item],
                None => Seq::empty(),
            },
            _ => Seq::empty(),
        }
    }
}

/// Whether every operation of a run is enabled when its turn comes.
pub open spec fn run_enabled<T>(s: ChanState<T>, ops: Seq<Op<T>>) -> bool
    decreases ops.len(),
{
    ops.len() == 0 || {
        &&& ops[0].enabled(s)
        &&& run_enabled(ops[0].apply(s), ops.drop_first())
    }
}

/// The channel after a run of operations.
pub open spec fn run<T>(s: ChanState<T>, ops: Seq<Op<T>>) -> ChanState<T>
    decreases ops.len(),
{
    if ops.len() == 0 {
        s
    } else {
        run(ops[0].apply(s), ops.drop_first())
    }
}

/// The items accepted over a run, in order.
pub open spec fn run_accepted<T>(s: ChanState<T>, ops: Seq<Op<T>>) -> Seq<T>
    decreases ops.len(),
{
    if ops.len() == 0 {
        Seq::empty()
    } else {
        ops[0].accepted(s) + run_accepted(ops[0].apply(s), ops.drop_first())
    }
}

/// The items handed out over a run, in order.
pub open spec fn run_handed_out<T>(s: ChanState<T>, ops: Seq<Op<T>>) -> Seq<T>
    decreases ops.len(),
{
    if ops.len() == 0 {
        Seq::empty()
    } else {
        ops[0].handed_out(s) + run_handed_out(ops[0].apply(s), ops.drop_first())
    }
}

/// Whether the wake of `waker` became due between two states.
pub open spec fn woken<T>(before: ChanState<T>, after: ChanState<T>, waker: Waker) -> bool {
    exists|i: int|
        before.effects.len() <= i < after.effects.len() && #[trigger] after.effects[i]
            == Effect::Wake(waker)
}

/// One operation puts what it gets accepted at the back of the items and hands out from the
/// front.
proof fn lemma_step_conserves<T>(s: ChanState<T>, op: Op<T>)
    requires
        op.enabled(s),
    ensures
        s.items() + op.accepted(s) == op.handed_out(s) + op.apply(s).items(),
{
    let t = op.apply(s);
    assert(s.items() + op.accepted(s) =~= op.handed_out(s) + t.items());
}

/// First in, first out, and each item exactly once: over every run of any number of
/// producers and consumers, what was there at the start followed by what was accepted is
/// what was handed out, each item to a single consumer, followed by what is still to be
/// received, in the same order.
pub proof fn law_fifo_exactly_once<T>(s: ChanState<T>, ops: Seq<Op<T>>)
    requires
        run_enabled(s, ops),
    ensures
        s.items() + run_accepted(s, ops) == run_handed_out(s, ops) + run(s, ops).items(),
    decreases ops.len(),
{
    if ops.len() == 0 {
        assert(s.items() + run_accepted(s, ops) =~= run_handed_out(s, ops) + run(
            s,
            ops,
        ).items());
    } else {
        let op = ops[0];
        let rest = ops.drop_first();
        let t = op.apply(s);
        lemma_step_conserves(s, op);
        law_fifo_exactly_once(t, rest);
        let accepted = run_accepted(t, rest);
        let out = run_handed_out(t, rest);
        assert(s.items() + (op.accepted(s) + accepted) =~= (s.items() + op.accepted(s))
            + accepted);
        assert((op.handed_out(s) + t.items()) + accepted =~= op.handed_out(s) + (t.items()
            + accepted));
        assert(op.handed_out(s) + (out + run(t, rest).items()) =~= (op.handed_out(s) + out)
            + run(t, rest).items());
    }
}

/// Every operation keeps the capacity and the state valid.
pub proof fn law_capacity_is_kept<T>(s: ChanState<T>, op: Op<T>)
    requires
        s.valid(),
        op.enabled(s),
    ensures
        op.apply(s).valid(),
        op.apply(s).cap == s.cap,
{
}

/// Over every run a bounded channel queues at most its capacity, and holds at most one item
/// more: the one in transit.
pub proof fn law_never_beyond_capacity_and_one<T>(s: ChanState<T>, ops: Seq<Op<T>>)
    requires
        s.valid(),
        run_enabled(s, ops),
    ensures
        run(s, ops).valid(),
        run(s, ops).cap == s.cap,
        s.cap matches Some(c) ==> run(s, ops).queue.len() <= c && run(s, ops).items().len() <= c
            + 1,
    decreases ops.len(),
{
    if ops.len() > 0 {
        law_capacity_is_kept(s, ops[0]);
        law_never_beyond_capacity_and_one(ops[0].apply(s), ops.drop_first());
    }
}

/// The channel after each of the given items was sent without waiting, one by one.
pub open spec fn all_sent<T>(s: ChanState<T>, items: Seq<T>) -> ChanState<T>
    decreases items.len(),
{
    if items.len() == 0 {
        s
    } else {
        all_sent(s, items.drop_last()).try_send(items.last())
    }
}

/// With nothing received, a new bounded channel accepts exactly as many items as its
/// capacity says: each send before that succeeds, and the next one is refused as full. An
/// open channel with nothing queued reports itself empty to a receive.
pub proof fn law_bounded_accepts_exactly_its_capacity<T>(cap: nat, items: Seq<T>, item: T)
    requires
        cap > 0,
        items.len() <= cap,
    ensures
        all_sent(ChanState::<T>::opened(Some(cap)), items) == (ChanState {
            queue: items,
            ..ChanState::<T>::opened(Some(cap))
        }),
        items.len() < cap ==> all_sent(
            ChanState::<T>::opened(Some(cap)),
            items,
        ).try_send_result(item) == Ok::<(), TrySendError<T>>(()),
        items.len() == cap ==> all_sent(
            ChanState::<T>::opened(Some(cap)),
            items,
        ).try_send_result(item) == Err::<(), TrySendError<T>>(TrySendError::Full(item)),
        items.len() == 0 ==> all_sent(ChanState::<T>::opened(Some(cap)), items).try_recv_step()
            == Step::Ready(Err::<T, TryRecvError>(TryRecvError::Empty)),
    decreases items.len(),
{
    if items.len() > 0 {
        law_bounded_accepts_exactly_its_capacity(cap, items.drop_last(), items.last());
        let before = all_sent(ChanState::<T>::opened(Some(cap)), items.drop_last());
        let after = all_sent(ChanState::<T>::opened(Some(cap)), items);
        assert(after.queue =~= items);
        assert(after.effects =~= before.effects);
        assert(after =~= ChanState { queue: items, ..ChanState::<T>::opened(Some(cap)) });
    } else {
        assert(items =~= Seq::<T>::empty());
    }
}

/// An unbounded channel is never full.
pub proof fn law_unbounded_is_never_full<T>(s: ChanState<T>, item: T)
    requires
        s.cap is None,
    ensures
        !s.full(),
        !(s.try_send_result(item) matches Err(TrySendError::Full(_))),
{
}

/// A refused send carries its item back and changes nothing.
pub proof fn law_refused_send_changes_nothing<T>(s: ChanState<T>, item: T)
    ensures
        s.try_send_result(item) matches Err(e) ==> e.item() == item && s.try_send(item) == s,
{
}

/// What a receive resolves to when nobody comes between its steps.
pub open spec fn received_by<T>(s: ChanState<T>) -> Step<Result<T, TryRecvError>> {
    if s.try_recv_step() is Perform {
        s.take_stepped().try_recv_step()
    } else {
        s.try_recv_step()
    }
}

/// What is sent into an open, empty channel is what the next receive gives back, whichever
/// consumer makes it: at once, or after waking parked senders.
pub proof fn law_receive_gives_back_the_send<T>(s: ChanState<T>, item: T)
    requires
        s.valid(),
        s.items().len() == 0,
        !s.send_closed(),
    ensures
        s.try_send_result(item) is Ok,
        received_by(s.try_send(item)) == Step::Ready(Ok::<T, TryRecvError>(item)),
        s.send_wakers.len() == 0 ==> s.try_send(item).take_stepped().items() == s.items(),
        s.send_wakers.len() > 0 ==> s.try_send(item).take_stepped().take_stepped().items()
            == s.items(),
{
    assert(s.try_send(item).queue =~= seq![item]);
    assert(s.try_send(item).queue.drop_first() =~= s.queue);
}

/// Once sends fail closed they do so for good, whatever is done afterwards: each further
/// send is refused as closed and carries its item back.
pub proof fn law_closed_for_sends_is_permanent<T>(s: ChanState<T>, ops: Seq<Op<T>>, item: T)
    requires
        s.send_closed(),
        run_enabled(s, ops),
    ensures
        run(s, ops).send_closed(),
        run(s, ops).try_send_result(item) == Err::<(), TrySendError<T>>(
            TrySendError::Closed(item),
        ),
        run_accepted(s, ops).len() == 0,
    decreases ops.len(),
{
    if ops.len() > 0 {
        law_closed_for_sends_is_permanent(ops[0].apply(s), ops.drop_first(), item);
    }
}

/// The channel stays open for sends as long as one receiver is left: dropping another one
/// neither closes it nor touches an item.
pub proof fn law_open_until_the_last_receiver_drops<T>(s: ChanState<T>)
    requires
        s.receivers > 1,
    ensures
        s.receiver_gone().receivers > 0,
        s.receiver_gone().send_closed() == s.send_closed(),
        s.receiver_gone().items() == s.items(),
        s.receiver_gone().send_wakers == s.send_wakers,
{
}

/// A receive reports the disconnection only when nothing is left; what is left comes out
/// first.
pub proof fn law_drains_before_disconnect<T>(s: ChanState<T>)
    ensures
        received_by(s) == Step::Ready(Err::<T, TryRecvError>(TryRecvError::Disconnected)) <==> (
        s.items().len() == 0 && s.recv_closed()),
        s.items().len() > 0 ==> received_by(s) == Step::Ready(
            Ok::<T, TryRecvError>(s.items()[0]),
        ),
{
}

/// Once a channel is drained and disconnected it stays so: no operation that is still
/// enabled brings an item or a producer back, and every further receive reports the
/// disconnection.
pub proof fn law_disconnect_is_permanent<T>(s: ChanState<T>, ops: Seq<Op<T>>)
    requires
        s.disconnected(),
        run_enabled(s, ops),
    ensures
        run(s, ops).disconnected(),
        run(s, ops).try_recv_step() == Step::Ready(
            Err::<T, TryRecvError>(TryRecvError::Disconnected),
        ),
        run(s, ops).polled_step(None) == Step::Ready(None::<T>),
        run(s, ops).rechecked_step() == Step::Ready(None::<T>),
    decreases ops.len(),
{
    if ops.len() > 0 {
        law_disconnect_is_permanent(ops[0].apply(s), ops.drop_first());
    }
}

/// After an explicit close sends fail closed, what is left can still be received, and
/// closing again changes nothing.
pub proof fn law_close_stops_sends_and_keeps_the_items<T>(s: ChanState<T>)
    ensures
        s.closed_now().send_closed(),
        s.closed_now().recv_closed(),
        s.closed_now().items() == s.items(),
        s.closed_now().closed_now() == s.closed_now(),
{
}

/// No lost wake-up for receivers: while one is parked on a channel with nothing for it, an
/// operation that makes the channel ready (an item arrives, the last sender goes, the
/// channel is closed) makes the wake of every parked receiver due.
pub proof fn law_parked_receivers_are_woken<T>(s: ChanState<T>, op: Op<T>, k: int)
    requires
        op.enabled(s),
        0 <= k < s.recv_wakers.len(),
        s.items().len() == 0,
        !s.recv_closed(),
        op.apply(s).items().len() > 0 || op.apply(s).recv_closed(),
    ensures
        woken(s, op.apply(s), s.recv_wakers[k].1),
{
    let n = s.effects.len() as int;
    assert(op.apply(s).effects[n + k] == Effect::Wake(s.recv_wakers[k].1));
}

/// No lost wake-up for senders: while senders are parked on an open, full channel, an
/// operation that lets them proceed (a slot is freed, or the last receiver goes) makes the
/// wake of every one of them due. A close does so in its second half.
pub proof fn law_parked_senders_are_woken<T>(s: ChanState<T>, op: Op<T>, k: int)
    requires
        s.valid(),
        op.enabled(s),
        0 <= k < s.send_wakers.len(),
        s.full(),
        !s.send_closed(),
        !op.apply(s).full() || op.apply(s).send_closed(),
        op.apply(s).closed == s.closed,
    ensures
        woken(s, op.apply(s), s.send_wakers[k].1),
{
    let n = s.effects.len() as int;
    assert(op.apply(s).effects[n + k] == Effect::Wake(s.send_wakers[k].1));
}

/// The second half of a close makes the wake of every sender that is parked by then due.
pub proof fn law_finished_close_wakes_senders<T>(s: ChanState<T>, k: int)
    requires
        s.closed,
        0 <= k < s.send_wakers.len(),
    ensures
        woken(s, Op::FinishClose.apply(s), s.send_wakers[k].1),
        Op::FinishClose.apply(s).send_wakers.len() == 0,
{
    let n = s.effects.len() as int;
    assert(Op::FinishClose.apply(s).effects[n + k] == Effect::Wake(s.send_wakers[k].1));
}

/// Whether the wake of `waker` became due at some point of a run.
pub open spec fn run_wakes<T>(s: ChanState<T>, ops: Seq<Op<T>>, waker: Waker) -> bool
    decreases ops.len(),
{
    ops.len() > 0 && (woken(s, ops[0].apply(s), waker) || run_wakes(
        ops[0].apply(s),
        ops.drop_first(),
        waker,
    ))
}

/// Whether the operation is one of the receive that is registered under `id`.
pub open spec fn acts_for_receiver<T>(op: Op<T>, id: u64) -> bool {
    match op {
        Op::RecvPoll(slot) | Op::RecvRecheck(slot) | Op::RecvDrop(slot) => slot == Some(id),
        Op::DropStream(own) => own == id,
        _ => false,
    }
}

/// One operation of somebody else wakes a parked receiver, or leaves it registered on a
/// channel that still has nothing for it.
proof fn lemma_parked_receiver_step<T>(s: ChanState<T>, op: Op<T>, id: u64, waker: Waker)
    requires
        op.enabled(s),
        orderly(s.recv_wakers, s.next_recv_id),
        s.next_recv_id < u64::MAX,
        registered(s.recv_wakers, id) == Some(waker),
        s.items().len() == 0,
        !s.recv_closed(),
        !acts_for_receiver(op, id),
    ensures
        woken(s, op.apply(s), waker) || {
            &&& registered(op.apply(s).recv_wakers, id) == Some(waker)
            &&& op.apply(s).items().len() == 0
            &&& !op.apply(s).recv_closed()
            &&& orderly(op.apply(s).recv_wakers, op.apply(s).next_recv_id)
            &&& op.apply(s).next_recv_id <= s.next_recv_id + 1
        },
{
    let t = op.apply(s);
    crate::wakers::lemma_position(s.recv_wakers, id);
    if t.items().len() > 0 || t.recv_closed() {
        let k = crate::wakers::position(s.recv_wakers, id).unwrap();
        law_parked_receivers_are_woken(s, op, k);
    } else {
        match op {
            Op::RecvPark(other) => {
                crate::wakers::law_new_id_is_unused(s.recv_wakers, s.next_recv_id, other);
                crate::wakers::law_insert_keeps_the_others(
                    s.recv_wakers,
                    s.next_recv_id,
                    other,
                    id,
                );
            },
            Op::RecvPoll(slot) | Op::RecvRecheck(slot) | Op::RecvDrop(slot) => {
                crate::wakers::lemma_remove_is_orderly(s.recv_wakers, s.next_recv_id, slot, id);
            },
            Op::DropStream(own) => {
                crate::wakers::lemma_remove_is_orderly(
                    s.recv_wakers,
                    s.next_recv_id,
                    Some(own),
                    id,
                );
            },
            _ => {},
        }
    }
}

/// Over every run in which a parked receiver does not act itself, either its wake becomes
/// due, or it is still registered and there is still nothing for it. Registration ids are
/// taken not to wrap around during the run.
pub proof fn law_parked_receiver_never_sleeps_through<T>(
    s: ChanState<T>,
    ops: Seq<Op<T>>,
    id: u64,
    waker: Waker,
)
    requires
        run_enabled(s, ops),
        orderly(s.recv_wakers, s.next_recv_id),
        s.next_recv_id + ops.len() <= u64::MAX,
        registered(s.recv_wakers, id) == Some(waker),
        s.items().len() == 0,
        !s.recv_closed(),
        forall|i: int| 0 <= i < ops.len() ==> !acts_for_receiver(#[trigger] ops[i], id),
    ensures
        run_wakes(s, ops, waker) || {
            &&& registered(run(s, ops).recv_wakers, id) == Some(waker)
            &&& run(s, ops).items().len() == 0
            &&& !run(s, ops).recv_closed()
        },
    decreases ops.len(),
{
    if ops.len() > 0 {
        let op = ops[0];
        let t = op.apply(s);
        lemma_parked_receiver_step(s, op, id, waker);
        if !woken(s, t, waker) {
            let rest = ops.drop_first();
            assert forall|i: int| 0 <= i < rest.len() implies !acts_for_receiver(
                #[trigger] rest[i],
                id,
            ) by {
                assert(rest[i] == ops[i + 1]);
            }
            law_parked_receiver_never_sleeps_through(t, rest, id, waker);
        }
    }
}

/// Whether the operation is one of the `send` future that is registered under `id`.
pub open spec fn acts_for_sender<T>(op: Op<T>, id: u64) -> bool {
    match op {
        Op::SendStep(fut) | Op::SendPark(fut, _) | Op::SendDrop(fut) => fut.waker_id == Some(id),
        _ => false,
    }
}

/// One operation of somebody else wakes a parked sender or leaves it registered.
proof fn lemma_registered_sender_step<T>(s: ChanState<T>, op: Op<T>, id: u64, waker: Waker)
    requires
        orderly(s.send_wakers, s.next_send_id),
        s.next_send_id < u64::MAX,
        registered(s.send_wakers, id) == Some(waker),
        !acts_for_sender(op, id),
    ensures
        woken(s, op.apply(s), waker) || {
            &&& registered(op.apply(s).send_wakers, id) == Some(waker)
            &&& orderly(op.apply(s).send_wakers, op.apply(s).next_send_id)
            &&& op.apply(s).next_send_id <= s.next_send_id + 1
        },
{
    let t = op.apply(s);
    crate::wakers::lemma_position(s.send_wakers, id);
    match op {
        Op::SendPark(fut, other) => {
            crate::wakers::lemma_remove_is_orderly(
                s.send_wakers,
                s.next_send_id,
                fut.waker_id,
                id,
            );
            let left = s.send_waker_removed(fut.waker_id).send_wakers;
            crate::wakers::law_new_id_is_unused(left, s.next_send_id, other);
            crate::wakers::law_insert_keeps_the_others(left, s.next_send_id, other, id);
        },
        Op::SendDrop(fut) => {
            crate::wakers::lemma_remove_is_orderly(
                s.send_wakers,
                s.next_send_id,
                fut.waker_id,
                id,
            );
        },
        _ => {
            if t.send_wakers != s.send_wakers {
                let k = crate::wakers::position(s.send_wakers, id).unwrap();
                let n = s.effects.len() as int;
                assert(t.effects[n + k] == Effect::Wake(waker));
            }
        },
    }
}

/// Whether a close that was begun, before a run or in it, is unfinished at its end: the
/// wakes of the senders are still to come.
pub open spec fn close_unfinished<T>(s: ChanState<T>, ops: Seq<Op<T>>, begun: bool) -> bool
    decreases ops.len(),
{
    if ops.len() == 0 {
        begun
    } else {
        let t = ops[0].apply(s);
        close_unfinished(
            t,
            ops.drop_first(),
            !(ops[0] is FinishClose) && (begun || t.closed && !s.closed),
        )
    }
}

proof fn lemma_parked_sender_never_sleeps_through<T>(
    s: ChanState<T>,
    ops: Seq<Op<T>>,
    id: u64,
    waker: Waker,
    begun: bool,
)
    requires
        s.valid(),
        run_enabled(s, ops),
        orderly(s.send_wakers, s.next_send_id),
        s.next_send_id + ops.len() <= u64::MAX,
        registered(s.send_wakers, id) == Some(waker),
        begun || s.full() && !s.send_closed(),
        forall|i: int| 0 <= i < ops.len() ==> !acts_for_sender(#[trigger] ops[i], id),
    ensures
        run_wakes(s, ops, waker) || {
            &&& registered(run(s, ops).send_wakers, id) == Some(waker)
            &&& close_unfinished(s, ops, begun) || run(s, ops).full() && !run(s, ops).send_closed()
        },
    decreases ops.len(),
{
    if ops.len() > 0 {
        let op = ops[0];
        let t = op.apply(s);
        let k = crate::wakers::position(s.send_wakers, id).unwrap();
        crate::wakers::lemma_position(s.send_wakers, id);
        lemma_registered_sender_step(s, op, id, waker);
        if op is FinishClose {
            law_finished_close_wakes_senders(s, k);
        } else if !begun && t.closed == s.closed && (!t.full() || t.send_closed()) {
            law_parked_senders_are_woken(s, op, k);
        }
        if !woken(s, t, waker) {
            law_capacity_is_kept(s, op);
            let rest = ops.drop_first();
            assert forall|i: int| 0 <= i < rest.len() implies !acts_for_sender(
                #[trigger] rest[i],
                id,
            ) by {
                assert(rest[i] == ops[i + 1]);
            }
            lemma_parked_sender_never_sleeps_through(
                t,
                rest,
                id,
                waker,
                !(op is FinishClose) && (begun || t.closed && !s.closed),
            );
        }
    }
}

/// Over every run in which a parked sender does not act itself, either its wake becomes
/// due, or it is still registered, and the channel is still open and full unless a close
/// is under way that will wake it. Registration ids are taken not to wrap around during
/// the run.
pub proof fn law_parked_sender_never_sleeps_through<T>(
    s: ChanState<T>,
    ops: Seq<Op<T>>,
    id: u64,
    waker: Waker,
)
    requires
        s.valid(),
        run_enabled(s, ops),
        orderly(s.send_wakers, s.next_send_id),
        s.next_send_id + ops.len() <= u64::MAX,
        registered(s.send_wakers, id) == Some(waker),
        s.full(),
        !s.send_closed(),
        forall|i: int| 0 <= i < ops.len() ==> !acts_for_sender(#[trigger] ops[i], id),
    ensures
        run_wakes(s, ops, waker) || {
            &&& registered(run(s, ops).send_wakers, id) == Some(waker)
            &&& close_unfinished(s, ops, false) || run(s, ops).full() && !run(
                s,
                ops,
            ).send_closed()
        },
{
    lemma_parked_sender_never_sleeps_through(s, ops, id, waker, false);
}

/// A receive that parks is registered: after the recheck found nothing, its waker is in the
/// list under its id.
pub proof fn law_parking_registers<T>(s: ChanState<T>, waker: Waker)
    requires
        s.receivers > 0,
        s.recv_waker_added(waker).rechecked_step() is Pending,
    ensures
        s.recv_waker_added(waker).recv_wakers == s.recv_wakers.push((s.next_recv_id, waker)),
        s.items().len() == 0 && !s.recv_closed(),
{
}

/// Polling a parked receive again replaces its registration: the old one is gone, the new
/// one stands at the end under a new id, and every other receiver's stays as it was.
pub proof fn law_repoll_replaces_the_registration<T>(
    s: ChanState<T>,
    id: u64,
    waker: Waker,
    other: u64,
)
    requires
        orderly(s.recv_wakers, s.next_recv_id),
        s.next_recv_id < u64::MAX,
        id < s.next_recv_id,
        s.takes_recv_waker(),
        other != id,
        other != s.next_recv_id,
    ensures
        s.polled(Some(id)).recv_waker_added(waker).recv_wakers == without(s.recv_wakers, id).push(
            (s.next_recv_id, waker),
        ),
        registered(s.polled(Some(id)).recv_waker_added(waker).recv_wakers, id) is None,
        registered(s.polled(Some(id)).recv_waker_added(waker).recv_wakers, s.next_recv_id) == Some(
            waker,
        ),
        registered(s.polled(Some(id)).recv_waker_added(waker).recv_wakers, other) == registered(
            s.recv_wakers,
            other,
        ),
{
    let left = without(s.recv_wakers, id);
    let more = left.push((s.next_recv_id, waker));
    crate::wakers::law_remove_takes_exactly_one(s.recv_wakers, id, other);
    crate::wakers::lemma_remove_is_orderly(s.recv_wakers, s.next_recv_id, Some(id), other);
    crate::wakers::law_new_id_is_unused(left, s.next_recv_id, waker);
    crate::wakers::lemma_insert_is_exact(left, s.next_recv_id, waker, id);
    crate::wakers::lemma_insert_is_exact(left, s.next_recv_id, waker, other);
}

/// The channel after a receive that holds the registration `slot` was polled once for each
/// of `wakers`, parking each time: a registration left by the poll before is removed, then
/// the waker is registered.
pub open spec fn parked_polls<T>(
    s: ChanState<T>,
    slot: Option<u64>,
    wakers: Seq<Waker>,
) -> ChanState<T>
    decreases wakers.len(),
{
    if wakers.len() == 0 {
        s
    } else {
        let ready = if slot is Some {
            s.polled(slot)
        } else {
            s
        };
        let parked = ready.polled(None).recv_waker_added(wakers[0]);
        parked_polls(
            parked.rechecked(Some(ready.next_recv_id)),
            parked.rechecked_slot(Some(ready.next_recv_id)),
            wakers.drop_first(),
        )
    }
}

/// A poll of a receive on an open channel with nothing for it parks: after the stale
/// registration is out of the way it asks for a waker, and stays pending with it.
pub proof fn law_poll_parks<T>(s: ChanState<T>, slot: Option<u64>, waker: Waker)
    requires
        s.items().len() == 0,
        s.takes_recv_waker(),
    ensures
        slot is Some ==> s.polled_step(slot) == Step::<Option<T>>::Perform,
        s.recv_waker_removed(slot).polled_step(None) == Step::<Option<T>>::Register,
        s.recv_waker_removed(slot).recv_waker_added(waker).rechecked_step() == Step::<
            Option<T>,
        >::Pending,
        parked_polls(s, slot, seq![waker]) == s.recv_waker_removed(slot).recv_waker_added(waker),
{
    reveal_with_fuel(parked_polls, 2);
}

/// However often a parked receive is polled again, exactly one registration of it exists,
/// that of the latest waker; the others stay as they were. No poll wakes anybody, and the
/// next accepted send wakes that latest waker once, after every other receiver's, and no
/// earlier one of this receive.
pub proof fn law_repolling_keeps_one_registration<T>(
    s: ChanState<T>,
    slot: Option<u64>,
    wakers: Seq<Waker>,
    item: T,
)
    requires
        s.valid(),
        orderly(s.recv_wakers, s.next_recv_id),
        s.next_recv_id + wakers.len() <= u64::MAX,
        slot matches Some(id) ==> id < s.next_recv_id,
        s.items().len() == 0,
        s.takes_recv_waker(),
        wakers.len() > 0,
    ensures
        parked_polls(s, slot, wakers).recv_wakers == s.recv_waker_removed(slot).recv_wakers.push(
            ((s.next_recv_id + wakers.len() - 1) as u64, wakers.last()),
        ),
        forall|i: int|
            s.effects.len() <= i < parked_polls(s, slot, wakers).effects.len()
                ==> #[trigger] parked_polls(s, slot, wakers).effects[i] is Discard,
        parked_polls(s, slot, wakers).try_send_result(item) is Ok,
        parked_polls(s, slot, wakers).try_send(item).effects == parked_polls(
            s,
            slot,
            wakers,
        ).effects + crate::effect::wakes(s.recv_waker_removed(slot).recv_wakers).push(
            Effect::Wake(wakers.last()),
        ),
{
    lemma_repolling(s, slot, wakers);
    let base = s.recv_waker_removed(slot).recv_wakers;
    let t = parked_polls(s, slot, wakers);
    assert(crate::effect::wakes(t.recv_wakers) =~= crate::effect::wakes(base).push(
        Effect::Wake(wakers.last()),
    ));
}

proof fn lemma_repolling<T>(s: ChanState<T>, slot: Option<u64>, wakers: Seq<Waker>)
    requires
        orderly(s.recv_wakers, s.next_recv_id),
        s.next_recv_id + wakers.len() <= u64::MAX,
        slot matches Some(id) ==> id < s.next_recv_id,
        s.items().len() == 0,
        s.takes_recv_waker(),
        wakers.len() > 0,
    ensures
        parked_polls(s, slot, wakers) == (ChanState {
            recv_wakers: s.recv_waker_removed(slot).recv_wakers.push(
                ((s.next_recv_id + wakers.len() - 1) as u64, wakers.last()),
            ),
            next_recv_id: (s.next_recv_id + wakers.len()) as u64,
            effects: parked_polls(s, slot, wakers).effects,
            ..s
        }),
        parked_polls(s, slot, wakers).effects.len() >= s.effects.len(),
        parked_polls(s, slot, wakers).effects.take(s.effects.len() as int) == s.effects,
        forall|i: int|
            s.effects.len() <= i < parked_polls(s, slot, wakers).effects.len()
                ==> #[trigger] parked_polls(s, slot, wakers).effects[i] is Discard,
    decreases wakers.len(),
{
    let base = s.recv_waker_removed(slot).recv_wakers;
    let id = s.next_recv_id;
    let one = s.recv_waker_removed(slot).recv_waker_added(wakers[0]);
    let rest = wakers.drop_first();
    law_poll_parks(s, slot, wakers[0]);
    crate::wakers::lemma_remove_is_orderly(s.recv_wakers, id, slot, id);
    crate::wakers::law_new_id_is_unused(base, id, wakers[0]);
    assert(parked_polls(s, slot, wakers) == parked_polls(one, Some(id), rest));
    if rest.len() == 0 {
        assert(wakers.last() == wakers[0]);
    } else {
        lemma_repolling(one, Some(id), rest);
        crate::wakers::lemma_remove_undoes_insert(base, id, wakers[0]);
        let t = parked_polls(s, slot, wakers);
        assert(one.recv_waker_removed(Some(id)).recv_wakers =~= base);
        assert(rest.last() == wakers.last());
        assert(t.effects.take(s.effects.len() as int) =~= s.effects);
        assert forall|i: int| s.effects.len() <= i < t.effects.len() implies #[trigger] t.effects[i]
            is Discard by {
            if i < one.effects.len() {
                assert(t.effects[i] == t.effects.take(one.effects.len() as int)[i]);
            }
        }
    }
}

/// An item in transit keeps its place: whatever else is done to the channel, it is still
/// the next to be delivered, until a receive takes it or it is released after the last
/// receiver.
pub proof fn law_item_in_transit_stays_next<T>(s: ChanState<T>, op: Op<T>, item: T)
    requires
        op.enabled(s),
        s.redelivery == Some(item),
        op.handed_out(s).len() == 0,
    ensures
        op.apply(s).redelivery == Some(item),
        op.apply(s).next_item() == Some(item),
{
}

/// A receive interrupted while it wakes senders loses nothing: the item stays the next one,
/// and stepping on later gives it, having left the queue once and woken the senders once.
pub proof fn law_interrupted_receive_resumes<T>(s: ChanState<T>)
    requires
        s.take_step_result() is Wake,
    ensures
        s.take_stepped().items() == s.items(),
        s.take_stepped().take_step_result() == TakeStep::Item(s.items()[0]),
        s.next_item() == Some(s.items()[0]),
        s.take_stepped().take_stepped() == s.popped().senders_woken(),
{
    assert(s.take_stepped().items() =~= s.items());
}

/// A decided `send` future either queued its item at the back and woke every parked
/// receiver, or carries the item back with the channel untouched.
pub proof fn law_send_outcome_tells_the_effect<T>(s: ChanState<T>, fut: SendState<T>)
    requires
        fut.valid(),
        fut.item is Some,
    ensures
        s.send_state_tried(fut).valid(),
        s.send_state_tried(fut).outcome == Some(Ok::<(), SendError<T>>(())) ==> s.send_tried(
            fut,
        ).queue == s.queue.push(fut.item.unwrap()) && s.send_tried(fut).recv_wakers.len() == 0,
        s.send_state_tried(fut).outcome matches Some(Err(e)) ==> {
            &&& e.item == fut.item.unwrap()
            &&& s.send_tried(fut) == s
        },
        s.send_state_tried(fut).outcome is None ==> {
            &&& s.send_state_tried(fut) == fut
            &&& s.send_tried(fut) == s
            &&& s.full() && !s.send_closed()
        },
{
}

} // verus!
