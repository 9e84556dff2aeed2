//! What holds of an `mpsc` channel over every run of operations on it.

use std::task::Waker;

use vstd::prelude::*;

use super::error::{SendError, TryRecvError, TrySendError};
use super::model::{ChanState, SendState};
use crate::effect::Effect;
use crate::wakers::{orderly, registered};

verus! {

/// One operation of a handle or a future on a channel, at the level of the model.
pub ghost enum Op<T> {
    /// `Sender::try_send`.
    TrySend(T),
    /// A step of a `send` future that is in the given state and undecided.
    SendStep(SendState<T>),
    /// The `send` future in the given state parks with the waker.
    SendPark(SendState<T>, Waker),
    /// The `send` future in the given state is dropped, or removes its registration.
    SendDrop(SendState<T>),
    /// `Sender::clone`.
    CloneSender,
    /// `Sender::drop`.
    DropSender,
    /// `Sender::close`, its first half.
    CloseBySender,
    /// `Receiver::try_recv`.
    TryRecv,
    /// A step of a receive, as a future or a stream.
    RecvStep,
    /// A receive parks with the waker.
    RecvPark(Waker),
    /// A pending receive is dropped.
    RecvDrop,
    /// `Receiver::close`, its first half.
    CloseByReceiver,
    /// `Closing::finish` of a close that was newly made.
    FinishClose,
    /// `Receiver::drop`.
    DropReceiver,
    /// The step of `Dropping` that drops the receiver's waker.
    DropClear,
    /// A step of `Dropping` that releases an item.
    DropRelease,
    /// `Chan::take_effects`.
    TakeEffects,
}

impl<T> Op<T> {
    /// Whether the handle that performs the operation is alive, and the operation open to
    /// it.
    pub open spec fn enabled(self, s: ChanState<T>) -> bool {
        match self {
            Op::TrySend(_) | Op::CloneSender | Op::DropSender | Op::CloseBySender => s.senders > 0,
            Op::SendStep(fut) | Op::SendPark(fut, _) => {
                s.senders > 0 && fut.valid() && fut.item is Some
            },
            Op::SendDrop(fut) => s.senders > 0 && fut.valid(),
            Op::TryRecv | Op::RecvStep | Op::RecvPark(_) | Op::RecvDrop | Op::CloseByReceiver
            | Op::DropReceiver => s.receiver_alive,
            Op::FinishClose => s.closed,
            Op::DropClear | Op::DropRelease => !s.receiver_alive,
            Op::TakeEffects => true,
        }
    }

    /// What the operation makes of the channel.
    pub open spec fn apply(self, s: ChanState<T>) -> ChanState<T> {
        match self {
            Op::TrySend(item) => s.try_send(item),
            Op::SendStep(fut) => s.send_tried(fut),
            Op::SendPark(fut, waker) => s.send_parked(fut, waker),
            Op::SendDrop(fut) => s.send_waker_removed(fut.waker_id),
            Op::CloneSender => s.sender_cloned(),
            Op::DropSender => s.sender_dropped(),
            Op::CloseBySender => if s.send_closed() {
                s
            } else {
                s.closed_now()
            },
            Op::TryRecv => s.try_recv(),
            Op::RecvStep => if s.recv_ready() {
                s.received()
            } else {
                s
            },
            Op::RecvPark(waker) => s.recv_waker_registered(waker),
            Op::RecvDrop => s.recv_waker_cleared(),
            Op::CloseByReceiver => if s.recv_closed() {
                s
            } else {
                s.closed_now()
            },
            Op::FinishClose => s.senders_woken(),
            Op::DropReceiver => s.receiver_gone(),
            Op::DropClear => s.recv_waker_cleared(),
            Op::DropRelease => if s.queue.len() > 0 {
                s.popped()
            } else {
                s
            },
            Op::TakeEffects => ChanState { effects: Seq::empty(), ..s },
        }
    }

    /// The item that the operation gets accepted into the channel.
    pub open spec fn accepted(self, s: ChanState<T>) -> Seq<T> {
        match self {
            Op::TrySend(item) => if s.try_send_result(item) is Ok {
                seq![item]
            } else {
                Seq::empty()
            },
            Op::SendStep(fut) => if s.send_state_tried(fut).outcome == Some(
                Ok::<(), SendError<T>>(()),
            ) {
                seq![fut.item.unwrap()]
            } else {
                Seq::empty()
            },
            _ => Seq::empty(),
        }
    }

    /// The items that the operation hands out: to the consumer, or back for dropping when
    /// the consumer goes.
    pub open spec fn handed_out(self, s: ChanState<T>) -> Seq<T> {
        match self {
            Op::TryRecv => match s.try_recv_result() {
                Ok(item) => seq![item],
                Err(_) => Seq::empty(),
            },
            Op::RecvStep | Op::DropRelease => match s.received_result() {
                Some(item) => seq![item],
                None => Seq::empty(),
            },
            _ => Seq::empty(),
        }
    }
}

/// Whether every operation of a run is enabled when its turn comes.
pub open spec fn run_enabled<T>(s: ChanState<T>, ops: Seq<Op<T>>) -> bool
    decreases ops.len(),
{
    ops.len() == 0 || {
        &&& ops[0].enabled(s)
        &&& run_enabled(ops[0].apply(s), ops.drop_first())
    }
}

/// The channel after a run of operations.
pub open spec fn run<T>(s: ChanState<T>, ops: Seq<Op<T>>) -> ChanState<T>
    decreases ops.len(),
{
    if ops.len() == 0 {
        s
    } else {
        run(ops[0].apply(s), ops.drop_first())
    }
}

/// The items accepted over a run, in order.
pub open spec fn run_accepted<T>(s: ChanState<T>, ops: Seq<Op<T>>) -> Seq<T>
    decreases ops.len(),
{
    if ops.len() == 0 {
        Seq::empty()
    } else {
        ops[0].accepted(s) + run_accepted(ops[0].apply(s), ops.drop_first())
    }
}

/// The items handed out over a run, in order.
pub open spec fn run_handed_out<T>(s: ChanState<T>, ops: Seq<Op<T>>) -> Seq<T>
    decreases ops.len(),
{
    if ops.len() == 0 {
        Seq::empty()
    } else {
        ops[0].handed_out(s) + run_handed_out(ops[0].apply(s), ops.drop_first())
    }
}

/// Whether the wake of `waker` became due between two states.
pub open spec fn woken<T>(before: ChanState<T>, after: ChanState<T>, waker: Waker) -> bool {
    exists|i: int|
        before.effects.len() <= i < after.effects.len() && #[trigger] after.effects[i]
            == Effect::Wake(waker)
}

/// One operation puts what it gets accepted at the back of the queue and hands out from the
/// front.
proof fn lemma_step_conserves<T>(s: ChanState<T>, op: Op<T>)
    requires
        op.enabled(s),
    ensures
        s.queue + op.accepted(s) == op.handed_out(s) + op.apply(s).queue,
{
    let t = op.apply(s);
    assert(s.queue + op.accepted(s) =~= op.handed_out(s) + t.queue);
}

/// First in, first out, and each item exactly once: over every run, what was queued at the
/// start followed by what was accepted is what was handed out followed by what is still
/// queued, in the same order.
pub proof fn law_fifo_exactly_once<T>(s: ChanState<T>, ops: Seq<Op<T>>)
    requires
        run_enabled(s, ops),
    ensures
        s.queue + run_accepted(s, ops) == run_handed_out(s, ops) + run(s, ops).queue,
    decreases ops.len(),
{
    if ops.len() == 0 {
        assert(s.queue + run_accepted(s, ops) =~= run_handed_out(s, ops) + run(s, ops).queue);
    } else {
        let op = ops[0];
        let rest = ops.drop_first();
        let t = op.apply(s);
        lemma_step_conserves(s, op);
        law_fifo_exactly_once(t, rest);
        let accepted = run_accepted(t, rest);
        let out = run_handed_out(t, rest);
        assert(s.queue + (op.accepted(s) + accepted) =~= (s.queue + op.accepted(s)) + accepted);
        assert((op.handed_out(s) + t.queue) + accepted =~= op.handed_out(s) + (t.queue
            + accepted));
        assert(op.handed_out(s) + (out + run(t, rest).queue) =~= (op.handed_out(s) + out) + run(
            t,
            rest,
        ).queue);
    }
}

/// Every operation keeps the capacity and never fills the queue beyond it.
pub proof fn law_capacity_is_kept<T>(s: ChanState<T>, op: Op<T>)
    requires
        s.valid(),
        op.enabled(s),
    ensures
        op.apply(s).valid(),
        op.apply(s).cap == s.cap,
{
}

/// A channel never holds more items than its capacity, over every run from its creation.
pub proof fn law_never_beyond_capacity<T>(s: ChanState<T>, ops: Seq<Op<T>>)
    requires
        s.valid(),
        run_enabled(s, ops),
    ensures
        run(s, ops).valid(),
        run(s, ops).cap == s.cap,
    decreases ops.len(),
{
    if ops.len() > 0 {
        law_capacity_is_kept(s, ops[0]);
        law_never_beyond_capacity(ops[0].apply(s), ops.drop_first());
    }
}

/// The channel after each of the given items was sent without waiting, one by one.
pub open spec fn all_sent<T>(s: ChanState<T>, items: Seq<T>) -> ChanState<T>
    decreases items.len(),
{
    if items.len() == 0 {
        s
    } else {
        all_sent(s, items.drop_last()).try_send(items.last())
    }
}

/// With nothing received, a new bounded channel accepts exactly as many items as its
/// capacity says: each send before that succeeds, and the next one is refused as full. An
/// open channel with nothing queued reports itself empty to a receive.
pub proof fn law_bounded_accepts_exactly_its_capacity<T>(cap: nat, items: Seq<T>, item: T)
    requires
        cap > 0,
        items.len() <= cap,
    ensures
        all_sent(ChanState::<T>::opened(Some(cap)), items) == (ChanState {
            queue: items,
            ..ChanState::<T>::opened(Some(cap))
        }),
        items.len() < cap ==> all_sent(
            ChanState::<T>::opened(Some(cap)),
            items,
        ).try_send_result(item) == Ok::<(), TrySendError<T>>(()),
        items.len() == cap ==> all_sent(
            ChanState::<T>::opened(Some(cap)),
            items,
        ).try_send_result(item) == Err::<(), TrySendError<T>>(TrySendError::Full(item)),
        items.len() == 0 ==> all_sent(ChanState::<T>::opened(Some(cap)), items).try_recv_result()
            == Err::<T, TryRecvError>(TryRecvError::Empty),
    decreases items.len(),
{
    if items.len() > 0 {
        law_bounded_accepts_exactly_its_capacity(cap, items.drop_last(), items.last());
        let before = all_sent(ChanState::<T>::opened(Some(cap)), items.drop_last());
        let after = all_sent(ChanState::<T>::opened(Some(cap)), items);
        assert(after.queue =~= items);
        assert(after.effects =~= before.effects);
        assert(after =~= ChanState { queue: items, ..ChanState::<T>::opened(Some(cap)) });
    } else {
        assert(items =~= Seq::<T>::empty());
    }
}

/// An unbounded channel is never full.
pub proof fn law_unbounded_is_never_full<T>(s: ChanState<T>, item: T)
    requires
        s.cap is None,
    ensures
        !s.full(),
        !(s.try_send_result(item) matches Err(TrySendError::Full(_))),
{
}

/// A refused send carries its item back and changes nothing.
pub proof fn law_refused_send_changes_nothing<T>(s: ChanState<T>, item: T)
    ensures
        s.try_send_result(item) matches Err(e) ==> e.item() == item && s.try_send(item) == s,
{
}

/// What is sent into an open, empty channel is what the next receive gives back.
pub proof fn law_receive_gives_back_the_send<T>(s: ChanState<T>, item: T)
    requires
        s.valid(),
        s.queue.len() == 0,
        !s.send_closed(),
    ensures
        s.try_send_result(item) is Ok,
        s.try_send(item).try_recv_result() == Ok::<T, TryRecvError>(item),
        s.try_send(item).try_recv().queue == s.queue,
{
    assert(s.try_send(item).try_recv().queue =~= s.queue);
}

/// Once sends fail closed they do so for good, whatever is done afterwards: each further
/// send is refused as closed and carries its item back.
pub proof fn law_closed_for_sends_is_permanent<T>(s: ChanState<T>, ops: Seq<Op<T>>, item: T)
    requires
        s.send_closed(),
        run_enabled(s, ops),
    ensures
        run(s, ops).send_closed(),
        run(s, ops).try_send_result(item) == Err::<(), TrySendError<T>>(
            TrySendError::Closed(item),
        ),
        run_accepted(s, ops).len() == 0,
    decreases ops.len(),
{
    if ops.len() > 0 {
        law_closed_for_sends_is_permanent(ops[0].apply(s), ops.drop_first(), item);
    }
}

/// A receive reports the disconnection only when nothing is queued; what is queued comes
/// out first.
pub proof fn law_drains_before_disconnect<T>(s: ChanState<T>)
    ensures
        s.try_recv_result() == Err::<T, TryRecvError>(TryRecvError::Disconnected) <==> (
        s.queue.len() == 0 && s.recv_closed()),
        s.queue.len() > 0 ==> s.try_recv_result() == Ok::<T, TryRecvError>(s.queue[0]),
{
}

/// Once a channel is drained and disconnected it stays so: no operation that is still
/// enabled brings an item or a producer back, and every further receive reports the
/// disconnection.
pub proof fn law_disconnect_is_permanent<T>(s: ChanState<T>, ops: Seq<Op<T>>)
    requires
        s.recv_closed(),
        s.queue.len() == 0,
        run_enabled(s, ops),
    ensures
        run(s, ops).recv_closed(),
        run(s, ops).queue.len() == 0,
        run(s, ops).try_recv_result() == Err::<T, TryRecvError>(TryRecvError::Disconnected),
        run(s, ops).recv_ready() && run(s, ops).received_result() is None,
    decreases ops.len(),
{
    if ops.len() > 0 {
        law_disconnect_is_permanent(ops[0].apply(s), ops.drop_first());
    }
}

/// After a close from either side, sends fail closed, what was queued can still be
/// received, and closing again reports that there was nothing left to close.
pub proof fn law_close_stops_sends_and_keeps_the_queue<T>(s: ChanState<T>)
    ensures
        s.closed_now().send_closed(),
        s.closed_now().recv_closed(),
        s.closed_now().queue == s.queue,
        s.closed_now().closed_now() == s.closed_now(),
{
}

/// No lost wake-up for the receiver: while it is parked with `waker` on a channel with
/// nothing for it, an operation that makes the channel ready (an item arrives, the last
/// sender goes, the channel is closed) makes the wake of `waker` due.
pub proof fn law_parked_receiver_is_woken<T>(s: ChanState<T>, op: Op<T>, waker: Waker)
    requires
        op.enabled(s),
        s.recv_waker == Some(waker),
        !s.recv_ready(),
        op.apply(s).recv_ready(),
    ensures
        woken(s, op.apply(s), waker),
{
    let n = s.effects.len() as int;
    assert(op.apply(s).effects[n] == Effect::Wake(waker));
}

/// The parked receiver's waker is kept until it is woken, replaced or dropped by the
/// receiver itself.
pub proof fn law_parked_receiver_stays_registered<T>(s: ChanState<T>, op: Op<T>, waker: Waker)
    requires
        op.enabled(s),
        s.recv_waker == Some(waker),
        !(op is RecvPark || op is RecvDrop || op is DropClear || op is RecvStep),
    ensures
        op.apply(s).recv_waker == Some(waker) || woken(s, op.apply(s), waker),
{
    let n = s.effects.len() as int;
    if op.apply(s).recv_waker != Some(waker) {
        assert(op.apply(s).effects[n] == Effect::Wake(waker));
    }
}

/// A receive that parks is registered: after the recheck found nothing, the waker is stored
/// and the channel holds nothing for the receiver.
pub proof fn law_parking_registers<T>(s: ChanState<T>, waker: Waker)
    requires
        s.receiver_alive,
        !s.recv_waker_registered(waker).recv_ready(),
    ensures
        s.recv_waker_registered(waker).recv_waker == Some(waker),
{
}

/// No lost wake-up for senders: while senders are parked on an open, full channel, an
/// operation that lets them proceed (a slot is freed, or the receiver goes) makes the wake
/// of every one of them due. A close does so in its second half.
pub proof fn law_parked_sender_is_woken<T>(s: ChanState<T>, op: Op<T>, k: int)
    requires
        s.valid(),
        op.enabled(s),
        0 <= k < s.send_wakers.len(),
        s.full(),
        !s.send_closed(),
        !op.apply(s).full() || op.apply(s).send_closed(),
        op.apply(s).closed == s.closed,
    ensures
        woken(s, op.apply(s), s.send_wakers[k].1),
{
    let n = s.effects.len() as int;
    assert(op.apply(s).effects[n + k] == Effect::Wake(s.send_wakers[k].1));
}

/// The second half of a close makes the wake of every sender that is parked by then due.
pub proof fn law_finished_close_wakes_senders<T>(s: ChanState<T>, k: int)
    requires
        s.closed,
        0 <= k < s.send_wakers.len(),
    ensures
        woken(s, Op::FinishClose.apply(s), s.send_wakers[k].1),
        Op::FinishClose.apply(s).send_wakers.len() == 0,
{
    let n = s.effects.len() as int;
    assert(Op::FinishClose.apply(s).effects[n + k] == Effect::Wake(s.send_wakers[k].1));
}

/// Whether the wake of `waker` became due at some point of a run.
pub open spec fn run_wakes<T>(s: ChanState<T>, ops: Seq<Op<T>>, waker: Waker) -> bool
    decreases ops.len(),
{
    ops.len() > 0 && (woken(s, ops[0].apply(s), waker) || run_wakes(
        ops[0].apply(s),
        ops.drop_first(),
        waker,
    ))
}

/// Over every run in which a parked receiver does not act itself, either its wake becomes
/// due, or it is still registered and there is still nothing for it.
pub proof fn law_parked_receiver_never_sleeps_through<T>(
    s: ChanState<T>,
    ops: Seq<Op<T>>,
    waker: Waker,
)
    requires
        run_enabled(s, ops),
        s.recv_waker == Some(waker),
        !s.recv_ready(),
        forall|i: int|
            0 <= i < ops.len() ==> !(#[trigger] ops[i] is RecvPark || ops[i] is RecvDrop
                || ops[i] is DropClear || ops[i] is RecvStep),
    ensures
        run_wakes(s, ops, waker) || {
            &&& run(s, ops).recv_waker == Some(waker)
            &&& !run(s, ops).recv_ready()
        },
    decreases ops.len(),
{
    if ops.len() > 0 {
        let op = ops[0];
        let t = op.apply(s);
        if t.recv_ready() {
            law_parked_receiver_is_woken(s, op, waker);
        }
        law_parked_receiver_stays_registered(s, op, waker);
        if !woken(s, t, waker) {
            let rest = ops.drop_first();
            assert forall|i: int| 0 <= i < rest.len() implies !(#[trigger] rest[i] is RecvPark
                || rest[i] is RecvDrop || rest[i] is DropClear || rest[i] is RecvStep) by {
                assert(rest[i] == ops[i + 1]);
            }
            law_parked_receiver_never_sleeps_through(t, rest, waker);
        }
    }
}

/// Whether the operation is one of the `send` future that is registered under `id`.
pub open spec fn acts_for_sender<T>(op: Op<T>, id: u64) -> bool {
    match op {
        Op::SendStep(fut) | Op::SendPark(fut, _) | Op::SendDrop(fut) => fut.waker_id == Some(id),
        _ => false,
    }
}

/// One operation of somebody else wakes a parked sender or leaves it registered.
proof fn lemma_registered_sender_step<T>(s: ChanState<T>, op: Op<T>, id: u64, waker: Waker)
    requires
        orderly(s.send_wakers, s.next_send_id),
        s.next_send_id < u64::MAX,
        registered(s.send_wakers, id) == Some(waker),
        !acts_for_sender(op, id),
    ensures
        woken(s, op.apply(s), waker) || {
            &&& registered(op.apply(s).send_wakers, id) == Some(waker)
            &&& orderly(op.apply(s).send_wakers, op.apply(s).next_send_id)
            &&& op.apply(s).next_send_id <= s.next_send_id + 1
        },
{
    let t = op.apply(s);
    crate::wakers::lemma_position(s.send_wakers, id);
    match op {
        Op::SendPark(fut, other) => {
            crate::wakers::lemma_remove_is_orderly(
                s.send_wakers,
                s.next_send_id,
                fut.waker_id,
                id,
            );
            let left = s.send_waker_removed(fut.waker_id).send_wakers;
            crate::wakers::law_new_id_is_unused(left, s.next_send_id, other);
            crate::wakers::law_insert_keeps_the_others(left, s.next_send_id, other, id);
        },
        Op::SendDrop(fut) => {
            crate::wakers::lemma_remove_is_orderly(
                s.send_wakers,
                s.next_send_id,
                fut.waker_id,
                id,
            );
        },
        _ => {
            if t.send_wakers != s.send_wakers {
                let k = crate::wakers::position(s.send_wakers, id).unwrap();
                let n = s.effects.len() as int;
                assert(t.effects[n + k] == Effect::Wake(waker));
            }
        },
    }
}

/// Whether a close that was begun, before a run or in it, is unfinished at its end: the
/// wakes of the senders are still to come.
pub open spec fn close_unfinished<T>(s: ChanState<T>, ops: Seq<Op<T>>, begun: bool) -> bool
    decreases ops.len(),
{
    if ops.len() == 0 {
        begun
    } else {
        let t = ops[0].apply(s);
        close_unfinished(
            t,
            ops.drop_first(),
            !(ops[0] is FinishClose) && (begun || t.closed && !s.closed),
        )
    }
}

proof fn lemma_parked_sender_never_sleeps_through<T>(
    s: ChanState<T>,
    ops: Seq<Op<T>>,
    id: u64,
    waker: Waker,
    begun: bool,
)
    requires
        s.valid(),
        run_enabled(s, ops),
        orderly(s.send_wakers, s.next_send_id),
        s.next_send_id + ops.len() <= u64::MAX,
        registered(s.send_wakers, id) == Some(waker),
        begun || s.full() && !s.send_closed(),
        forall|i: int| 0 <= i < ops.len() ==> !acts_for_sender(#[trigger] ops[i], id),
    ensures
        run_wakes(s, ops, waker) || {
            &&& registered(run(s, ops).send_wakers, id) == Some(waker)
            &&& close_unfinished(s, ops, begun) || run(s, ops).full() && !run(s, ops).send_closed()
        },
    decreases ops.len(),
{
    if ops.len() > 0 {
        let op = ops[0];
        let t = op.apply(s);
        let k = crate::wakers::position(s.send_wakers, id).unwrap();
        crate::wakers::lemma_position(s.send_wakers, id);
        lemma_registered_sender_step(s, op, id, waker);
        if op is FinishClose {
            law_finished_close_wakes_senders(s, k);
        } else if !begun && t.closed == s.closed && (!t.full() || t.send_closed()) {
            law_parked_sender_is_woken(s, op, k);
        }
        if !woken(s, t, waker) {
            law_capacity_is_kept(s, op);
            let rest = ops.drop_first();
            assert forall|i: int| 0 <= i < rest.len() implies !acts_for_sender(
                #[trigger] rest[i],
                id,
            ) by {
                assert(rest[i] == ops[i + 1]);
            }
            lemma_parked_sender_never_sleeps_through(
                t,
                rest,
                id,
                waker,
                !(op is FinishClose) && (begun || t.closed && !s.closed),
            );
        }
    }
}

/// Over every run in which a parked sender does not act itself, either its wake becomes
/// due, or it is still registered, and the channel is still open and full unless a close
/// is under way that will wake it. Registration ids are taken not to wrap around during
/// the run.
pub proof fn law_parked_sender_never_sleeps_through<T>(
    s: ChanState<T>,
    ops: Seq<Op<T>>,
    id: u64,
    waker: Waker,
)
    requires
        s.valid(),
        run_enabled(s, ops),
        orderly(s.send_wakers, s.next_send_id),
        s.next_send_id + ops.len() <= u64::MAX,
        registered(s.send_wakers, id) == Some(waker),
        s.full(),
        !s.send_closed(),
        forall|i: int| 0 <= i < ops.len() ==> !acts_for_sender(#[trigger] ops[i], id),
    ensures
        run_wakes(s, ops, waker) || {
            &&& registered(run(s, ops).send_wakers, id) == Some(waker)
            &&& close_unfinished(s, ops, false) || run(s, ops).full() && !run(
                s,
                ops,
            ).send_closed()
        },
{
    lemma_parked_sender_never_sleeps_through(s, ops, id, waker, false);
}

/// A decided `send` future either queued its item at the back and woke the receiver, or
/// carries the item back with the channel untouched.
pub proof fn law_send_outcome_tells_the_effect<T>(s: ChanState<T>, fut: SendState<T>)
    requires
        fut.valid(),
        fut.item is Some,
    ensures
        s.send_state_tried(fut).valid(),
        s.send_state_tried(fut).outcome == Some(Ok::<(), SendError<T>>(())) ==> s.send_tried(
            fut,
        ).queue == s.queue.push(fut.item.unwrap()) && s.send_tried(fut).recv_waker is None,
        s.send_state_tried(fut).outcome matches Some(Err(e)) ==> {
            &&& e.item == fut.item.unwrap()
            &&& s.send_tried(fut) == s
        },
        s.send_state_tried(fut).outcome is None ==> {
            &&& s.send_state_tried(fut) == fut
            &&& s.send_tried(fut) == s
            &&& s.full() && !s.send_closed()
        },
{
}

} // verus!
