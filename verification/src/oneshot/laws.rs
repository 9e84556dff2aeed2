//! What holds of a one-shot channel over every run of operations on it.

use std::task::Waker;

use vstd::prelude::*;

use super::model::InnerState;
use super::Canceled;
use crate::effect::Effect;
use crate::step::Step;

verus! {

/// A channel together with its receiver.
pub ghost struct Pair<T> {
    pub inner: InnerState<T>,
    /// Whether the receiver is done.
    pub done: bool,
}

/// One operation of a half on the channel, at the level of the model.
pub ghost enum Op<T> {
    /// `Sender::send`.
    Send(T),
    /// `Sender::drop`.
    DropSender,
    /// `Receiver::try_recv`.
    TryRecv,
    /// `TryIter::next`.
    TakeValue,
    /// A step of the receiver as a future.
    Poll,
    /// The receiver parks with the waker.
    Park(Waker),
    /// `Receiver::drop`.
    DropReceiver,
    /// `Inner::take_effects`.
    TakeEffects,
}

impl<T> Op<T> {
    /// Whether the half that performs the operation is alive.
    pub open spec fn enabled(self, s: Pair<T>) -> bool {
        match self {
            Op::Send(_) | Op::DropSender => !s.inner.sender_dropped,
            Op::TryRecv | Op::TakeValue | Op::Poll | Op::Park(_) | Op::DropReceiver => {
                !s.inner.receiver_dropped
            },
            Op::TakeEffects => true,
        }
    }

    /// What the operation makes of the channel and the receiver.
    pub open spec fn apply(self, s: Pair<T>) -> Pair<T> {
        match self {
            Op::Send(value) => Pair { inner: s.inner.sent(value), ..s },
            Op::DropSender => Pair { inner: s.inner.sender_gone(), ..s },
            Op::TryRecv | Op::Poll => Pair {
                inner: s.inner.polled(s.done),
                done: s.inner.polled_done(s.done),
            },
            Op::TakeValue => Pair {
                inner: s.inner.polled(s.done),
                done: s.done || s.inner.value is Some,
            },
            Op::Park(waker) => Pair { inner: s.inner.recv_waker_registered(waker), ..s },
            Op::DropReceiver => Pair { inner: s.inner.receiver_gone(), ..s },
            Op::TakeEffects => Pair {
                inner: InnerState { effects: Seq::empty(), ..s.inner },
                ..s
            },
        }
    }

    /// The value that the operation gets accepted into the channel.
    pub open spec fn accepted(self, s: Pair<T>) -> Seq<T> {
        match self {
            Op::Send(value) => if s.inner.receiver_dropped {
                Seq::empty()
            } else {
                seq![value]
            },
            _ => Seq::empty(),
        }
    }

    /// The value that the operation hands out: to the consumer, or back for dropping when
    /// the consumer goes.
    pub open spec fn handed_out(self, s: Pair<T>) -> Seq<T> {
        match self {
            Op::TryRecv => match s.inner.try_recv_result(s.done) {
                Ok(Some(value)) => seq![value],
                _ => Seq::empty(),
            },
            Op::TakeValue => if s.done {
                Seq::empty()
            } else {
                waiting(s.inner)
            },
            Op::Poll => match s.inner.polled_step(s.done, Step::Pending) {
                Step::Ready(Ok(value)) => seq![value],
                _ => Seq::empty(),
            },
            Op::DropReceiver => waiting(s.inner),
            _ => Seq::empty(),
        }
    }

    /// Whether the operation reports the cancellation.
    pub open spec fn cancels(self, s: Pair<T>) -> bool {
        match self {
            Op::TryRecv => s.inner.try_recv_result(s.done) is Err,
            Op::Poll => s.inner.polled_step(s.done, Step::Pending) == Step::Ready(
                Err::<T, Canceled>(Canceled),
            ),
            _ => false,
        }
    }
}

/// The value that waits in the channel.
pub open spec fn waiting<T>(inner: InnerState<T>) -> Seq<T> {
    match inner.value {
        Some(value) => seq![value],
        None => Seq::empty(),
    }
}

/// Whether every operation of a run is enabled when its turn comes.
pub open spec fn run_enabled<T>(s: Pair<T>, ops: Seq<Op<T>>) -> bool
    decreases ops.len(),
{
    ops.len() == 0 || {
        &&& ops[0].enabled(s)
        &&& run_enabled(ops[0].apply(s), ops.drop_first())
    }
}

/// The channel and the receiver after a run of operations.
pub open spec fn run<T>(s: Pair<T>, ops: Seq<Op<T>>) -> Pair<T>
    decreases ops.len(),
{
    if ops.len() == 0 {
        s
    } else {
        run(ops[0].apply(s), ops.drop_first())
    }
}

/// The values accepted over a run.
pub open spec fn run_accepted<T>(s: Pair<T>, ops: Seq<Op<T>>) -> Seq<T>
    decreases ops.len(),
{
    if ops.len() == 0 {
        Seq::empty()
    } else {
        ops[0].accepted(s) + run_accepted(ops[0].apply(s), ops.drop_first())
    }
}

/// The values handed out over a run.
pub open spec fn run_handed_out<T>(s: Pair<T>, ops: Seq<Op<T>>) -> Seq<T>
    decreases ops.len(),
{
    if ops.len() == 0 {
        Seq::empty()
    } else {
        ops[0].handed_out(s) + run_handed_out(ops[0].apply(s), ops.drop_first())
    }
}

/// How often the cancellation is reported over a run.
pub open spec fn run_cancels<T>(s: Pair<T>, ops: Seq<Op<T>>) -> nat
    decreases ops.len(),
{
    if ops.len() == 0 {
        0
    } else {
        (if ops[0].cancels(s) {
            1nat
        } else {
            0nat
        }) + run_cancels(ops[0].apply(s), ops.drop_first())
    }
}

/// Whether the wake of `waker` became due between two states.
pub open spec fn woken<T>(before: Pair<T>, after: Pair<T>, waker: Waker) -> bool {
    exists|i: int|
        before.inner.effects.len() <= i < after.inner.effects.len()
            && #[trigger] after.inner.effects[i] == Effect::Wake(waker)
}

/// Whether the wake of `waker` became due at some point of a run.
pub open spec fn run_wakes<T>(s: Pair<T>, ops: Seq<Op<T>>, waker: Waker) -> bool
    decreases ops.len(),
{
    ops.len() > 0 && (woken(s, ops[0].apply(s), waker) || run_wakes(
        ops[0].apply(s),
        ops.drop_first(),
        waker,
    ))
}

/// Every operation keeps the state valid.
pub proof fn law_validity_is_kept<T>(s: Pair<T>, op: Op<T>)
    requires
        s.inner.valid(),
        op.enabled(s),
    ensures
        op.apply(s).inner.valid(),
{
}

/// A receiver that is done is done for good, and gets nothing more out of the channel.
pub proof fn law_done_is_permanent<T>(s: Pair<T>, op: Op<T>)
    requires
        s.done,
        op.enabled(s),
    ensures
        op.apply(s).done,
        op is Poll || op is TryRecv || op is TakeValue ==> op.handed_out(s).len() == 0
            && op.apply(s).inner == s.inner && !op.cancels(s),
{
}

/// The value is handed out exactly once, unchanged: over every run, what was waiting at the
/// start followed by what was accepted is what was handed out followed by what still waits.
pub proof fn law_value_is_handed_out_once<T>(s: Pair<T>, ops: Seq<Op<T>>)
    requires
        s.inner.valid(),
        run_enabled(s, ops),
    ensures
        run(s, ops).inner.valid(),
        waiting(s.inner) + run_accepted(s, ops) == run_handed_out(s, ops) + waiting(
            run(s, ops).inner,
        ),
    decreases ops.len(),
{
    if ops.len() == 0 {
        assert(waiting(s.inner) + run_accepted(s, ops) =~= run_handed_out(s, ops) + waiting(
            run(s, ops).inner,
        ));
    } else {
        let op = ops[0];
        let rest = ops.drop_first();
        let t = op.apply(s);
        law_validity_is_kept(s, op);
        law_value_is_handed_out_once(t, rest);
        let accepted = run_accepted(t, rest);
        let out = run_handed_out(t, rest);
        let last = waiting(run(t, rest).inner);
        assert(waiting(s.inner) + op.accepted(s) =~= op.handed_out(s) + waiting(t.inner));
        assert(waiting(s.inner) + (op.accepted(s) + accepted) =~= (waiting(s.inner) + op.accepted(
            s,
        )) + accepted);
        assert((op.handed_out(s) + waiting(t.inner)) + accepted =~= op.handed_out(s) + (waiting(
            t.inner,
        ) + accepted));
        assert(op.handed_out(s) + (out + last) =~= (op.handed_out(s) + out) + last);
    }
}

/// At most one value is accepted over every run, and none once the sender is gone.
pub proof fn law_at_most_one_value<T>(s: Pair<T>, ops: Seq<Op<T>>)
    requires
        run_enabled(s, ops),
    ensures
        run_accepted(s, ops).len() <= 1,
        s.inner.sender_dropped ==> run_accepted(s, ops).len() == 0,
    decreases ops.len(),
{
    if ops.len() > 0 {
        law_at_most_one_value(ops[0].apply(s), ops.drop_first());
    }
}

/// The cancellation is reported at most once, and only by a receiver whose sender went
/// without a value being accepted.
pub proof fn law_canceled_only_without_a_value<T>(s: Pair<T>, ops: Seq<Op<T>>)
    requires
        s.inner.valid(),
        !s.done,
        run_enabled(s, ops),
    ensures
        run_cancels(s, ops) <= 1,
        run_cancels(s, ops) == 1 ==> s.inner.value is None && run_accepted(s, ops).len() == 0,
    decreases ops.len(),
{
    if ops.len() > 0 {
        let t = ops[0].apply(s);
        law_validity_is_kept(s, ops[0]);
        if t.done || t.inner.receiver_dropped {
            lemma_no_cancel_once_over(t, ops.drop_first());
            law_at_most_one_value(t, ops.drop_first());
        } else {
            law_canceled_only_without_a_value(t, ops.drop_first());
        }
    }
}

/// A receiver that is done or gone reports no cancellation.
proof fn lemma_no_cancel_once_over<T>(s: Pair<T>, ops: Seq<Op<T>>)
    requires
        s.done || s.inner.receiver_dropped,
        run_enabled(s, ops),
    ensures
        run_cancels(s, ops) == 0,
    decreases ops.len(),
{
    if ops.len() > 0 {
        lemma_no_cancel_once_over(ops[0].apply(s), ops.drop_first());
    }
}

/// What is sent to a live receiver is what its next look gives.
pub proof fn law_receive_gives_back_the_send<T>(s: Pair<T>, value: T)
    requires
        !s.inner.receiver_dropped,
        !s.done,
    ensures
        s.inner.sent(value).polled_step(s.done, Step::Register) == Step::Ready(
            Ok::<T, Canceled>(value),
        ),
        s.inner.sent(value).try_recv_result(s.done) == Ok::<Option<T>, Canceled>(Some(value)),
{
}

/// Draining a receiver that has been canceled does not use the cancellation up: the next
/// poll still reports it.
pub proof fn law_draining_leaves_the_cancellation<T>(s: Pair<T>)
    requires
        !s.done,
        s.inner.value is None,
        s.inner.sender_dropped,
    ensures
        Op::TakeValue.handed_out(s).len() == 0,
        Op::TakeValue.apply(s) == s,
        Op::<T>::Poll.cancels(Op::TakeValue.apply(s)),
{
}

/// No lost wake-up: while the receiver is parked with `waker` and nothing is there for it,
/// the operation that sends the value or drops the sender makes the wake of `waker` due.
pub proof fn law_parked_receiver_is_woken<T>(s: Pair<T>, op: Op<T>, waker: Waker)
    requires
        s.inner.valid(),
        op.enabled(s),
        s.inner.recv_waker == Some(waker),
        !s.inner.recv_ready(),
        op.apply(s).inner.recv_ready(),
    ensures
        woken(s, op.apply(s), waker),
{
    let n = s.inner.effects.len() as int;
    assert(op.apply(s).inner.effects[n] == Effect::Wake(waker));
}

/// Over every run in which the parked receiver neither registers another waker nor goes,
/// either its wake becomes due, or it is still registered and there is still nothing for
/// it.
pub proof fn law_parked_receiver_never_sleeps_through<T>(
    s: Pair<T>,
    ops: Seq<Op<T>>,
    waker: Waker,
)
    requires
        s.inner.valid(),
        run_enabled(s, ops),
        s.inner.recv_waker == Some(waker),
        !s.inner.recv_ready(),
        forall|i: int|
            0 <= i < ops.len() ==> !(#[trigger] ops[i] is Park || ops[i] is DropReceiver),
    ensures
        run_wakes(s, ops, waker) || {
            &&& run(s, ops).inner.recv_waker == Some(waker)
            &&& !run(s, ops).inner.recv_ready()
        },
    decreases ops.len(),
{
    if ops.len() > 0 {
        let op = ops[0];
        let t = op.apply(s);
        law_validity_is_kept(s, op);
        if t.inner.recv_ready() {
            law_parked_receiver_is_woken(s, op, waker);
        } else {
            let rest = ops.drop_first();
            assert forall|i: int| 0 <= i < rest.len() implies !(#[trigger] rest[i] is Park
                || rest[i] is DropReceiver) by {
                assert(rest[i] == ops[i + 1]);
            }
            law_parked_receiver_never_sleeps_through(t, rest, waker);
        }
    }
}

} // verus!
