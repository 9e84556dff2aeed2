//! What each operation on a one-shot channel is for: which results it gives on which
//! channels, what it changes and what it leaves alone, and what the receiver then finds. All
//! of it is told by the channel's plain state: the value, the two halves and the waker.

use std::task::Waker;

use vstd::prelude::*;

use super::laws::{run, run_enabled, Op, Pair};
use super::model::InnerState;
use super::Canceled;
use crate::effect::Effect;
use crate::step::Step;

verus! {

/// A new channel has both halves, no value, nobody parked and nothing due. In general a value
/// waits only after its sender is gone and while the receiver is there, and a receiver that is
/// gone has left no waker.
pub proof fn law_new_channel<T>(s: InnerState<T>)
    ensures
        InnerState::<T>::opened().value is None,
        !InnerState::<T>::opened().sender_dropped,
        !InnerState::<T>::opened().receiver_dropped,
        InnerState::<T>::opened().recv_waker is None,
        InnerState::<T>::opened().effects.len() == 0,
        InnerState::<T>::opened().valid(),
        s.valid() <==> {
            &&& s.value is Some ==> s.sender_dropped && !s.receiver_dropped
            &&& s.receiver_dropped ==> s.recv_waker is None
        },
{
}

/// Dropping the sender is recorded in every state. Without a value waiting the parked receiver
/// is woken, once; with one, nobody is. Nothing else changes.
pub proof fn law_drop_sender<T>(s: InnerState<T>)
    ensures
        s.sender_gone().sender_dropped,
        s.sender_gone() == (InnerState {
            sender_dropped: true,
            recv_waker: s.sender_gone().recv_waker,
            effects: s.sender_gone().effects,
            ..s
        }),
        s.value is Some ==> s.sender_gone().recv_waker == s.recv_waker && s.sender_gone().effects
            == s.effects,
        s.value is None ==> s.sender_gone().recv_waker is None,
        s.value is None && s.recv_waker is None ==> s.sender_gone().effects == s.effects,
        s.value is None && s.recv_waker is Some ==> s.sender_gone().effects == s.effects.push(
            Effect::Wake(s.recv_waker.unwrap()),
        ),
{
}

/// A sender that goes without sending cancels the receive: the next look of a receiver that is
/// not done reports it, by whichever way it looks, whether or not it was parked.
pub proof fn law_dropped_sender_cancels<T>(s: InnerState<T>, otherwise: Step<Result<T, Canceled>>)
    requires
        s.value is None,
    ensures
        s.sender_gone().polled_step(false, otherwise) == Step::Ready(Err::<T, Canceled>(Canceled)),
        s.sender_gone().try_recv_result(false) == Err::<Option<T>, Canceled>(Canceled),
        s.sender_gone().polled_done(false),
{
}

/// Sending to a live receiver puts the value there, ends the sender and wakes the parked
/// receiver, once. Sending to a receiver that is gone leaves no value and ends the sender.
pub proof fn law_send<T>(s: InnerState<T>, value: T)
    requires
        s.valid(),
        !s.sender_dropped,
    ensures
        s.sent(value).sender_dropped,
        s.sent(value).receiver_dropped == s.receiver_dropped,
        s.sent(value).recv_waker is None,
        !s.receiver_dropped ==> s.sent(value).value == Some(value),
        s.receiver_dropped ==> s.sent(value).value is None && s.sent(value).effects == s.effects,
        s.recv_waker is None ==> s.sent(value).effects == s.effects,
        s.recv_waker is Some ==> s.sent(value).effects == s.effects.push(
            Effect::Wake(s.recv_waker.unwrap()),
        ),
{
}

/// A sent value is what the receiver's next look gives, by whichever way it looks.
pub proof fn law_sent_value_is_received<T>(
    s: InnerState<T>,
    value: T,
    otherwise: Step<Result<T, Canceled>>,
)
    requires
        s.valid(),
        !s.sender_dropped,
        !s.receiver_dropped,
    ensures
        s.sent(value).polled_step(false, otherwise) == Step::Ready(Ok::<T, Canceled>(value)),
        s.sent(value).try_recv_result(false) == Ok::<Option<T>, Canceled>(Some(value)),
        s.sent(value).polled_done(false),
        s.sent(value).polled(false).value is None,
{
}

/// A look of a receiver that is done gives nothing and changes nothing. One of a receiver that
/// is not gives the value exactly when it is there, the cancellation exactly when it is not
/// and the sender is gone, and otherwise waits; it is done exactly when it gave either.
pub proof fn law_look<T>(s: InnerState<T>, done: bool, otherwise: Step<Result<T, Canceled>>)
    ensures
        done ==> {
            &&& s.polled_step(done, otherwise) == Step::<Result<T, Canceled>>::Pending
            &&& s.try_recv_result(done) == Ok::<Option<T>, Canceled>(None)
            &&& s.polled(done) == s
            &&& s.polled_done(done)
        },
        !done && s.value is Some ==> {
            &&& s.polled_step(done, otherwise) == Step::Ready(Ok::<T, Canceled>(s.value.unwrap()))
            &&& s.try_recv_result(done) == Ok::<Option<T>, Canceled>(s.value)
        },
        !done && s.value is None && s.sender_dropped ==> {
            &&& s.polled_step(done, otherwise) == Step::Ready(Err::<T, Canceled>(Canceled))
            &&& s.try_recv_result(done) == Err::<Option<T>, Canceled>(Canceled)
        },
        !done && s.value is None && !s.sender_dropped ==> {
            &&& s.polled_step(done, otherwise) == otherwise
            &&& s.try_recv_result(done) == Ok::<Option<T>, Canceled>(None)
        },
        !done ==> {
            &&& s.polled_done(done) <==> (s.value is Some || s.sender_dropped)
            &&& s.polled(done).value is None
            &&& s.polled(done) == (InnerState { value: s.polled(done).value, ..s })
        },
        s.recv_ready() <==> (s.value is Some || s.sender_dropped),
        s.value is Some ==> s.received_result() == Ok::<T, Canceled>(s.value.unwrap()),
        s.value is None ==> s.received_result() == Err::<T, Canceled>(Canceled),
{
}

/// Taking the value leaves none and touches nothing else.
pub proof fn law_take_value<T>(s: InnerState<T>)
    ensures
        s.taken().value is None,
        s.taken() == (InnerState { value: s.taken().value, ..s }),
{
}

/// A waker is kept while the receiver is there, replacing an earlier one, which is dropped;
/// once the receiver is gone it is dropped at once. Nobody is woken.
pub proof fn law_park_receiver<T>(s: InnerState<T>, waker: Waker)
    ensures
        s.recv_waker_registered(waker) == (InnerState {
            recv_waker: s.recv_waker_registered(waker).recv_waker,
            effects: s.recv_waker_registered(waker).effects,
            ..s
        }),
        !s.receiver_dropped ==> {
            &&& s.recv_waker_registered(waker).recv_waker == Some(waker)
            &&& s.recv_waker is None ==> s.recv_waker_registered(waker).effects == s.effects
            &&& s.recv_waker is Some ==> s.recv_waker_registered(waker).effects == s.effects.push(
                Effect::Discard(s.recv_waker.unwrap()),
            )
        },
        s.receiver_dropped ==> {
            &&& s.recv_waker_registered(waker).recv_waker == s.recv_waker
            &&& s.recv_waker_registered(waker).effects == s.effects.push(Effect::Discard(waker))
        },
{
}

/// Clearing the receiver's waker drops it, waking nobody; waking it moves it out and makes its
/// wake due. Either is done once, and touches nothing else.
pub proof fn law_clear_or_wake_receiver<T>(s: InnerState<T>)
    ensures
        s.recv_waker_cleared().recv_waker is None,
        s.receiver_woken().recv_waker is None,
        s.recv_waker is None ==> s.recv_waker_cleared() == s && s.receiver_woken() == s,
        s.recv_waker is Some ==> {
            &&& s.recv_waker_cleared().effects == s.effects.push(
                Effect::Discard(s.recv_waker.unwrap()),
            )
            &&& s.receiver_woken().effects == s.effects.push(Effect::Wake(s.recv_waker.unwrap()))
        },
        s.recv_waker_cleared() == (InnerState {
            recv_waker: s.recv_waker_cleared().recv_waker,
            effects: s.recv_waker_cleared().effects,
            ..s
        }),
        s.receiver_woken() == (InnerState {
            recv_waker: s.receiver_woken().recv_waker,
            effects: s.receiver_woken().effects,
            ..s
        }),
{
}

/// Dropping the receiver is recorded in every state, drops its waker without waking it, and
/// leaves no value behind; the sender stays as it is.
pub proof fn law_drop_receiver<T>(s: InnerState<T>)
    ensures
        s.receiver_gone().receiver_dropped,
        s.receiver_gone().value is None,
        s.receiver_gone().recv_waker is None,
        s.receiver_gone().sender_dropped == s.sender_dropped,
        s.recv_waker is None ==> s.receiver_gone().effects == s.effects,
        s.recv_waker is Some ==> s.receiver_gone().effects == s.effects.push(
            Effect::Discard(s.recv_waker.unwrap()),
        ),
{
}

/// Whether an operation of the sender stands in a run: it sends, or it drops.
pub open spec fn sender_acts<T>(ops: Seq<Op<T>>) -> bool {
    exists|i: int| 0 <= i < ops.len() && (#[trigger] ops[i] is Send || ops[i] is DropSender)
}

/// Whether the receiver drops in a run.
pub open spec fn receiver_drops<T>(ops: Seq<Op<T>>) -> bool {
    exists|i: int| 0 <= i < ops.len() && #[trigger] ops[i] is DropReceiver
}

/// Over every run, the sender is gone exactly when it was so at the start, or sent or was
/// dropped since; and the receiver exactly when it was so at the start, or was dropped since.
pub proof fn law_halves_go_once_and_for_all<T>(s: Pair<T>, ops: Seq<Op<T>>)
    requires
        run_enabled(s, ops),
    ensures
        run(s, ops).inner.sender_dropped <==> (s.inner.sender_dropped || sender_acts(ops)),
        run(s, ops).inner.receiver_dropped <==> (s.inner.receiver_dropped || receiver_drops(ops)),
    decreases ops.len(),
{
    if ops.len() > 0 {
        let rest = ops.drop_first();
        law_halves_go_once_and_for_all(ops[0].apply(s), rest);
        assert forall|i: int| 0 <= i < rest.len() implies #[trigger] rest[i] == ops[i + 1] by {}
        if sender_acts(rest) {
            let i = choose|i: int|
                0 <= i < rest.len() && (#[trigger] rest[i] is Send || rest[i] is DropSender);
            assert(ops[i + 1] == rest[i]);
        }
        if sender_acts(ops) {
            let i = choose|i: int|
                0 <= i < ops.len() && (#[trigger] ops[i] is Send || ops[i] is DropSender);
            if i > 0 {
                assert(rest[i - 1] == ops[i]);
            }
        }
        if receiver_drops(rest) {
            let i = choose|i: int| 0 <= i < rest.len() && #[trigger] rest[i] is DropReceiver;
            assert(ops[i + 1] == rest[i]);
        }
        if receiver_drops(ops) {
            let i = choose|i: int| 0 <= i < ops.len() && #[trigger] ops[i] is DropReceiver;
            if i > 0 {
                assert(rest[i - 1] == ops[i]);
            }
        }
    }
}

/// Over every run from the creation of the channel, once the sender has sent or was dropped,
/// the next look of a receiver that is not done completes; until then it waits, and it is not
/// done.
pub proof fn law_receiver_completes_once_the_sender_acted<T>(ops: Seq<Op<T>>)
    requires
        run_enabled(Pair { inner: InnerState::<T>::opened(), done: false }, ops),
    ensures
        ({
            let t = run(Pair { inner: InnerState::<T>::opened(), done: false }, ops);
            &&& sender_acts(ops) && !t.done ==> t.inner.polled_step(false, Step::Pending) is Ready
                && t.inner.polled_done(false)
            &&& !sender_acts(ops) ==> !t.done && t.inner.polled_step(false, Step::Pending)
                == Step::<Result<T, Canceled>>::Pending && t.inner.try_recv_result(false) == Ok::<
                Option<T>,
                Canceled,
            >(None)
        }),
{
    let s = Pair { inner: InnerState::<T>::opened(), done: false };
    law_halves_go_once_and_for_all(s, ops);
    lemma_done_only_after_the_sender(s, ops);
}

proof fn lemma_done_only_after_the_sender<T>(s: Pair<T>, ops: Seq<Op<T>>)
    requires
        run_enabled(s, ops),
        s.inner.valid(),
        s.done ==> s.inner.sender_dropped,
    ensures
        run(s, ops).inner.valid(),
        run(s, ops).done ==> run(s, ops).inner.sender_dropped,
    decreases ops.len(),
{
    if ops.len() > 0 {
        lemma_done_only_after_the_sender(ops[0].apply(s), ops.drop_first());
    }
}

} // verus!
