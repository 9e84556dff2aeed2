//! Work on wakers that a channel operation leaves for its caller.
//!
//! Waking or dropping a [`Waker`] runs foreign code, which may use the channel again. An
//! operation therefore never does either while it holds the channel: it records what is
//! due, in order, and the caller performs it once the channel is released.

use std::task::Waker;

use vstd::prelude::*;

verus! {

/// `std::task::Waker`, carried as an opaque value: nothing is claimed of what it does.
#[verifier::external_type_specification]
#[verifier::external_body]
pub struct ExWaker(std::task::Waker);

/// One piece of work on a waker.
pub enum Effect {
    /// Wake the task.
    Wake(Waker),
    /// Drop the waker without waking.
    Discard(Waker),
}

/// Waking the given wakers, in order.
pub open spec fn wakes(wakers: Seq<(u64, Waker)>) -> Seq<Effect> {
    Seq::new(wakers.len(), |i: int| Effect::Wake(wakers[i].1))
}

/// Waking the given waker, if there is one.
pub open spec fn wake_of(waker: Option<Waker>) -> Seq<Effect> {
    match waker {
        Some(w) => seq![Effect::Wake(w)],
        None => Seq::empty(),
    }
}

/// Dropping the given waker, if there is one.
pub open spec fn discard_of(waker: Option<Waker>) -> Seq<Effect> {
    match waker {
        Some(w) => seq![Effect::Discard(w)],
        None => Seq::empty(),
    }
}

/// Whether what became due between two lists of effects is exactly the wake of each of the
/// given wakers, once each and in order.
pub open spec fn wakes_each(
    before: Seq<Effect>,
    after: Seq<Effect>,
    wakers: Seq<(u64, Waker)>,
) -> bool {
    &&& after.len() == before.len() + wakers.len()
    &&& forall|i: int| 0 <= i < before.len() ==> #[trigger] after[i] == before[i]
    &&& forall|i: int|
        0 <= i < wakers.len() ==> after[before.len() + i] == Effect::Wake(
            (#[trigger] wakers[i]).1,
        )
}

/// Waking a list of wakers wakes each of them once, in order, and drops none; waking or
/// dropping one that may be there is one effect if it is, and none if it is not.
pub proof fn law_one_effect_for_each_waker(wakers: Seq<(u64, Waker)>, waker: Waker)
    ensures
        wakes(wakers).len() == wakers.len(),
        forall|i: int|
            0 <= i < wakers.len() ==> #[trigger] wakes(wakers)[i] == Effect::Wake(wakers[i].1),
        wake_of(Some(waker)).len() == 1,
        wake_of(Some(waker))[0] == Effect::Wake(waker),
        discard_of(Some(waker)).len() == 1,
        discard_of(Some(waker))[0] == Effect::Discard(waker),
        wake_of(None).len() == 0,
        discard_of(None).len() == 0,
{
}

/// Records the wake of every waker of `wakers`, in order.
pub(crate) fn record_wakes(effects: &mut Vec<Effect>, wakers: Vec<(u64, Waker)>)
    ensures
        final(effects)@ == old(effects)@ + wakes(wakers@),
{
    let ghost all = wakers@;
    for entry in it: wakers
        invariant
            it.seq() == all,
            effects@ == old(effects)@ + wakes(all.take(it.index() as int)),
    {
        let ghost done = all.take(it.index() as int);
        effects.push(Effect::Wake(entry.1));
        proof {
            assert(all.take(it.index() + 1) =~= done.push(entry));
            assert(wakes(done.push(entry)) =~= wakes(done).push(Effect::Wake(entry.1)));
        }
    }
    assert(all.take(all.len() as int) =~= all);
}

/// Records the wake of `waker`, if there is one.
pub(crate) fn record_wake(effects: &mut Vec<Effect>, waker: Option<Waker>)
    ensures
        final(effects)@ == old(effects)@ + wake_of(waker),
{
    if let Some(w) = waker {
        effects.push(Effect::Wake(w));
    }
}

/// Records the drop of `waker`, if there is one.
pub(crate) fn record_discard(effects: &mut Vec<Effect>, waker: Option<Waker>)
    ensures
        final(effects)@ == old(effects)@ + discard_of(waker),
{
    if let Some(w) = waker {
        effects.push(Effect::Discard(w));
    }
}

/// Moves the recorded effects out, leaving none.
pub(crate) fn take_effects(effects: &mut Vec<Effect>) -> (taken: Vec<Effect>)
    ensures
        taken@ == old(effects)@,
        final(effects)@ == Seq::<Effect>::empty(),
{
    let mut taken: Vec<Effect> = Vec::new();
    std::mem::swap(&mut taken, effects);
    taken
}

} // verus!
