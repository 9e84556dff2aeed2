//! Registered wakers, each tagged with a stable registration id.

use std::task::Waker;

use vstd::prelude::*;

verus! {

/// The registration ids of a list of entries, in order.
pub open spec fn ids(entries: Seq<(u64, Waker)>) -> Seq<u64> {
    Seq::new(entries.len(), |i: int| entries[i].0)
}

/// Where the entry registered under `id` stands: the first one, if there are several.
pub open spec fn position(entries: Seq<(u64, Waker)>, id: u64) -> Option<int> {
    ids(entries).index_of_first(id)
}

/// The waker registered under `id`.
pub open spec fn registered(entries: Seq<(u64, Waker)>, id: u64) -> Option<Waker> {
    match position(entries, id) {
        Some(i) => Some(entries[i].1),
        None => None,
    }
}

/// The entries without the one registered under `id`, the last entry taking its place.
pub open spec fn without(entries: Seq<(u64, Waker)>, id: u64) -> Seq<(u64, Waker)> {
    match position(entries, id) {
        Some(i) => entries.update(i, entries.last()).drop_last(),
        None => entries,
    }
}

/// Whether no two entries share an id.
pub open spec fn distinct(entries: Seq<(u64, Waker)>) -> bool {
    forall|i: int, j: int|
        0 <= i < j < entries.len() ==> (#[trigger] entries[i]).0 != (#[trigger] entries[j]).0
}

/// Whether `at` is the index of the first entry registered under `id`.
pub open spec fn first_at(entries: Seq<(u64, Waker)>, id: u64, at: Option<int>) -> bool {
    match at {
        Some(k) => {
            &&& 0 <= k < entries.len()
            &&& entries[k].0 == id
            &&& forall|j: int| 0 <= j < k ==> (#[trigger] entries[j]).0 != id
        },
        None => forall|j: int| 0 <= j < entries.len() ==> (#[trigger] entries[j]).0 != id,
    }
}

/// [`position`] finds the first entry registered under `id`, and nothing exactly when there
/// is none.
pub proof fn lemma_position(entries: Seq<(u64, Waker)>, id: u64)
    ensures
        first_at(entries, id, position(entries, id)),
{
    let all = ids(entries);
    all.index_of_first_ensures(id);
    match position(entries, id) {
        Some(k) => {
            assert forall|j: int| 0 <= j < k implies (#[trigger] entries[j]).0 != id by {
                assert(all[j] == entries[j].0);
            }
        },
        None => {
            assert forall|j: int| 0 <= j < entries.len() implies (#[trigger] entries[j]).0
                != id by {
                assert(all[j] == entries[j].0);
            }
        },
    }
}

/// The id after `id`.
pub open spec fn next_id(id: u64) -> u64 {
    if id == u64::MAX {
        0
    } else {
        (id + 1) as u64
    }
}

/// Whether every id in use is below the one given out next, so that the next one is new.
pub open spec fn ids_below(entries: Seq<(u64, Waker)>, next: u64) -> bool {
    forall|i: int| 0 <= i < entries.len() ==> (#[trigger] entries[i]).0 < next
}

/// Ids are stable names: as long as the counter has not wrapped around, a new registration
/// gets an id that no other entry has.
pub proof fn law_new_id_is_unused(entries: Seq<(u64, Waker)>, next: u64, waker: Waker)
    requires
        distinct(entries),
        ids_below(entries, next),
        next < u64::MAX,
    ensures
        position(entries, next) is None,
        distinct(entries.push((next, waker))),
        ids_below(entries.push((next, waker)), next_id(next)),
        registered(entries.push((next, waker)), next) == Some(waker),
{
    lemma_position(entries, next);
    lemma_position(entries.push((next, waker)), next);
    assert(entries.push((next, waker))[entries.len() as int] == (next, waker));
}

/// Where ids are distinct, removing one entry takes out exactly that entry: every other
/// waker stays registered under its id, and the ids stay distinct.
pub proof fn law_remove_takes_exactly_one(entries: Seq<(u64, Waker)>, id: u64, other: u64)
    requires
        distinct(entries),
        other != id,
    ensures
        registered(without(entries, id), id) is None,
        registered(without(entries, id), other) == registered(entries, other),
        distinct(without(entries, id)),
        without(entries, id).len() == entries.len() - (if registered(entries, id) is Some {
            1int
        } else {
            0int
        }),
{
    let left = without(entries, id);
    lemma_position(entries, id);
    lemma_position(entries, other);
    lemma_position(left, id);
    lemma_position(left, other);
    if let Some(k) = position(entries, id) {
        let last = entries.len() - 1;
        assert forall|j: int| 0 <= j < left.len() implies #[trigger] left[j] == entries[if j == k {
            last
        } else {
            j
        }] by {}
        if let Some(m) = position(entries, other) {
            let at = if m == last {
                k
            } else {
                m
            };
            assert(left[at] == entries[m]);
        }
    }
}

/// A new registration leaves the others as they are.
pub proof fn law_insert_keeps_the_others(
    entries: Seq<(u64, Waker)>,
    next: u64,
    waker: Waker,
    other: u64,
)
    requires
        registered(entries, other) is Some,
    ensures
        registered(entries.push((next, waker)), other) == registered(entries, other),
{
    let more = entries.push((next, waker));
    lemma_position(entries, other);
    lemma_position(more, other);
    if let Some(k) = position(entries, other) {
        assert(more[k] == entries[k]);
        assert forall|j: int| 0 <= j < k implies (#[trigger] more[j]).0 != other by {
            assert(more[j] == entries[j]);
        }
    }
}

/// A new registration is found under its id, and changes nothing under another one.
pub proof fn lemma_insert_is_exact(
    entries: Seq<(u64, Waker)>,
    next: u64,
    waker: Waker,
    other: u64,
)
    requires
        other != next,
    ensures
        registered(entries.push((next, waker)), other) == registered(entries, other),
{
    let more = entries.push((next, waker));
    if registered(entries, other) is Some {
        law_insert_keeps_the_others(entries, next, waker, other);
    } else {
        lemma_position(entries, other);
        lemma_position(more, other);
    }
}

/// Removing what was just registered under an unused id gives the list back.
pub proof fn lemma_remove_undoes_insert(entries: Seq<(u64, Waker)>, id: u64, waker: Waker)
    requires
        position(entries, id) is None,
    ensures
        without(entries.push((id, waker)), id) == entries,
        registered(entries.push((id, waker)), id) == Some(waker),
{
    let more = entries.push((id, waker));
    lemma_position(entries, id);
    lemma_position(more, id);
    assert(more[entries.len() as int] == (id, waker));
    assert forall|j: int| 0 <= j < entries.len() implies (#[trigger] more[j]).0 != id by {
        assert(more[j] == entries[j]);
    }
    assert(without(more, id) =~= entries);
}

/// Whether the ids in use are distinct and the next one is new: so it is until the counter
/// wraps around.
pub open spec fn orderly(entries: Seq<(u64, Waker)>, next: u64) -> bool {
    distinct(entries) && ids_below(entries, next)
}

/// Removing an entry, if it is there, keeps the ids in order and leaves every other waker
/// registered.
pub proof fn lemma_remove_is_orderly(
    entries: Seq<(u64, Waker)>,
    next: u64,
    id: Option<u64>,
    other: u64,
)
    requires
        orderly(entries, next),
        id != Some(other),
    ensures
        id matches Some(k) ==> {
            &&& orderly(without(entries, k), next)
            &&& registered(without(entries, k), other) == registered(entries, other)
        },
{
    if let Some(k) = id {
        law_remove_takes_exactly_one(entries, k, other);
        let left = without(entries, k);
        lemma_position(entries, k);
        assert forall|j: int| 0 <= j < left.len() implies (#[trigger] left[j]).0 < next by {
            let last = entries.len() - 1;
            assert(left[j] == entries[if position(entries, k) == Some(j) {
                last
            } else {
                j
            }]);
        }
    }
}

/// Where several entries share an id, the first of them is the one registered, and the one
/// that a removal takes out: the last entry moves into its place.
pub proof fn law_remove_finds_the_first(entries: Seq<(u64, Waker)>, id: u64, k: int)
    requires
        0 <= k < entries.len(),
        entries[k].0 == id,
        forall|j: int| 0 <= j < k ==> (#[trigger] entries[j]).0 != id,
    ensures
        registered(entries, id) == Some(entries[k].1),
        without(entries, id).len() + 1 == entries.len(),
        forall|j: int|
            0 <= j < entries.len() - 1 && j != k ==> #[trigger] without(entries, id)[j]
                == entries[j],
        k < entries.len() - 1 ==> without(entries, id)[k] == entries.last(),
        without(entries, id) == entries.update(k, entries.last()).drop_last(),
{
    lemma_position(entries, id);
    let at = position(entries, id);
    if at is Some {
        assert(entries[at.unwrap()].0 == id);
    } else {
        assert(entries[k].0 != id);
    }
}

/// Under an id that no entry has, nothing is registered and a removal changes nothing.
pub proof fn law_remove_without_an_entry(entries: Seq<(u64, Waker)>, id: u64)
    requires
        forall|j: int| 0 <= j < entries.len() ==> (#[trigger] entries[j]).0 != id,
    ensures
        registered(entries, id) is None,
        without(entries, id) == entries,
{
    lemma_position(entries, id);
    let at = position(entries, id);
    if at is Some {
        assert(entries[at.unwrap()].0 == id);
    }
}

/// Ids count up by one, and start over at zero after the largest.
pub proof fn law_ids_count_up(id: u64)
    ensures
        id < u64::MAX ==> next_id(id) == id + 1,
        id == u64::MAX ==> next_id(id) == 0,
{
}

/// Wakers of parked tasks, each under a registration id, so that a task can remove exactly
/// its own entry.
pub struct WakerList {
    entries: Vec<(u64, Waker)>,
    next: u64,
}

impl WakerList {
    /// The registered wakers with their ids.
    pub closed spec fn entries(&self) -> Seq<(u64, Waker)> {
        self.entries@
    }

    /// The id that the next registration gets.
    pub closed spec fn next(&self) -> u64 {
        self.next
    }

    /// An empty list.
    pub fn new() -> (list: Self)
        ensures
            list.entries() == Seq::<(u64, Waker)>::empty(),
            list.next() == 0,
    {
        WakerList { entries: Vec::new(), next: 0 }
    }

    /// The number of registered wakers.
    pub fn len(&self) -> (n: usize)
        ensures
            n == self.entries().len(),
    {
        self.entries.len()
    }

    /// Whether no waker is registered.
    pub fn is_empty(&self) -> (b: bool)
        ensures
            b == (self.entries().len() == 0),
    {
        self.entries.len() == 0
    }

    /// Uses up a registration id without registering anything.
    pub fn skip(&mut self) -> (id: u64)
        ensures
            id == old(self).next(),
            final(self).next() == next_id(old(self).next()),
            final(self).entries() == old(self).entries(),
    {
        let id: u64 = self.next;
        self.next = id.wrapping_add(1);
        id
    }

    /// Registers `waker`, returning the id for later removal.
    pub fn insert(&mut self, waker: Waker) -> (id: u64)
        ensures
            id == old(self).next(),
            final(self).next() == next_id(old(self).next()),
            final(self).entries() == old(self).entries().push((id, waker)),
    {
        let id: u64 = self.skip();
        self.entries.push((id, waker));
        id
    }

    /// Removes the waker registered under `id`, if it is still there.
    pub fn remove(&mut self, id: u64) -> (r: Option<Waker>)
        ensures
            r == registered(old(self).entries(), id),
            final(self).entries() == without(old(self).entries(), id),
            final(self).next() == old(self).next(),
    {
        proof {
            lemma_position(self.entries@, id);
        }
        let mut i: usize = 0;
        while i < self.entries.len()
            invariant
                i <= self.entries@.len(),
                *self == *old(self),
                forall|j: int| 0 <= j < i ==> (#[trigger] self.entries@[j]).0 != id,
                first_at(self.entries@, id, position(self.entries@, id)),
            decreases self.entries@.len() - i,
        {
            if self.entries[i].0 == id {
                let entry = self.entries.swap_remove(i);
                return Some(entry.1);
            }
            i = i + 1;
        }
        None
    }

    /// Moves every registered waker out, leaving none.
    pub fn take_all(&mut self) -> (taken: Vec<(u64, Waker)>)
        ensures
            taken@ == old(self).entries(),
            final(self).entries() == Seq::<(u64, Waker)>::empty(),
            final(self).next() == old(self).next(),
    {
        let mut taken: Vec<(u64, Waker)> = Vec::new();
        std::mem::swap(&mut taken, &mut self.entries);
        taken
    }
}

} // verus!
