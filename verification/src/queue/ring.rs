//! Fixed-capacity ring buffer backing the bounded flavor.

use std::collections::VecDeque;

use vstd::prelude::*;

verus! {

/// A ring of slots: exactly `cap` of them in one allocation, with `head` and `len` marking
/// the occupied region `[head, head + len)` modulo `cap`. Slots outside that region hold
/// nothing.
struct Slots<T> {
    slots: Vec<Option<T>>,
    head: usize,
    len: usize,
}

/// The slot that holds the `i`-th oldest item of a ring of `cap` slots starting at `head`.
spec fn slot_of(head: int, i: int, cap: int) -> int {
    if head + i < cap {
        head + i
    } else {
        head + i - cap
    }
}

/// `<[T]>::rotate_left`, on the slots of a ring: the first `mid` slots move behind the
/// others, and each part keeps its order. The documentation says that it panics only where
/// `mid` is greater than the length.
#[verifier::external_body]
fn rotate_left<T>(slots: &mut Vec<Option<T>>, mid: usize)
    requires
        mid <= old(slots)@.len(),
    ensures
        final(slots)@ == old(slots)@.skip(mid as int) + old(slots)@.take(mid as int),
    opens_invariants none
    no_unwind
{
    slots.rotate_left(mid);
}

impl<T> Slots<T> {
    /// The head is a slot, or there is none.
    #[verifier::type_invariant]
    spec fn head_in_bounds(self) -> bool {
        self.head <= self.slots@.len()
    }

    /// Exactly the slots of the occupied region hold an item.
    spec fn wf(&self) -> bool {
        let cap = self.slots@.len() as int;
        &&& self.head < cap
        &&& self.len <= cap
        &&& forall|i: int|
            0 <= i < cap ==> ((#[trigger] self.slots@[slot_of(self.head as int, i, cap)]) is Some
                <==> i < self.len)
    }

    /// The queued items, oldest first.
    spec fn items(&self) -> Seq<T> {
        Seq::new(
            self.len as nat,
            |i: int| self.slots@[slot_of(self.head as int, i, self.slots@.len() as int)].unwrap(),
        )
    }

    /// Creates `cap` empty slots.
    fn new(cap: usize) -> (ring: Self)
        requires
            cap > 0,
        ensures
            ring.wf(),
            ring.slots@.len() == cap,
            ring.items() == Seq::<T>::empty(),
    {
        let mut slots: Vec<Option<T>> = Vec::with_capacity(cap);
        while slots.len() < cap
            invariant
                slots@.len() <= cap,
                forall|i: int| 0 <= i < slots@.len() ==> slots@[i] is None,
            decreases cap - slots@.len(),
        {
            slots.push(None);
        }
        Slots { slots, head: 0, len: 0 }
    }

    /// Writes the slot behind the occupied region.
    fn write(&mut self, item: T)
        requires
            old(self).wf(),
            old(self).len < old(self).slots@.len(),
        ensures
            final(self).wf(),
            final(self).slots@.len() == old(self).slots@.len(),
            final(self).items() == old(self).items().push(item),
    {
        let until_end: usize = self.slots.len() - self.head;
        let tail: usize = if self.len < until_end {
            self.head + self.len
        } else {
            self.len - until_end
        };
        self.slots[tail] = Some(item);
        self.len = self.len + 1;
        proof {
            let cap = self.slots@.len() as int;
            let head = self.head as int;
            assert(tail == slot_of(head, self.len - 1, cap));
            assert forall|i: int| 0 <= i < cap implies ((#[trigger] self.slots@[slot_of(
                head,
                i,
                cap,
            )]) is Some <==> i < self.len) by {
                assert(old(self).slots@[slot_of(head, i, cap)] is Some <==> i < old(self).len);
            }
            assert(self.items() =~= old(self).items().push(item));
        }
    }

    /// Reads the oldest item out, or `None` when no slot is occupied.
    fn read(&mut self) -> (r: Option<T>)
        requires
            old(self).wf(),
        ensures
            final(self).wf(),
            final(self).slots@.len() == old(self).slots@.len(),
            old(self).items().len() > 0 ==> {
                &&& r == Some(old(self).items()[0])
                &&& final(self).items() == old(self).items().drop_first()
            },
            old(self).items().len() == 0 ==> {
                &&& r == None::<T>
                &&& final(self).items() == old(self).items()
            },
    {
        if self.len == 0 {
            return None;
        }
        let head: usize = self.head;
        assert(slot_of(head as int, 0, self.slots@.len() as int) == head);
        let mut item: Option<T> = None;
        std::mem::swap(&mut item, &mut self.slots[head]);
        self.head = if head < self.slots.len() - 1 {
            head + 1
        } else {
            0
        };
        self.len = self.len - 1;
        proof {
            let cap = self.slots@.len() as int;
            assert forall|i: int| 0 <= i < cap implies ((#[trigger] self.slots@[slot_of(
                self.head as int,
                i,
                cap,
            )]) is Some <==> i < self.len) by {
                if i + 1 < cap {
                    assert(slot_of(self.head as int, i, cap) == slot_of(head as int, i + 1, cap));
                    assert(old(self).slots@[slot_of(head as int, i + 1, cap)] is Some <==> i + 1
                        < old(self).len);
                }
            }
            assert forall|i: int| 0 <= i < self.len implies self.items()[i] == old(
                self,
            ).items()[i + 1] by {
                assert(slot_of(self.head as int, i, cap) == slot_of(head as int, i + 1, cap));
            }
            assert(self.items() =~= old(self).items().drop_first());
        }
        item
    }
}

impl<T> Drop for Slots<T> {
    /// Turns the ring so that the oldest item stands first: the items still queued are then
    /// dropped in the order in which they were queued.
    fn drop(&mut self)
        opens_invariants none
        no_unwind
    {
        proof {
            use_type_invariant(&*self);
        }
        rotate_left(&mut self.slots, self.head);
        self.head = 0;
    }
}

/// Where a ring keeps its items. Zero-sized ones take no storage, so that no number of them
/// is too large to set aside: they need no slots.
enum Store<T> {
    Slots(Slots<T>),
    Bare { items: VecDeque<T>, cap: usize },
}

/// A queue of fixed capacity.
pub struct Ring<T> {
    store: Store<T>,
}

impl<T> View for Ring<T> {
    type V = Seq<T>;

    /// The queued items, oldest first.
    closed spec fn view(&self) -> Seq<T> {
        match self.store {
            Store::Slots(ring) => ring.items(),
            Store::Bare { items, cap: _ } => items@,
        }
    }
}

impl<T> Ring<T> {
    /// Whether the slots, or the items without slots, are as they should be.
    pub closed spec fn wf(&self) -> bool {
        match self.store {
            Store::Slots(ring) => ring.wf(),
            Store::Bare { items, cap } => 0 < cap && items@.len() <= cap,
        }
    }

    /// The number of items the ring can hold.
    pub closed spec fn spec_cap(&self) -> nat {
        match self.store {
            Store::Slots(ring) => ring.slots@.len(),
            Store::Bare { items: _, cap } => cap as nat,
        }
    }

    /// A ring has room for at least one item and never holds more than it has room for,
    /// which can be counted in a `usize`.
    pub proof fn lemma_within_capacity(&self)
        requires
            self.wf(),
        ensures
            0 < self.spec_cap() <= usize::MAX,
            self@.len() <= self.spec_cap(),
    {
        if let Store::Slots(ring) = self.store {
            assert(ring.slots.len() == ring.slots@.len());
        }
    }

    /// Creates an empty ring for `cap` items.
    pub fn with_capacity(cap: usize) -> (ring: Self)
        requires
            cap > 0,
        ensures
            ring.wf(),
            ring.spec_cap() == cap,
            ring@ == Seq::<T>::empty(),
    {
        let store = if std::mem::size_of::<T>() == 0 {
            Store::Bare { items: VecDeque::new(), cap }
        } else {
            Store::Slots(Slots::new(cap))
        };
        Ring { store }
    }

    /// The number of items the ring can hold.
    pub fn cap(&self) -> (n: usize)
        ensures
            n == self.spec_cap(),
    {
        match &self.store {
            Store::Slots(ring) => ring.slots.len(),
            Store::Bare { items: _, cap } => *cap,
        }
    }

    /// The number of queued items.
    pub fn len(&self) -> (n: usize)
        ensures
            n == self@.len(),
    {
        match &self.store {
            Store::Slots(ring) => ring.len,
            Store::Bare { items, cap: _ } => items.len(),
        }
    }

    /// Whether no item is queued.
    pub fn is_empty(&self) -> (b: bool)
        ensures
            b == (self@.len() == 0),
    {
        self.len() == 0
    }

    /// Whether the ring has no room left.
    pub fn is_full(&self) -> (b: bool)
        ensures
            b == (self@.len() == self.spec_cap()),
    {
        self.len() == self.cap()
    }

    /// Appends an item, or hands it back via `Err` when the ring is full.
    pub fn push(&mut self, item: T) -> (r: Result<(), T>)
        requires
            old(self).wf(),
        ensures
            final(self).wf(),
            final(self).spec_cap() == old(self).spec_cap(),
            old(self)@.len() == old(self).spec_cap() ==> {
                &&& r == Err::<(), T>(item)
                &&& final(self)@ == old(self)@
            },
            old(self)@.len() != old(self).spec_cap() ==> {
                &&& r == Ok::<(), T>(())
                &&& final(self)@ == old(self)@.push(item)
            },
    {
        if self.is_full() {
            return Err(item);
        }
        match &mut self.store {
            Store::Slots(ring) => ring.write(item),
            Store::Bare { items, cap: _ } => items.push_back(item),
        }
        Ok(())
    }

    /// Removes and returns the oldest item, or `None` when empty.
    pub fn pop(&mut self) -> (r: Option<T>)
        requires
            old(self).wf(),
        ensures
            final(self).wf(),
            final(self).spec_cap() == old(self).spec_cap(),
            old(self)@.len() > 0 ==> {
                &&& r == Some(old(self)@[0])
                &&& final(self)@ == old(self)@.drop_first()
            },
            old(self)@.len() == 0 ==> {
                &&& r == None::<T>
                &&& final(self)@ == old(self)@
            },
    {
        match &mut self.store {
            Store::Slots(ring) => ring.read(),
            Store::Bare { items, cap: _ } => items.pop_front(),
        }
    }

    /// Drops every queued item, leaving the ring empty.
    pub fn clear(&mut self)
        requires
            old(self).wf(),
        ensures
            final(self).wf(),
            final(self).spec_cap() == old(self).spec_cap(),
            final(self)@ == Seq::<T>::empty(),
    {
        while self.pop().is_some()
            invariant
                self.wf(),
                self.spec_cap() == old(self).spec_cap(),
            ensures
                self@.len() == 0,
            decreases self@.len(),
        {
        }
    }
}

} // verus!
