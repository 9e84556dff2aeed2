//! The shared FIFO storage backing every channel flavor.
//!
//! A [`Flavor`] is either a fixed [`Ring`] (bounded) or a segmented [`BlockList`]
//! (unbounded). The queue holds only the items, no wakers and no handle counts, so every
//! channel core shares it.

pub mod list;
pub mod ring;

use vstd::prelude::*;

use list::BlockList;
use ring::Ring;

verus! {

/// The number of slots in each block of an unbounded queue.
pub const BLOCK_LEN: usize = 32;

/// The storage backing a channel: a fixed ring (bounded) or a segmented block-list
/// (unbounded).
pub enum Flavor<T> {
    Bounded(Ring<T>),
    Unbounded(BlockList<T, BLOCK_LEN>),
}

impl<T> View for Flavor<T> {
    type V = Seq<T>;

    /// The queued items, oldest first.
    open spec fn view(&self) -> Seq<T> {
        match self {
            Flavor::Bounded(r) => r@,
            Flavor::Unbounded(l) => l@,
        }
    }
}

impl<T> Flavor<T> {
    pub open spec fn wf(&self) -> bool {
        match self {
            Flavor::Bounded(r) => r.wf(),
            Flavor::Unbounded(l) => l.wf(),
        }
    }

    /// The capacity, or `None` when unbounded.
    pub open spec fn spec_cap(&self) -> Option<nat> {
        match self {
            Flavor::Bounded(r) => Some(r.spec_cap()),
            Flavor::Unbounded(_) => None,
        }
    }

    /// A bounded flavor has room for at least one item and never holds more than its
    /// capacity, which can be counted in a `usize`.
    pub proof fn lemma_within_capacity(&self)
        requires
            self.wf(),
        ensures
            self.spec_cap() matches Some(c) ==> 0 < c <= usize::MAX && self@.len() <= c,
    {
        match self {
            Flavor::Bounded(r) => {
                r.lemma_within_capacity();
            },
            Flavor::Unbounded(_) => {},
        }
    }

    /// A bounded flavor holding at most `cap` items.
    pub fn bounded(cap: usize) -> (flavor: Self)
        requires
            cap > 0,
        ensures
            flavor.wf(),
            flavor.spec_cap() == Some(cap as nat),
            flavor@ == Seq::<T>::empty(),
    {
        Flavor::Bounded(Ring::with_capacity(cap))
    }

    /// An unbounded flavor that grows a block at a time.
    pub fn unbounded() -> (flavor: Self)
        ensures
            flavor.wf(),
            flavor.spec_cap() == None::<nat>,
            flavor@ == Seq::<T>::empty(),
    {
        Flavor::Unbounded(BlockList::new())
    }

    /// The number of queued items.
    pub fn len(&self) -> (n: usize)
        requires
            self.wf(),
        ensures
            n == self@.len(),
    {
        match self {
            Flavor::Bounded(r) => r.len(),
            Flavor::Unbounded(l) => l.len(),
        }
    }

    /// Whether no item is queued.
    pub fn is_empty(&self) -> (b: bool)
        requires
            self.wf(),
        ensures
            b == (self@.len() == 0),
    {
        match self {
            Flavor::Bounded(r) => r.is_empty(),
            Flavor::Unbounded(l) => l.is_empty(),
        }
    }

    /// The capacity, or `None` when unbounded.
    pub fn cap(&self) -> (c: Option<usize>)
        ensures
            match c {
                Some(n) => self.spec_cap() == Some(n as nat),
                None => self.spec_cap() == None::<nat>,
            },
    {
        match self {
            Flavor::Bounded(r) => Some(r.cap()),
            Flavor::Unbounded(_) => None,
        }
    }

    /// Whether the queue is at capacity. An unbounded queue never is.
    pub fn is_full(&self) -> (b: bool)
        requires
            self.wf(),
        ensures
            b == (self.spec_cap() == Some(self@.len())),
    {
        match self {
            Flavor::Bounded(r) => r.is_full(),
            Flavor::Unbounded(_) => false,
        }
    }

    /// Pushes, or hands the item back via `Err` when a bounded queue is full. Unbounded
    /// never fails.
    pub fn try_push(&mut self, item: T) -> (r: Result<(), T>)
        requires
            old(self).wf(),
            old(self).spec_cap() is None ==> old(self)@.len() < usize::MAX,
        ensures
            final(self).wf(),
            final(self).spec_cap() == old(self).spec_cap(),
            old(self).spec_cap() == Some(old(self)@.len()) ==> {
                &&& r == Err::<(), T>(item)
                &&& final(self)@ == old(self)@
            },
            old(self).spec_cap() != Some(old(self)@.len()) ==> {
                &&& r == Ok::<(), T>(())
                &&& final(self)@ == old(self)@.push(item)
            },
    {
        match self {
            Flavor::Bounded(r) => r.push(item),
            Flavor::Unbounded(l) => {
                l.push(item);
                Ok(())
            },
        }
    }

    /// Removes and returns the oldest item, or `None` when empty.
    pub fn pop(&mut self) -> (r: Option<T>)
        requires
            old(self).wf(),
        ensures
            final(self).wf(),
            final(self).spec_cap() == old(self).spec_cap(),
            old(self)@.len() > 0 ==> {
                &&& r == Some(old(self)@[0])
                &&& final(self)@ == old(self)@.drop_first()
            },
            old(self)@.len() == 0 ==> {
                &&& r == None::<T>
                &&& final(self)@ == old(self)@
            },
    {
        match self {
            Flavor::Bounded(r) => r.pop(),
            Flavor::Unbounded(l) => l.pop(),
        }
    }
}

} // verus!
