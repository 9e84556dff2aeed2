//! Segmented (block) queue backing the unbounded flavor.
//!
//! A chain of fixed-size blocks. The producer writes into the last block, linking a fresh
//! block when it fills; the consumer reads from the first block, releasing it once it is
//! drained. Items stay in the block they were written to, and drained blocks are
//! returned to the allocator, so memory tracks live usage.

use std::collections::VecDeque;

use vstd::prelude::*;

verus! {

/// One block of at most `N` slots. Slots `[begin, values.len())` hold an item; slots
/// `[0, begin)` were read out; slots `[values.len(), N)` are untouched.
struct Block<T, const N: usize> {
    values: Vec<Option<T>>,
    begin: usize,
}

impl<T, const N: usize> Block<T, N> {
    spec fn wf(&self) -> bool {
        &&& self.begin <= self.values@.len() <= N
        &&& forall|i: int| self.begin <= i < self.values@.len() ==> self.values@[i] is Some
    }

    /// The unread items, oldest first.
    spec fn items(&self) -> Seq<T> {
        Seq::new(
            (self.values@.len() - self.begin) as nat,
            |i: int| self.values@[self.begin + i].unwrap(),
        )
    }

    /// Whether every slot has been written.
    spec fn sealed(&self) -> bool {
        self.values@.len() == N
    }

    fn fresh() -> (block: Self)
        ensures
            block.wf(),
            block.items() == Seq::<T>::empty(),
            block.values@.len() == 0,
    {
        Block { values: Vec::with_capacity(N), begin: 0 }
    }

    /// Whether a slot is left to write.
    fn has_room(&self) -> (b: bool)
        requires
            self.wf(),
        ensures
            b == !self.sealed(),
    {
        self.values.len() < N
    }

    /// Writes the next slot.
    fn write(&mut self, item: T)
        requires
            old(self).wf(),
            !old(self).sealed(),
        ensures
            final(self).wf(),
            final(self).items() == old(self).items().push(item),
    {
        self.values.push(Some(item));
        assert(self.items() =~= old(self).items().push(item));
    }

    /// Reads the oldest unread slot out.
    fn read(&mut self) -> (r: Option<T>)
        requires
            old(self).wf(),
        ensures
            final(self).wf(),
            final(self).sealed() == old(self).sealed(),
            old(self).items().len() > 0 ==> {
                &&& r == Some(old(self).items()[0])
                &&& final(self).items() == old(self).items().drop_first()
            },
            old(self).items().len() == 0 ==> {
                &&& r == None::<T>
                &&& *final(self) == *old(self)
            },
    {
        let begin: usize = self.begin;
        if begin < self.values.len() {
            let item = self.values[begin].take();
            self.begin = begin + 1;
            assert(self.items() =~= old(self).items().drop_first());
            item
        } else {
            None
        }
    }
}

/// An unbounded FIFO over a chain of blocks of `N` slots each: `head` is the block being
/// read, `rest` the blocks linked after it. The last of them is the block being written.
pub struct BlockList<T, const N: usize> {
    head: Block<T, N>,
    rest: VecDeque<Block<T, N>>,
    len: usize,
}

/// The unread items of a run of blocks, oldest first.
spec fn chain_items<T, const N: usize>(blocks: Seq<Block<T, N>>) -> Seq<T>
    decreases blocks.len(),
{
    if blocks.len() == 0 {
        Seq::empty()
    } else {
        chain_items(blocks.drop_last()) + blocks.last().items()
    }
}

proof fn lemma_chain_items_front<T, const N: usize>(blocks: Seq<Block<T, N>>)
    requires
        blocks.len() > 0,
    ensures
        chain_items(blocks) == blocks[0].items() + chain_items(blocks.drop_first()),
    decreases blocks.len(),
{
    if blocks.len() == 1 {
        assert(blocks.drop_last() =~= Seq::empty());
        assert(blocks.drop_first() =~= Seq::empty());
        assert(chain_items(blocks) =~= blocks[0].items() + chain_items(blocks.drop_first()));
    } else {
        lemma_chain_items_front(blocks.drop_last());
        assert(blocks.drop_first().drop_last() =~= blocks.drop_last().drop_first());
        assert(chain_items(blocks) =~= blocks[0].items() + chain_items(blocks.drop_first()));
    }
}

impl<T, const N: usize> View for BlockList<T, N> {
    type V = Seq<T>;

    /// The queued items, oldest first.
    closed spec fn view(&self) -> Seq<T> {
        self.head.items() + chain_items(self.rest@)
    }
}

impl<T, const N: usize> BlockList<T, N> {
    /// Every block but the last is completely written, every linked block holds an item,
    /// and `len` counts the unread items.
    pub closed spec fn wf(&self) -> bool {
        &&& N > 0
        &&& self.head.wf()
        &&& self.rest@.len() > 0 ==> self.head.sealed()
        &&& forall|i: int| 0 <= i < self.rest@.len() ==> (#[trigger] self.rest@[i]).wf()
        &&& forall|i: int|
            0 <= i < self.rest@.len() ==> (#[trigger] self.rest@[i]).items().len() > 0
        &&& forall|i: int| 0 <= i < self.rest@.len() - 1 ==> (#[trigger] self.rest@[i]).sealed()
        &&& self.len == self@.len()
    }

    /// Creates an empty list: one block, nothing written.
    pub fn new() -> (list: Self)
        requires
            N > 0,
        ensures
            list.wf(),
            list@ == Seq::<T>::empty(),
    {
        let list = BlockList { head: Block::fresh(), rest: VecDeque::new(), len: 0 };
        assert(list@ =~= Seq::<T>::empty());
        list
    }

    /// The number of queued items.
    pub fn len(&self) -> (n: usize)
        requires
            self.wf(),
        ensures
            n == self@.len(),
    {
        self.len
    }

    /// Whether no item is queued.
    pub fn is_empty(&self) -> (b: bool)
        requires
            self.wf(),
        ensures
            b == (self@.len() == 0),
    {
        self.len == 0
    }

    /// Appends an item, linking a fresh block when the last one is completely written.
    pub fn push(&mut self, item: T)
        requires
            old(self).wf(),
            old(self)@.len() < usize::MAX,
        ensures
            final(self).wf(),
            final(self)@ == old(self)@.push(item),
    {
        self.len = self.len + 1;
        match self.rest.pop_back() {
            Some(mut tail) => {
                let ghost before = old(self).rest@;
                assert(tail == before.last());
                if tail.has_room() {
                    tail.write(item);
                    self.rest.push_back(tail);
                    proof {
                        assert(self.rest@.drop_last() =~= before.drop_last());
                        assert(self@ =~= old(self)@.push(item));
                    }
                } else {
                    self.rest.push_back(tail);
                    assert(self.rest@ =~= before);
                    let mut fresh = Block::fresh();
                    fresh.write(item);
                    self.rest.push_back(fresh);
                    proof {
                        assert(self.rest@.drop_last() =~= before);
                        assert(self@ =~= old(self)@.push(item));
                    }
                }
            },
            None => {
                if self.head.has_room() {
                    self.head.write(item);
                    assert(self@ =~= old(self)@.push(item));
                } else {
                    let mut fresh = Block::fresh();
                    fresh.write(item);
                    self.rest.push_back(fresh);
                    assert(self.rest@.drop_last() =~= old(self).rest@);
                    assert(self@ =~= old(self)@.push(item));
                }
            },
        }
    }

    /// Removes and returns the oldest item, or `None` when empty. A drained first block is
    /// released as soon as a later block has to be read.
    pub fn pop(&mut self) -> (r: Option<T>)
        requires
            old(self).wf(),
        ensures
            final(self).wf(),
            old(self)@.len() > 0 ==> {
                &&& r == Some(old(self)@[0])
                &&& final(self)@ == old(self)@.drop_first()
            },
            old(self)@.len() == 0 ==> {
                &&& r == None::<T>
                &&& final(self)@ == old(self)@
            },
    {
        loop
            invariant
                self.wf(),
                self@ == old(self)@,
            decreases self.rest@.len(),
        {
            let ghost before = *self;
            match self.head.read() {
                Some(item) => {
                    self.len = self.len - 1;
                    assert(self@ =~= before@.drop_first());
                    return Some(item);
                },
                None => {
                    match self.rest.pop_front() {
                        Some(next) => {
                            self.head = next;
                            proof {
                                lemma_chain_items_front(before.rest@);
                                assert(self.rest@ =~= before.rest@.drop_first());
                                assert(self@ =~= before@);
                            }
                        },
                        None => {
                            return None;
                        },
                    }
                },
            }
        }
    }
}

} // verus!
