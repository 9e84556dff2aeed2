use std::cell::{Cell, RefCell};
use std::rc::Rc;

use lochan::queue::list::BlockList;
use lochan::queue::ring::Ring;
use lochan::queue::{Flavor, BLOCK_LEN};

#[derive(Debug)]
struct DropCounter(Rc<Cell<usize>>);

impl Drop for DropCounter {
    fn drop(&mut self) {
        self.0.set(self.0.get() + 1);
    }
}

#[test]
fn push_pop_is_fifo() {
    let mut ring = Ring::with_capacity(3);
    ring.push(1).unwrap();
    ring.push(2).unwrap();
    assert_eq!(ring.pop(), Some(1));
    assert_eq!(ring.pop(), Some(2));
    assert_eq!(ring.pop(), None);
}

#[test]
fn push_reports_full_at_capacity() {
    let mut ring = Ring::with_capacity(2);
    ring.push(1).unwrap();
    ring.push(2).unwrap();
    assert_eq!(ring.push(3), Err(3));
}

#[test]
fn wraps_around_the_buffer() {
    let mut ring = Ring::with_capacity(2);
    ring.push(1).unwrap();
    ring.push(2).unwrap();
    assert_eq!(ring.pop(), Some(1)); // the head advances to the second slot
    ring.push(3).unwrap(); // the tail wraps to the first slot
    assert_eq!(ring.pop(), Some(2));
    assert_eq!(ring.pop(), Some(3));
    assert_eq!(ring.pop(), None);
}

#[test]
fn drop_releases_queued_items() {
    let count = Rc::new(Cell::new(0));
    {
        let mut ring = Ring::with_capacity(4);
        ring.push(DropCounter(count.clone())).unwrap();
        ring.push(DropCounter(count.clone())).unwrap();
        assert_eq!(count.get(), 0);
    }
    // Dropping the ring drops both still-queued items exactly once.
    assert_eq!(count.get(), 2);
}

#[test]
fn pop_then_drop_does_not_double_drop() {
    let count = Rc::new(Cell::new(0));
    let mut ring = Ring::with_capacity(4);
    ring.push(DropCounter(count.clone())).unwrap();
    ring.push(DropCounter(count.clone())).unwrap();
    drop(ring.pop()); // drops one
    assert_eq!(count.get(), 1);
    drop(ring); // drops the remaining one, not the already-popped slot
    assert_eq!(count.get(), 2);
}

#[test]
fn push_pop_within_one_block() {
    let mut list = BlockList::<u32, 4>::new();
    list.push(1);
    list.push(2);
    assert_eq!(list.pop(), Some(1));
    assert_eq!(list.pop(), Some(2));
    assert_eq!(list.pop(), None);
}

#[test]
fn push_pop_across_block_boundaries() {
    let mut list = BlockList::<u32, 2>::new();
    for i in 0..5 {
        list.push(i); // blocks of two: spills into a third one
    }
    for i in 0..5 {
        assert_eq!(list.pop(), Some(i));
    }
    assert_eq!(list.pop(), None);
}

#[test]
fn interleaved_push_pop_reclaims_blocks() {
    let mut list = BlockList::<u32, 2>::new();
    list.push(1);
    list.push(2);
    list.push(3); // crosses into a second block
    assert_eq!(list.pop(), Some(1));
    list.push(4);
    assert_eq!(list.pop(), Some(2)); // drains the first block
    assert_eq!(list.pop(), Some(3));
    assert_eq!(list.pop(), Some(4));
    assert_eq!(list.pop(), None);
}

#[test]
fn len_tracks_size() {
    let mut list = BlockList::<u32, 2>::new();
    assert!(list.is_empty());
    list.push(1);
    list.push(2);
    list.push(3);
    assert_eq!(list.len(), 3);
    list.pop();
    assert_eq!(list.len(), 2);
}

#[test]
fn drop_releases_queued_items_across_blocks() {
    let count = Rc::new(Cell::new(0));
    {
        let mut list = BlockList::<DropCounter, 2>::new();
        for _ in 0..5 {
            list.push(DropCounter(count.clone())); // three blocks, five items
        }
        list.pop(); // reads one out and drops it
        assert_eq!(count.get(), 1);
        // The list drops here, releasing the remaining four across the blocks.
    }
    assert_eq!(count.get(), 5);
}

#[test]
fn one_slot_blocks_keep_the_order() {
    let mut list = BlockList::<u32, 1>::new();
    for round in 0..4 {
        for i in 0..3 {
            list.push(round * 10 + i);
        }
        for i in 0..3 {
            assert_eq!(list.pop(), Some(round * 10 + i));
        }
        assert!(list.is_empty());
    }
    assert_eq!(list.len(), 0);
}

#[test]
fn ring_accessors_follow_the_contents() {
    let mut ring = Ring::with_capacity(2);
    assert_eq!(ring.cap(), 2);
    assert!(ring.is_empty());
    assert!(!ring.is_full());
    ring.push('a').unwrap();
    assert_eq!(ring.len(), 1);
    ring.push('b').unwrap();
    assert!(ring.is_full());
    ring.clear();
    assert!(ring.is_empty());
    assert_eq!(ring.cap(), 2);
    ring.push('c').unwrap();
    assert_eq!(ring.pop(), Some('c'));
}

#[test]
fn flavors_dispatch() {
    let mut bounded = Flavor::bounded(1);
    assert_eq!(bounded.cap(), Some(1));
    assert_eq!(bounded.try_push(7), Ok(()));
    assert!(bounded.is_full());
    assert_eq!(bounded.try_push(8), Err(8));
    assert_eq!(bounded.len(), 1);
    assert_eq!(bounded.pop(), Some(7));
    assert!(bounded.is_empty());
    assert_eq!(bounded.pop(), None);

    let mut unbounded = Flavor::unbounded();
    assert_eq!(unbounded.cap(), None);
    let total = 3 * BLOCK_LEN;
    for i in 0..total {
        assert_eq!(unbounded.try_push(i), Ok(()));
        assert!(!unbounded.is_full());
    }
    assert_eq!(unbounded.len(), total);
    for i in 0..total {
        assert_eq!(unbounded.pop(), Some(i));
    }
    assert!(unbounded.is_empty());
}

struct Named(u32, Rc<RefCell<Vec<u32>>>);

impl Drop for Named {
    fn drop(&mut self) {
        self.1.borrow_mut().push(self.0);
    }
}

#[test]
fn a_wrapped_ring_drops_its_items_oldest_first() {
    let order = Rc::new(RefCell::new(Vec::new()));
    let mut ring = Ring::with_capacity(3);
    for i in 1..4 {
        assert!(ring.push(Named(i, order.clone())).is_ok());
    }
    drop(ring.pop());
    drop(ring.pop());
    assert!(ring.push(Named(4, order.clone())).is_ok()); // wraps to the first slot
    assert!(ring.push(Named(5, order.clone())).is_ok());
    drop(ring);
    assert_eq!(*order.borrow(), vec![1, 2, 3, 4, 5]);
}

#[test]
fn a_list_drops_its_items_oldest_first() {
    let order = Rc::new(RefCell::new(Vec::new()));
    let mut list = BlockList::<Named, 2>::new();
    for i in 1..8 {
        list.push(Named(i, order.clone()));
    }
    drop(list.pop());
    drop(list);
    assert_eq!(*order.borrow(), vec![1, 2, 3, 4, 5, 6, 7]);
}

#[test]
fn zero_sized_items_take_any_capacity() {
    let mut ring = Ring::with_capacity(usize::MAX);
    assert_eq!(ring.cap(), usize::MAX);
    assert_eq!(ring.push(()), Ok(()));
    assert_eq!(ring.push(()), Ok(()));
    assert_eq!(ring.len(), 2);
    assert!(!ring.is_full());
    assert_eq!(ring.pop(), Some(()));
    assert_eq!(ring.pop(), Some(()));
    assert_eq!(ring.pop(), None);

    let mut small = Ring::with_capacity(1);
    assert_eq!(small.push(()), Ok(()));
    assert!(small.is_full());
    assert_eq!(small.push(()), Err(()));
}
