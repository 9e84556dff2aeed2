use std::sync::atomic::{AtomicUsize, Ordering};
use std::sync::Arc;
use std::task::Waker;

use futures::task::{waker, ArcWake};

use lochan::wakers::WakerList;

struct CountingWaker(AtomicUsize);

impl ArcWake for CountingWaker {
    fn wake_by_ref(arc: &Arc<Self>) {
        arc.0.fetch_add(1, Ordering::SeqCst);
    }
}

fn counting_waker() -> (Waker, Arc<CountingWaker>) {
    let cw = Arc::new(CountingWaker(AtomicUsize::new(0)));
    (waker(cw.clone()), cw)
}

#[test]
fn removal_takes_exactly_the_entry_of_its_id() {
    let mut list = WakerList::new();
    let (w1, cw1) = counting_waker();
    let (w2, cw2) = counting_waker();
    let (w3, cw3) = counting_waker();
    let first = list.insert(w1);
    let second = list.insert(w2);
    let third = list.insert(w3);
    assert_eq!((first, second, third), (0, 1, 2));
    list.remove(first).unwrap().wake();
    assert_eq!(cw1.0.load(Ordering::SeqCst), 1);
    assert!(list.remove(first).is_none()); // it is gone
    assert_eq!(list.len(), 2);
    list.remove(third).unwrap().wake();
    assert_eq!(cw3.0.load(Ordering::SeqCst), 1);
    list.remove(second).unwrap().wake();
    assert_eq!(cw2.0.load(Ordering::SeqCst), 1);
    assert!(list.is_empty());
}

#[test]
fn ids_are_not_given_out_again() {
    let mut list = WakerList::new();
    let (w, _cw) = counting_waker();
    let first = list.insert(w.clone());
    let skipped = list.skip();
    assert!(list.remove(first).is_some());
    let next = list.insert(w.clone());
    assert_eq!(skipped, first + 1);
    assert_eq!(next, first + 2);
    assert!(list.remove(skipped).is_none());
}

#[test]
fn taking_all_keeps_the_order_of_registration() {
    let mut list = WakerList::new();
    let (w, _cw) = counting_waker();
    list.insert(w.clone());
    list.insert(w.clone());
    let taken = list.take_all();
    assert_eq!(taken.iter().map(|e| e.0).collect::<Vec<u64>>(), vec![0, 1]);
    assert!(list.is_empty());
    assert_eq!(list.insert(w), 2);
}
