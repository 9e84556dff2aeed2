use std::cell::Cell;
use std::rc::Rc;
use std::sync::atomic::{AtomicUsize, Ordering};
use std::sync::Arc;
use std::task::{Poll, Waker};

use futures::task::{waker, ArcWake};

use lochan::effect::Effect;
use lochan::oneshot::{channel, Canceled, Inner, Receiver};
use lochan::step::Step;

struct CountingWaker(AtomicUsize);

impl ArcWake for CountingWaker {
    fn wake_by_ref(arc: &Arc<Self>) {
        arc.0.fetch_add(1, Ordering::SeqCst);
    }
}

fn counting_waker() -> (Waker, Arc<CountingWaker>) {
    let cw = Arc::new(CountingWaker(AtomicUsize::new(0)));
    (waker(cw.clone()), cw)
}

fn settle<T>(inner: &mut Inner<T>) {
    for effect in inner.take_effects() {
        match effect {
            Effect::Wake(w) => w.wake(),
            Effect::Discard(w) => drop(w),
        }
    }
}

/// Polls the receiver; `on_clone` runs when its waker is cloned for registration.
fn poll_with<T>(
    rx: &mut Receiver<T>,
    inner: &mut Inner<T>,
    w: &Waker,
    on_clone: impl FnOnce(&mut Inner<T>),
) -> Poll<Result<T, Canceled>> {
    let mut step = rx.poll(inner);
    settle(inner);
    if let Step::Register = step {
        on_clone(inner);
        rx.register(inner, w.clone());
        settle(inner);
        step = rx.recheck(inner);
        settle(inner);
    }
    match step {
        Step::Ready(value) => Poll::Ready(value),
        _ => Poll::Pending,
    }
}

fn poll_once<T>(rx: &mut Receiver<T>, inner: &mut Inner<T>, w: &Waker) -> Poll<Result<T, Canceled>> {
    poll_with(rx, inner, w, |_| {})
}

#[test]
fn send_then_recv() {
    let (mut inner, tx, mut rx) = channel::<u32>();
    assert_eq!(tx.send(&mut inner, 42), Ok(()));
    let (w, _cw) = counting_waker();
    assert_eq!(poll_once(&mut rx, &mut inner, &w), Poll::Ready(Ok(42)));
}

#[test]
fn oneshot_recv_parks_then_wakes_on_send() {
    let (mut inner, tx, mut rx) = channel::<u32>();
    let (w, cw) = counting_waker();
    assert!(poll_once(&mut rx, &mut inner, &w).is_pending());
    assert_eq!(cw.0.load(Ordering::SeqCst), 0);
    assert_eq!(tx.send(&mut inner, 7), Ok(()));
    settle(&mut inner);
    assert_eq!(cw.0.load(Ordering::SeqCst), 1);
    assert_eq!(poll_once(&mut rx, &mut inner, &w), Poll::Ready(Ok(7)));
}

#[test]
fn recv_canceled_when_sender_dropped() {
    let (mut inner, tx, mut rx) = channel::<u32>();
    tx.drop(&mut inner);
    let (w, _cw) = counting_waker();
    assert_eq!(poll_once(&mut rx, &mut inner, &w), Poll::Ready(Err(Canceled)));
}

#[test]
fn send_errors_when_receiver_dropped() {
    let (mut inner, tx, rx) = channel::<u32>();
    rx.drop(&mut inner);
    assert_eq!(tx.send(&mut inner, 9), Err(9));
}

#[test]
fn try_recv_lifecycle() {
    let (mut inner, tx, mut rx) = channel::<u32>();
    assert_eq!(rx.try_recv(&mut inner), Ok(None)); // not yet
    assert_eq!(tx.send(&mut inner, 5), Ok(()));
    assert_eq!(rx.try_recv(&mut inner), Ok(Some(5))); // got it
}

#[test]
fn try_recv_canceled_when_sender_dropped() {
    let (mut inner, tx, mut rx) = channel::<u32>();
    tx.drop(&mut inner);
    assert_eq!(rx.try_recv(&mut inner), Err(Canceled));
}

#[test]
fn tests_is_closed_after_receiver_drop() {
    let (mut inner, tx, rx) = channel::<u32>();
    assert!(!tx.is_closed(&inner));
    rx.drop(&mut inner);
    assert!(tx.is_closed(&inner));
}

#[test]
fn receiver_future_reports_terminated_after_ready() {
    let (mut inner, tx, mut rx) = channel::<u32>();
    assert_eq!(tx.send(&mut inner, 1), Ok(()));
    let (w, _cw) = counting_waker();
    assert!(!rx.is_terminated());
    let _ = poll_once(&mut rx, &mut inner, &w);
    assert!(rx.is_terminated());
}

#[derive(Debug)]
struct DropCounter(Rc<Cell<usize>>);

impl Drop for DropCounter {
    fn drop(&mut self) {
        self.0.set(self.0.get() + 1);
    }
}

#[test]
fn drop_releases_unreceived_value() {
    let count = Rc::new(Cell::new(0));
    let (mut inner, tx, rx) = channel::<DropCounter>();
    assert!(tx.send(&mut inner, DropCounter(count.clone())).is_ok());
    assert_eq!(count.get(), 0); // sent, not yet received
    drop(rx.drop(&mut inner)); // dropped without receiving: the value is released
    assert_eq!(count.get(), 1);
}

#[test]
fn dropping_the_channel_releases_an_unreceived_value() {
    let count = Rc::new(Cell::new(0));
    let (mut inner, tx, _rx) = channel::<DropCounter>();
    assert!(tx.send(&mut inner, DropCounter(count.clone())).is_ok());
    drop(inner);
    assert_eq!(count.get(), 1);
}

#[test]
fn nothing_more_comes_after_the_value() {
    let (mut inner, tx, mut rx) = channel::<u32>();
    assert_eq!(tx.send(&mut inner, 3), Ok(()));
    assert_eq!(rx.try_recv(&mut inner), Ok(Some(3)));
    assert_eq!(rx.try_recv(&mut inner), Ok(None)); // no cancellation either
    let (w, _cw) = counting_waker();
    assert!(poll_once(&mut rx, &mut inner, &w).is_pending());
    assert!(!inner.recv_waker_registered());
}

#[test]
fn the_cancellation_is_reported_once() {
    let (mut inner, tx, mut rx) = channel::<u32>();
    tx.drop(&mut inner);
    assert!(inner.sender_dropped());
    assert_eq!(rx.try_recv(&mut inner), Err(Canceled));
    assert_eq!(rx.try_recv(&mut inner), Ok(None));
    assert!(rx.is_terminated());
}

#[test]
fn try_iter_yields_the_value_once() {
    let (mut inner, tx, mut rx) = channel::<u32>();
    assert_eq!(rx.try_iter().next(&mut inner), None);
    assert_eq!(tx.send(&mut inner, 4), Ok(()));
    let mut iter = rx.try_iter();
    assert_eq!(iter.next(&mut inner), Some(4));
    assert_eq!(iter.next(&mut inner), None);
}

#[test]
fn try_iter_leaves_the_cancellation_for_a_later_poll() {
    let (mut inner, tx, mut rx) = channel::<u32>();
    tx.drop(&mut inner);
    assert_eq!(rx.try_iter().next(&mut inner), None);
    assert!(!rx.is_terminated());
    let (w, _cw) = counting_waker();
    assert_eq!(poll_once(&mut rx, &mut inner, &w), Poll::Ready(Err(Canceled)));
}

#[test]
fn dropping_the_sender_wakes_the_parked_receiver() {
    let (mut inner, tx, mut rx) = channel::<u32>();
    let (w, cw) = counting_waker();
    assert!(poll_once(&mut rx, &mut inner, &w).is_pending());
    assert!(inner.recv_waker_registered());
    tx.drop(&mut inner);
    settle(&mut inner);
    assert_eq!(cw.0.load(Ordering::SeqCst), 1);
    assert_eq!(Arc::strong_count(&cw), 2);
}

#[test]
fn a_value_sent_during_registration_is_not_missed() {
    let (mut inner, tx, mut rx) = channel::<u32>();
    let (w, _cw) = counting_waker();
    let res = poll_with(&mut rx, &mut inner, &w, |inner| {
        assert_eq!(tx.send(inner, 6), Ok(()));
    });
    assert_eq!(res, Poll::Ready(Ok(6)));
}

#[test]
fn a_cancellation_during_registration_is_not_missed() {
    let (mut inner, tx, mut rx) = channel::<u32>();
    let (w, _cw) = counting_waker();
    let res = poll_with(&mut rx, &mut inner, &w, |inner| tx.drop(inner));
    assert_eq!(res, Poll::Ready(Err(Canceled)));
}

#[test]
fn dropping_a_parked_receiver_releases_its_waker() {
    let (mut inner, tx, mut rx) = channel::<u32>();
    let (w, cw) = counting_waker();
    assert!(poll_once(&mut rx, &mut inner, &w).is_pending());
    assert_eq!(Arc::strong_count(&cw), 3);
    assert_eq!(rx.drop(&mut inner), None);
    settle(&mut inner);
    assert_eq!(Arc::strong_count(&cw), 2);
    assert!(inner.receiver_dropped());
    // A registration that comes later is not kept.
    inner.register_recv_waker(w.clone());
    assert!(!inner.recv_waker_registered());
    settle(&mut inner);
    assert_eq!(Arc::strong_count(&cw), 2);
    assert_eq!(tx.send(&mut inner, 1), Err(1));
    settle(&mut inner);
    assert_eq!(cw.0.load(Ordering::SeqCst), 0);
}

#[test]
fn canceled_says_what_went_wrong() {
    assert_eq!(Canceled.message(), "oneshot sender dropped without sending a value");
    assert_eq!(format!("{Canceled:?}"), "Canceled");
}
