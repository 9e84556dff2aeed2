use std::cell::{Cell, RefCell};
use std::rc::Rc;
use std::sync::atomic::{AtomicUsize, Ordering};
use std::sync::{Arc, Mutex};
use std::task::{Poll, Waker};

use futures::task::{noop_waker, waker, ArcWake};

use lochan::effect::Effect;
use lochan::mpmc::{
    bounded, unbounded, Chan, Receiver, Recv, SendError, Sender, TakeStep, TryRecvError,
    TrySendError,
};
use lochan::step::{DropStep, Step};

struct CountingWaker(AtomicUsize);

impl ArcWake for CountingWaker {
    fn wake_by_ref(arc: &Arc<Self>) {
        arc.0.fetch_add(1, Ordering::SeqCst);
    }
}

fn counting_waker() -> (Waker, Arc<CountingWaker>) {
    let cw = Arc::new(CountingWaker(AtomicUsize::new(0)));
    (waker(cw.clone()), cw)
}

fn perform(effects: Vec<Effect>) {
    for effect in effects {
        match effect {
            Effect::Wake(w) => w.wake(),
            Effect::Discard(w) => drop(w),
        }
    }
}

fn settle<T>(chan: &mut Chan<T>) {
    perform(chan.take_effects());
}

fn send_now<T>(tx: &Sender<T>, chan: &mut Chan<T>, item: T) -> bool {
    let sent = tx.try_send(chan, item).is_ok();
    settle(chan);
    sent
}

fn recv_now<T>(rx: &Receiver<T>, chan: &mut Chan<T>) -> Result<T, TryRecvError> {
    loop {
        let step = rx.try_recv(chan);
        settle(chan);
        match step {
            Step::Ready(received) => return received,
            Step::Perform => {}
            _ => panic!("a receive is ready or has effects to perform"),
        }
    }
}

/// Ends the receiver, and gives the items that it leaves.
fn end<T>(rx: Receiver<T>, chan: &mut Chan<T>) -> Vec<T> {
    let mut items = Vec::new();
    let mut dropping = rx.drop(chan);
    settle(chan);
    loop {
        match dropping.step(chan) {
            DropStep::Perform => settle(chan),
            DropStep::Release(item) => items.push(item),
            DropStep::Done => return items,
        }
    }
}

/// Polls a `recv` future; `on_clone` runs when its waker is cloned for registration.
fn poll_recv_with<T>(
    fut: &mut Recv<'_, T>,
    chan: &mut Chan<T>,
    w: &Waker,
    on_clone: impl FnOnce(&mut Chan<T>),
) -> Poll<Option<T>> {
    let mut on_clone = Some(on_clone);
    let mut registered = false;
    loop {
        let step = if registered {
            fut.recheck(chan)
        } else {
            fut.poll(chan)
        };
        settle(chan);
        match step {
            Step::Ready(item) => {
                fut.complete();
                return Poll::Ready(item);
            }
            Step::Perform => {}
            Step::Register => {
                if let Some(f) = on_clone.take() {
                    f(chan);
                }
                fut.register(chan, w.clone());
                settle(chan);
                registered = true;
            }
            Step::Pending => return Poll::Pending,
            Step::Repoll => {
                w.wake_by_ref();
                return Poll::Pending;
            }
        }
    }
}

fn poll_recv<T>(fut: &mut Recv<'_, T>, chan: &mut Chan<T>, w: &Waker) -> Poll<Option<T>> {
    poll_recv_with(fut, chan, w, |_| {})
}

/// Polls the receiver as a stream; `on_clone` runs when its waker is cloned.
fn poll_next_with<T>(
    rx: &mut Receiver<T>,
    chan: &mut Chan<T>,
    w: &Waker,
    on_clone: impl FnOnce(&mut Chan<T>),
) -> Poll<Option<T>> {
    let mut on_clone = Some(on_clone);
    let mut registered = false;
    loop {
        let step = if registered {
            rx.recheck_next(chan)
        } else {
            rx.poll_next(chan)
        };
        settle(chan);
        match step {
            Step::Ready(item) => return Poll::Ready(item),
            Step::Perform => {}
            Step::Register => {
                if let Some(f) = on_clone.take() {
                    f(chan);
                }
                rx.register_next(chan, w.clone());
                settle(chan);
                registered = true;
            }
            Step::Pending | Step::Repoll => return Poll::Pending,
        }
    }
}

fn poll_next<T>(rx: &mut Receiver<T>, chan: &mut Chan<T>, w: &Waker) -> Poll<Option<T>> {
    poll_next_with(rx, chan, w, |_| {})
}

/// Polls a `send` future; `on_clone` runs when its waker is cloned for registration.
fn poll_send_with<T>(
    fut: &mut lochan::mpmc::Send<'_, T>,
    chan: &mut Chan<T>,
    w: &Waker,
    on_clone: impl FnOnce(&mut Chan<T>),
) -> Poll<Result<(), SendError<T>>> {
    let mut on_clone = Some(on_clone);
    let mut registered = false;
    loop {
        let step = if registered {
            fut.recheck(chan)
        } else {
            fut.poll(chan)
        };
        settle(chan);
        match step {
            Step::Ready(outcome) => return Poll::Ready(outcome),
            Step::Perform => {}
            Step::Register => {
                if let Some(f) = on_clone.take() {
                    f(chan);
                }
                fut.register(chan, w.clone());
                settle(chan);
                registered = true;
            }
            Step::Pending | Step::Repoll => return Poll::Pending,
        }
    }
}

fn poll_send<T>(
    fut: &mut lochan::mpmc::Send<'_, T>,
    chan: &mut Chan<T>,
    w: &Waker,
) -> Poll<Result<(), SendError<T>>> {
    poll_send_with(fut, chan, w, |_| {})
}

#[test]
fn tests_bounded_try_send_recv_is_fifo() {
    let (mut chan, tx, rx) = bounded::<u32>(4);
    assert!(tx.try_send(&mut chan, 1).is_ok());
    assert!(tx.try_send(&mut chan, 2).is_ok());
    assert_eq!(recv_now(&rx, &mut chan), Ok(1));
    assert_eq!(recv_now(&rx, &mut chan), Ok(2));
    assert_eq!(recv_now(&rx, &mut chan), Err(TryRecvError::Empty));
}

#[test]
fn tests_bounded_try_send_reports_full() {
    let (mut chan, tx, _rx) = bounded::<u32>(1);
    assert!(tx.try_send(&mut chan, 1).is_ok());
    assert!(matches!(tx.try_send(&mut chan, 2), Err(TrySendError::Full(2))));
}

#[test]
fn tests_try_send_after_receiver_drop_is_closed() {
    let (mut chan, tx, rx) = bounded::<u32>(1);
    end(rx, &mut chan);
    assert!(matches!(tx.try_send(&mut chan, 9), Err(TrySendError::Closed(9))));
}

#[test]
fn tests_try_recv_drains_queue_before_reporting_disconnected() {
    let (mut chan, tx, rx) = bounded::<u32>(4);
    assert!(tx.try_send(&mut chan, 1).is_ok());
    tx.drop(&mut chan);
    assert_eq!(recv_now(&rx, &mut chan), Ok(1));
    assert_eq!(recv_now(&rx, &mut chan), Err(TryRecvError::Disconnected));
}

#[test]
fn tests_bounded_reports_len_capacity_and_fullness() {
    let (mut chan, tx, rx) = bounded::<u32>(2);
    assert_eq!(tx.capacity(&chan), Some(2));
    assert!(tx.is_empty(&chan));
    assert!(!tx.is_closed(&chan));
    assert!(tx.try_send(&mut chan, 1).is_ok());
    assert_eq!(tx.len(&chan), 1);
    assert!(!tx.is_full(&chan));
    assert!(tx.try_send(&mut chan, 2).is_ok());
    assert!(tx.is_full(&chan));
    assert_eq!(recv_now(&rx, &mut chan), Ok(1));
    assert!(!tx.is_full(&chan));
}

#[test]
fn tests_cloning_a_sender_tracks_live_producers() {
    let (mut chan, tx, rx) = bounded::<u32>(1);
    let tx2 = tx.clone(&mut chan);
    tx.drop(&mut chan); // one producer remains: still open
    assert!(tx2.try_send(&mut chan, 7).is_ok());
    tx2.drop(&mut chan); // the last producer is gone
    assert_eq!(recv_now(&rx, &mut chan), Ok(7));
    assert_eq!(recv_now(&rx, &mut chan), Err(TryRecvError::Disconnected));
}

#[test]
fn tests_unbounded_try_send_recv_is_fifo_across_blocks() {
    let (mut chan, tx, rx) = unbounded::<u32>();
    for i in 0..100 {
        assert!(tx.try_send(&mut chan, i).is_ok()); // never full
    }
    for i in 0..100 {
        assert_eq!(recv_now(&rx, &mut chan), Ok(i));
    }
    assert_eq!(recv_now(&rx, &mut chan), Err(TryRecvError::Empty));
}

#[test]
fn tests_unbounded_has_no_capacity_and_is_never_full() {
    let (chan, tx, _rx) = unbounded::<u32>();
    assert_eq!(tx.capacity(&chan), None);
    assert!(!tx.is_full(&chan));
}

#[test]
fn tests_unbounded_try_send_after_receiver_drop_is_closed() {
    let (mut chan, tx, rx) = unbounded::<u32>();
    end(rx, &mut chan);
    assert!(matches!(tx.try_send(&mut chan, 1), Err(TrySendError::Closed(1))));
}

#[test]
fn tests_unbounded_drains_queue_before_reporting_disconnected() {
    let (mut chan, tx, rx) = unbounded::<u32>();
    assert!(tx.try_send(&mut chan, 1).is_ok());
    tx.drop(&mut chan);
    assert_eq!(recv_now(&rx, &mut chan), Ok(1));
    assert_eq!(recv_now(&rx, &mut chan), Err(TryRecvError::Disconnected));
}

#[test]
fn tests_recv_parks_then_wakes_on_send() {
    let (mut chan, tx, rx) = bounded::<u32>(1);
    let (w, cw) = counting_waker();
    let mut fut = rx.recv();
    assert!(poll_recv(&mut fut, &mut chan, &w).is_pending()); // empty: parks
    assert_eq!(cw.0.load(Ordering::SeqCst), 0);
    assert!(send_now(&tx, &mut chan, 5)); // wakes the parked recv
    assert_eq!(cw.0.load(Ordering::SeqCst), 1);
    assert_eq!(poll_recv(&mut fut, &mut chan, &w), Poll::Ready(Some(5)));
}

#[test]
fn tests_recv_ready_when_item_available() {
    let (mut chan, tx, rx) = bounded::<u32>(1);
    assert!(send_now(&tx, &mut chan, 9));
    let (w, _cw) = counting_waker();
    let mut fut = rx.recv();
    assert_eq!(poll_recv(&mut fut, &mut chan, &w), Poll::Ready(Some(9)));
}

#[test]
fn tests_recv_returns_none_when_disconnected() {
    let (mut chan, tx, rx) = bounded::<u32>(1);
    tx.drop(&mut chan);
    let (w, _cw) = counting_waker();
    let mut fut = rx.recv();
    assert_eq!(poll_recv(&mut fut, &mut chan, &w), Poll::Ready(None));
}

#[test]
fn tests_recv_future_reports_terminated_after_ready() {
    let (mut chan, tx, rx) = bounded::<u32>(1);
    assert!(send_now(&tx, &mut chan, 1));
    let (w, _cw) = counting_waker();
    let mut fut = rx.recv();
    assert!(!fut.is_terminated());
    let _ = poll_recv(&mut fut, &mut chan, &w);
    assert!(fut.is_terminated());
}

#[test]
fn tests_send_ready_when_room() {
    let (mut chan, tx, rx) = bounded::<u32>(2);
    let (w, _cw) = counting_waker();
    let mut fut = tx.send(7);
    assert!(matches!(poll_send(&mut fut, &mut chan, &w), Poll::Ready(Ok(()))));
    assert_eq!(recv_now(&rx, &mut chan), Ok(7));
}

#[test]
fn tests_send_parks_when_full_then_wakes_on_recv() {
    let (mut chan, tx, rx) = bounded::<u32>(1);
    assert!(send_now(&tx, &mut chan, 1)); // fill
    let (w, cw) = counting_waker();
    let mut fut = tx.send(2);
    assert!(poll_send(&mut fut, &mut chan, &w).is_pending()); // full: parks
    assert_eq!(cw.0.load(Ordering::SeqCst), 0);
    assert_eq!(recv_now(&rx, &mut chan), Ok(1)); // frees a slot: wakes the parked send
    assert_eq!(cw.0.load(Ordering::SeqCst), 1);
    assert!(matches!(poll_send(&mut fut, &mut chan, &w), Poll::Ready(Ok(()))));
    assert_eq!(recv_now(&rx, &mut chan), Ok(2));
}

#[test]
fn tests_send_returns_err_when_receiver_gone() {
    let (mut chan, tx, rx) = bounded::<u32>(1);
    end(rx, &mut chan);
    let (w, _cw) = counting_waker();
    let mut fut = tx.send(3);
    match poll_send(&mut fut, &mut chan, &w) {
        Poll::Ready(Err(e)) => assert_eq!(e.into_inner(), 3),
        _ => panic!("expected a SendError"),
    }
}

#[test]
fn tests_unbounded_send_is_immediate() {
    let (mut chan, tx, rx) = unbounded::<u32>();
    let (w, _cw) = counting_waker();
    let mut fut = tx.send(8);
    assert!(matches!(poll_send(&mut fut, &mut chan, &w), Poll::Ready(Ok(()))));
    assert_eq!(recv_now(&rx, &mut chan), Ok(8));
}

#[test]
fn tests_send_future_reports_terminated_after_ready() {
    let (mut chan, tx, rx) = bounded::<u32>(2);
    let (w, _cw) = counting_waker();
    let mut fut = tx.send(1);
    assert!(!fut.is_terminated());
    let _ = poll_send(&mut fut, &mut chan, &w);
    assert!(fut.is_terminated());
    let _ = recv_now(&rx, &mut chan);
}

#[test]
fn tests_dropping_a_parked_send_unregisters_its_waker() {
    let (mut chan, tx, rx) = bounded::<u32>(1);
    assert!(send_now(&tx, &mut chan, 0)); // fill
    let (w, cw) = counting_waker();
    let mut fut = tx.send(1);
    assert!(poll_send(&mut fut, &mut chan, &w).is_pending()); // park: registers the waker
    assert_eq!(fut.drop(&mut chan), Some(1)); // the waker is unregistered
    settle(&mut chan);
    assert_eq!(recv_now(&rx, &mut chan), Ok(0)); // frees a slot, with no waker to wake
    assert_eq!(cw.0.load(Ordering::SeqCst), 0);
}

#[test]
fn tests_multiple_parked_sends_all_wake_on_recv() {
    let (mut chan, tx, rx) = bounded::<u32>(1);
    assert!(send_now(&tx, &mut chan, 0)); // fill
    let tx2 = tx.clone(&mut chan);
    let (w1, cw1) = counting_waker();
    let (w2, cw2) = counting_waker();
    let mut f1 = tx.send(1);
    let mut f2 = tx2.send(2);
    assert!(poll_send(&mut f1, &mut chan, &w1).is_pending());
    assert!(poll_send(&mut f2, &mut chan, &w2).is_pending());
    assert!(recv_now(&rx, &mut chan).is_ok()); // free a slot: wakes both parked sends
    assert_eq!(cw1.0.load(Ordering::SeqCst), 1);
    assert_eq!(cw2.0.load(Ordering::SeqCst), 1);
    assert!(matches!(poll_send(&mut f1, &mut chan, &w1), Poll::Ready(Ok(()))));
    assert!(poll_send(&mut f2, &mut chan, &w2).is_pending());
}

#[test]
fn tests_completed_send_releases_its_waker() {
    let (mut chan, tx, rx) = bounded::<u32>(1);
    assert!(send_now(&tx, &mut chan, 0)); // fill
    let (w, cw) = counting_waker();
    let mut fut = tx.send(1);
    assert!(poll_send(&mut fut, &mut chan, &w).is_pending()); // park: stores a waker clone
    assert!(recv_now(&rx, &mut chan).is_ok()); // free a slot: wakes the parked send
    assert!(matches!(poll_send(&mut fut, &mut chan, &w), Poll::Ready(Ok(()))));
    // The completed future released its stored waker clone: only `cw` and `w` hold one.
    assert_eq!(Arc::strong_count(&cw), 2);
}

#[test]
fn tests_send_rechecks_readiness_after_registration() {
    let (mut chan, tx, _rx) = bounded::<u32>(1);
    assert!(chan.try_push(0).is_ok()); // fill
    let (w, _cw) = counting_waker();
    let mut fut = tx.send(1);
    // Cloning the waker frees a slot: the recheck completes the send instead of parking.
    let res = poll_send_with(&mut fut, &mut chan, &w, |chan| {
        chan.pop();
    });
    assert!(matches!(res, Poll::Ready(Ok(()))));
    assert_eq!(chan.pop(), Some(1));
    assert_eq!(chan.send_wakers_len(), 0);
}

#[test]
fn tests_send_keeps_message_across_a_panicking_waker_clone() {
    let (mut chan, tx, rx) = bounded::<u32>(1);
    assert!(send_now(&tx, &mut chan, 0)); // fill
    let mut fut = tx.send(7);
    // Full: the send asks for a waker, whose clone fails. The message stays in the future.
    assert!(matches!(fut.poll(&mut chan), Step::Register));
    // Polled again with another waker, it parks normally.
    let (w, _cw) = counting_waker();
    assert!(poll_send(&mut fut, &mut chan, &w).is_pending());
    // Free a slot: the send completes and delivers the same message.
    assert_eq!(recv_now(&rx, &mut chan), Ok(0));
    assert!(matches!(poll_send(&mut fut, &mut chan, &w), Poll::Ready(Ok(()))));
    assert_eq!(recv_now(&rx, &mut chan), Ok(7));
}

#[test]
fn tests_try_send_error_methods() {
    let full = TrySendError::Full(7u32);
    assert!(full.is_full());
    assert!(!full.is_closed());
    assert_eq!(full.message(), "sending on a full channel");
    assert_eq!(full.debug_name(), "Full(..)");
    assert_eq!(full.into_inner(), 7);

    let closed = TrySendError::Closed(9u32);
    assert!(closed.is_closed());
    assert!(!closed.is_full());
    assert_eq!(closed.message(), "sending on a closed channel");
    assert_eq!(closed.debug_name(), "Closed(..)");
    assert_eq!(closed.into_inner(), 9);
}

#[test]
fn tests_try_recv_error_methods() {
    let empty = TryRecvError::Empty;
    assert!(empty.is_empty());
    assert!(!empty.is_disconnected());
    assert_eq!(empty.as_str(), "receiving on an empty channel");
    assert_eq!(format!("{empty:?}"), "Empty");

    let disconnected = TryRecvError::Disconnected;
    assert!(disconnected.is_disconnected());
    assert!(!disconnected.is_empty());
    assert_eq!(
        disconnected.as_str(),
        "receiving on an empty and disconnected channel"
    );
    assert_eq!(format!("{disconnected:?}"), "Disconnected");
}

#[test]
fn tests_send_error_methods() {
    let (mut chan, tx, rx) = bounded::<u32>(1);
    end(rx, &mut chan);
    let (w, _cw) = counting_waker();
    let mut fut = tx.send(5);
    match poll_send(&mut fut, &mut chan, &w) {
        Poll::Ready(Err(e)) => {
            assert_eq!(e.message(), "sending on a closed channel");
            assert_eq!(e.debug_name(), "SendError(..)");
            assert_eq!(e.into_inner(), 5);
        }
        _ => panic!("expected a SendError"),
    }
}

#[test]
fn tests_accessors_cover_both_flavors() {
    // Unbounded: the accessors of both handles.
    let (mut chan, tx, rx) = unbounded::<u32>();
    assert!(tx.is_empty(&chan) && rx.is_empty(&chan));
    assert_eq!(tx.len(&chan), 0);
    assert_eq!(rx.len(&chan), 0);
    assert!(tx.try_send(&mut chan, 1).is_ok());
    assert_eq!(tx.len(&chan), 1);
    assert_eq!(rx.len(&chan), 1);
    assert!(!tx.is_empty(&chan) && !rx.is_empty(&chan));
    assert_eq!(recv_now(&rx, &mut chan), Ok(1));

    // Bounded: the accessors of the receiver.
    let (mut chan, tx, rx) = bounded::<u32>(2);
    assert!(rx.is_empty(&chan));
    assert_eq!(rx.len(&chan), 0);
    assert!(tx.try_send(&mut chan, 1).is_ok());
    assert_eq!(rx.len(&chan), 1);
    assert!(!rx.is_empty(&chan));
    assert_eq!(recv_now(&rx, &mut chan), Ok(1));
}

#[test]
fn tests_stream_collects_queued_items_until_disconnect() {
    let (mut chan, tx, mut rx) = unbounded::<u32>();
    assert!(send_now(&tx, &mut chan, 1));
    assert!(send_now(&tx, &mut chan, 2));
    assert!(send_now(&tx, &mut chan, 3));
    tx.drop(&mut chan); // disconnect: the stream ends once drained
    let (w, _cw) = counting_waker();
    let mut collected = Vec::new();
    while let Poll::Ready(Some(item)) = poll_next(&mut rx, &mut chan, &w) {
        collected.push(item);
    }
    assert_eq!(collected, vec![1, 2, 3]);
    assert_eq!(poll_next(&mut rx, &mut chan, &w), Poll::Ready(None));
}

#[test]
fn tests_fused_stream_terminates_once_drained_and_disconnected() {
    let (mut chan, tx, rx) = unbounded::<u32>();
    assert!(send_now(&tx, &mut chan, 1));
    tx.drop(&mut chan);
    assert!(!rx.is_terminated(&chan)); // an item is still queued
    assert_eq!(recv_now(&rx, &mut chan), Ok(1));
    assert!(rx.is_terminated(&chan)); // drained and every sender gone
}

#[test]
fn tests_try_iter_drains_ready_items_without_blocking() {
    let (mut chan, tx, rx) = unbounded::<u32>();
    assert!(tx.try_send(&mut chan, 1).is_ok());
    assert!(tx.try_send(&mut chan, 2).is_ok());
    let mut drained = Vec::new();
    let mut iter = rx.try_iter();
    while let Step::Ready(Some(item)) = iter.next(&mut chan) {
        drained.push(item);
    }
    assert_eq!(drained, vec![1, 2]);
    // It stops at the empty queue rather than waiting; the receiver stays usable.
    assert_eq!(recv_now(&rx, &mut chan), Err(TryRecvError::Empty));
    assert!(tx.try_send(&mut chan, 3).is_ok());
    assert_eq!(recv_now(&rx, &mut chan), Ok(3));
}

#[test]
fn is_closed_after_last_receiver_drop() {
    let (mut chan, tx, rx) = bounded::<u32>(1);
    assert!(!tx.is_closed(&chan));
    end(rx, &mut chan);
    assert!(tx.is_closed(&chan));
}

#[test]
fn cloning_a_receiver_keeps_the_channel_open_until_the_last_drops() {
    let (mut chan, tx, rx) = bounded::<u32>(2);
    let rx2 = rx.clone(&mut chan);
    end(rx, &mut chan); // one consumer remains: still open for sends
    assert!(!tx.is_closed(&chan));
    assert!(tx.try_send(&mut chan, 7).is_ok());
    assert_eq!(recv_now(&rx2, &mut chan), Ok(7));
    end(rx2, &mut chan); // the last consumer is gone: closed
    assert!(tx.is_closed(&chan));
    assert!(matches!(tx.try_send(&mut chan, 8), Err(TrySendError::Closed(8))));
}

#[test]
fn sender_sees_closed_only_after_the_last_receiver_drops() {
    let (mut chan, tx, rx) = unbounded::<u32>();
    let rx2 = rx.clone(&mut chan);
    end(rx, &mut chan);
    // One receiver is still alive: a send succeeds.
    assert!(tx.try_send(&mut chan, 1).is_ok());
    assert!(!tx.is_closed(&chan));
    end(rx2, &mut chan); // now the last receiver is gone
    assert!(tx.is_closed(&chan));
    assert!(matches!(tx.try_send(&mut chan, 2), Err(TrySendError::Closed(2))));
}

#[test]
fn two_receivers_split_the_queued_items() {
    let (mut chan, tx, rx) = unbounded::<u32>();
    let rx2 = rx.clone(&mut chan);
    assert!(tx.try_send(&mut chan, 1).is_ok());
    assert!(tx.try_send(&mut chan, 2).is_ok());
    // Either consumer may pop; each item is delivered exactly once, in order.
    assert_eq!(recv_now(&rx, &mut chan), Ok(1));
    assert_eq!(recv_now(&rx2, &mut chan), Ok(2));
    assert_eq!(recv_now(&rx, &mut chan), Err(TryRecvError::Empty));
    assert_eq!(recv_now(&rx2, &mut chan), Err(TryRecvError::Empty));
}

#[test]
fn two_parked_receivers_one_send_wakes_both_one_gets_the_item() {
    let (mut chan, tx, rx) = bounded::<u32>(1);
    let rx2 = rx.clone(&mut chan);
    let (w1, cw1) = counting_waker();
    let (w2, cw2) = counting_waker();
    let mut f1 = rx.recv();
    let mut f2 = rx2.recv();
    assert!(poll_recv(&mut f1, &mut chan, &w1).is_pending()); // both empty: both park
    assert!(poll_recv(&mut f2, &mut chan, &w2).is_pending());
    assert_eq!(cw1.0.load(Ordering::SeqCst), 0);
    assert_eq!(cw2.0.load(Ordering::SeqCst), 0);

    assert!(send_now(&tx, &mut chan, 42)); // one item wakes both parked receivers
    assert_eq!(cw1.0.load(Ordering::SeqCst), 1);
    assert_eq!(cw2.0.load(Ordering::SeqCst), 1);

    // The first to poll again gets the single item; the second parks again.
    assert_eq!(poll_recv(&mut f1, &mut chan, &w1), Poll::Ready(Some(42)));
    assert!(poll_recv(&mut f2, &mut chan, &w2).is_pending());

    // A second item then resolves the still-parked receiver.
    assert!(send_now(&tx, &mut chan, 43));
    assert_eq!(cw2.0.load(Ordering::SeqCst), 2);
    assert_eq!(poll_recv(&mut f2, &mut chan, &w2), Poll::Ready(Some(43)));
}

#[test]
fn dropping_a_parked_recv_unregisters_its_waker() {
    let (mut chan, tx, rx) = bounded::<u32>(1);
    let (w, cw) = counting_waker();
    let mut fut = rx.recv();
    assert!(poll_recv(&mut fut, &mut chan, &w).is_pending()); // park: registers the waker
    fut.drop(&mut chan); // the waker is unregistered
    settle(&mut chan);
    assert!(send_now(&tx, &mut chan, 1)); // finds no waker to wake
    assert_eq!(cw.0.load(Ordering::SeqCst), 0);
}

#[test]
fn re_polling_a_parked_recv_replaces_its_waker() {
    let (mut chan, tx, rx) = unbounded::<u32>();
    let (w, cw) = counting_waker();
    let mut fut = rx.recv();
    assert!(poll_recv(&mut fut, &mut chan, &w).is_pending()); // parks
    assert!(poll_recv(&mut fut, &mut chan, &w).is_pending()); // still empty: parks again
    assert_eq!(chan.recv_wakers_len(), 1);
    // Exactly one registration remains, so a single send wakes exactly once.
    assert!(send_now(&tx, &mut chan, 7));
    assert_eq!(cw.0.load(Ordering::SeqCst), 1);
    assert_eq!(poll_recv(&mut fut, &mut chan, &w), Poll::Ready(Some(7)));
}

#[test]
fn parked_send_wakes_with_closed_only_after_last_receiver_drops() {
    let (mut chan, tx, rx) = bounded::<u32>(1);
    let rx2 = rx.clone(&mut chan);
    assert!(send_now(&tx, &mut chan, 0)); // fill
    let (w, cw) = counting_waker();
    let mut fut = tx.send(1);
    assert!(poll_send(&mut fut, &mut chan, &w).is_pending()); // full: parks
    end(rx, &mut chan); // one receiver remains: still open, the parked send untouched
    settle(&mut chan);
    assert_eq!(cw.0.load(Ordering::SeqCst), 0);
    assert!(poll_send(&mut fut, &mut chan, &w).is_pending()); // still full, still open
    end(rx2, &mut chan); // last receiver gone: wakes the parked send to observe the close
    settle(&mut chan);
    assert_eq!(cw.0.load(Ordering::SeqCst), 1);
    match poll_send(&mut fut, &mut chan, &w) {
        Poll::Ready(Err(e)) => assert_eq!(e.into_inner(), 1),
        _ => panic!("expected a SendError"),
    }
}

#[test]
fn completed_recv_releases_its_waker() {
    let (mut chan, tx, rx) = bounded::<u32>(1);
    let (w, cw) = counting_waker();
    let mut fut = rx.recv();
    assert!(poll_recv(&mut fut, &mut chan, &w).is_pending()); // park: stores a waker clone
    assert_eq!(Arc::strong_count(&cw), 3); // cw, w and the registered clone
    assert!(send_now(&tx, &mut chan, 1)); // wakes the parked recv
    assert_eq!(poll_recv(&mut fut, &mut chan, &w), Poll::Ready(Some(1))); // completes
    // The completed future released its stored waker clone: only `cw` and `w` hold one.
    assert_eq!(Arc::strong_count(&cw), 2);
}

/// A waker whose callbacks use the channel again. It fails if the channel is still held.
struct Reentrant {
    chan: Arc<Mutex<Chan<u32>>>,
    sends: bool,
    on_drop: bool,
}

impl Reentrant {
    fn enter(&self) {
        let mut chan = self.chan.try_lock().unwrap();
        if self.sends {
            chan.add_send_waker(noop_waker());
        } else {
            chan.add_recv_waker(noop_waker());
        }
    }
}

impl ArcWake for Reentrant {
    fn wake_by_ref(arc: &Arc<Self>) {
        arc.enter();
    }
}

impl Drop for Reentrant {
    fn drop(&mut self) {
        if self.on_drop {
            self.enter();
        }
    }
}

#[test]
fn tests_send_waker_ops_run_vtable_outside_borrow() {
    let chan = Arc::new(Mutex::new(Chan::<u32>::bounded(1)));
    let inner = Reentrant { chan: chan.clone(), sends: true, on_drop: true };
    let id = chan.lock().unwrap().add_send_waker(waker(Arc::new(inner)));
    chan.lock().unwrap().remove_send_waker(id);
    assert_eq!(chan.lock().unwrap().send_wakers_len(), 0);
    let due = chan.lock().unwrap().take_effects();
    perform(due); // the drop registers another waker
    assert_eq!(chan.lock().unwrap().send_wakers_len(), 1);
}

#[test]
fn recv_waker_ops_run_vtable_outside_borrow() {
    let chan = Arc::new(Mutex::new(Chan::<u32>::bounded(1)));
    let inner = Reentrant { chan: chan.clone(), sends: false, on_drop: true };
    let id = chan.lock().unwrap().add_recv_waker(waker(Arc::new(inner)));
    chan.lock().unwrap().remove_recv_waker(id);
    assert_eq!(chan.lock().unwrap().recv_wakers_len(), 0);
    let due = chan.lock().unwrap().take_effects();
    perform(due); // the drop registers another waker
    assert_eq!(chan.lock().unwrap().recv_wakers_len(), 1);
}

#[test]
fn wake_senders_releases_the_borrow_before_a_reentrant_wake() {
    let chan = Arc::new(Mutex::new(Chan::<u32>::bounded(1)));
    let inner = Reentrant { chan: chan.clone(), sends: true, on_drop: false };
    chan.lock().unwrap().add_send_waker(waker(Arc::new(inner)));
    chan.lock().unwrap().wake_senders();
    let due = chan.lock().unwrap().take_effects();
    assert_eq!(due.len(), 1);
    perform(due); // the wake registers another waker
    assert_eq!(chan.lock().unwrap().send_wakers_len(), 1);
}

#[test]
fn wake_receivers_releases_the_borrow_before_a_reentrant_wake() {
    let chan = Arc::new(Mutex::new(Chan::<u32>::bounded(1)));
    let inner = Reentrant { chan: chan.clone(), sends: false, on_drop: false };
    chan.lock().unwrap().add_recv_waker(waker(Arc::new(inner)));
    chan.lock().unwrap().wake_receivers();
    let due = chan.lock().unwrap().take_effects();
    assert_eq!(due.len(), 1);
    perform(due); // the wake registers another waker
    assert_eq!(chan.lock().unwrap().recv_wakers_len(), 1);
}

#[test]
fn tests_dropping_a_pending_recv_clears_its_waker() {
    let (mut chan, _tx, rx) = bounded::<u32>(1);
    let (w, cw) = counting_waker();
    let mut fut = rx.recv();
    assert!(poll_recv(&mut fut, &mut chan, &w).is_pending()); // registers a clone
    assert_eq!(Arc::strong_count(&cw), 3); // cw, w and the registered clone
    fut.drop(&mut chan); // clears the registered waker
    settle(&mut chan);
    assert_eq!(Arc::strong_count(&cw), 2); // back to cw and w
}

#[test]
fn recv_rechecks_readiness_after_registration() {
    let (mut chan, _tx, rx) = bounded::<u32>(2);
    let (w, _cw) = counting_waker();
    let mut fut = rx.recv();
    // Cloning the waker pushes an item: the recheck completes the recv instead of parking.
    let res = poll_recv_with(&mut fut, &mut chan, &w, |chan| {
        assert!(chan.try_push(99).is_ok());
    });
    assert!(matches!(res, Poll::Ready(Some(99))));
}

struct Payload(Option<(Rc<RefCell<Chan<Payload>>>, Sender<Payload>)>);

impl Drop for Payload {
    fn drop(&mut self) {
        if let Some((chan, tx)) = &self.0 {
            // Borrows the channel, which fails if it is still held.
            assert!(!tx.is_full(&chan.borrow()));
        }
    }
}

#[test]
fn tests_drain_runs_payload_drop_outside_flavor_borrow() {
    let (chan, tx, rx) = bounded::<Payload>(4);
    let chan = Rc::new(RefCell::new(chan));
    let tx2 = tx.clone(&mut chan.borrow_mut());
    let first = Payload(Some((chan.clone(), tx2)));
    assert!(tx.try_send(&mut chan.borrow_mut(), first).is_ok());
    assert!(tx.try_send(&mut chan.borrow_mut(), Payload(None)).is_ok());
    // Dropping the last receiver hands the items out one by one; each payload is dropped
    // while the channel is released.
    let mut dropping = rx.drop(&mut chan.borrow_mut());
    let mut released = 0;
    loop {
        let step = dropping.step(&mut chan.borrow_mut());
        match step {
            DropStep::Perform => settle(&mut chan.borrow_mut()),
            DropStep::Release(item) => {
                released += 1;
                // The destructor sees the items that are still queued.
                assert_eq!(tx.len(&chan.borrow()), 2 - released);
                drop(item);
            }
            DropStep::Done => break,
        }
    }
    assert_eq!(released, 2);
    assert!(tx.is_empty(&chan.borrow()));
}

#[test]
fn tests_send_rechecks_closure_after_registration() {
    let (mut chan, tx, _rx) = bounded::<u32>(1);
    assert!(chan.try_push(0).is_ok()); // fill
    let (w, _cw) = counting_waker();
    let mut fut = tx.send(1);
    // Cloning the waker ends the last receiver and drains, freeing the slot: the recheck
    // fails instead of queueing into the closed channel.
    let res = poll_send_with(&mut fut, &mut chan, &w, |chan| {
        assert_eq!(chan.decr_receivers(), 1);
        assert_eq!(chan.drain(), Some(0));
        assert_eq!(chan.drain(), None);
    });
    match res {
        Poll::Ready(Err(e)) => assert_eq!(e.into_inner(), 1),
        _ => panic!("expected Err for a closed channel"),
    }
}

#[test]
fn tests_recv_recheck_observes_disconnect_during_registration() {
    let (mut chan, tx, rx) = unbounded::<u32>();
    let (w, _cw) = counting_waker();
    let mut fut = rx.recv();
    // Cloning the waker drops the last sender: the recheck sees the disconnection.
    let res = poll_recv_with(&mut fut, &mut chan, &w, |chan| tx.drop(chan));
    assert_eq!(res, Poll::Ready(None));
}

#[test]
fn tests_send_replays_committed_ok_after_a_wake_panic() {
    let (mut chan, tx, rx) = bounded::<u32>(2);
    let (rw, _rcw) = counting_waker();
    chan.add_recv_waker(rw);
    let mut fut = tx.send(7);
    // The send queues the item and decides Ok, then its wake fails.
    assert!(matches!(fut.poll(&mut chan), Step::Perform));
    drop(chan.take_effects());
    // Polled again, it hands out the decided Ok.
    let (w, _cw) = counting_waker();
    assert!(matches!(poll_send(&mut fut, &mut chan, &w), Poll::Ready(Ok(()))));
    // The item was delivered despite the failed wake.
    assert_eq!(recv_now(&rx, &mut chan), Ok(7));
}

/// Starts a receive and abandons it while it wakes senders, as a failing waker would.
fn interrupt_try_recv(rx: &Receiver<u32>, chan: &mut Chan<u32>) {
    assert!(matches!(rx.try_recv(chan), Step::Perform));
    assert!(chan.in_transit());
    drop(chan.take_effects());
}

#[test]
fn recv_does_not_lose_a_queued_item_when_waking_a_sender_panics() {
    let (mut chan, tx, rx) = bounded::<u32>(1);
    assert!(send_now(&tx, &mut chan, 1)); // queue an item, filling the channel
    let (w, _cw) = counting_waker();
    let mut sfut = tx.send(2);
    assert!(poll_send(&mut sfut, &mut chan, &w).is_pending()); // parks (full)
    interrupt_try_recv(&rx, &mut chan);
    // The item survived: the next receive delivers it.
    assert_eq!(recv_now(&rx, &mut chan), Ok(1));
    assert_eq!(sfut.drop(&mut chan), Some(2));
}

#[test]
fn a_redelivered_item_precedes_the_queue_in_fifo_order() {
    let (mut chan, tx, rx) = bounded::<u32>(2);
    assert!(send_now(&tx, &mut chan, 1));
    assert!(send_now(&tx, &mut chan, 2)); // the queue is [1, 2], full
    let (w, _cw) = counting_waker();
    let mut sfut = tx.send(3);
    assert!(poll_send(&mut sfut, &mut chan, &w).is_pending()); // parks (full)
    interrupt_try_recv(&rx, &mut chan);
    // The item in transit is delivered before the still-queued one.
    assert_eq!(recv_now(&rx, &mut chan), Ok(1));
    assert_eq!(recv_now(&rx, &mut chan), Ok(2));
    assert_eq!(sfut.drop(&mut chan), Some(3));
}

#[test]
fn a_redelivered_item_keeps_the_stream_live_and_non_empty() {
    let (mut chan, tx, rx) = bounded::<u32>(1);
    assert!(send_now(&tx, &mut chan, 1));
    let (w, _cw) = counting_waker();
    let mut sfut = tx.send(2);
    assert!(poll_send(&mut sfut, &mut chan, &w).is_pending());
    interrupt_try_recv(&rx, &mut chan);
    // Drop the pending send and the last sender: the queue is empty and no sender is left.
    assert_eq!(sfut.drop(&mut chan), Some(2));
    tx.drop(&mut chan);
    // The item in transit is still to be delivered.
    assert!(!rx.is_empty(&chan));
    assert_eq!(rx.len(&chan), 1);
    assert!(!rx.is_terminated(&chan));
    // Only after it is delivered is the channel empty and terminated.
    assert_eq!(recv_now(&rx, &mut chan), Ok(1));
    assert!(rx.is_empty(&chan));
    assert!(rx.is_terminated(&chan));
    assert_eq!(recv_now(&rx, &mut chan), Err(TryRecvError::Disconnected));
}

#[test]
fn a_redelivered_item_can_transiently_exceed_capacity() {
    let (mut chan, tx, rx) = bounded::<u32>(1);
    assert!(send_now(&tx, &mut chan, 1));
    let (w, _cw) = counting_waker();
    let mut sfut = tx.send(2);
    assert!(poll_send(&mut sfut, &mut chan, &w).is_pending());
    interrupt_try_recv(&rx, &mut chan);
    assert_eq!(sfut.drop(&mut chan), Some(2));
    // The queue freed a slot, so a fresh send is admitted while the item is in transit: the
    // channel holds one more than its capacity.
    assert!(send_now(&tx, &mut chan, 3));
    assert_eq!(tx.capacity(&chan), Some(1));
    assert_eq!(rx.len(&chan), 2);
    // The item in transit comes out before the queued one.
    assert_eq!(recv_now(&rx, &mut chan), Ok(1));
    assert_eq!(recv_now(&rx, &mut chan), Ok(3));
    assert!(rx.is_empty(&chan));
}

#[test]
fn committed_send_removes_its_send_waker_even_if_a_receiver_wake_panics() {
    let (mut chan, tx, _rx) = bounded::<u32>(1);
    assert!(chan.try_push(0).is_ok()); // fill
    let (rw, _rcw) = counting_waker();
    chan.add_recv_waker(rw);
    let (w, cw) = counting_waker();
    let mut fut = tx.send(7);
    assert!(matches!(fut.poll(&mut chan), Step::Register));
    // Cloning the waker frees a slot, so the recheck decides Ok.
    assert_eq!(chan.pop(), Some(0));
    fut.register(&mut chan, w.clone());
    assert!(matches!(fut.recheck(&mut chan), Step::Perform));
    drop(chan.take_effects()); // the wake of the receiver fails
    assert_eq!(chan.send_wakers_len(), 1);
    fut.deregister(&mut chan); // so the registration is removed in its place
    assert_eq!(chan.send_wakers_len(), 0);
    settle(&mut chan);
    assert_eq!(Arc::strong_count(&cw), 2);
}

#[test]
fn committed_send_is_not_terminated_until_the_outcome_is_replayed() {
    let (mut chan, tx, _rx) = bounded::<u32>(1);
    assert!(chan.try_push(0).is_ok()); // fill
    let (rw, _rcw) = counting_waker();
    chan.add_recv_waker(rw);
    let (w, _cw) = counting_waker();
    let mut fut = tx.send(7);
    assert!(matches!(fut.poll(&mut chan), Step::Register));
    assert_eq!(chan.pop(), Some(0));
    fut.register(&mut chan, w.clone());
    // The send is decided, but its wakes fail before the outcome is handed out.
    assert!(matches!(fut.recheck(&mut chan), Step::Perform));
    drop(chan.take_effects());
    assert!(!fut.is_terminated());
    // The next poll yields the decided Ok, and only then is it terminal.
    assert!(matches!(poll_send(&mut fut, &mut chan, &w), Poll::Ready(Ok(()))));
    assert!(fut.is_terminated());
}

#[test]
fn committed_send_wakes_a_parked_receiver_before_a_panicking_send_waker_drop() {
    let (mut chan, tx, _rx) = bounded::<u32>(1);
    assert!(chan.try_push(0).is_ok()); // fill
    let (rw, rcw) = counting_waker();
    chan.add_recv_waker(rw);
    let (w, _cw) = counting_waker();
    let mut fut = tx.send(7);
    assert!(matches!(fut.poll(&mut chan), Step::Register));
    assert_eq!(chan.pop(), Some(0));
    fut.register(&mut chan, w.clone());
    assert!(matches!(fut.recheck(&mut chan), Step::Perform));
    // The receiver's wake comes before the drop of the send's own waker.
    let due = chan.take_effects();
    assert_eq!(due.len(), 1);
    perform(due);
    assert_eq!(rcw.0.load(Ordering::SeqCst), 1);
    assert_eq!(chan.send_wakers_len(), 1);
    assert!(matches!(fut.recheck(&mut chan), Step::Perform));
    let due = chan.take_effects();
    assert_eq!(due.len(), 1);
    assert!(matches!(due[0], Effect::Discard(_)));
    assert_eq!(chan.send_wakers_len(), 0);
}

#[test]
fn recheck_disconnect_removes_the_just_registered_recv_waker() {
    let (mut chan, tx, rx) = unbounded::<u32>();
    let (w, cw) = counting_waker();
    let mut slot = None;
    assert!(matches!(rx.poll_recv(&mut chan, &mut slot), Step::Register));
    tx.drop(&mut chan); // cloning the waker drops the last sender
    settle(&mut chan);
    rx.register_recv(&mut chan, &mut slot, w.clone());
    settle(&mut chan);
    assert!(matches!(rx.recheck_recv(&mut chan, &mut slot), Step::Ready(None)));
    settle(&mut chan);
    assert_eq!(slot, None);
    assert_eq!(chan.recv_wakers_len(), 0); // the just-registered waker was removed
    assert_eq!(Arc::strong_count(&cw), 2);
}

#[test]
fn final_item_recheck_keeps_stream_non_terminal_until_waker_cleared() {
    let (mut chan, tx, mut rx) = unbounded::<u32>();
    let (w, _cw) = counting_waker();
    // Cloning the waker queues the final item and drops the last sender: the recheck
    // delivers the item.
    let res = poll_next_with(&mut rx, &mut chan, &w, |chan| {
        assert!(tx.try_send(chan, 99).is_ok());
        tx.drop(chan);
    });
    assert_eq!(res, Poll::Ready(Some(99)));
    // Drained and without a sender, but a registration is outstanding.
    assert!(!rx.is_terminated(&chan));
    // One more poll clears it and ends the stream.
    assert_eq!(poll_next(&mut rx, &mut chan, &w), Poll::Ready(None));
    assert!(rx.is_terminated(&chan));
    assert_eq!(chan.recv_wakers_len(), 0);
}

#[test]
fn try_take_rechecks_queue_when_a_reentrant_consumer_drains_redelivery() {
    let mut chan = Chan::<u32>::bounded(2);
    assert!(chan.try_push(1).is_ok());
    assert!(chan.try_push(2).is_ok()); // full: [1, 2]
    let (w, _cw) = counting_waker();
    chan.add_send_waker(w);
    // The first item goes in transit; the woken sender then acts as a receiver and takes it.
    assert!(matches!(chan.try_take(), TakeStep::Wake));
    assert!(matches!(chan.try_take(), TakeStep::Item(1)));
    // Stepping on looks at the queue again and gives the item behind it.
    assert!(matches!(chan.try_take(), TakeStep::Item(2)));
    assert!(matches!(chan.try_take(), TakeStep::Empty));
}

#[test]
fn final_item_recheck_keeps_recv_non_terminal_until_waker_cleared() {
    let (mut chan, tx, rx) = unbounded::<u32>();
    let (w, _cw) = counting_waker();
    let mut fut = rx.recv();
    let res = poll_recv_with(&mut fut, &mut chan, &w, |chan| {
        assert!(tx.try_send(chan, 99).is_ok());
        tx.drop(chan);
    });
    assert_eq!(res, Poll::Ready(Some(99)));
    // Completed, but a registration is outstanding: it has to be polled once more.
    assert!(!fut.is_terminated());
    // The extra poll takes no item and wakes its task.
    let (cw, count) = counting_waker();
    assert_eq!(poll_recv(&mut fut, &mut chan, &cw), Poll::Pending);
    assert!(fut.is_terminated());
    assert!(count.0.load(Ordering::SeqCst) >= 1);
    assert_eq!(chan.recv_wakers_len(), 0);
}

#[test]
fn recv_keeps_polling_across_a_panicking_waker_clone() {
    let (mut chan, tx, rx) = bounded::<u32>(1);
    let mut fut = rx.recv();
    // Empty: the recv asks for a waker, whose clone fails.
    assert!(matches!(fut.poll(&mut chan), Step::Register));
    // Polled again with another waker, it parks normally and a later send delivers.
    let (w, _cw) = counting_waker();
    assert!(poll_recv(&mut fut, &mut chan, &w).is_pending());
    assert!(send_now(&tx, &mut chan, 5));
    assert_eq!(poll_recv(&mut fut, &mut chan, &w), Poll::Ready(Some(5)));
}

#[test]
fn tests_recv_delivers_rechecked_item_despite_a_panicking_recv_waker_drop() {
    let (mut chan, _tx, rx) = bounded::<u32>(2);
    let (w, _cw) = counting_waker();
    let mut fut = rx.recv();
    // Cloning the waker pushes an item: the recheck delivers it, and no waker is dropped
    // on the way.
    assert!(matches!(fut.poll(&mut chan), Step::Register));
    assert!(chan.try_push(99).is_ok());
    fut.register(&mut chan, w.clone());
    assert!(matches!(fut.recheck(&mut chan), Step::Ready(Some(99))));
    assert!(chan.take_effects().is_empty());
    fut.complete();
    assert_eq!(chan.recv_wakers_len(), 1);
}

#[test]
fn recv_drop_clears_a_stale_recheck_recv_waker() {
    let (mut chan, _tx, rx) = bounded::<u32>(2);
    let (w, cw) = counting_waker();
    let mut fut = rx.recv();
    let res = poll_recv_with(&mut fut, &mut chan, &w, |chan| {
        assert!(chan.try_push(99).is_ok());
    });
    assert!(matches!(res, Poll::Ready(Some(99))));
    assert_eq!(Arc::strong_count(&cw), 3); // the clone is still registered
    fut.drop(&mut chan); // removes the stale registration
    settle(&mut chan);
    assert_eq!(Arc::strong_count(&cw), 2); // the registered clone was released
    end(rx, &mut chan);
}

struct D(Rc<Cell<usize>>);

impl Drop for D {
    fn drop(&mut self) {
        self.0.set(self.0.get() + 1);
    }
}

#[test]
fn last_receiver_drop_drains_queued_items() {
    let drops = Rc::new(Cell::new(0));
    let (mut chan, tx, rx) = unbounded::<D>();
    let rx2 = rx.clone(&mut chan);
    for _ in 0..3 {
        assert!(tx.try_send(&mut chan, D(drops.clone())).is_ok());
    }
    assert_eq!(drops.get(), 0);
    drop(end(rx, &mut chan)); // not the last receiver: the queue stays
    assert_eq!(drops.get(), 0);
    drop(end(rx2, &mut chan)); // last receiver: hands the queued items back
    assert_eq!(drops.get(), 3);
}

#[test]
fn tests_stream_poll_next_parks_then_wakes_on_send() {
    let (mut chan, tx, mut rx) = unbounded::<u32>();
    let (w, cw) = counting_waker();
    assert!(poll_next(&mut rx, &mut chan, &w).is_pending());
    assert_eq!(cw.0.load(Ordering::SeqCst), 0);
    assert!(send_now(&tx, &mut chan, 9));
    assert_eq!(cw.0.load(Ordering::SeqCst), 1);
    assert_eq!(poll_next(&mut rx, &mut chan, &w), Poll::Ready(Some(9)));
}

#[test]
fn stream_re_poll_replaces_its_registration() {
    let (mut chan, tx, mut rx) = unbounded::<u32>();
    let (w, cw) = counting_waker();
    assert!(poll_next(&mut rx, &mut chan, &w).is_pending());
    assert!(poll_next(&mut rx, &mut chan, &w).is_pending());
    assert!(send_now(&tx, &mut chan, 1));
    assert_eq!(cw.0.load(Ordering::SeqCst), 1);
    assert_eq!(poll_next(&mut rx, &mut chan, &w), Poll::Ready(Some(1)));
}

#[test]
fn dropping_a_streamed_receiver_clears_its_registration() {
    let (mut chan, _tx, mut rx) = unbounded::<u32>();
    let (w, cw) = counting_waker();
    assert!(poll_next(&mut rx, &mut chan, &w).is_pending()); // registers a clone
    assert_eq!(Arc::strong_count(&cw), 3); // cw, w and the registered clone
    end(rx, &mut chan); // clears its stream registration
    settle(&mut chan);
    assert_eq!(Arc::strong_count(&cw), 2); // back to cw and w
}

#[test]
fn dropping_one_of_two_streamed_receivers_keeps_the_other_registered() {
    let (mut chan, tx, mut rx) = unbounded::<u32>();
    let mut rx2 = rx.clone(&mut chan);
    let (w1, cw1) = counting_waker();
    let (w2, cw2) = counting_waker();
    assert!(poll_next(&mut rx, &mut chan, &w1).is_pending());
    assert!(poll_next(&mut rx2, &mut chan, &w2).is_pending());
    end(rx, &mut chan);
    settle(&mut chan);
    assert_eq!(Arc::strong_count(&cw1), 2);
    assert!(send_now(&tx, &mut chan, 6));
    assert_eq!(cw1.0.load(Ordering::SeqCst), 0);
    assert_eq!(cw2.0.load(Ordering::SeqCst), 1);
    assert_eq!(poll_next(&mut rx2, &mut chan, &w2), Poll::Ready(Some(6)));
}

#[test]
fn an_explicit_close_fails_sends_and_disconnects_once_drained() {
    let (mut chan, tx, rx) = bounded::<u32>(1);
    assert!(send_now(&tx, &mut chan, 1));
    let (sw, scw) = counting_waker();
    let mut sfut = tx.send(2);
    assert!(poll_send(&mut sfut, &mut chan, &sw).is_pending());
    let (rw, rcw) = counting_waker();
    chan.add_recv_waker(rw);
    let closing = chan.close();
    settle(&mut chan);
    assert_eq!(rcw.0.load(Ordering::SeqCst), 1);
    assert_eq!(scw.0.load(Ordering::SeqCst), 0); // the senders come second
    assert_eq!(chan.send_wakers_len(), 1);
    assert!(closing.finish(&mut chan));
    settle(&mut chan);
    assert_eq!(scw.0.load(Ordering::SeqCst), 1);
    let again = chan.close(); // a repeat changes nothing
    assert!(!again.newly);
    assert!(!again.finish(&mut chan));
    assert!(chan.take_effects().is_empty());
    assert!(matches!(tx.try_send(&mut chan, 3), Err(TrySendError::Closed(3))));
    match poll_send(&mut sfut, &mut chan, &sw) {
        Poll::Ready(Err(e)) => assert_eq!(e.into_inner(), 2),
        _ => panic!("expected a SendError"),
    }
    assert_eq!(recv_now(&rx, &mut chan), Ok(1));
    assert_eq!(recv_now(&rx, &mut chan), Err(TryRecvError::Disconnected));
    assert!(chan.is_closed());
}

#[test]
fn a_terminal_channel_keeps_no_recv_waker() {
    let (mut chan, tx, rx) = unbounded::<u32>();
    tx.drop(&mut chan);
    let (w, cw) = counting_waker();
    let first = chan.add_recv_waker(w.clone());
    let second = chan.add_recv_waker(w.clone());
    assert_eq!(second, first + 1); // ids are used up all the same
    assert_eq!(chan.recv_wakers_len(), 0);
    settle(&mut chan);
    assert_eq!(Arc::strong_count(&cw), 2);
    end(rx, &mut chan);
}

#[test]
fn last_receiver_drop_hands_back_the_item_in_transit_first() {
    let (mut chan, tx, rx) = bounded::<u32>(2);
    assert!(send_now(&tx, &mut chan, 1));
    assert!(send_now(&tx, &mut chan, 2));
    let (w, cw) = counting_waker();
    let mut sfut = tx.send(3);
    assert!(poll_send(&mut sfut, &mut chan, &w).is_pending());
    interrupt_try_recv(&rx, &mut chan);
    assert!(poll_send(&mut sfut, &mut chan, &w).is_ready());
    assert_eq!(end(rx, &mut chan), vec![1, 2, 3]);
    settle(&mut chan);
    assert_eq!(cw.0.load(Ordering::SeqCst), 0);
    assert!(tx.is_empty(&chan));
}

#[test]
fn wakes_come_in_registration_order() {
    let mut chan = Chan::<u32>::bounded(1);
    let (w1, cw1) = counting_waker();
    let (w2, _cw2) = counting_waker();
    let (w3, cw3) = counting_waker();
    chan.add_send_waker(w1);
    let second = chan.add_send_waker(w2);
    chan.add_send_waker(w3);
    chan.remove_send_waker(second); // takes out exactly its own entry
    chan.wake_senders();
    assert!(!chan.has_parked_senders());
    let mut due = chan.take_effects();
    assert_eq!(due.len(), 3); // the drop of the removed waker, then two wakes
    assert!(matches!(due.remove(0), Effect::Discard(_)));
    perform(vec![due.remove(0)]);
    assert_eq!(cw1.0.load(Ordering::SeqCst), 1);
    assert_eq!(cw3.0.load(Ordering::SeqCst), 0);
    perform(due);
    assert_eq!(cw3.0.load(Ordering::SeqCst), 1);
}

#[test]
fn every_accepted_item_goes_to_one_of_the_consumers_in_order() {
    let (mut chan, tx, rx) = bounded::<u32>(3);
    let rx2 = rx.clone(&mut chan);
    let tx2 = tx.clone(&mut chan);
    let mut accepted = Vec::new();
    let mut received = Vec::new();
    for i in 0..60 {
        let sender = if i % 2 == 0 { &tx } else { &tx2 };
        if sender.try_send(&mut chan, i).is_ok() {
            accepted.push(i);
        }
        let receiver = if i % 5 == 0 { &rx } else { &rx2 };
        if i % 3 != 0 {
            if let Ok(item) = recv_now(receiver, &mut chan) {
                received.push(item);
            }
        }
        assert!(rx.len(&chan) <= 3);
    }
    assert_eq!(end(rx, &mut chan), vec![]);
    received.extend(end(rx2, &mut chan));
    assert_eq!(received, accepted);
}

#[test]
fn last_receiver_drop_wakes_senders_before_it_releases_anything() {
    let (mut chan, tx, mut rx) = bounded::<u32>(1);
    let (sw, swc) = counting_waker();
    assert!(poll_next(&mut rx, &mut chan, &sw).is_pending());
    assert!(chan.try_push(1).is_ok()); // the stream's waker stays registered
    let (w, cw) = counting_waker();
    let mut fut = tx.send(2);
    assert!(poll_send(&mut fut, &mut chan, &w).is_pending());
    let mut dropping = rx.drop(&mut chan);
    settle(&mut chan);
    assert_eq!(cw.0.load(Ordering::SeqCst), 1);
    assert_eq!(tx.len(&chan), 1); // the woken sender still finds the item
    assert_eq!(chan.recv_wakers_len(), 1); // and the stream's registration
    assert!(matches!(dropping.step(&mut chan), DropStep::Release(1)));
    assert_eq!(chan.recv_wakers_len(), 1);
    assert!(matches!(dropping.step(&mut chan), DropStep::Perform));
    settle(&mut chan);
    assert_eq!(Arc::strong_count(&swc), 2);
    assert!(matches!(dropping.step(&mut chan), DropStep::Done));
}

#[test]
fn however_often_a_receive_is_polled_only_its_latest_waker_is_woken() {
    let (mut chan, tx, rx) = unbounded::<u32>();
    let (other, ocw) = counting_waker();
    chan.add_recv_waker(other);
    let mut fut = rx.recv();
    let wakers: Vec<(Waker, Arc<CountingWaker>)> = (0..4).map(|_| counting_waker()).collect();
    for (w, _) in &wakers {
        assert!(poll_recv(&mut fut, &mut chan, w).is_pending());
        assert_eq!(chan.recv_wakers_len(), 2);
    }
    assert!(send_now(&tx, &mut chan, 7));
    let counts: Vec<usize> = wakers.iter().map(|(_, cw)| cw.0.load(Ordering::SeqCst)).collect();
    assert_eq!(counts, vec![0, 0, 0, 1]);
    assert_eq!(ocw.0.load(Ordering::SeqCst), 1);
}

#[test]
fn a_recv_that_is_ready_has_completed_only_after_its_effects() {
    let (mut chan, tx, rx) = unbounded::<u32>();
    assert!(send_now(&tx, &mut chan, 1));
    let mut fut = rx.recv();
    assert!(matches!(fut.poll(&mut chan), Step::Ready(Some(1))));
    assert!(!fut.is_terminated());
    fut.complete();
    assert!(fut.is_terminated());
}

#[test]
fn the_largest_capacity_is_accepted() {
    let (mut chan, tx, rx) = bounded::<()>(usize::MAX);
    assert_eq!(tx.capacity(&chan), Some(usize::MAX));
    assert!(tx.is_empty(&chan) && !tx.is_full(&chan) && !tx.is_closed(&chan));
    assert_eq!(recv_now(&rx, &mut chan), Err(TryRecvError::Empty));
    assert!(send_now(&tx, &mut chan, ()));
    assert_eq!(tx.len(&chan), 1);
    assert!(!chan.in_transit());
    assert_eq!(recv_now(&rx, &mut chan), Ok(()));
}

#[test]
fn exactly_the_capacity_is_accepted() {
    let (mut chan, tx, rx) = bounded::<u32>(3);
    for i in 0..3 {
        assert!(tx.try_send(&mut chan, i).is_ok());
    }
    assert!(matches!(tx.try_send(&mut chan, 3), Err(TrySendError::Full(3))));
    assert_eq!(end(rx, &mut chan), vec![0, 1, 2]);
}
