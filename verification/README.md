# lochan

Single-threaded (`!Send`), no-atomics channels for thread-per-core runtimes, with their
behaviour stated in contracts and proved by Verus.

- **`mpsc`**: multi-producer, single-consumer, `bounded` and `unbounded`.
- **`mpmc`**: multi-producer, multi-consumer, in the same flavors; a delivered item goes to
  exactly one consumer.
- **`oneshot`**: a single value sent once; the receiver is itself the future.

## Layout

- `src/` is the verified library. A channel is a value (`Chan`, or `Inner` for `oneshot`)
  that the handles act on. The library never runs foreign code: wakes and waker drops are
  recorded as effects, and payloads to be dropped are handed out. An operation that does
  more after such code comes in steps, with the channel released between them.
  - `queue/`: the ring and the block list behind the two flavors.
  - `wakers.rs`, `effect.rs`, `step.rs`, `failure.rs`: registered wakers, recorded effects,
    what an operation asks of the code that drives it, and which failure of a batch is
    reported.
  - `mpsc/`, `mpmc/`, `oneshot/`: the channels. `model.rs` holds the state and its
    transitions, `laws.rs` what holds over every run: first in first out and exactly once,
    capacity, draining before disconnection, and no lost wake-up.
- `app/` shares a channel between `Rc`-backed handles with `Clone` and `Drop`, performs the
  effects outside the borrow, and implements `Future`, `FusedFuture`, `Stream` and
  `FusedStream`.
- `tests/` runs the library.

## Example

```rust
use lochan::mpsc;

let (mut chan, tx, mut rx) = mpsc::bounded::<u32>(16);
assert!(tx.try_send(&mut chan, 1).is_ok());
assert_eq!(rx.try_recv(&mut chan), Ok(1));
tx.drop(&mut chan);
assert_eq!(rx.try_recv(&mut chan), Err(mpsc::TryRecvError::Disconnected));
```

Two things are trusted: that `std::task::Waker` is an opaque type, and what the
documentation of `<[T]>::rotate_left` says, which a ring uses when it is dropped.
