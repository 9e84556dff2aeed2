//! Multi-producer, multi-consumer channel.
//!
//! [`bounded`] and [`unbounded`] flavors. Both senders and receivers can be cloned: every
//! sender clone is another producer, every receiver clone another consumer. A delivered
//! item goes to exactly one consumer; the channel stays open for sends until the last
//! receiver drops, and stays drainable until the last sender drops. Each flavor offers a
//! non-blocking `try_*` surface and steppable `recv` and `send` futures.

pub mod behaviour;
pub mod chan;
pub mod channel;
pub mod laws;
pub mod model;
pub mod recv;
pub mod send;

pub use crate::mpsc::error::{SendError, TryRecvError, TrySendError};
pub use chan::{Chan, Closing, TakeStep};
pub use channel::{Dropping, Receiver, Sender, TryIter};
pub use recv::Recv;
pub use send::Send;

use vstd::prelude::*;

verus! {

/// Creates a bounded channel that holds at most `cap` queued items.
///
/// [`Sender::try_send`] reports [`TrySendError::Full`] when the queue is at capacity. `cap`
/// must be non-zero: a zero-capacity rendezvous cannot be represented on a single thread,
/// where a hand-off that parked the thread would deadlock.
pub fn bounded<T>(cap: usize) -> (r: (Chan<T>, Sender<T>, Receiver<T>))
    requires
        cap > 0,
    ensures
        r.0.wf(),
        r.0@ == model::ChanState::<T>::opened(Some(cap as nat)),
        r.2.stream_id() is None,
{
    (Chan::bounded(cap), Sender::new(), Receiver::new())
}

/// Creates an unbounded channel: [`Sender::try_send`] never reports
/// [`TrySendError::Full`], growing the queue a block at a time as needed.
pub fn unbounded<T>() -> (r: (Chan<T>, Sender<T>, Receiver<T>))
    ensures
        r.0.wf(),
        r.0@ == model::ChanState::<T>::opened(None),
        r.2.stream_id() is None,
{
    (Chan::unbounded(), Sender::new(), Receiver::new())
}

} // verus!
