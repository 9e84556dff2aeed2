//! Multi-producer, single-consumer channel.
//!
//! [`bounded`] and [`unbounded`] flavors, with a non-blocking `try_*` surface and steppable
//! `recv` and `send` futures. A channel is a [`Chan`], the state, and the handles that
//! act on it: senders can be cloned, the receiver cannot. Each [`Sender`] stands for one
//! live producer and the [`Receiver`] for the live consumer until it is dropped with its
//! channel.

pub mod behaviour;
pub mod chan;
pub mod channel;
pub mod error;
pub mod laws;
pub mod model;
pub mod recv;
pub mod send;

pub use chan::{Chan, Closing};
pub use channel::{Dropping, Receiver, Sender, TryIter};
pub use error::{SendError, TryRecvError, TrySendError};
pub use recv::Recv;
pub use send::Send;

use vstd::prelude::*;

verus! {

/// Creates a bounded channel that holds at most `cap` queued items.
///
/// [`Sender::try_send`] reports [`TrySendError::Full`] when the queue is at capacity. `cap`
/// must be non-zero: a zero-capacity rendezvous cannot be represented on a single thread,
/// where a hand-off that parked the thread would deadlock.
pub fn bounded<T>(cap: usize) -> (r: (Chan<T>, Sender<T>, Receiver<T>))
    requires
        cap > 0,
    ensures
        r.0.wf(),
        r.0@ == model::ChanState::<T>::opened(Some(cap as nat)),
{
    (Chan::bounded(cap), Sender::new(), Receiver::new())
}

/// Creates an unbounded channel: [`Sender::try_send`] never reports
/// [`TrySendError::Full`], growing the queue a block at a time as needed.
pub fn unbounded<T>() -> (r: (Chan<T>, Sender<T>, Receiver<T>))
    ensures
        r.0.wf(),
        r.0@ == model::ChanState::<T>::opened(None),
{
    (Chan::unbounded(), Sender::new(), Receiver::new())
}

} // verus!
