//! What an operation asks of the code that drives it.

use vstd::prelude::*;

verus! {

/// The outcome of one step of a future, or of another operation that takes several.
pub enum Step<R> {
    /// The operation is complete: its result, once the channel's pending effects are
    /// performed.
    Ready(R),
    /// Perform the channel's pending effects now, then take the same step again.
    Perform,
    /// Nothing is ready: register a clone of the task's waker, then recheck.
    Register,
    /// The task is parked; it is woken when the channel changes.
    Pending,
    /// The task stays pending but has to be polled again: wake it after performing the
    /// channel's pending effects.
    Repoll,
}

/// The outcome of one step of ending a receiver.
pub enum DropStep<T> {
    /// Perform the channel's pending effects, then step again.
    Perform,
    /// Drop the item, then step again.
    Release(T),
    /// Nothing is left to do.
    Done,
}

} // verus!
