//! `mpsc` error types.

use vstd::prelude::*;

verus! {

/// Error returned by `Sender::try_send` when an item cannot be delivered. The unsent item
/// is carried back.
pub enum TrySendError<T> {
    /// The bounded channel is at capacity.
    Full(T),
    /// Every receiver is gone.
    Closed(T),
}

impl<T> TrySendError<T> {
    /// The item that could not be sent.
    pub open spec fn item(self) -> T {
        match self {
            TrySendError::Full(item) => item,
            TrySendError::Closed(item) => item,
        }
    }

    /// Consumes the error, returning the item that could not be sent.
    pub fn into_inner(self) -> (item: T)
        ensures
            item == self.item(),
    {
        match self {
            TrySendError::Full(item) => item,
            TrySendError::Closed(item) => item,
        }
    }

    /// Returns `true` if the channel was full.
    pub fn is_full(&self) -> (b: bool)
        ensures
            b == (self is Full),
    {
        matches!(self, TrySendError::Full(_))
    }

    /// Returns `true` if the channel was closed.
    pub fn is_closed(&self) -> (b: bool)
        ensures
            b == (self is Closed),
    {
        matches!(self, TrySendError::Closed(_))
    }

    /// What went wrong, in words. The payload is never shown.
    pub fn message(&self) -> (s: &'static str)
        ensures
            self is Full ==> s@ == "sending on a full channel"@,
            self is Closed ==> s@ == "sending on a closed channel"@,
    {
        match self {
            TrySendError::Full(_) => "sending on a full channel",
            TrySendError::Closed(_) => "sending on a closed channel",
        }
    }

    /// The name of the variant, with the payload left out.
    pub fn debug_name(&self) -> (s: &'static str)
        ensures
            self is Full ==> s@ == "Full(..)"@,
            self is Closed ==> s@ == "Closed(..)"@,
    {
        match self {
            TrySendError::Full(_) => "Full(..)",
            TrySendError::Closed(_) => "Closed(..)",
        }
    }
}

/// Error of the `send` future: the channel was closed before the item could be queued. The
/// unsent item is carried back.
pub struct SendError<T> {
    pub item: T,
}

impl<T> SendError<T> {
    /// Wraps the item that could not be sent.
    pub fn new(item: T) -> (e: Self)
        ensures
            e == (SendError { item }),
    {
        SendError { item }
    }

    /// Consumes the error, returning the item that could not be sent.
    pub fn into_inner(self) -> (item: T)
        ensures
            item == self.item,
    {
        self.item
    }

    /// What went wrong, in words. The payload is never shown.
    pub fn message(&self) -> (s: &'static str)
        ensures
            s@ == "sending on a closed channel"@,
    {
        "sending on a closed channel"
    }

    /// The name of the error, with the payload left out.
    pub fn debug_name(&self) -> (s: &'static str)
        ensures
            s@ == "SendError(..)"@,
    {
        "SendError(..)"
    }
}

/// Error returned by `Receiver::try_recv` when no item is available.
#[derive(Debug, Clone, Copy, PartialEq, Eq, Structural)]
pub enum TryRecvError {
    /// The channel is empty, but senders remain.
    Empty,
    /// The channel is empty and every sender is gone.
    Disconnected,
}

impl TryRecvError {
    /// Returns the static string form of this error.
    pub fn as_str(&self) -> (s: &'static str)
        ensures
            self is Empty ==> s@ == "receiving on an empty channel"@,
            self is Disconnected ==> s@ == "receiving on an empty and disconnected channel"@,
    {
        match self {
            TryRecvError::Empty => "receiving on an empty channel",
            TryRecvError::Disconnected => "receiving on an empty and disconnected channel",
        }
    }

    /// Returns `true` if the channel was merely empty (senders remain).
    pub fn is_empty(&self) -> (b: bool)
        ensures
            b == (self is Empty),
    {
        matches!(self, TryRecvError::Empty)
    }

    /// Returns `true` if the channel was empty and every sender had dropped.
    pub fn is_disconnected(&self) -> (b: bool)
        ensures
            b == (self is Disconnected),
    {
        matches!(self, TryRecvError::Disconnected)
    }
}

} // verus!
