//! What the host owes after a send: the rejection path.

use vstd::prelude::*;
use crate::error::WtError;
use crate::handle::Closed;
use crate::message::WtMessage;

verus! {

/// What the caller of a send must do with its outcome.
#[derive(Debug)]
pub enum Rejection<T> {
    /// The message is on the queue: nothing is owed.
    Delivered,
    /// The work came back undelivered. The caller settles its token with
    /// this failure, at once and on the host.
    Reject(T, WtError),
    /// A `Close` came back undelivered: the worker had stopped already.
    /// There is no token to settle; the caller reports this plain error.
    Raise(WtError),
}

/// The rejection owed for each outcome of a send.
pub open spec fn rejection_spec<T, W>(outcome: Result<(), Closed<T, W>>) -> Rejection<T> {
    match outcome {
        Ok(()) => Rejection::Delivered,
        Err(Closed(WtMessage::Callback(token, _))) => Rejection::Reject(
            token,
            WtError::ChannelClosed,
        ),
        Err(Closed(WtMessage::Close)) => Rejection::Raise(WtError::ChannelClosed),
    }
}

/// Turns the outcome of a send into the caller's obligation.
pub trait SendResultExt<T>: Sized {
    /// The obligation that `into_rejection` returns.
    spec fn rejection(self) -> Rejection<T>;

    /// Takes the token out of a failed send, so that it is settled with a
    /// failure instead of being dropped. The undelivered work is dropped.
    fn into_rejection(self) -> (owed: Rejection<T>)
        ensures
            owed == self.rejection(),
    ;
}

impl<T, W> SendResultExt<T> for Result<(), Closed<T, W>> {
    open spec fn rejection(self) -> Rejection<T> {
        rejection_spec(self)
    }

    fn into_rejection(self) -> (owed: Rejection<T>) {
        match self {
            Ok(()) => Rejection::Delivered,
            Err(Closed(WtMessage::Callback(token, _))) => Rejection::Reject(
                token,
                WtError::ChannelClosed,
            ),
            Err(Closed(WtMessage::Close)) => Rejection::Raise(WtError::ChannelClosed),
        }
    }
}

} // verus!
