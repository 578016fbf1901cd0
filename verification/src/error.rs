//! The errors around a bridge.

use vstd::prelude::*;

verus! {

/// Why an operation failed.
#[derive(Debug)]
pub enum WtError {
    /// The worker has stopped and receives no more messages. A send or a
    /// close met a closed channel.
    ChannelClosed,
    /// The worker's thread could not be started: there is no bridge.
    SpawnFailure,
    /// The work itself failed, for the reason given. The bridge neither
    /// produces nor inspects this error: work settles its own token with
    /// it, and the worker goes on to the next message.
    WorkFailure(String),
}

impl Clone for WtError {
    fn clone(&self) -> (copy: Self)
        ensures
            copy == *self,
    {
        match self {
            WtError::ChannelClosed => WtError::ChannelClosed,
            WtError::SpawnFailure => WtError::SpawnFailure,
            WtError::WorkFailure(reason) => WtError::WorkFailure(reason.clone()),
        }
    }
}

impl WtError {
    /// The text of each error.
    pub open spec fn message_spec(self) -> Seq<char> {
        match self {
            WtError::ChannelClosed => "sending on a closed channel"@,
            WtError::SpawnFailure => "failed to spawn the worker thread"@,
            WtError::WorkFailure(reason) => reason@,
        }
    }

    /// The text to report to the host: the failure value of a rejected
    /// token, or the plain error of a lifecycle operation.
    pub fn message(&self) -> (text: String)
        ensures
            text@ == self.message_spec(),
    {
        match self {
            WtError::ChannelClosed => "sending on a closed channel".to_owned(),
            WtError::SpawnFailure => "failed to spawn the worker thread".to_owned(),
            WtError::WorkFailure(reason) => reason.clone(),
        }
    }
}

} // verus!
