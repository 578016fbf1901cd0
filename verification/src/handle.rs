//! The bridge handle: the host's end of the task queue.

use vstd::prelude::*;
use crate::channel::channel_send;
use crate::message::WtMessage;

verus! {

/// The error of a send on a bridge whose worker has stopped. It carries the
/// message that could not be delivered, so that its token is not lost.
#[derive(Debug)]
pub struct Closed<T, W>(pub WtMessage<T, W>);

/// What a send of `message` may answer: success, or `Closed` holding that
/// very message.
pub open spec fn answers<T, W>(message: WtMessage<T, W>, r: Result<(), Closed<T, W>>) -> bool {
    r is Err ==> r == Err::<(), Closed<T, W>>(Closed(message))
}

/// The host-visible handle of the bridge. It owns the sending half of the
/// task queue and nothing else.
#[verifier::reject_recursive_types(T)]
#[verifier::reject_recursive_types(W)]
pub struct Wt<T, W> {
    tx: std::sync::mpsc::Sender<WtMessage<T, W>>,
}

impl<T, W> Wt<T, W> {
    /// Creates the task queue of a new bridge. Returns the handle and the
    /// receiving half, which the caller moves into the worker's thread; the
    /// worker lives as long as that half does.
    pub fn new() -> (halves: (Self, std::sync::mpsc::Receiver<WtMessage<T, W>>)) {
        let (tx, rx) = std::sync::mpsc::channel();
        (Wt { tx }, rx)
    }

    /// Submits a task: enqueues `work` with its `token` and returns at
    /// once, without waiting for the work.
    ///
    /// Fails only when the worker no longer receives. The error then holds
    /// the message, token and work, exactly as they were passed, and the
    /// caller settles the token with a failure: see `into_rejection`.
    pub fn send(&self, token: T, work: W) -> (r: Result<(), Closed<T, W>>)
        ensures
            answers(WtMessage::Callback(token, work), r),
    {
        match channel_send(&self.tx, WtMessage::Callback(token, work)) {
            Ok(()) => Ok(()),
            Err(message) => Err(Closed(message)),
        }
    }

    /// Shuts the worker down: enqueues `Close`, which stops the worker when
    /// it is reached. Work queued before it still runs; work queued behind
    /// it is dropped.
    ///
    /// Fails only when the worker no longer receives: it has stopped
    /// already, and the caller may take the error for a no-op.
    pub fn close(&self) -> (r: Result<(), Closed<T, W>>)
        ensures
            answers(WtMessage::Close, r),
    {
        match channel_send(&self.tx, WtMessage::Close) {
            Ok(()) => Ok(()),
            Err(message) => Err(Closed(message)),
        }
    }
}

} // verus!
