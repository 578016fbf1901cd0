//! The worker's state machine.

use vstd::prelude::*;
use crate::message::WtMessage;

verus! {

/// The two states of the worker. `Stopped` is terminal.
#[derive(Clone, Copy, Debug, PartialEq, Eq, Structural)]
pub enum WorkerState {
    /// The worker takes messages.
    Running,
    /// The worker has left its loop. It takes nothing more, and what was
    /// still queued is dropped with the receiving half of the channel.
    Stopped,
}

/// What the worker does after a receive.
#[derive(Debug)]
pub enum WtAction<T, W> {
    /// Perform the work, handing it the token, on the worker's own thread.
    Run(T, W),
    /// Leave the loop and drop the receiving half of the channel.
    Exit,
}

/// The worker's transition. `received` is what the receive gave: a message,
/// or `None` once the channel is disconnected.
///
/// A running worker that receives work stays running and performs it. In
/// every other situation the worker is stopped afterwards and performs
/// nothing: on `Close`, on disconnection, and whenever it was stopped
/// already, whatever arrives.
pub open spec fn step_spec<T, W>(state: WorkerState, received: Option<WtMessage<T, W>>) -> (
    WorkerState,
    WtAction<T, W>,
) {
    match (state, received) {
        (WorkerState::Running, Some(WtMessage::Callback(token, work))) => (
            WorkerState::Running,
            WtAction::Run(token, work),
        ),
        _ => (WorkerState::Stopped, WtAction::Exit),
    }
}

impl WorkerState {
    /// Decides one turn of the worker loop.
    ///
    /// The caller receives from the channel, passes what it got, performs
    /// the returned action and continues with the returned state. The
    /// state that follows work is fixed before the work runs: whether the
    /// work succeeds or fails, the worker goes on.
    pub fn step<T, W>(self, received: Option<WtMessage<T, W>>) -> (r: (WorkerState, WtAction<T, W>))
        ensures
            r == step_spec(self, received),
    {
        match self {
            WorkerState::Running => match received {
                Some(WtMessage::Callback(token, work)) => (
                    WorkerState::Running,
                    WtAction::Run(token, work),
                ),
                Some(WtMessage::Close) => (WorkerState::Stopped, WtAction::Exit),
                None => (WorkerState::Stopped, WtAction::Exit),
            },
            WorkerState::Stopped => (WorkerState::Stopped, WtAction::Exit),
        }
    }
}

} // verus!
