//! A model of the whole bridge, on which its laws are stated.
//!
//! The bridge runs on two threads, and the channel between them is outside
//! the verifier's sight. The model replaces the channel by the sequence of
//! messages in transit and describes a run as a sequence of events, each of
//! which is atomic: the host sends a message, or the worker takes its next
//! one. Any interleaving of the two is a run, and sends issued by several
//! callers at once appear in it in the order in which the channel took
//! them.
//!
//! The model decides nothing of its own. What the worker does with a
//! message is `step_spec`, the function that `WorkerState::step` computes;
//! what the host does with the outcome of a send is `rejection_spec`, the
//! function that `into_rejection` computes. The one assumption is the
//! channel's: a send is accepted exactly as long as the worker has not
//! stopped, and an accepted message waits behind those accepted before it.
//!
//! A worker that stops drops the receiving half of the channel, and only
//! then does a send fail. The model makes one event of the two, placed
//! where the half is dropped. A message sent in between belongs, in the
//! model, before that event: it is queued behind the `Close`, and in the
//! model as on the real channel its send succeeds and it is dropped
//! unread.
//!
//! A run follows a bridge whose handle is alive. `hang_up` tells how it
//! ends when the last handle is dropped.

use vstd::prelude::*;
use crate::handle::Closed;
use crate::message::{tokens, WtMessage};
use crate::rejection::{rejection_spec, Rejection};
use crate::worker::{step_spec, WorkerState, WtAction};

verus! {

/// The state of a bridge and the fate, so far, of every token given to it.
pub struct Bridge<T, W> {
    /// The worker's state.
    pub worker: WorkerState,
    /// The messages in transit, oldest first.
    pub queue: Seq<WtMessage<T, W>>,
    /// The tokens that the worker handed to their work, in that order. The
    /// work settles such a token.
    pub ran: Seq<T>,
    /// The tokens of the work that was still queued when the worker
    /// stopped. Nobody settles such a token.
    pub dropped: Seq<T>,
    /// The tokens that came back to their sender, in that order. The sender
    /// settles such a token with a failure.
    pub rejected: Seq<T>,
    /// How many sends of `Close` failed.
    pub raised: nat,
}

/// One atomic event of a run.
pub enum Event<T, W> {
    /// The host sends a message: `Wt::send` for work, `Wt::close` for
    /// `Close`.
    Send(WtMessage<T, W>),
    /// The worker takes the next message, if one is waiting.
    Receive,
}

impl<T, W> Bridge<T, W> {
    /// A new bridge: the worker runs and nothing was sent.
    pub open spec fn new() -> Self {
        Bridge {
            worker: WorkerState::Running,
            queue: Seq::empty(),
            ran: Seq::empty(),
            dropped: Seq::empty(),
            rejected: Seq::empty(),
            raised: 0,
        }
    }

    /// What the channel answers to a send of `message`.
    pub open spec fn answer(self, message: WtMessage<T, W>) -> Result<(), Closed<T, W>> {
        if self.worker is Running {
            Ok(())
        } else {
            Err(Closed(message))
        }
    }

    /// The host sends `message` and does what `rejection_spec` says it
    /// owes.
    pub open spec fn send(self, message: WtMessage<T, W>) -> Self {
        match rejection_spec(self.answer(message)) {
            Rejection::Delivered => Bridge { queue: self.queue.push(message), ..self },
            Rejection::Reject(token, _) => Bridge { rejected: self.rejected.push(token), ..self },
            Rejection::Raise(_) => Bridge { raised: self.raised + 1, ..self },
        }
    }

    /// The worker takes the oldest message and does what `step_spec` says.
    /// With nothing queued the worker waits, and a stopped worker takes
    /// nothing: the state is unchanged.
    pub open spec fn receive(self) -> Self {
        if self.worker is Running && self.queue.len() > 0 {
            let (next, action) = step_spec(self.worker, Some(self.queue.first()));
            let rest = self.queue.drop_first();
            match action {
                WtAction::Run(token, _) => Bridge {
                    worker: next,
                    queue: rest,
                    ran: self.ran.push(token),
                    ..self
                },
                WtAction::Exit => Bridge {
                    worker: next,
                    queue: Seq::empty(),
                    dropped: self.dropped + tokens(rest),
                    ..self
                },
            }
        } else {
            self
        }
    }

    /// The state after one event.
    pub open spec fn next(self, event: Event<T, W>) -> Self {
        match event {
            Event::Send(message) => self.send(message),
            Event::Receive => self.receive(),
        }
    }

    /// The state after `events`, in their order.
    pub open spec fn run(self, events: Seq<Event<T, W>>) -> Self
        decreases events.len(),
    {
        if events.len() == 0 {
            self
        } else {
            self.run(events.drop_last()).next(events.last())
        }
    }

    /// The state after the last handle is dropped: nothing more is sent, the
    /// worker takes what is queued, turn by turn, and then finds the channel
    /// disconnected, which is `step_spec` on `None`.
    pub open spec fn hang_up(self) -> Self
        decreases self.queue.len(),
    {
        if self.worker is Stopped {
            self
        } else if self.queue.len() == 0 {
            Bridge { worker: step_spec::<T, W>(self.worker, None).0, ..self }
        } else {
            self.receive().hang_up()
        }
    }

    /// The tokens that have reached the party that settles them: the work
    /// that ran, then the senders that were refused.
    pub open spec fn settled(self) -> Seq<T> {
        self.ran + self.rejected
    }
}

/// The messages that the host sent during `events`, in their order, whether
/// the channel took them or not.
pub open spec fn sent<T, W>(events: Seq<Event<T, W>>) -> Seq<WtMessage<T, W>>
    decreases events.len(),
{
    if events.len() == 0 {
        Seq::empty()
    } else {
        match events.last() {
            Event::Send(message) => sent(events.drop_last()).push(message),
            Event::Receive => sent(events.drop_last()),
        }
    }
}

/// How many times the worker was given a turn during `events`.
pub open spec fn receives<T, W>(events: Seq<Event<T, W>>) -> nat
    decreases events.len(),
{
    if events.len() == 0 {
        0
    } else {
        match events.last() {
            Event::Send(_) => receives(events.drop_last()),
            Event::Receive => receives(events.drop_last()) + 1,
        }
    }
}

/// The tokens of the tasks submitted during `events`, in their order.
pub open spec fn submitted<T, W>(events: Seq<Event<T, W>>) -> Seq<T> {
    tokens(sent(events))
}

} // verus!
