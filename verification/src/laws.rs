//! What holds of every run of the bridge.
//!
//! Each law is stated of `Bridge::new().run(events)` for an arbitrary
//! sequence of events, or of an arbitrary state of the model, and proved by
//! induction on the events.

use vstd::prelude::*;
use crate::error::WtError;
use crate::handle::{answers, Closed};
use crate::message::{
    before_close, has_close, lemma_before_close_is_all, lemma_before_close_len,
    lemma_before_close_push, lemma_has_close_first, lemma_has_close_push, lemma_tokens_first,
    lemma_tokens_push, tokens, WtMessage,
};
use crate::model::{receives, sent, submitted, Bridge, Event};
use crate::rejection::{rejection_spec, Rejection};
use crate::worker::WorkerState;

verus! {

/// The facts that every run keeps, proved together. `h` is all that was
/// sent.
///
/// While the worker runs, nothing was refused or dropped, the work that ran
/// and the work waiting before the first queued `Close` make up the work
/// sent before the first `Close`, and a `Close` was sent exactly if one is
/// still queued. Once it has stopped, the queue is empty, a `Close` was
/// sent, and the work sent before the first one has all run.
spec fn run_facts<T, W>(events: Seq<Event<T, W>>) -> bool {
    let b = Bridge::<T, W>::new().run(events);
    let h = sent(events);
    &&& b.ran + tokens(b.queue) + b.dropped + b.rejected == tokens(h)
    &&& b.worker is Running ==> {
        &&& b.dropped.len() == 0
        &&& b.rejected.len() == 0
        &&& b.raised == 0
        &&& b.ran + before_close(b.queue) == before_close(h)
        &&& has_close(h) <==> has_close(b.queue)
    }
    &&& b.worker is Stopped ==> {
        &&& b.queue.len() == 0
        &&& b.ran == before_close(h)
        &&& has_close(h)
    }
}

proof fn lemma_run_facts<T, W>(events: Seq<Event<T, W>>)
    ensures
        run_facts(events),
    decreases events.len(),
{
    if events.len() > 0 {
        let before = events.drop_last();
        lemma_run_facts(before);
        let a = Bridge::<T, W>::new().run(before);
        let b = Bridge::<T, W>::new().run(events);
        let h = sent(events);
        match events.last() {
            Event::Send(m) => {
                lemma_tokens_push(sent(before), m);
                lemma_has_close_push(sent(before), m);
                lemma_before_close_push(sent(before), m);
                if a.worker is Running {
                    lemma_tokens_push(a.queue, m);
                    lemma_has_close_push(a.queue, m);
                    lemma_before_close_push(a.queue, m);
                }
            },
            Event::Receive => {
                if a.worker is Running && a.queue.len() > 0 {
                    lemma_tokens_first(a.queue);
                    lemma_has_close_first(a.queue);
                    if a.queue.first() is Callback {
                        assert(b.ran + tokens(b.queue) + b.dropped + b.rejected =~= tokens(h));
                        assert(b.ran + before_close(b.queue) =~= before_close(h));
                    }
                }
            },
        }
    }
}

/// Every token has one fate. At every moment of every run, the tokens that
/// were handed to their work, those waiting in the queue, those dropped
/// with the queue and those handed back to their senders, put one after the
/// other, are the submitted tokens in the order of submission: each
/// submitted token is in one of the four places, and in one only.
pub proof fn every_token_has_one_fate<T, W>(events: Seq<Event<T, W>>)
    ensures
        ({
            let b = Bridge::<T, W>::new().run(events);
            &&& b.ran + tokens(b.queue) + b.dropped + b.rejected == submitted(events)
            &&& b.worker is Stopped ==> b.queue.len() == 0
            &&& b.worker is Running ==> b.dropped.len() == 0 && b.rejected.len() == 0
        }),
{
    lemma_run_facts(events);
}

/// Every token is settled once. When no message is waiting and no work was
/// dropped with the queue, the tokens that reached the party that settles
/// them, the work or the refused sender, are the submitted tokens, each
/// where it was submitted: none is missing and none occurs a second time.
/// This holds for any interleaving of the sends.
///
/// Work that is accepted behind a `Close` is dropped when the worker stops
/// and its token is never settled by the bridge: such runs are left out.
pub proof fn every_token_is_settled_once<T, W>(events: Seq<Event<T, W>>)
    requires
        Bridge::<T, W>::new().run(events).queue.len() == 0,
        Bridge::<T, W>::new().run(events).dropped.len() == 0,
    ensures
        Bridge::<T, W>::new().run(events).settled() == submitted(events),
{
    lemma_run_facts(events);
}

/// Tasks run in the order of their submission. What the worker has run is
/// always a prefix of what was submitted. As long as no `Close` was sent,
/// the tasks that ran followed by those still waiting are all the
/// submitted tasks, so once the queue is empty every one of them has run,
/// in the order of submission.
pub proof fn tasks_run_in_submission_order<T, W>(events: Seq<Event<T, W>>)
    ensures
        ({
            let b = Bridge::<T, W>::new().run(events);
            &&& b.ran.is_prefix_of(submitted(events))
            &&& !has_close(sent(events)) ==> b.ran + tokens(b.queue) == submitted(events)
            &&& !has_close(sent(events)) && b.queue.len() == 0 ==> b.ran == submitted(events)
        }),
{
    lemma_run_facts(events);
}

/// A `Close` does not preempt the work queued before it. The worker runs
/// nothing but the tasks submitted before the first `Close`, in their
/// order; while it runs, those among them that it has not run yet are the
/// ones waiting before the first `Close` of the queue; and when it has
/// stopped it has run every one of them. A worker that has stopped did
/// so on a `Close`.
pub proof fn close_does_not_preempt<T, W>(events: Seq<Event<T, W>>)
    ensures
        ({
            let b = Bridge::<T, W>::new().run(events);
            &&& b.ran.is_prefix_of(before_close(sent(events)))
            &&& b.worker is Running ==> b.ran + before_close(b.queue) == before_close(
                sent(events),
            )
            &&& b.worker is Stopped ==> b.ran == before_close(sent(events))
            &&& b.worker is Stopped ==> has_close(sent(events))
        }),
{
    lemma_run_facts(events);
}

/// A stopped worker refuses everything. Work sent to a bridge whose worker
/// has stopped comes back with `ChannelClosed`; its token is handed back
/// for rejection and nothing else changes. A stopped worker never runs
/// again.
pub proof fn stopped_worker_refuses<T, W>(b: Bridge<T, W>, token: T, work: W)
    requires
        b.worker is Stopped,
    ensures
        b.answer(WtMessage::Callback(token, work)) == Err::<(), Closed<T, W>>(
            Closed(WtMessage::Callback(token, work)),
        ),
        rejection_spec(b.answer(WtMessage::Callback(token, work))) == Rejection::Reject(
            token,
            WtError::ChannelClosed,
        ),
        b.send(WtMessage::Callback(token, work)) == (Bridge {
            rejected: b.rejected.push(token),
            ..b
        }),
        b.receive() == b,
{
}

/// How far a running worker is from a queued `Close`: as many turns as
/// there is work before it, and one more to take it.
proof fn lemma_close_is_reached<T, W>(b: Bridge<T, W>, later: Seq<Event<T, W>>)
    requires
        b.worker is Running,
        has_close(b.queue),
    ensures
        ({
            let c = b.run(later);
            let ahead = before_close(b.queue).len();
            &&& receives(later) > ahead ==> c.worker is Stopped
            &&& receives(later) <= ahead ==> {
                &&& c.worker is Running
                &&& has_close(c.queue)
                &&& before_close(c.queue).len() == ahead - receives(later)
            }
        }),
    decreases later.len(),
{
    if later.len() > 0 {
        let before = later.drop_last();
        lemma_close_is_reached(b, before);
        let a = b.run(before);
        if a.worker is Running {
            match later.last() {
                Event::Send(m) => {
                    lemma_has_close_push(a.queue, m);
                    lemma_before_close_push(a.queue, m);
                },
                Event::Receive => {
                    lemma_has_close_first(a.queue);
                },
            }
        }
    }
}

/// An accepted `Close` stops the worker. Once a `Close` is on the queue of
/// a running worker, the worker has stopped as soon as it has taken as many
/// turns as there were messages on the queue, whatever the host sends in
/// the meantime.
pub proof fn close_stops_the_worker<T, W>(b: Bridge<T, W>, later: Seq<Event<T, W>>)
    requires
        b.worker is Running,
        has_close(b.queue),
        receives(later) >= b.queue.len(),
    ensures
        b.run(later).worker is Stopped,
{
    lemma_before_close_len(b.queue);
    lemma_close_is_reached(b, later);
}

/// Closing twice. On a bridge to which no `Close` was sent yet, a `Close`
/// is accepted. Once the worker has taken its turns and stopped, a second
/// `Close` fails with `ChannelClosed`, which the caller reports as a plain
/// error: no token is involved and the state of the bridge does not change
/// but for the count of such failures.
///
/// `events` is the run before the first `Close` and `later` the run
/// between the first and the second.
pub proof fn second_close_fails<T, W>(events: Seq<Event<T, W>>, later: Seq<Event<T, W>>)
    requires
        !has_close(sent(events)),
        receives(later) > Bridge::<T, W>::new().run(events).queue.len(),
    ensures
        ({
            let first = Bridge::<T, W>::new().run(events);
            let second = Bridge::<T, W>::new().run(
                events.push(Event::Send(WtMessage::Close)) + later,
            );
            &&& first.answer(WtMessage::Close) is Ok
            &&& first.send(WtMessage::Close).queue == first.queue.push(WtMessage::Close)
            &&& second.worker is Stopped
            &&& second.answer(WtMessage::Close) == Err::<(), Closed<T, W>>(
                Closed(WtMessage::Close),
            )
            &&& rejection_spec(second.answer(WtMessage::Close)) == Rejection::<T>::Raise(
                WtError::ChannelClosed,
            )
            &&& second.send(WtMessage::Close) == (Bridge { raised: second.raised + 1, ..second })
        }),
{
    lemma_run_facts(events);
    let start = Bridge::<T, W>::new();
    let first = start.run(events);
    let closing = events.push(Event::Send(WtMessage::Close));
    assert(closing.drop_last() =~= events);
    assert(start.run(closing) == first.send(WtMessage::Close));
    runs_compose(start, closing, later);
    lemma_has_close_push(first.queue, WtMessage::Close);
    close_stops_the_worker(first.send(WtMessage::Close), later);
}

/// Where a worker ends once it is left alone: it has run the work that
/// waited before the first queued `Close`, and it has stopped.
proof fn lemma_hang_up<T, W>(b: Bridge<T, W>)
    requires
        b.worker is Running,
        b.dropped.len() == 0,
    ensures
        ({
            let d = b.hang_up();
            &&& d.worker is Stopped
            &&& d.queue.len() == 0
            &&& d.ran == b.ran + before_close(b.queue)
            &&& d.ran + d.dropped == b.ran + tokens(b.queue)
            &&& d.rejected == b.rejected
            &&& d.raised == b.raised
        }),
    decreases b.queue.len(),
{
    if b.queue.len() > 0 {
        lemma_tokens_first(b.queue);
        if b.receive().worker is Running {
            lemma_hang_up(b.receive());
        }
    }
}

/// Dropping the handle lets the worker finish. When the last handle of a
/// bridge is dropped, the worker runs what is still queued before the
/// first `Close` and stops. It has then run the tasks submitted before the
/// first `Close`, in the order of their submission: all the tasks that
/// were submitted, where no `Close` was sent, and then none was dropped.
pub proof fn dropping_the_handle_lets_the_worker_finish<T, W>(events: Seq<Event<T, W>>)
    ensures
        ({
            let b = Bridge::<T, W>::new().run(events);
            let d = b.hang_up();
            &&& d.worker is Stopped
            &&& d.queue.len() == 0
            &&& d.ran == before_close(sent(events))
            &&& d.ran + d.dropped + d.rejected == submitted(events)
            &&& d.rejected == b.rejected
            &&& !has_close(sent(events)) ==> d.ran == submitted(events) && d.dropped.len() == 0
        }),
{
    lemma_run_facts(events);
    let b = Bridge::<T, W>::new().run(events);
    if b.worker is Running {
        lemma_hang_up(b);
        if !has_close(sent(events)) {
            lemma_before_close_is_all(sent(events));
        }
    }
}

/// The worker takes one message per turn. A turn of a running worker with
/// messages waiting takes the oldest one, and only that one: work is handed
/// its token and leaves the queue, and a `Close` stops the worker, which
/// drops whatever was queued behind it without running it. With nothing
/// waiting, and once the worker has stopped, a turn changes nothing.
pub proof fn worker_takes_one_message_per_turn<T, W>(b: Bridge<T, W>)
    ensures
        b.worker is Stopped || b.queue.len() == 0 ==> b.receive() == b,
        b.worker is Running && b.queue.len() > 0 ==> b.receive() == match b.queue.first() {
            WtMessage::Callback(token, _) => Bridge {
                queue: b.queue.drop_first(),
                ran: b.ran.push(token),
                ..b
            },
            WtMessage::Close => Bridge {
                worker: WorkerState::Stopped,
                queue: Seq::empty(),
                dropped: b.dropped + tokens(b.queue.drop_first()),
                ..b
            },
        },
{
}

/// Runs compose: running `first` and then `second` is running the two put
/// together.
pub proof fn runs_compose<T, W>(b: Bridge<T, W>, first: Seq<Event<T, W>>, second: Seq<Event<T, W>>)
    ensures
        b.run(first + second) == b.run(first).run(second),
    decreases second.len(),
{
    if second.len() == 0 {
    } else {
        runs_compose(b, first, second.drop_last());
        assert((first + second).drop_last() =~= first + second.drop_last());
    }
}

/// The channel of the model answers as `Wt::send` and `Wt::close` may.
pub proof fn model_answers_as_the_channel<T, W>(b: Bridge<T, W>, message: WtMessage<T, W>)
    ensures
        answers(message, b.answer(message)),
{
}

} // verus!
