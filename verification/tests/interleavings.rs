use std::cell::RefCell;
use std::collections::VecDeque;
use std::rc::Rc;

use worker_bridge::{Rejection, SendResultExt, WorkerState, Wt, WtAction};

#[derive(Clone, Copy, Debug, PartialEq, Eq)]
enum Fate {
    Ran,
    Rejected,
    Dropped,
}

type Log = Rc<RefCell<Vec<(u64, Fate)>>>;

/// A completion token that records what becomes of it, also when it is
/// dropped without having been settled.
struct Token {
    id: u64,
    log: Log,
    settled: bool,
}

impl Token {
    fn new(id: u64, log: &Log) -> Token {
        Token { id, log: Rc::clone(log), settled: false }
    }

    fn settle(mut self, fate: Fate) {
        self.log.borrow_mut().push((self.id, fate));
        self.settled = true;
    }
}

impl Drop for Token {
    fn drop(&mut self) {
        if !self.settled {
            self.log.borrow_mut().push((self.id, Fate::Dropped));
        }
    }
}

/// A small deterministic generator of pseudo-random numbers.
struct Lcg(u64);

impl Lcg {
    fn next(&mut self) -> u64 {
        self.0 = self.0.wrapping_mul(6364136223846793005).wrapping_add(1442695040888963407);
        self.0 >> 33
    }
}

#[derive(Clone, Copy, Debug)]
enum Event {
    Send(u64),
    Close,
    Receive,
}

fn events(seed: u64, length: usize) -> Vec<Event> {
    let mut lcg = Lcg(seed);
    let mut next_id = 0;
    let mut out = Vec::new();
    for _ in 0..length {
        let r = lcg.next() % 16;
        if r < 8 {
            out.push(Event::Send(next_id));
            next_id += 1;
        } else if r < 15 {
            out.push(Event::Receive);
        } else {
            out.push(Event::Close);
        }
    }
    out
}

/// What is expected of a run: the tokens that ran, were dropped and were
/// refused, each list in order, and the number of refused closes.
#[derive(Debug, Default, PartialEq, Eq)]
struct Outcome {
    ran: Vec<u64>,
    dropped: Vec<u64>,
    rejected: Vec<u64>,
    raised: usize,
}

/// The run as a queue on paper: `None` stands for a close.
fn expected(events: &[Event]) -> Outcome {
    let mut out = Outcome::default();
    let mut queue: VecDeque<Option<u64>> = VecDeque::new();
    let mut running = true;
    for event in events {
        match *event {
            Event::Send(id) if running => queue.push_back(Some(id)),
            Event::Send(id) => out.rejected.push(id),
            Event::Close if running => queue.push_back(None),
            Event::Close => out.raised += 1,
            Event::Receive => {
                if running {
                    match queue.pop_front() {
                        Some(Some(id)) => out.ran.push(id),
                        Some(None) => {
                            running = false;
                            out.dropped.extend(queue.drain(..).flatten());
                        }
                        None => {}
                    }
                }
            }
        }
    }
    // The handle is dropped: the worker takes what is left.
    while running {
        match queue.pop_front() {
            Some(Some(id)) => out.ran.push(id),
            Some(None) => {
                running = false;
                out.dropped.extend(queue.drain(..).flatten());
            }
            None => running = false,
        }
    }
    out
}

/// The same run on a bridge.
fn observed(events: &[Event]) -> Outcome {
    let log: Log = Rc::new(RefCell::new(Vec::new()));
    let (wt, rx) = Wt::<Token, ()>::new();
    let mut rx = Some(rx);
    let mut state = WorkerState::Running;
    let mut queued = 0usize;
    let mut raised = 0usize;
    for event in events {
        match *event {
            Event::Send(id) => match wt.send(Token::new(id, &log), ()).into_rejection() {
                Rejection::Delivered => queued += 1,
                Rejection::Reject(token, _) => token.settle(Fate::Rejected),
                Rejection::Raise(_) => panic!("work was sent, not a close"),
            },
            Event::Close => match wt.close().into_rejection() {
                Rejection::Delivered => queued += 1,
                Rejection::Raise(_) => raised += 1,
                Rejection::Reject(..) => panic!("a close was sent, not work"),
            },
            Event::Receive => {
                // With nothing queued the worker would wait: no turn.
                if state == WorkerState::Running && queued > 0 {
                    queued -= 1;
                    let received = rx.as_ref().and_then(|rx| rx.try_recv().ok());
                    assert!(received.is_some());
                    let (next, action) = state.step(received);
                    state = next;
                    match action {
                        WtAction::Run(token, ()) => token.settle(Fate::Ran),
                        WtAction::Exit => rx = None,
                    }
                }
            }
        }
    }
    drop(wt);
    while state == WorkerState::Running {
        let received = rx.as_ref().and_then(|rx| rx.recv().ok());
        let (next, action) = state.step(received);
        state = next;
        match action {
            WtAction::Run(token, ()) => token.settle(Fate::Ran),
            WtAction::Exit => rx = None,
        }
    }
    assert!(rx.is_none());

    let log = log.borrow();
    let pick = |fate: Fate| -> Vec<u64> {
        log.iter().filter(|(_, f)| *f == fate).map(|(id, _)| *id).collect()
    };
    let mut dropped = pick(Fate::Dropped);
    dropped.sort();
    Outcome { ran: pick(Fate::Ran), dropped, rejected: pick(Fate::Rejected), raised }
}

#[test]
fn a_bridge_behaves_as_a_queue_on_every_interleaving() {
    for seed in 0..300u64 {
        let length = 1 + (seed as usize % 60);
        let run = events(seed, length);
        assert_eq!(observed(&run), expected(&run), "seed {}: {:?}", seed, run);
    }
}

#[test]
fn every_token_has_one_fate_on_every_interleaving() {
    for seed in 1000..1300u64 {
        let run = events(seed, 80);
        let submitted: Vec<u64> = run
            .iter()
            .filter_map(|event| match event {
                Event::Send(id) => Some(*id),
                _ => None,
            })
            .collect();
        let seen = observed(&run);
        let mut all: Vec<u64> = Vec::new();
        all.extend(&seen.ran);
        all.extend(&seen.dropped);
        all.extend(&seen.rejected);
        all.sort();
        assert_eq!(all, submitted, "seed {}", seed);
        // What ran did so in the order of submission.
        assert!(seen.ran.windows(2).all(|pair| pair[0] < pair[1]));
        assert!(seen.rejected.windows(2).all(|pair| pair[0] < pair[1]));
    }
}

#[test]
fn without_a_close_every_task_runs_in_order() {
    for seed in 2000..2100u64 {
        let run: Vec<Event> = events(seed, 50)
            .into_iter()
            .filter(|event| !matches!(event, Event::Close))
            .collect();
        let submitted: Vec<u64> = run
            .iter()
            .filter_map(|event| match event {
                Event::Send(id) => Some(*id),
                _ => None,
            })
            .collect();
        let seen = observed(&run);
        assert_eq!(seen.ran, submitted);
        assert!(seen.dropped.is_empty());
        assert!(seen.rejected.is_empty());
        assert_eq!(seen.raised, 0);
    }
}

#[test]
fn work_accepted_behind_a_close_is_dropped_unsettled() {
    let run = vec![Event::Close, Event::Send(0), Event::Receive];
    let seen = observed(&run);
    assert_eq!(
        seen,
        Outcome { ran: vec![], dropped: vec![0], rejected: vec![], raised: 0 }
    );
}
