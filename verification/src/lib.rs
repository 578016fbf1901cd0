//! A single-worker task bridge.
//!
//! A host that must never block hands units of work to one background
//! worker through an unbounded channel. The worker takes the messages one
//! at a time, in the order in which they were sent, and stops at the first
//! `Close` message or when the channel is disconnected. Each unit of work
//! comes with a completion token, which is settled once: by the work when
//! it has run, or by the sender when the bridge refused the work.
//!
//! - [`Wt`] is the host's handle: [`Wt::new`] creates the queue,
//!   [`Wt::send`] submits work, [`Wt::close`] shuts the worker down.
//! - [`WorkerState::step`] decides each turn of the worker loop. The
//!   loop itself belongs to the thread that runs it: it receives, asks
//!   `step`, and performs what `step` answers.
//! - [`SendResultExt::into_rejection`] tells the sender what it owes after
//!   a send.
//! - [`model`] describes a bridge as a whole, and [`laws`] proves what
//!   holds of every run of it.
//!
//! The bridge moves tokens and work without looking into them, so both are
//! type parameters.

pub mod channel;
pub mod error;
pub mod handle;
pub mod laws;
pub mod message;
pub mod model;
pub mod rejection;
pub mod worker;

pub use error::WtError;
pub use handle::{Closed, Wt};
pub use message::WtMessage;
pub use rejection::{Rejection, SendResultExt};
pub use worker::{WorkerState, WtAction};
