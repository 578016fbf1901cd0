//! The channel between the host and the worker: `std::sync::mpsc`.
//!
//! Verus does not look inside the channel. This file declares its two
//! halves and states, without proof, the little that the bridge relies on.

use vstd::prelude::*;

verus! {

/// The sending half, `std::sync::mpsc::Sender`. Opaque to the verifier.
#[verifier::external_type_specification]
#[verifier::external_body]
#[verifier::reject_recursive_types(T)]
pub struct ExSender<T>(std::sync::mpsc::Sender<T>);

/// The receiving half, `std::sync::mpsc::Receiver`. Opaque to the verifier.
#[verifier::external_type_specification]
#[verifier::external_body]
#[verifier::reject_recursive_types(T)]
pub struct ExReceiver<T>(std::sync::mpsc::Receiver<T>);

/// `std::sync::mpsc::channel` creates an unbounded channel and returns its
/// two halves. Nothing is claimed of them.
pub assume_specification<T>[ std::sync::mpsc::channel::<T> ]() -> (halves: (
    std::sync::mpsc::Sender<T>,
    std::sync::mpsc::Receiver<T>,
));

/// `std::sync::mpsc::Sender::send` never blocks. When the receiving half is
/// gone it fails and gives the value back inside its error: that the value
/// of a failure is the value that was passed in is all that is claimed.
/// Whether the send succeeds depends on the other end, so nothing is said
/// of it.
#[verifier::external_body]
pub(crate) fn channel_send<T>(tx: &std::sync::mpsc::Sender<T>, value: T) -> (r: Result<(), T>)
    ensures
        r matches Err(back) ==> back == value,
{
    match tx.send(value) {
        Ok(()) => Ok(()),
        Err(error) => Err(error.0),
    }
}

} // verus!
