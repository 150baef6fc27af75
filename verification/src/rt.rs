//! Channels between the tasks of the server.
use vstd::prelude::*;

verus! {

/// The sending half of an unbounded channel of the tokio runtime.
#[verifier::external_type_specification]
#[verifier::external_body]
#[verifier::reject_recursive_types(T)]
pub struct ExUnboundedSender<T>(tokio::sync::mpsc::UnboundedSender<T>);

/// A message that could not be delivered because the receiving half of its
/// channel is gone; it hands the message back.
pub struct SendError<T>(pub T);

/// Calls `tokio::sync::mpsc::UnboundedSender::send`.
///
/// Claimed: when the call fails, the error hands back the very value that was
/// passed in (tokio documents that "the error includes the value passed to
/// `send`"). Whether it fails depends on whether the receiver is still alive,
/// which is not stated.
#[verifier::external_body]
pub(crate) fn channel_send<T>(tx: &tokio::sync::mpsc::UnboundedSender<T>, message: T) -> (r: Result<(), SendError<T>>)
    ensures
        r matches Err(e) ==> e.0 == message,
{
    match tx.send(message) {
        Ok(()) => Ok(()),
        Err(tokio::sync::mpsc::error::SendError(m)) => Err(SendError(m)),
    }
}

/// Calls `Clone::clone` on a `tokio::sync::mpsc::UnboundedSender`.
///
/// Claimed: the copy equals the original handle. tokio's clone builds a new
/// handle around a clone of the same `Arc` of the shared channel (it only bumps
/// the count of senders kept inside that channel), so both feed one channel.
#[verifier::external_body]
pub(crate) fn channel_clone<T>(tx: &tokio::sync::mpsc::UnboundedSender<T>) -> (r: tokio::sync::mpsc::UnboundedSender<T>)
    ensures
        r == *tx,
{
    tx.clone()
}

} // verus!
