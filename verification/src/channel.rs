//! The per-key channel between the registry and a consumer.

use vstd::prelude::*;

verus! {

#[verifier::external_type_specification]
#[verifier::external_body]
#[verifier::reject_recursive_types(T)]
pub struct ExUnboundedSender<T>(tokio::sync::mpsc::UnboundedSender<T>);

#[verifier::external_type_specification]
#[verifier::external_body]
#[verifier::reject_recursive_types(T)]
pub struct ExUnboundedReceiver<T>(tokio::sync::mpsc::UnboundedReceiver<T>);

/// What a consumer finds when it looks into its channel without waiting.
pub enum Polled<T> {
    /// The oldest message not yet taken.
    Ready(T),
    /// Nothing is waiting, and the producer side is still open.
    Empty,
    /// Nothing is waiting, and nothing will come: the producer side is closed.
    Closed,
}

/// Calls `tokio::sync::mpsc::unbounded_channel`. Nothing is claimed of the
/// two ends it returns.
#[verifier::external_body]
pub(crate) fn open_channel<T>() -> (ends: (
    tokio::sync::mpsc::UnboundedSender<T>,
    tokio::sync::mpsc::UnboundedReceiver<T>,
)) {
    tokio::sync::mpsc::unbounded_channel()
}

/// Calls `UnboundedSender::send`. Trusted: a message that could not be sent
/// comes back unchanged. Whether it can be sent depends on the consumer and
/// is left open.
#[verifier::external_body]
pub(crate) fn send_on<T>(sender: &tokio::sync::mpsc::UnboundedSender<T>, message: T) -> (sent: Result<(), T>)
    ensures
        sent.is_err() ==> sent.unwrap_err() == message,
{
    sender.send(message).map_err(|e| e.0)
}

/// Calls `UnboundedReceiver::try_recv`. Nothing is claimed of what it finds.
#[verifier::external_body]
pub(crate) fn poll_channel<T>(receiver: &mut tokio::sync::mpsc::UnboundedReceiver<T>) -> (found: Polled<T>) {
    match receiver.try_recv() {
        Ok(message) => Polled::Ready(message),
        Err(tokio::sync::mpsc::error::TryRecvError::Empty) => Polled::Empty,
        Err(tokio::sync::mpsc::error::TryRecvError::Disconnected) => Polled::Closed,
    }
}

} // verus!
