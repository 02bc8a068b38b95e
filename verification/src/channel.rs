//! The channel primitives that carry lines to a session and replies to a
//! requester. Their behaviour is taken on trust from `tokio`.

use vstd::prelude::*;
use crate::models::DeliveryOutcome;
use crate::models::RegisterResult;

verus! {

#[verifier::external_type_specification]
#[verifier::external_body]
#[verifier::reject_recursive_types(T)]
pub struct ExMailboxSender<T>(tokio::sync::mpsc::Sender<T>);

#[verifier::external_type_specification]
#[verifier::external_body]
#[verifier::reject_recursive_types(T)]
pub struct ExReplySender<T>(tokio::sync::oneshot::Sender<T>);

/// Calls `tokio::sync::mpsc::Sender::try_send`, which never waits, and
/// reports which of its three results came back. Which one comes back
/// depends on how full the mailbox is and on whether its receiver is alive,
/// so nothing is claimed about it.
#[verifier::external_body]
pub(crate) fn try_deliver(mailbox: &tokio::sync::mpsc::Sender<String>, line: String) -> (outcome:
    DeliveryOutcome) {
    match mailbox.try_send(line) {
        Ok(()) => DeliveryOutcome::Delivered,
        Err(tokio::sync::mpsc::error::TrySendError::Full(_)) => DeliveryOutcome::Dropped,
        Err(tokio::sync::mpsc::error::TrySendError::Closed(_)) => DeliveryOutcome::Closed,
    }
}

/// Calls `tokio::sync::oneshot::Sender::send`, which consumes the reply slot,
/// and reports whether the requester was still there to take the answer.
/// That depends on the requester alone, so nothing is claimed about it.
#[verifier::external_body]
pub(crate) fn send_reply(
    responder: tokio::sync::oneshot::Sender<RegisterResult>,
    result: RegisterResult,
) -> (accepted: bool) {
    responder.send(result).is_ok()
}

} // verus!
