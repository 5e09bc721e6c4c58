//! The webhook normalizer's vocabulary: what a notification says once it
//! is verified and read, why one is rejected, and what the sender is told.
//!
//! A notification that cannot be verified or read is rejected and reaches
//! no attempt.

use vstd::prelude::*;
use crate::attempt::Reconciliation;
use crate::canonical::CanonicalStatus;
use crate::connector::Connector;

verus! {

/// Why a notification was rejected.
#[derive(Debug, Clone, Copy, PartialEq, Eq, Structural)]
pub enum WebhookRejected {
    /// The signature did not verify.
    VerificationFailed,
    /// The payload could not be read.
    Malformed,
    /// The payload reports a status that notifications of the connector do
    /// not carry.
    UnknownStatus,
    /// No attempt carries the processor's reference.
    UnknownReference,
}

/// What a verified notification says: for which transaction of which
/// connector, which status.
#[derive(Debug, PartialEq, Eq)]
pub struct WebhookNotice {
    pub connector: Connector,
    pub reference: String,
    pub status: CanonicalStatus,
}

/// What the sender of a notification is told. This speaks of the delivery
/// only; what became of the payment is a separate answer.
#[derive(Debug, Clone, Copy, PartialEq, Eq, Structural)]
pub enum WebhookAck {
    /// The notification was taken; it need not be sent again.
    Accepted,
    /// The notification was rejected.
    Rejected(WebhookRejected),
}

/// The two answers to a notification: the acknowledgement for the sender,
/// and, if the notification was taken, what became of its event.
#[derive(Debug, Clone, Copy, PartialEq, Eq, Structural)]
pub struct WebhookReceipt {
    pub ack: WebhookAck,
    pub outcome: Option<Reconciliation>,
}

} // verus!
