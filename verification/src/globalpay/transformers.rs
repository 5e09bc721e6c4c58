//! How Global Payments' vocabulary maps to the canonical model.

use vstd::prelude::*;
use crate::attempt::{ConnectorEvent, EventSource};
use crate::canonical::CanonicalStatus;
use crate::connector::{Connector, ConnectorError};
use crate::globalpay::response::{
    GlobalpayPaymentStatus, GlobalpayPaymentsResponse, GlobalpayWebhookObjectEventType,
    GlobalpayWebhookObjectId, GlobalpayWebhookStatus,
};
use crate::webhook::{WebhookNotice, WebhookRejected};
use crate::text::same_text;

verus! {

/// The name under which the processor reports a payment status.
pub open spec fn payment_status_name(status: GlobalpayPaymentStatus) -> Seq<char> {
    match status {
        GlobalpayPaymentStatus::Captured => "CAPTURED"@,
        GlobalpayPaymentStatus::Declined => "DECLINED"@,
        GlobalpayPaymentStatus::Funded => "FUNDED"@,
        GlobalpayPaymentStatus::Initiated => "INITIATED"@,
        GlobalpayPaymentStatus::Pending => "PENDING"@,
        GlobalpayPaymentStatus::Preauthorized => "PREAUTHORIZED"@,
        GlobalpayPaymentStatus::Rejected => "REJECTED"@,
        GlobalpayPaymentStatus::Reversed => "REVERSED"@,
    }
}

/// The payment status that a raw value names, if it names one.
pub open spec fn payment_status_named(raw: Seq<char>) -> Option<GlobalpayPaymentStatus> {
    if exists|s: GlobalpayPaymentStatus| payment_status_name(s) == raw {
        Some(choose|s: GlobalpayPaymentStatus| payment_status_name(s) == raw)
    } else {
        None
    }
}

/// The canonical status that stands for a payment status of the processor.
pub open spec fn canonical_of(status: GlobalpayPaymentStatus) -> CanonicalStatus {
    match status {
        GlobalpayPaymentStatus::Captured | GlobalpayPaymentStatus::Funded =>
            CanonicalStatus::Charged,
        GlobalpayPaymentStatus::Declined | GlobalpayPaymentStatus::Rejected =>
            CanonicalStatus::Failure,
        GlobalpayPaymentStatus::Preauthorized => CanonicalStatus::Authorized,
        GlobalpayPaymentStatus::Reversed => CanonicalStatus::Voided,
        GlobalpayPaymentStatus::Initiated => CanonicalStatus::AuthenticationPending,
        GlobalpayPaymentStatus::Pending => CanonicalStatus::Pending,
    }
}

/// No two payment statuses share a name.
pub proof fn lemma_payment_status_names_differ(a: GlobalpayPaymentStatus, b: GlobalpayPaymentStatus)
    ensures
        payment_status_name(a) == payment_status_name(b) ==> a == b,
{
    reveal_strlit("CAPTURED");
    reveal_strlit("DECLINED");
    reveal_strlit("FUNDED");
    reveal_strlit("INITIATED");
    reveal_strlit("PENDING");
    reveal_strlit("PREAUTHORIZED");
    reveal_strlit("REJECTED");
    reveal_strlit("REVERSED");
    if payment_status_name(a) == payment_status_name(b) {
        assert(payment_status_name(a).len() == payment_status_name(b).len());
        assert(payment_status_name(a)[0] == payment_status_name(b)[0]);
        assert(payment_status_name(a)[2] == payment_status_name(b)[2]);
    }
}

/// Every payment status is read back from its own name.
pub proof fn lemma_payment_status_name_is_read_back(status: GlobalpayPaymentStatus)
    ensures
        payment_status_named(payment_status_name(status)) == Some(status),
{
    let raw = payment_status_name(status);
    assert(payment_status_name(status) == raw);
    let t = choose|t: GlobalpayPaymentStatus| payment_status_name(t) == raw;
    lemma_payment_status_names_differ(status, t);
}

impl GlobalpayPaymentStatus {
    /// The name under which the processor reports this status.
    pub fn raw_name(self) -> (r: &'static str)
        ensures
            r@ == payment_status_name(self),
    {
        match self {
            GlobalpayPaymentStatus::Captured => "CAPTURED",
            GlobalpayPaymentStatus::Declined => "DECLINED",
            GlobalpayPaymentStatus::Funded => "FUNDED",
            GlobalpayPaymentStatus::Initiated => "INITIATED",
            GlobalpayPaymentStatus::Pending => "PENDING",
            GlobalpayPaymentStatus::Preauthorized => "PREAUTHORIZED",
            GlobalpayPaymentStatus::Rejected => "REJECTED",
            GlobalpayPaymentStatus::Reversed => "REVERSED",
        }
    }

    /// Reads a status from the name under which the processor reports it.
    /// Any other text names no status.
    pub fn from_raw(raw: &str) -> (r: Option<GlobalpayPaymentStatus>)
        ensures
            r == payment_status_named(raw@),
    {
        let r = if same_text(raw, "CAPTURED") {
            Some(GlobalpayPaymentStatus::Captured)
        } else if same_text(raw, "DECLINED") {
            Some(GlobalpayPaymentStatus::Declined)
        } else if same_text(raw, "FUNDED") {
            Some(GlobalpayPaymentStatus::Funded)
        } else if same_text(raw, "INITIATED") {
            Some(GlobalpayPaymentStatus::Initiated)
        } else if same_text(raw, "PENDING") {
            Some(GlobalpayPaymentStatus::Pending)
        } else if same_text(raw, "PREAUTHORIZED") {
            Some(GlobalpayPaymentStatus::Preauthorized)
        } else if same_text(raw, "REJECTED") {
            Some(GlobalpayPaymentStatus::Rejected)
        } else if same_text(raw, "REVERSED") {
            Some(GlobalpayPaymentStatus::Reversed)
        } else {
            None
        };
        proof {
            match r {
                Some(s) => {
                    assert(payment_status_name(s) == raw@);
                    let t = choose|t: GlobalpayPaymentStatus| payment_status_name(t) == raw@;
                    lemma_payment_status_names_differ(s, t);
                },
                None => {
                    assert forall|s: GlobalpayPaymentStatus| payment_status_name(s) != raw@ by {}
                },
            }
        }
        r
    }

    /// The canonical status that stands for this status.
    pub fn to_canonical(self) -> (r: CanonicalStatus)
        ensures
            r == canonical_of(self),
    {
        match self {
            GlobalpayPaymentStatus::Captured | GlobalpayPaymentStatus::Funded =>
                CanonicalStatus::Charged,
            GlobalpayPaymentStatus::Declined | GlobalpayPaymentStatus::Rejected =>
                CanonicalStatus::Failure,
            GlobalpayPaymentStatus::Preauthorized => CanonicalStatus::Authorized,
            GlobalpayPaymentStatus::Reversed => CanonicalStatus::Voided,
            GlobalpayPaymentStatus::Initiated => CanonicalStatus::AuthenticationPending,
            GlobalpayPaymentStatus::Pending => CanonicalStatus::Pending,
        }
    }
}

/// The status that a raw value of a notification names; any value other
/// than the two that notifications report is `Unknown`.
pub open spec fn webhook_status_named(raw: Seq<char>) -> GlobalpayWebhookStatus {
    if raw == "DECLINED"@ {
        GlobalpayWebhookStatus::Declined
    } else if raw == "CAPTURED"@ {
        GlobalpayWebhookStatus::Captured
    } else {
        GlobalpayWebhookStatus::Unknown
    }
}

/// The canonical status that a notification's status stands for, if any.
pub open spec fn webhook_canonical_of(status: GlobalpayWebhookStatus) -> Option<CanonicalStatus> {
    match status {
        GlobalpayWebhookStatus::Declined => Some(CanonicalStatus::Failure),
        GlobalpayWebhookStatus::Captured => Some(CanonicalStatus::Charged),
        GlobalpayWebhookStatus::Unknown => None,
    }
}

impl GlobalpayWebhookStatus {
    /// Reads the status that a notification reports.
    pub fn from_raw(raw: &str) -> (r: GlobalpayWebhookStatus)
        ensures
            r == webhook_status_named(raw@),
    {
        if same_text(raw, "DECLINED") {
            GlobalpayWebhookStatus::Declined
        } else if same_text(raw, "CAPTURED") {
            GlobalpayWebhookStatus::Captured
        } else {
            GlobalpayWebhookStatus::Unknown
        }
    }

    /// The canonical status that this status stands for; `Unknown` stands
    /// for none.
    pub fn to_canonical(self) -> (r: Option<CanonicalStatus>)
        ensures
            r == webhook_canonical_of(self),
    {
        match self {
            GlobalpayWebhookStatus::Declined => Some(CanonicalStatus::Failure),
            GlobalpayWebhookStatus::Captured => Some(CanonicalStatus::Charged),
            GlobalpayWebhookStatus::Unknown => None,
        }
    }
}

/// The canonical status that a raw payment status stands for, if the
/// processor documents that raw value.
pub open spec fn mapped_status(raw: Seq<char>) -> Option<CanonicalStatus> {
    match payment_status_named(raw) {
        Some(s) => Some(canonical_of(s)),
        None => None,
    }
}

/// The raw payment statuses that the processor documents.
pub open spec fn documented() -> Seq<Seq<char>> {
    seq![
        "CAPTURED"@,
        "DECLINED"@,
        "FUNDED"@,
        "INITIATED"@,
        "PENDING"@,
        "PREAUTHORIZED"@,
        "REJECTED"@,
        "REVERSED"@,
    ]
}

/// The raw payment statuses that the processor documents.
pub fn documented_statuses() -> (r: Vec<&'static str>)
    ensures
        r@.len() == documented().len(),
        forall|i: int| 0 <= i < r@.len() ==> (#[trigger] r@[i])@ == documented()[i],
{
    let mut names: Vec<&'static str> = Vec::new();
    names.push("CAPTURED");
    names.push("DECLINED");
    names.push("FUNDED");
    names.push("INITIATED");
    names.push("PENDING");
    names.push("PREAUTHORIZED");
    names.push("REJECTED");
    names.push("REVERSED");
    names
}

/// Each documented raw status has its canonical status, and no other value
/// has one.
pub proof fn lemma_documented_statuses_are_mapped(raw: Seq<char>)
    ensures
        documented().contains(raw) <==> mapped_status(raw) is Some,
        mapped_status("CAPTURED"@) == Some(CanonicalStatus::Charged),
        mapped_status("DECLINED"@) == Some(CanonicalStatus::Failure),
        mapped_status("FUNDED"@) == Some(CanonicalStatus::Charged),
        mapped_status("INITIATED"@) == Some(CanonicalStatus::AuthenticationPending),
        mapped_status("PENDING"@) == Some(CanonicalStatus::Pending),
        mapped_status("PREAUTHORIZED"@) == Some(CanonicalStatus::Authorized),
        mapped_status("REJECTED"@) == Some(CanonicalStatus::Failure),
        mapped_status("REVERSED"@) == Some(CanonicalStatus::Voided),
{
    lemma_payment_status_name_is_read_back(GlobalpayPaymentStatus::Captured);
    lemma_payment_status_name_is_read_back(GlobalpayPaymentStatus::Declined);
    lemma_payment_status_name_is_read_back(GlobalpayPaymentStatus::Funded);
    lemma_payment_status_name_is_read_back(GlobalpayPaymentStatus::Initiated);
    lemma_payment_status_name_is_read_back(GlobalpayPaymentStatus::Pending);
    lemma_payment_status_name_is_read_back(GlobalpayPaymentStatus::Preauthorized);
    lemma_payment_status_name_is_read_back(GlobalpayPaymentStatus::Rejected);
    lemma_payment_status_name_is_read_back(GlobalpayPaymentStatus::Reversed);
    let d = documented();
    if d.contains(raw) {
        let i = choose|i: int| 0 <= i < d.len() && d[i] == raw;
        assert(mapped_status(d[i]) is Some);
    }
    if mapped_status(raw) is Some {
        let s = payment_status_named(raw)->Some_0;
        assert(payment_status_name(s) == raw);
        assert(d[0] == "CAPTURED"@ && d[1] == "DECLINED"@ && d[2] == "FUNDED"@ && d[3]
            == "INITIATED"@ && d[4] == "PENDING"@ && d[5] == "PREAUTHORIZED"@ && d[6]
            == "REJECTED"@ && d[7] == "REVERSED"@);
    }
}

/// Maps a raw payment status to the canonical model. A value that the
/// processor does not document fails with `UnmappedStatus`, which carries
/// the value as it came.
pub fn map_status(raw: &str) -> (r: Result<CanonicalStatus, ConnectorError>)
    ensures
        match mapped_status(raw@) {
            Some(s) => r == Ok::<CanonicalStatus, ConnectorError>(s),
            None => r matches Err(ConnectorError::UnmappedStatus(v)) && v@ == raw@,
        },
{
    match GlobalpayPaymentStatus::from_raw(raw) {
        Some(s) => Ok(s.to_canonical()),
        None => Err(ConnectorError::UnmappedStatus(raw.to_owned())),
    }
}


/// What a notification says, given whether its signature verified and what
/// was read from its payload.
///
/// A notification whose signature did not verify is rejected whatever it
/// holds; one whose payload lacks the transaction or the status is
/// malformed; one with a status other than the two that notifications
/// carry is rejected as such.
pub open spec fn notice_of(
    verified: bool,
    object: Option<GlobalpayWebhookObjectId>,
    event: Option<GlobalpayWebhookObjectEventType>,
) -> Result<WebhookNotice, WebhookRejected> {
    if !verified {
        Err(WebhookRejected::VerificationFailed)
    } else if object is None || event is None {
        Err(WebhookRejected::Malformed)
    } else {
        match webhook_canonical_of(event->Some_0.status) {
            None => Err(WebhookRejected::UnknownStatus),
            Some(status) => Ok(
                WebhookNotice { connector: Connector::Globalpay, reference: object->Some_0.id, status },
            ),
        }
    }
}

/// Reads a notification, given whether its signature verified and what was
/// read from its payload.
pub fn read_webhook(
    verified: bool,
    object: Option<GlobalpayWebhookObjectId>,
    event: Option<GlobalpayWebhookObjectEventType>,
) -> (r: Result<WebhookNotice, WebhookRejected>)
    ensures
        r == notice_of(verified, object, event),
{
    if !verified {
        return Err(WebhookRejected::VerificationFailed);
    }
    match (object, event) {
        (Some(object), Some(event)) => match event.status.to_canonical() {
            None => Err(WebhookRejected::UnknownStatus),
            Some(status) => Ok(
                WebhookNotice { connector: Connector::Globalpay, reference: object.id, status },
            ),
        },
        _ => Err(WebhookRejected::Malformed),
    }
}

/// The event that an answer of the processor to a call stands for: the
/// canonical status for the answer's status, under the processor's
/// identifier of the transaction.
pub fn event_of_response(
    response: &GlobalpayPaymentsResponse,
    source: EventSource,
    attempt_ref: u64,
    observed_at: u64,
) -> (r: ConnectorEvent)
    ensures
        r == (ConnectorEvent {
            source,
            attempt_ref,
            observed_status: canonical_of(response.status),
            connector_reference: Some(response.id),
            observed_at,
        }),
{
    ConnectorEvent {
        source,
        attempt_ref,
        observed_status: response.status.to_canonical(),
        connector_reference: Some(response.id.clone()),
        observed_at,
    }
}

} // verus!
