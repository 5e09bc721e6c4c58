use payment_reconciliation::attempt::{
    ConnectorEvent, EventSource, PaymentAttempt, Reconciliation, ReconciliationConflict,
};
use payment_reconciliation::blocklist::{
    add_entry_to_blocklist, toggle_blocklist_guard, Blocked, Blocklist, Fingerprint, FingerprintKind,
};
use payment_reconciliation::canonical::{Amount, CanonicalStatus};
use payment_reconciliation::connector::{Connector, ConnectorError};
use payment_reconciliation::engine::{PaymentRequest, ReconciliationEngine, SubmitError, Submission};
use payment_reconciliation::globalpay::response::{
    GlobalpayWebhookObjectEventType, GlobalpayWebhookObjectId, GlobalpayWebhookStatus,
};
use payment_reconciliation::globalpay::transformers::read_webhook;
use payment_reconciliation::polling::{
    BackoffKind, BackoffPolicy, PollAction, PollOutcome, PollingTask, SyncReply, TerminalTarget,
};
use payment_reconciliation::registry::{
    ConnectorBinding, ConnectorRegistry, Credential, RegistryError,
};
use payment_reconciliation::webhook::{WebhookAck, WebhookNotice, WebhookReceipt, WebhookRejected};

fn gbp(minor_units: i64) -> Amount {
    Amount { minor_units, currency: *b"GBP" }
}

fn registry() -> ConnectorRegistry {
    let mut registry = ConnectorRegistry::new();
    registry.bind(ConnectorBinding {
        connector: Connector::Globalpay,
        profile_id: 4,
        credential: Some(Credential { secret: "app-key".to_string() }),
    });
    registry.bind(ConnectorBinding { connector: Connector::Globalpay, profile_id: 5, credential: None });
    registry
}

fn request(merchant_id: u64, profile_id: u64, card: &str) -> PaymentRequest {
    PaymentRequest {
        merchant_id,
        profile_id,
        payment_id: 900,
        connector_name: "globalpay".to_string(),
        amount: gbp(4999),
        fingerprints: vec![
            Fingerprint { kind: FingerprintKind::CardNumber, value: card.to_string() },
            Fingerprint { kind: FingerprintKind::Email, value: "fp_mail".to_string() },
        ],
    }
}

/// An engine with `n` attempts, each taken through the guard and the
/// registry; attempt `i` is for the payment `900 + i` and of `100 * (i + 1)`.
fn engine_with(n: u64) -> ReconciliationEngine {
    let mut engine = ReconciliationEngine::new();
    for i in 0..n {
        let request = PaymentRequest {
            merchant_id: 1,
            profile_id: 4,
            payment_id: 900 + i,
            connector_name: "globalpay".to_string(),
            amount: gbp(100 * (i as i64 + 1)),
            fingerprints: vec![],
        };
        assert!(engine.submit(&Blocklist::new(), &registry(), &request, 10 + i).is_ok());
    }
    engine
}

fn observed(attempt_ref: u64, status: CanonicalStatus, reference: &str, at: u64) -> ConnectorEvent {
    ConnectorEvent {
        source: EventSource::SyncCall,
        attempt_ref,
        observed_status: status,
        connector_reference: Some(reference.to_string()),
        observed_at: at,
    }
}

fn hook(id: &str, status: GlobalpayWebhookStatus) -> (Option<GlobalpayWebhookObjectId>, Option<GlobalpayWebhookObjectEventType>) {
    (
        Some(GlobalpayWebhookObjectId { id: id.to_string() }),
        Some(GlobalpayWebhookObjectEventType { status }),
    )
}

#[test]
fn submitted_request_creates_an_attempt() {
    let mut engine = ReconciliationEngine::new();
    let taken = engine.submit(&Blocklist::new(), &registry(), &request(1, 4, "fp_card"), 100);
    assert!(
        taken
            == Ok(Submission {
                attempt_id: 0,
                connector: Connector::Globalpay,
                credential: Credential { secret: "app-key".to_string() },
            })
    );
    assert_eq!(
        *engine.attempts(),
        vec![PaymentAttempt {
            attempt_id: 0,
            payment_id: 900,
            connector: Connector::Globalpay,
            amount: gbp(4999),
            status: CanonicalStatus::Created,
            connector_reference: None,
            created_at: 100,
            updated_at: 100,
            retry_count: 0,
        }]
    );
    let again = engine.submit(&Blocklist::new(), &registry(), &request(1, 4, "fp_card"), 101);
    assert_eq!(again.map(|s| s.attempt_id).ok(), Some(1));
    assert_eq!(engine.attempts().len(), 2);
    assert_eq!(engine.attempts()[1].attempt_id, 1);
}

#[test]
fn blocked_request_creates_no_attempt() {
    let mut blocklist = Blocklist::new();
    add_entry_to_blocklist(&mut blocklist, 1, FingerprintKind::CardNumber, "fp_card".to_string(), 1)
        .unwrap();
    toggle_blocklist_guard(&mut blocklist, 1, true);
    let mut engine = ReconciliationEngine::new();
    for now in [100, 101, 102] {
        assert!(
            engine.submit(&blocklist, &registry(), &request(1, 4, "fp_card"), now)
                == Err(SubmitError::Blocked(Blocked { fingerprint_kind: FingerprintKind::CardNumber }))
        );
    }
    assert!(engine.attempts().is_empty());
}

#[test]
fn same_fingerprint_passes_with_the_guard_off() {
    let mut blocklist = Blocklist::new();
    add_entry_to_blocklist(&mut blocklist, 1, FingerprintKind::CardNumber, "fp_card".to_string(), 1)
        .unwrap();
    let mut engine = ReconciliationEngine::new();
    assert!(engine.submit(&blocklist, &registry(), &request(1, 4, "fp_card"), 100).is_ok());
    toggle_blocklist_guard(&mut blocklist, 1, true);
    assert!(engine.submit(&blocklist, &registry(), &request(1, 4, "fp_card"), 100).is_err());
    toggle_blocklist_guard(&mut blocklist, 1, false);
    assert!(engine.submit(&blocklist, &registry(), &request(1, 4, "fp_card"), 100).is_ok());
    assert_eq!(engine.attempts().len(), 2);
}

#[test]
fn guard_is_asked_before_the_registry() {
    let mut blocklist = Blocklist::new();
    add_entry_to_blocklist(&mut blocklist, 1, FingerprintKind::Email, "fp_mail".to_string(), 1).unwrap();
    toggle_blocklist_guard(&mut blocklist, 1, true);
    let mut engine = ReconciliationEngine::new();
    assert!(
        engine.submit(&blocklist, &registry(), &request(1, 77, "fp_card"), 100)
            == Err(SubmitError::Blocked(Blocked { fingerprint_kind: FingerprintKind::Email }))
    );
}

#[test]
fn unresolved_connector_creates_no_attempt() {
    let mut engine = ReconciliationEngine::new();
    assert!(
        engine.submit(&Blocklist::new(), &registry(), &request(1, 77, "fp_card"), 100)
            == Err(SubmitError::Registry(RegistryError::ConnectorNotConfigured))
    );
    assert!(
        engine.submit(&Blocklist::new(), &registry(), &request(1, 5, "fp_card"), 100)
            == Err(SubmitError::Registry(RegistryError::CredentialMissing))
    );
    let mut other = request(1, 4, "fp_card");
    other.connector_name = "stripe".to_string();
    assert!(
        engine.submit(&Blocklist::new(), &registry(), &other, 100)
            == Err(SubmitError::Registry(RegistryError::ConnectorNotConfigured))
    );
    assert!(engine.attempts().is_empty());
}

#[test]
fn reconcile_reaches_the_attempt_it_refers_to() {
    let mut engine = engine_with(2);
    assert_eq!(engine.attempts()[0].attempt_id, 0);
    assert_eq!(engine.attempts()[1].attempt_id, 1);
    assert_eq!(
        engine.reconcile(&observed(1, CanonicalStatus::AuthenticationPending, "TRN_B", 20)),
        Some(Reconciliation::Applied)
    );
    assert_eq!(engine.attempts()[0].status, CanonicalStatus::Created);
    assert_eq!(engine.attempts()[1].status, CanonicalStatus::AuthenticationPending);
    assert_eq!(engine.attempt(1).map(|a| a.updated_at), Some(20));
    assert_eq!(engine.attempt(2), None);
    assert_eq!(engine.reconcile(&observed(2, CanonicalStatus::Charged, "TRN_C", 20)), None);
    assert_eq!(
        engine.reconcile(&observed(1, CanonicalStatus::Created, "TRN_B", 30)),
        Some(Reconciliation::Discarded(ReconciliationConflict::InvalidTransition))
    );
    assert_eq!(engine.attempts().len(), 2);
}

#[test]
fn attempt_is_found_by_connector_reference() {
    let mut engine = engine_with(2);
    engine.reconcile(&observed(1, CanonicalStatus::AuthenticationPending, "TRN_B", 20));
    assert_eq!(engine.find_by_reference(Connector::Globalpay, "TRN_B"), Some(1));
    assert_eq!(engine.find_by_reference(Connector::Globalpay, "TRN_A"), None);
    engine.reconcile(&observed(0, CanonicalStatus::AuthenticationPending, "TRN_B", 21));
    assert_eq!(engine.find_by_reference(Connector::Globalpay, "TRN_B"), Some(0));
}

#[test]
fn verified_webhook_is_merged_and_acknowledged() {
    let mut engine = engine_with(1);
    engine.reconcile(&observed(0, CanonicalStatus::Authorized, "TRN_A", 20));
    let (object, event) = hook("TRN_A", GlobalpayWebhookStatus::Captured);
    let read = read_webhook(true, object, event);
    assert_eq!(
        read,
        Ok(WebhookNotice {
            connector: Connector::Globalpay,
            reference: "TRN_A".to_string(),
            status: CanonicalStatus::Charged,
        })
    );
    assert_eq!(
        engine.normalize(read.as_ref().unwrap(), 30),
        Ok(ConnectorEvent {
            source: EventSource::Webhook,
            attempt_ref: 0,
            observed_status: CanonicalStatus::Charged,
            connector_reference: Some("TRN_A".to_string()),
            observed_at: 30,
        })
    );
    assert_eq!(
        engine.ingest_webhook(read, 30),
        WebhookReceipt { ack: WebhookAck::Accepted, outcome: Some(Reconciliation::Applied) }
    );
    assert_eq!(engine.attempts()[0].status, CanonicalStatus::Charged);
    assert_eq!(engine.attempts()[0].updated_at, 30);
}

#[test]
fn duplicate_webhook_is_acknowledged_and_changes_nothing() {
    let mut engine = engine_with(1);
    engine.reconcile(&observed(0, CanonicalStatus::Authorized, "TRN_A", 20));
    let (object, event) = hook("TRN_A", GlobalpayWebhookStatus::Captured);
    engine.ingest_webhook(read_webhook(true, object, event), 30);
    let before = engine.attempts().clone();
    let (object, event) = hook("TRN_A", GlobalpayWebhookStatus::Captured);
    assert_eq!(
        engine.ingest_webhook(read_webhook(true, object, event), 40),
        WebhookReceipt { ack: WebhookAck::Accepted, outcome: Some(Reconciliation::Duplicate) }
    );
    assert_eq!(*engine.attempts(), before);
}

#[test]
fn business_rejection_is_told_apart_from_a_rejected_delivery() {
    let mut engine = engine_with(1);
    engine.reconcile(&observed(0, CanonicalStatus::Charged, "TRN_A", 20));
    let before = engine.attempts().clone();
    let (object, event) = hook("TRN_A", GlobalpayWebhookStatus::Declined);
    assert_eq!(
        engine.ingest_webhook(read_webhook(true, object, event), 30),
        WebhookReceipt {
            ack: WebhookAck::Accepted,
            outcome: Some(Reconciliation::Discarded(ReconciliationConflict::InvalidTransition)),
        }
    );
    assert_eq!(*engine.attempts(), before);
}

#[test]
fn unverified_webhook_fails_closed() {
    let mut engine = engine_with(1);
    engine.reconcile(&observed(0, CanonicalStatus::Authorized, "TRN_A", 20));
    let before = engine.attempts().clone();
    let (object, event) = hook("TRN_A", GlobalpayWebhookStatus::Captured);
    let read = read_webhook(false, object, event);
    assert_eq!(read, Err(WebhookRejected::VerificationFailed));
    assert_eq!(
        engine.ingest_webhook(read, 30),
        WebhookReceipt { ack: WebhookAck::Rejected(WebhookRejected::VerificationFailed), outcome: None }
    );
    assert_eq!(*engine.attempts(), before);
    assert_eq!(read_webhook(false, None, None), Err(WebhookRejected::VerificationFailed));
}

#[test]
fn unreadable_webhook_fails_closed() {
    let mut engine = engine_with(1);
    engine.reconcile(&observed(0, CanonicalStatus::Authorized, "TRN_A", 20));
    let before = engine.attempts().clone();
    let (object, event) = hook("TRN_A", GlobalpayWebhookStatus::Captured);
    assert_eq!(read_webhook(true, None, event), Err(WebhookRejected::Malformed));
    assert_eq!(read_webhook(true, object, None), Err(WebhookRejected::Malformed));
    assert_eq!(read_webhook(true, None, None), Err(WebhookRejected::Malformed));
    let (object, event) = hook("TRN_A", GlobalpayWebhookStatus::Unknown);
    assert_eq!(read_webhook(true, object, event), Err(WebhookRejected::UnknownStatus));
    assert_eq!(
        engine.ingest_webhook(Err(WebhookRejected::Malformed), 30),
        WebhookReceipt { ack: WebhookAck::Rejected(WebhookRejected::Malformed), outcome: None }
    );
    assert_eq!(
        engine.ingest_webhook(Err(WebhookRejected::UnknownStatus), 30),
        WebhookReceipt { ack: WebhookAck::Rejected(WebhookRejected::UnknownStatus), outcome: None }
    );
    assert_eq!(*engine.attempts(), before);
}

#[test]
fn webhook_for_an_unknown_reference_is_rejected() {
    let mut engine = engine_with(1);
    let before = engine.attempts().clone();
    let (object, event) = hook("TRN_Z", GlobalpayWebhookStatus::Captured);
    assert_eq!(
        engine.ingest_webhook(read_webhook(true, object, event), 30),
        WebhookReceipt { ack: WebhookAck::Rejected(WebhookRejected::UnknownReference), outcome: None }
    );
    assert_eq!(*engine.attempts(), before);
}

#[test]
fn polling_through_the_engine() {
    let mut engine = engine_with(1);
    let policy = BackoffPolicy { kind: BackoffKind::Fixed, interval: 5, ceiling: 60 };
    let mut task = PollingTask::new(0, 12, 2, TerminalTarget::Any, policy);
    assert_eq!(engine.next_poll(&task), Some(PollAction::Sync { at: 12 }));
    let timeout = SyncReply { received_at: 13, result: Err(ConnectorError::Timeout) };
    assert_eq!(engine.record_poll(&mut task, &timeout), Some(PollAction::Sync { at: 18 }));
    assert_eq!(engine.attempts()[0].retry_count, 1);
    let charged = SyncReply {
        received_at: 19,
        result: Ok(observed(0, CanonicalStatus::Charged, "TRN_A", 19)),
    };
    assert_eq!(
        engine.record_poll(&mut task, &charged),
        Some(PollAction::Finish(PollOutcome::Resolved {
            status: CanonicalStatus::Charged,
            target_met: true,
        }))
    );
    assert_eq!(engine.attempts()[0].status, CanonicalStatus::Charged);

    let mut stray = PollingTask::new(3, 12, 2, TerminalTarget::Any, policy);
    assert_eq!(engine.next_poll(&stray), None);
    assert_eq!(engine.record_poll(&mut stray, &timeout), None);
    assert_eq!(stray.attempts_made, 0);
}

#[test]
fn ledger_is_restored_from_its_rows() {
    let mut pending = PaymentAttempt::new(0, 900, Connector::Globalpay, gbp(100), 10);
    pending.status = CanonicalStatus::Pending;
    let created = PaymentAttempt::new(1, 901, Connector::Globalpay, gbp(200), 11);
    let rows = vec![pending.clone(), created.clone()];
    let mut engine = match ReconciliationEngine::restore(rows.clone()) {
        Some(engine) => engine,
        None => panic!("rows carry their places"),
    };
    assert_eq!(*engine.attempts(), rows);
    assert_eq!(
        engine.reconcile(&observed(0, CanonicalStatus::Charged, "TRN_A", 20)),
        Some(Reconciliation::Applied)
    );
    assert_eq!(engine.attempts()[0].status, CanonicalStatus::Charged);
    let next = engine.submit(&Blocklist::new(), &registry(), &request(1, 4, "fp_card"), 12);
    assert_eq!(next.map(|taken| taken.attempt_id).ok(), Some(2));
}

#[test]
fn rows_out_of_place_are_not_restored() {
    let first = PaymentAttempt::new(1, 900, Connector::Globalpay, gbp(100), 10);
    assert!(ReconciliationEngine::restore(vec![first]).is_none());
    let a = PaymentAttempt::new(0, 900, Connector::Globalpay, gbp(100), 10);
    let b = PaymentAttempt::new(0, 901, Connector::Globalpay, gbp(100), 10);
    assert!(ReconciliationEngine::restore(vec![a, b]).is_none());
    assert!(ReconciliationEngine::restore(vec![]).is_some());
}

#[test]
fn concurrent_sync_and_webhook_for_one_attempt() {
    let mut engine = engine_with(2);
    engine.reconcile(&observed(1, CanonicalStatus::AuthenticationPending, "TRN_B", 20));
    let sync = observed(1, CanonicalStatus::Authorized, "TRN_B", 30);
    let hook = ConnectorEvent { source: EventSource::Webhook, ..observed(1, CanonicalStatus::Charged, "TRN_B", 40) };
    assert_eq!(
        engine.reconcile_concurrent(&sync, &hook),
        (
            Some(Reconciliation::Discarded(ReconciliationConflict::InvalidTransition)),
            Some(Reconciliation::Applied)
        )
    );
    assert_eq!(engine.attempts()[1].status, CanonicalStatus::Charged);
    assert_eq!(engine.attempts()[1].updated_at, 40);
    assert_eq!(engine.attempts()[0].status, CanonicalStatus::Created);
}

#[test]
fn concurrent_events_for_two_attempts_do_not_meet() {
    let mut engine = engine_with(2);
    let a = observed(0, CanonicalStatus::AuthenticationPending, "TRN_A", 30);
    let b = observed(1, CanonicalStatus::Failure, "TRN_B", 40);
    assert_eq!(
        engine.reconcile_concurrent(&a, &b),
        (Some(Reconciliation::Applied), Some(Reconciliation::Applied))
    );
    assert_eq!(engine.attempts()[0].status, CanonicalStatus::AuthenticationPending);
    assert_eq!(engine.attempts()[1].status, CanonicalStatus::Failure);
    let stray = observed(9, CanonicalStatus::Charged, "TRN_Z", 50);
    assert_eq!(engine.reconcile_concurrent(&stray, &a), (None, Some(Reconciliation::Duplicate)));
}
