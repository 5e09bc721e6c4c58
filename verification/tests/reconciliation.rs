use payment_reconciliation::attempt::{
    ConnectorEvent, EventSource, PaymentAttempt, Reconciliation, ReconciliationConflict,
};
use payment_reconciliation::canonical::{Amount, CanonicalStatus};
use payment_reconciliation::connector::Connector;
use payment_reconciliation::globalpay::response::{GlobalpayPaymentStatus, GlobalpayPaymentsResponse};
use payment_reconciliation::globalpay::transformers::event_of_response;

fn usd(minor_units: i64) -> Amount {
    Amount { minor_units, currency: *b"USD" }
}

fn attempt_in(status: CanonicalStatus, updated_at: u64) -> PaymentAttempt {
    let mut a = PaymentAttempt::new(7, 70, Connector::Globalpay, usd(1250), 100);
    a.status = status;
    a.updated_at = updated_at;
    a
}

fn event(source: EventSource, raw: &str, at: u64) -> ConnectorEvent {
    ConnectorEvent {
        source,
        attempt_ref: 7,
        observed_status: Connector::Globalpay.map_status(raw).unwrap(),
        connector_reference: Some("TRN_1".to_string()),
        observed_at: at,
    }
}

fn observed(status: CanonicalStatus, at: u64) -> ConnectorEvent {
    ConnectorEvent {
        source: EventSource::Webhook,
        attempt_ref: 7,
        observed_status: status,
        connector_reference: Some("TRN_1".to_string()),
        observed_at: at,
    }
}

fn response(id: &str, status: GlobalpayPaymentStatus) -> GlobalpayPaymentsResponse {
    GlobalpayPaymentsResponse {
        account_id: None,
        account_name: None,
        action: None,
        amount: Some("1250".to_string()),
        authorization_mode: None,
        batch_id: None,
        capture_mode: None,
        channel: None,
        country: None,
        currency: Some("USD".to_string()),
        currency_conversion: None,
        id: id.to_string(),
        merchant_id: None,
        merchant_name: None,
        payment_method: None,
        reference: None,
        status,
        time_created: None,
        globalpay_payments_response_type: None,
    }
}

#[test]
fn new_attempt_is_created() {
    let a = PaymentAttempt::new(7, 70, Connector::Globalpay, usd(1250), 100);
    assert_eq!(
        a,
        PaymentAttempt {
            attempt_id: 7,
            payment_id: 70,
            connector: Connector::Globalpay,
            amount: usd(1250),
            status: CanonicalStatus::Created,
            connector_reference: None,
            created_at: 100,
            updated_at: 100,
            retry_count: 0,
        }
    );
}

#[test]
fn pending_then_captured_ends_charged() {
    let mut a = PaymentAttempt::new(7, 70, Connector::Globalpay, usd(1250), 100);
    assert_eq!(Connector::Globalpay.map_status("PENDING"), Ok(CanonicalStatus::Pending));
    let first = a.apply_event(&event(EventSource::SyncCall, "PENDING", 110));
    // `Pending` has no incoming arrow: the observation is discarded.
    assert_eq!(first, Reconciliation::Discarded(ReconciliationConflict::InvalidTransition));
    assert_eq!(a.status, CanonicalStatus::Created);
    assert_eq!(Connector::Globalpay.map_status("CAPTURED"), Ok(CanonicalStatus::Charged));
    let second = a.apply_event(&event(EventSource::SyncCall, "CAPTURED", 120));
    assert_eq!(second, Reconciliation::Applied);
    assert_eq!(a.status, CanonicalStatus::Charged);
    assert_eq!(a.updated_at, 120);
    assert_eq!(a.connector_reference, Some("TRN_1".to_string()));
}

#[test]
fn attempt_recorded_as_pending_settles_as_charged() {
    let mut a = attempt_in(CanonicalStatus::Pending, 100);
    assert_eq!(
        a.apply_event(&event(EventSource::SyncCall, "PENDING", 110)),
        Reconciliation::Duplicate
    );
    assert_eq!(
        a.apply_event(&event(EventSource::SyncCall, "CAPTURED", 120)),
        Reconciliation::Applied
    );
    assert_eq!(a.status, CanonicalStatus::Charged);
}

#[test]
fn repeated_authorized_webhook_changes_nothing() {
    let mut a = attempt_in(CanonicalStatus::Authorized, 150);
    let before = a.clone();
    let stale = event(EventSource::Webhook, "PREAUTHORIZED", 160);
    assert_eq!(stale.observed_status, CanonicalStatus::Authorized);
    assert_eq!(a.apply_event(&stale), Reconciliation::Duplicate);
    assert_eq!(a.status, CanonicalStatus::Authorized);
    assert_eq!(a.updated_at, 150);
    assert_eq!(a, before);
}

#[test]
fn late_authorized_webhook_does_not_reopen_charged() {
    let mut a = attempt_in(CanonicalStatus::Charged, 150);
    let before = a.clone();
    let late = observed(CanonicalStatus::Authorized, 200);
    assert_eq!(
        a.apply_event(&late),
        Reconciliation::Discarded(ReconciliationConflict::InvalidTransition)
    );
    assert_eq!(a.status, CanonicalStatus::Charged);
    assert_eq!(a, before);
}

#[test]
fn applying_an_event_twice_is_applying_it_once() {
    let e = observed(CanonicalStatus::Authorized, 130);
    let mut once = attempt_in(CanonicalStatus::AuthenticationPending, 110);
    assert_eq!(once.apply_event(&e), Reconciliation::Applied);
    let mut twice = attempt_in(CanonicalStatus::AuthenticationPending, 110);
    assert_eq!(twice.apply_event(&e), Reconciliation::Applied);
    assert_eq!(twice.apply_event(&e), Reconciliation::Duplicate);
    assert_eq!(once, twice);
}

#[test]
fn applied_event_moves_status_time_and_reference_only() {
    let mut a = PaymentAttempt::new(7, 70, Connector::Globalpay, usd(1250), 100);
    a.retry_count = 2;
    assert_eq!(
        a.apply_event(&observed(CanonicalStatus::AuthenticationPending, 105)),
        Reconciliation::Applied
    );
    assert_eq!(
        a,
        PaymentAttempt {
            attempt_id: 7,
            payment_id: 70,
            connector: Connector::Globalpay,
            amount: usd(1250),
            status: CanonicalStatus::AuthenticationPending,
            connector_reference: Some("TRN_1".to_string()),
            created_at: 100,
            updated_at: 105,
            retry_count: 2,
        }
    );
}

#[test]
fn reference_is_assigned_once() {
    let mut a = PaymentAttempt::new(7, 70, Connector::Globalpay, usd(1250), 100);
    let mut first = observed(CanonicalStatus::AuthenticationPending, 105);
    first.connector_reference = None;
    assert_eq!(a.apply_event(&first), Reconciliation::Applied);
    assert_eq!(a.connector_reference, None);
    let mut second = observed(CanonicalStatus::Authorized, 110);
    second.connector_reference = Some("TRN_A".to_string());
    assert_eq!(a.apply_event(&second), Reconciliation::Applied);
    assert_eq!(a.connector_reference, Some("TRN_A".to_string()));
    let mut third = observed(CanonicalStatus::Charged, 115);
    third.connector_reference = Some("TRN_B".to_string());
    assert_eq!(a.apply_event(&third), Reconciliation::Applied);
    assert_eq!(a.connector_reference, Some("TRN_A".to_string()));
    assert_eq!(a.status, CanonicalStatus::Charged);
}

#[test]
fn event_for_another_attempt_is_discarded() {
    let mut a = attempt_in(CanonicalStatus::Authorized, 110);
    let before = a.clone();
    let mut e = observed(CanonicalStatus::Charged, 120);
    e.attempt_ref = 8;
    assert_eq!(
        a.apply_event(&e),
        Reconciliation::Discarded(ReconciliationConflict::WrongAttempt)
    );
    assert_eq!(a, before);
}

#[test]
fn event_observed_no_later_than_the_last_is_superseded() {
    let mut a = attempt_in(CanonicalStatus::Authorized, 110);
    let before = a.clone();
    assert_eq!(
        a.apply_event(&observed(CanonicalStatus::Charged, 110)),
        Reconciliation::Discarded(ReconciliationConflict::Superseded)
    );
    assert_eq!(
        a.apply_event(&observed(CanonicalStatus::Charged, 90)),
        Reconciliation::Discarded(ReconciliationConflict::Superseded)
    );
    assert_eq!(a, before);
    assert_eq!(a.apply_event(&observed(CanonicalStatus::Charged, 111)), Reconciliation::Applied);
    assert_eq!(a.updated_at, 111);
}

#[test]
fn assess_decides_without_changing() {
    let a = attempt_in(CanonicalStatus::Authorized, 110);
    assert_eq!(a.assess(&observed(CanonicalStatus::Charged, 120)), Reconciliation::Applied);
    assert_eq!(a.assess(&observed(CanonicalStatus::Authorized, 120)), Reconciliation::Duplicate);
    assert_eq!(
        a.assess(&observed(CanonicalStatus::Created, 120)),
        Reconciliation::Discarded(ReconciliationConflict::InvalidTransition)
    );
    assert_eq!(a.status, CanonicalStatus::Authorized);
}

#[test]
fn of_two_concurrent_events_the_later_observation_wins() {
    let sync = ConnectorEvent { source: EventSource::SyncCall, ..observed(CanonicalStatus::Authorized, 130) };
    let hook = observed(CanonicalStatus::Charged, 140);

    let mut a = attempt_in(CanonicalStatus::AuthenticationPending, 110);
    let r = a.reconcile_concurrent(&sync, &hook);
    assert_eq!(r, (Reconciliation::Discarded(ReconciliationConflict::InvalidTransition), Reconciliation::Applied));
    assert_eq!(a.status, CanonicalStatus::Charged);
    assert_eq!(a.updated_at, 140);

    let mut b = attempt_in(CanonicalStatus::AuthenticationPending, 110);
    let r = b.reconcile_concurrent(&hook, &sync);
    assert_eq!(r, (Reconciliation::Applied, Reconciliation::Discarded(ReconciliationConflict::InvalidTransition)));
    assert_eq!(a, b);
}

#[test]
fn later_observation_wins_even_if_it_is_less_advanced() {
    let early = observed(CanonicalStatus::Charged, 130);
    let late = observed(CanonicalStatus::Authorized, 140);
    let mut a = attempt_in(CanonicalStatus::AuthenticationPending, 110);
    let r = a.reconcile_concurrent(&early, &late);
    assert_eq!(r, (Reconciliation::Discarded(ReconciliationConflict::Superseded), Reconciliation::Applied));
    assert_eq!(a.status, CanonicalStatus::Authorized);
    assert_eq!(a.updated_at, 140);
}

#[test]
fn concurrent_events_with_the_same_status_apply_once() {
    let sync = ConnectorEvent { source: EventSource::SyncCall, ..observed(CanonicalStatus::Charged, 130) };
    let hook = observed(CanonicalStatus::Charged, 130);
    let mut a = attempt_in(CanonicalStatus::Authorized, 110);
    let r = a.reconcile_concurrent(&sync, &hook);
    assert_eq!(r, (Reconciliation::Applied, Reconciliation::Duplicate));
    assert_eq!(a.status, CanonicalStatus::Charged);
    assert_eq!(a.updated_at, 130);
}

#[test]
fn concurrent_events_observed_together_first_goes_first() {
    let first = observed(CanonicalStatus::Voided, 130);
    let second = observed(CanonicalStatus::Charged, 130);
    let mut a = attempt_in(CanonicalStatus::Authorized, 110);
    let r = a.reconcile_concurrent(&first, &second);
    assert_eq!(r, (Reconciliation::Applied, Reconciliation::Discarded(ReconciliationConflict::InvalidTransition)));
    assert_eq!(a.status, CanonicalStatus::Voided);
}

#[test]
fn no_sequence_of_events_leaves_the_graph() {
    let statuses = [
        CanonicalStatus::Created,
        CanonicalStatus::AuthenticationPending,
        CanonicalStatus::Authorized,
        CanonicalStatus::PartialCharge,
        CanonicalStatus::Pending,
        CanonicalStatus::Charged,
        CanonicalStatus::Failure,
        CanonicalStatus::Voided,
        CanonicalStatus::Unresolved,
    ];
    // A fixed pseudo-random walk over observed statuses and times.
    let mut seed: u64 = 0x9E37_79B9_7F4A_7C15;
    for start in statuses {
        let mut a = attempt_in(start, 100);
        for _ in 0..200 {
            seed = seed.wrapping_mul(6364136223846793005).wrapping_add(1442695040888963407);
            let status = statuses[((seed >> 33) % 9) as usize];
            let at = 90 + ((seed >> 20) % 400);
            let before = a.clone();
            let verdict = a.apply_event(&observed(status, at));
            if verdict == Reconciliation::Applied {
                assert!(before.status.can_reach(a.status));
                assert!(a.updated_at > before.updated_at);
            } else {
                assert_eq!(a, before);
            }
            assert!(start == a.status || start.can_reach(a.status));
            assert_eq!(a.amount, usd(1250));
            assert_eq!(a.created_at, 100);
        }
    }
}

#[test]
fn response_becomes_an_event_under_the_processors_identifier() {
    let r = response("TRN_9", GlobalpayPaymentStatus::Preauthorized);
    assert_eq!(
        event_of_response(&r, EventSource::SyncCall, 7, 130),
        ConnectorEvent {
            source: EventSource::SyncCall,
            attempt_ref: 7,
            observed_status: CanonicalStatus::Authorized,
            connector_reference: Some("TRN_9".to_string()),
            observed_at: 130,
        }
    );
    let r = response("TRN_9", GlobalpayPaymentStatus::Reversed);
    assert_eq!(
        event_of_response(&r, EventSource::Webhook, 3, 1).observed_status,
        CanonicalStatus::Voided
    );
}
