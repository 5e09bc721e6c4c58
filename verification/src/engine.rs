//! The reconciliation engine: the ledger of all payment attempts, and the
//! only place where their status changes.

use vstd::prelude::*;
use crate::attempt::{ConnectorEvent, EventSource, PaymentAttempt, Reconciliation};
use crate::blocklist::{Blocked, Blocklist, Fingerprint};
use crate::canonical::{reachable, Amount, CanonicalStatus};
use crate::connector::Connector;
use crate::polling::{PollAction, PollingTask, SyncReply};
use crate::registry::{resolution, ConnectorRegistry, Credential, RegistryError};
use crate::text::same_text;
use crate::webhook::{WebhookAck, WebhookNotice, WebhookReceipt, WebhookRejected};

verus! {

/// A request to make a payment: who asks, through which connector, for how
/// much, and the fingerprints derived from the payment instrument, the
/// payer's email address and network address.
#[derive(Debug)]
pub struct PaymentRequest {
    pub merchant_id: u64,
    pub profile_id: u64,
    pub payment_id: u64,
    pub connector_name: String,
    pub amount: Amount,
    pub fingerprints: Vec<Fingerprint>,
}

/// Why a payment request led to no attempt.
#[derive(Debug, Clone, Copy, PartialEq, Eq, Structural)]
pub enum SubmitError {
    /// The blocklist guard rejected the request.
    Blocked(Blocked),
    /// The connector could not be resolved.
    Registry(RegistryError),
}

/// A payment request that was taken: the attempt created for it, and the
/// connector and credential with which to authorize it.
#[derive(PartialEq, Eq)]
pub struct Submission {
    pub attempt_id: u64,
    pub connector: Connector,
    pub credential: Credential,
}

/// The ledger of payment attempts. An attempt is identified by its place
/// in the ledger: every attempt carries its place as its identifier.
/// Attempts are added and updated, never removed.
pub struct ReconciliationEngine {
    attempts: Vec<PaymentAttempt>,
}

impl View for ReconciliationEngine {
    type V = Seq<PaymentAttempt>;

    /// The attempts, in the order in which they were created.
    closed spec fn view(&self) -> Seq<PaymentAttempt> {
        self.attempts@
    }
}

/// Every attempt carries its place among `attempts` as its identifier.
pub open spec fn numbered(attempts: Seq<PaymentAttempt>) -> bool {
    forall|i: int| 0 <= i < attempts.len() ==> (#[trigger] attempts[i]).attempt_id == i
}

/// A later state of the ledger succeeds an earlier one if it still holds
/// every attempt of the earlier, each in the status it had or in one that
/// lies ahead of it in the lifecycle graph, and each with the identifiers,
/// connector, amount and time of creation it had.
pub open spec fn succeeds(later: Seq<PaymentAttempt>, earlier: Seq<PaymentAttempt>) -> bool {
    &&& later.len() >= earlier.len()
    &&& forall|i: int|
        0 <= i < earlier.len() ==> {
            &&& (#[trigger] later[i]).status == earlier[i].status || reachable(
                earlier[i].status,
                later[i].status,
            )
            &&& later[i].attempt_id == earlier[i].attempt_id
            &&& later[i].payment_id == earlier[i].payment_id
            &&& later[i].connector == earlier[i].connector
            &&& later[i].amount == earlier[i].amount
            &&& later[i].created_at == earlier[i].created_at
        }
}

/// What becomes of `event` when it meets the ledger: what its attempt
/// makes of it, or nothing if the ledger holds no such attempt.
pub open spec fn judged(attempts: Seq<PaymentAttempt>, event: ConnectorEvent) -> Option<
    Reconciliation,
> {
    if event.attempt_ref < attempts.len() {
        Some(attempts[event.attempt_ref as int].verdict(&event))
    } else {
        None
    }
}

/// The ledger after `event` has met it: the attempt that the event refers
/// to has merged it; every other attempt is as it was.
pub open spec fn merged(attempts: Seq<PaymentAttempt>, event: ConnectorEvent) -> Seq<PaymentAttempt> {
    if event.attempt_ref < attempts.len() {
        attempts.update(
            event.attempt_ref as int,
            attempts[event.attempt_ref as int].after(&event),
        )
    } else {
        attempts
    }
}

/// Whether `attempt` went through `connector` and carries the processor's
/// reference `reference`.
pub open spec fn refers(attempt: PaymentAttempt, connector: Connector, reference: Seq<char>) -> bool {
    &&& attempt.connector == connector
    &&& attempt.connector_reference matches Some(r) && r@ == reference
}

/// The identifier of the first of `attempts` that went through `connector`
/// and carries the processor's reference `reference`, if any does.
pub open spec fn attempt_for(attempts: Seq<PaymentAttempt>, connector: Connector, reference: Seq<char>)
    -> Option<u64> {
    if exists|i: int| 0 <= i < attempts.len() && refers(#[trigger] attempts[i], connector, reference) {
        let first = choose|i: int|
            0 <= i < attempts.len() && refers(#[trigger] attempts[i], connector, reference)
                && forall|j: int| 0 <= j < i ==> !refers(#[trigger] attempts[j], connector, reference);
        Some(first as u64)
    } else {
        None
    }
}

/// The event that a notice stands for, once it is tied to one of
/// `attempts`: rejected if none carries the notice's reference.
pub open spec fn event_of(attempts: Seq<PaymentAttempt>, notice: WebhookNotice, received_at: u64)
    -> Result<ConnectorEvent, WebhookRejected> {
    match attempt_for(attempts, notice.connector, notice.reference@) {
        None => Err(WebhookRejected::UnknownReference),
        Some(attempt_ref) => Ok(
            ConnectorEvent {
                source: EventSource::Webhook,
                attempt_ref,
                observed_status: notice.status,
                connector_reference: Some(notice.reference),
                observed_at: received_at,
            },
        ),
    }
}

/// The first place in `attempts` of an attempt that went through
/// `connector` and carries the reference, if any does.
fn place_of(attempts: &Vec<PaymentAttempt>, connector: Connector, reference: &str) -> (r: Option<usize>)
    ensures
        match r {
            Some(i) => i < attempts@.len() && refers(attempts@[i as int], connector, reference@)
                && forall|j: int| 0 <= j < i ==> !refers(#[trigger] attempts@[j], connector, reference@),
            None => forall|j: int|
                0 <= j < attempts@.len() ==> !refers(#[trigger] attempts@[j], connector, reference@),
        },
{
    let mut i: usize = 0;
    while i < attempts.len()
        invariant
            i <= attempts@.len(),
            forall|j: int| 0 <= j < i ==> !refers(#[trigger] attempts@[j], connector, reference@),
        decreases attempts@.len() - i,
    {
        let attempt = &attempts[i];
        if attempt.connector == connector {
            match &attempt.connector_reference {
                Some(held) => {
                    if same_text(held.as_str(), reference) {
                        return Some(i);
                    }
                },
                None => {},
            }
        }
        i += 1;
    }
    None
}

impl ReconciliationEngine {
    #[verifier::type_invariant]
    spec fn inv(&self) -> bool {
        numbered(self.attempts@)
    }

    /// An engine with an empty ledger.
    pub fn new() -> (r: ReconciliationEngine)
        ensures
            r@.len() == 0,
    {
        ReconciliationEngine { attempts: Vec::new() }
    }

    /// An engine whose ledger holds `rows`, as they were recorded before.
    /// `None` if some row does not carry its place as its identifier.
    pub fn restore(rows: Vec<PaymentAttempt>) -> (r: Option<ReconciliationEngine>)
        ensures
            numbered(rows@) ==> (r matches Some(engine) && engine@ == rows@),
            !numbered(rows@) ==> r is None,
    {
        let mut i: usize = 0;
        while i < rows.len()
            invariant
                i <= rows@.len(),
                forall|j: int| 0 <= j < i ==> (#[trigger] rows@[j]).attempt_id == j,
            decreases rows@.len() - i,
        {
            if rows[i].attempt_id != i as u64 {
                return None;
            }
            i += 1;
        }
        Some(ReconciliationEngine { attempts: rows })
    }

    /// The attempts, in the order in which they were created.
    pub fn attempts(&self) -> (r: &Vec<PaymentAttempt>)
        ensures
            r@ == self@,
            numbered(self@),
    {
        proof {
            use_type_invariant(self);
        }
        &self.attempts
    }

    /// The attempt with the identifier `attempt_id`, if the ledger holds it.
    pub fn attempt(&self, attempt_id: u64) -> (r: Option<&PaymentAttempt>)
        ensures
            attempt_id < self@.len() ==> r == Some(&self@[attempt_id as int]),
            attempt_id >= self@.len() ==> r is None,
    {
        if attempt_id >= self.attempts.len() as u64 {
            None
        } else {
            Some(&self.attempts[attempt_id as usize])
        }
    }

    /// Adds an attempt to the ledger, in status `Created`, and returns its
    /// identifier.
    fn create_attempt(&mut self, payment_id: u64, connector: Connector, amount: Amount, now: u64)
        -> (id: u64)
        ensures
            succeeds(final(self)@, old(self)@),
            id == old(self)@.len(),
            final(self)@ == old(self)@.push(
                PaymentAttempt {
                    attempt_id: id,
                    payment_id,
                    connector,
                    amount,
                    status: CanonicalStatus::Created,
                    connector_reference: None,
                    created_at: now,
                    updated_at: now,
                    retry_count: 0,
                },
            ),
    {
        proof {
            use_type_invariant(&*self);
        }
        let mut attempts: Vec<PaymentAttempt> = Vec::new();
        std::mem::swap(&mut attempts, &mut self.attempts);
        let id = attempts.len() as u64;
        attempts.push(PaymentAttempt::new(id, payment_id, connector, amount, now));
        self.attempts = attempts;
        id
    }

    /// Takes a payment request: the blocklist guard screens it, the
    /// registry resolves its connector, and only then an attempt is created
    /// for it.
    ///
    /// A request that the guard rejects fails with `Blocked`; one whose
    /// connector cannot be resolved fails with the registry's error. In
    /// both cases no attempt is created.
    pub fn submit(
        &mut self,
        blocklist: &Blocklist,
        registry: &ConnectorRegistry,
        request: &PaymentRequest,
        now: u64,
    ) -> (r: Result<Submission, SubmitError>)
        ensures
            succeeds(final(self)@, old(self)@),
            r == match blocklist@.rejection(request.merchant_id, request.fingerprints@) {
                Some(blocked) => Err::<Submission, SubmitError>(SubmitError::Blocked(blocked)),
                None => match resolution(registry@, request.connector_name@, request.profile_id) {
                    Err(error) => Err(SubmitError::Registry(error)),
                    Ok(resolved) => Ok(
                        Submission {
                            attempt_id: old(self)@.len() as u64,
                            connector: resolved.connector,
                            credential: resolved.credential,
                        },
                    ),
                },
            },
            r is Err ==> final(self)@ == old(self)@,
            r matches Ok(taken) ==> final(self)@ == old(self)@.push(
                PaymentAttempt {
                    attempt_id: taken.attempt_id,
                    payment_id: request.payment_id,
                    connector: taken.connector,
                    amount: request.amount,
                    status: CanonicalStatus::Created,
                    connector_reference: None,
                    created_at: now,
                    updated_at: now,
                    retry_count: 0,
                },
            ),
    {
        match blocklist.screen(request.merchant_id, &request.fingerprints) {
            Err(blocked) => {
                return Err(SubmitError::Blocked(blocked));
            },
            Ok(()) => {},
        }
        match registry.resolve(request.connector_name.as_str(), request.profile_id) {
            Err(error) => Err(SubmitError::Registry(error)),
            Ok(resolved) => {
                let attempt_id = self.create_attempt(
                    request.payment_id,
                    resolved.connector,
                    request.amount,
                    now,
                );
                Ok(
                    Submission {
                        attempt_id,
                        connector: resolved.connector,
                        credential: resolved.credential,
                    },
                )
            },
        }
    }

    /// The first attempt that went through `connector` and carries the
    /// processor's reference `reference`, if any does.
    pub fn find_by_reference(&self, connector: Connector, reference: &str) -> (r: Option<u64>)
        ensures
            r == attempt_for(self@, connector, reference@),
            r matches Some(id) ==> id < self@.len() && refers(self@[id as int], connector, reference@),
    {
        match place_of(&self.attempts, connector, reference) {
            None => None,
            Some(i) => {
                proof {
                    let first = choose|k: int|
                        0 <= k < self@.len() && refers(#[trigger] self@[k], connector, reference@)
                            && forall|j: int|
                            0 <= j < k ==> !refers(#[trigger] self@[j], connector, reference@);
                    assert(first == i);
                }
                Some(i as u64)
            },
        }
    }

    /// Merges an event into the attempt that it refers to, and says what
    /// became of it; `None` if the ledger holds no such attempt. No other
    /// attempt changes.
    pub fn reconcile(&mut self, event: &ConnectorEvent) -> (r: Option<Reconciliation>)
        ensures
            succeeds(final(self)@, old(self)@),
            r == judged(old(self)@, *event),
            final(self)@ == merged(old(self)@, *event),
    {
        proof {
            use_type_invariant(&*self);
            lemma_merged_succeeds(self@, *event);
        }
        if event.attempt_ref >= self.attempts.len() as u64 {
            return None;
        }
        let i = event.attempt_ref as usize;
        let mut attempts: Vec<PaymentAttempt> = Vec::new();
        std::mem::swap(&mut attempts, &mut self.attempts);
        let attempt = &mut attempts[i];
        let r = attempt.apply_event(event);
        self.attempts = attempts;
        Some(r)
    }

    /// Merges two events that arrived together: the one observed later is
    /// merged first, so that it wins where both refer to one attempt and
    /// both could be applied; if they were observed at the same time,
    /// `first` goes first. Returns what became of `first` and of `second`.
    pub fn reconcile_concurrent(&mut self, first: &ConnectorEvent, second: &ConnectorEvent) -> (r: (
        Option<Reconciliation>,
        Option<Reconciliation>,
    ))
        ensures
            succeeds(final(self)@, old(self)@),
            second.observed_at > first.observed_at ==> {
                &&& r.1 == judged(old(self)@, *second)
                &&& r.0 == judged(merged(old(self)@, *second), *first)
                &&& final(self)@ == merged(merged(old(self)@, *second), *first)
            },
            second.observed_at <= first.observed_at ==> {
                &&& r.0 == judged(old(self)@, *first)
                &&& r.1 == judged(merged(old(self)@, *first), *second)
                &&& final(self)@ == merged(merged(old(self)@, *first), *second)
            },
    {
        let ghost start = self@;
        if second.observed_at > first.observed_at {
            let b = self.reconcile(second);
            let ghost middle = self@;
            let a = self.reconcile(first);
            proof {
                lemma_succession_composes(self@, middle, start);
            }
            (a, b)
        } else {
            let a = self.reconcile(first);
            let ghost middle = self@;
            let b = self.reconcile(second);
            proof {
                lemma_succession_composes(self@, middle, start);
            }
            (a, b)
        }
    }

    /// Ties a notice to the attempt that carries its reference and makes
    /// the event that it stands for; rejected with `UnknownReference` if no
    /// attempt carries it.
    pub fn normalize(&self, notice: &WebhookNotice, received_at: u64) -> (r: Result<
        ConnectorEvent,
        WebhookRejected,
    >)
        ensures
            r == event_of(self@, *notice, received_at),
            r matches Ok(event) ==> event.attempt_ref < self@.len(),
    {
        match self.find_by_reference(notice.connector, notice.reference.as_str()) {
            None => Err(WebhookRejected::UnknownReference),
            Some(attempt_ref) => Ok(
                ConnectorEvent {
                    source: EventSource::Webhook,
                    attempt_ref,
                    observed_status: notice.status,
                    connector_reference: Some(notice.reference.clone()),
                    observed_at: received_at,
                },
            ),
        }
    }

    /// Takes a notification as the connector's adapter read it.
    ///
    /// A notification that the adapter rejected, or that no attempt can be
    /// found for, is rejected: the sender is told so and no attempt
    /// changes. Any other is acknowledged, and its event is merged into the
    /// attempt; what became of the event is reported beside the
    /// acknowledgement, not through it.
    pub fn ingest_webhook(
        &mut self,
        read: Result<WebhookNotice, WebhookRejected>,
        received_at: u64,
    ) -> (r: WebhookReceipt)
        ensures
            succeeds(final(self)@, old(self)@),
            match read {
                Err(reason) => r == (WebhookReceipt {
                    ack: WebhookAck::Rejected(reason),
                    outcome: None,
                }) && final(self)@ == old(self)@,
                Ok(notice) => match event_of(old(self)@, notice, received_at) {
                    Err(reason) => r == (WebhookReceipt {
                        ack: WebhookAck::Rejected(reason),
                        outcome: None,
                    }) && final(self)@ == old(self)@,
                    Ok(event) => r == (WebhookReceipt {
                        ack: WebhookAck::Accepted,
                        outcome: judged(old(self)@, event),
                    }) && r.outcome is Some && final(self)@ == merged(old(self)@, event),
                },
            },
    {
        let notice = match read {
            Err(reason) => {
                proof {
                    lemma_succession_composes(self@, self@, self@);
                }
                return WebhookReceipt { ack: WebhookAck::Rejected(reason), outcome: None };
            },
            Ok(notice) => notice,
        };
        match self.normalize(&notice, received_at) {
            Err(reason) => {
                proof {
                    lemma_succession_composes(self@, self@, self@);
                }
                WebhookReceipt { ack: WebhookAck::Rejected(reason), outcome: None }
            },
            Ok(event) => {
                let outcome = self.reconcile(&event);
                WebhookReceipt { ack: WebhookAck::Accepted, outcome }
            },
        }
    }

    /// What is to be done next in a polling run; `None` if the ledger does
    /// not hold the run's attempt.
    pub fn next_poll(&self, task: &PollingTask) -> (r: Option<PollAction>)
        ensures
            task.attempt_ref >= self@.len() ==> r is None,
            task.attempt_ref < self@.len() ==> r == Some(task.due(&self@[task.attempt_ref as int])),
    {
        match self.attempt(task.attempt_ref) {
            None => None,
            Some(attempt) => Some(task.next_action(attempt)),
        }
    }

    /// Records the reply to a polling run's call with the run's attempt,
    /// and says what is to be done next; `None`, with nothing changed, if
    /// the ledger does not hold the run's attempt. No other attempt
    /// changes.
    pub fn record_poll(&mut self, task: &mut PollingTask, reply: &SyncReply) -> (r: Option<PollAction>)
        ensures
            succeeds(final(self)@, old(self)@),
            old(task).attempt_ref >= old(self)@.len() ==> r is None && final(self)@ == old(self)@
                && *final(task) == *old(task),
            old(task).attempt_ref < old(self)@.len() ==> {
                let before = old(self)@[old(task).attempt_ref as int];
                &&& r == Some(old(task).action_after(&before, reply))
                &&& *final(task) == old(task).task_after(&before, reply)
                &&& final(self)@ == old(self)@.update(
                    old(task).attempt_ref as int,
                    old(task).attempt_after(&before, reply),
                )
            },
    {
        proof {
            use_type_invariant(&*self);
        }
        if task.attempt_ref >= self.attempts.len() as u64 {
            return None;
        }
        let i = task.attempt_ref as usize;
        proof {
            if reply.result is Ok {
                crate::attempt::lemma_event_follows_graph(self.attempts@[i as int], reply.result->Ok_0);
            }
        }
        let mut attempts: Vec<PaymentAttempt> = Vec::new();
        std::mem::swap(&mut attempts, &mut self.attempts);
        let attempt = &mut attempts[i];
        let r = task.record(attempt, reply);
        self.attempts = attempts;
        Some(r)
    }
}

/// Whatever the engine does, in whatever order, no attempt leaves the
/// lifecycle graph: succession of ledger states carries over any number of
/// steps.
pub proof fn lemma_succession_composes(
    last: Seq<PaymentAttempt>,
    middle: Seq<PaymentAttempt>,
    first: Seq<PaymentAttempt>,
)
    requires
        succeeds(last, middle),
        succeeds(middle, first),
    ensures
        succeeds(last, first),
        succeeds(first, first),
{
    assert forall|i: int| 0 <= i < first.len() implies (#[trigger] last[i]).status == first[i].status
        || reachable(first[i].status, last[i].status) by {
        if first[i].status != middle[i].status && middle[i].status != last[i].status {
            crate::canonical::lemma_reachable_transitive(
                first[i].status,
                middle[i].status,
                last[i].status,
            );
        }
    }
}

/// Merging an event never moves an attempt off the lifecycle graph, and
/// never removes one.
pub proof fn lemma_merged_succeeds(attempts: Seq<PaymentAttempt>, event: ConnectorEvent)
    ensures
        succeeds(merged(attempts, event), attempts),
        numbered(attempts) ==> numbered(merged(attempts, event)),
{
    if event.attempt_ref < attempts.len() {
        crate::attempt::lemma_event_follows_graph(attempts[event.attempt_ref as int], event);
    }
}

/// Merging the same event twice leaves the ledger as merging it once, and
/// the second time the event is not applied.
pub proof fn lemma_merge_is_idempotent(attempts: Seq<PaymentAttempt>, event: ConnectorEvent)
    ensures
        merged(merged(attempts, event), event) == merged(attempts, event),
        !(judged(merged(attempts, event), event) matches Some(Reconciliation::Applied)),
{
    if event.attempt_ref < attempts.len() {
        crate::attempt::lemma_apply_is_idempotent(attempts[event.attempt_ref as int], event);
        assert(merged(merged(attempts, event), event) =~= merged(attempts, event));
    }
}

} // verus!
