//! One payment attempt and the rule by which an observed status is merged
//! into it.

use vstd::prelude::*;
use crate::canonical::{reachable, Amount, CanonicalStatus};
use crate::connector::Connector;

verus! {

/// One attempt to move money for one payment through one connector.
///
/// The functions of this library change its status only by
/// [`PaymentAttempt::apply_event`], and never change its identifiers,
/// connector, amount or time of creation.
#[derive(Debug, Clone, PartialEq, Eq)]
pub struct PaymentAttempt {
    pub attempt_id: u64,
    pub payment_id: u64,
    pub connector: Connector,
    pub amount: Amount,
    pub status: CanonicalStatus,
    /// The processor's reference for the transaction, once it has given one.
    pub connector_reference: Option<String>,
    pub created_at: u64,
    /// The time of observation of the last event that changed the status.
    pub updated_at: u64,
    /// How many calls to the connector failed and were tried again.
    pub retry_count: u32,
}

/// Where an event comes from.
#[derive(Debug, Clone, Copy, PartialEq, Eq, Structural)]
pub enum EventSource {
    SyncCall,
    Webhook,
}

/// A status that a connector reported for an attempt, from a call or from
/// a notification.
#[derive(Debug, Clone, PartialEq, Eq)]
pub struct ConnectorEvent {
    pub source: EventSource,
    pub attempt_ref: u64,
    pub observed_status: CanonicalStatus,
    pub connector_reference: Option<String>,
    pub observed_at: u64,
}

/// Why an event was discarded.
#[derive(Debug, Clone, Copy, PartialEq, Eq, Structural)]
pub enum ReconciliationConflict {
    /// The event refers to another attempt.
    WrongAttempt,
    /// The observed status cannot be reached from the current one.
    InvalidTransition,
    /// The event was observed no later than the one that set the current
    /// status.
    Superseded,
}

/// What became of an event.
#[derive(Debug, Clone, Copy, PartialEq, Eq, Structural)]
pub enum Reconciliation {
    /// The attempt took the observed status.
    Applied,
    /// The observed status is the current one; nothing changed.
    Duplicate,
    /// The event was discarded; nothing changed.
    Discarded(ReconciliationConflict),
}

impl PaymentAttempt {
    /// What becomes of `event` when it meets this attempt.
    ///
    /// An event is applied if it refers to this attempt, reports a status
    /// that lies ahead of the current one in the lifecycle graph, and was
    /// observed later than the event that set the current status.
    pub open spec fn verdict(&self, event: &ConnectorEvent) -> Reconciliation {
        if event.attempt_ref != self.attempt_id {
            Reconciliation::Discarded(ReconciliationConflict::WrongAttempt)
        } else if event.observed_status == self.status {
            Reconciliation::Duplicate
        } else if !reachable(self.status, event.observed_status) {
            Reconciliation::Discarded(ReconciliationConflict::InvalidTransition)
        } else if event.observed_at <= self.updated_at {
            Reconciliation::Discarded(ReconciliationConflict::Superseded)
        } else {
            Reconciliation::Applied
        }
    }

    /// This attempt after `event` has met it.
    ///
    /// An applied event sets the status and moves the time of update to the
    /// event's time of observation; the processor's reference is taken from
    /// the event if the attempt had none. Any other event changes nothing.
    pub open spec fn after(&self, event: &ConnectorEvent) -> PaymentAttempt {
        if self.verdict(event) is Applied {
            PaymentAttempt {
                status: event.observed_status,
                updated_at: event.observed_at,
                connector_reference: if self.connector_reference is None {
                    event.connector_reference
                } else {
                    self.connector_reference
                },
                ..*self
            }
        } else {
            *self
        }
    }

    /// This attempt after each of `events` has met it, in turn.
    pub open spec fn after_all(&self, events: Seq<ConnectorEvent>) -> PaymentAttempt
        decreases events.len(),
    {
        if events.len() == 0 {
            *self
        } else {
            self.after_all(events.drop_last()).after(&events.last())
        }
    }

    /// A new attempt, in status `Created`, with no reference from the
    /// processor yet.
    pub fn new(attempt_id: u64, payment_id: u64, connector: Connector, amount: Amount, now: u64) -> (r:
        PaymentAttempt)
        ensures
            r == (PaymentAttempt {
                attempt_id,
                payment_id,
                connector,
                amount,
                status: CanonicalStatus::Created,
                connector_reference: None,
                created_at: now,
                updated_at: now,
                retry_count: 0,
            }),
    {
        PaymentAttempt {
            attempt_id,
            payment_id,
            connector,
            amount,
            status: CanonicalStatus::Created,
            connector_reference: None,
            created_at: now,
            updated_at: now,
            retry_count: 0,
        }
    }

    /// Decides what becomes of `event`, without changing anything.
    pub fn assess(&self, event: &ConnectorEvent) -> (r: Reconciliation)
        ensures
            r == self.verdict(event),
    {
        if event.attempt_ref != self.attempt_id {
            Reconciliation::Discarded(ReconciliationConflict::WrongAttempt)
        } else if event.observed_status == self.status {
            Reconciliation::Duplicate
        } else if !self.status.can_reach(event.observed_status) {
            Reconciliation::Discarded(ReconciliationConflict::InvalidTransition)
        } else if event.observed_at <= self.updated_at {
            Reconciliation::Discarded(ReconciliationConflict::Superseded)
        } else {
            Reconciliation::Applied
        }
    }

    /// Merges an observed status into the attempt. The transition is
    /// checked before anything is changed: an event that is not applied
    /// leaves the attempt exactly as it was.
    pub fn apply_event(&mut self, event: &ConnectorEvent) -> (r: Reconciliation)
        ensures
            r == old(self).verdict(event),
            *final(self) == old(self).after(event),
    {
        let r = self.assess(event);
        if let Reconciliation::Applied = r {
            self.status = event.observed_status;
            self.updated_at = event.observed_at;
            if self.connector_reference.is_none() {
                self.connector_reference = match &event.connector_reference {
                    Some(reference) => Some(reference.clone()),
                    None => None,
                };
            }
        }
        r
    }

    /// Merges two events that arrived together: the one observed later is
    /// applied first, so that it wins where both could be applied; if they
    /// were observed at the same time, `first` goes first. Returns what
    /// became of `first` and of `second`.
    pub fn reconcile_concurrent(&mut self, first: &ConnectorEvent, second: &ConnectorEvent) -> (r: (
        Reconciliation,
        Reconciliation,
    ))
        ensures
            second.observed_at > first.observed_at ==> {
                &&& r.1 == old(self).verdict(second)
                &&& r.0 == old(self).after(second).verdict(first)
                &&& *final(self) == old(self).after(second).after(first)
            },
            second.observed_at <= first.observed_at ==> {
                &&& r.0 == old(self).verdict(first)
                &&& r.1 == old(self).after(first).verdict(second)
                &&& *final(self) == old(self).after(first).after(second)
            },
    {
        if second.observed_at > first.observed_at {
            let b = self.apply_event(second);
            let a = self.apply_event(first);
            (a, b)
        } else {
            let a = self.apply_event(first);
            let b = self.apply_event(second);
            (a, b)
        }
    }
}


/// One event never moves an attempt off the lifecycle graph: the status
/// stays, or moves to one that lies ahead of it. The time of update moves
/// forward exactly when the status changes, and the attempt's identifiers,
/// connector, amount, time of creation and retry count stay as they were.
pub proof fn lemma_event_follows_graph(attempt: PaymentAttempt, event: ConnectorEvent)
    ensures
        ({
            let next = attempt.after(&event);
            &&& next.status == attempt.status || reachable(attempt.status, next.status)
            &&& next.status != attempt.status <==> attempt.verdict(&event) is Applied
            &&& next.status != attempt.status <==> next.updated_at > attempt.updated_at
            &&& next.status == attempt.status ==> next == attempt
            &&& next.attempt_id == attempt.attempt_id
            &&& next.payment_id == attempt.payment_id
            &&& next.connector == attempt.connector
            &&& next.amount == attempt.amount
            &&& next.created_at == attempt.created_at
            &&& next.retry_count == attempt.retry_count
        }),
{
}

/// No sequence of events moves an attempt off the lifecycle graph: between
/// any two moments of its history the status stayed or moved to one that
/// lies ahead, and the amount did not change.
pub proof fn lemma_history_follows_graph(
    attempt: PaymentAttempt,
    events: Seq<ConnectorEvent>,
    i: int,
    j: int,
)
    requires
        0 <= i <= j <= events.len(),
    ensures
        ({
            let earlier = attempt.after_all(events.take(i));
            let later = attempt.after_all(events.take(j));
            &&& later.status == earlier.status || reachable(earlier.status, later.status)
            &&& later.updated_at >= earlier.updated_at
            &&& later.attempt_id == attempt.attempt_id
            &&& later.amount == attempt.amount
            &&& later.created_at == attempt.created_at
        }),
    decreases j,
{
    if j == 0 {
        assert(events.take(0).len() == 0);
    } else {
        assert(events.take(j).drop_last() == events.take(j - 1));
        assert(events.take(j).last() == events[j - 1]);
        let before = attempt.after_all(events.take(j - 1));
        lemma_event_follows_graph(before, events[j - 1]);
        lemma_history_follows_graph(attempt, events, 0, j - 1);
        if i < j {
            lemma_history_follows_graph(attempt, events, i, j - 1);
            let earlier = attempt.after_all(events.take(i));
            let later = before.after(&events[j - 1]);
            if earlier.status != before.status && before.status != later.status {
                crate::canonical::lemma_reachable_transitive(
                    earlier.status,
                    before.status,
                    later.status,
                );
            }
        }
    }
}

/// Once an attempt is in a terminal status, no event changes it.
pub proof fn lemma_terminal_attempt_is_settled(attempt: PaymentAttempt, event: ConnectorEvent)
    requires
        attempt.status.terminal(),
    ensures
        attempt.after(&event) == attempt,
{
    crate::canonical::lemma_terminal_is_final(attempt.status, event.observed_status);
}

/// Applying the same event twice leaves the attempt as applying it once.
pub proof fn lemma_apply_is_idempotent(attempt: PaymentAttempt, event: ConnectorEvent)
    ensures
        attempt.after(&event).after(&event) == attempt.after(&event),
        !(attempt.after(&event).verdict(&event) is Applied),
{
}

/// The later observation wins. Once an event has been applied, no event
/// observed at the same time or earlier changes the attempt; so of two
/// events that could both be applied, merged together, the attempt takes
/// the status of the one observed later.
pub proof fn lemma_later_observation_wins(
    attempt: PaymentAttempt,
    earlier: ConnectorEvent,
    later: ConnectorEvent,
)
    requires
        attempt.verdict(&later) is Applied,
        earlier.observed_at <= later.observed_at,
    ensures
        attempt.after(&later).after(&earlier) == attempt.after(&later),
        attempt.after(&later).status == later.observed_status,
{
}

} // verus!
