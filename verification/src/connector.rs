//! What every connector adapter has in common: the operations it may
//! offer and the ways in which a call to it can fail.

use vstd::prelude::*;
use crate::attempt::{ConnectorEvent, EventSource};
use crate::canonical::{reachable, CanonicalStatus};
use crate::text::same_text;

verus! {

/// The ways in which a call to a connector fails.
#[derive(Debug, PartialEq, Eq)]
pub enum ConnectorError {
    /// The processor could not be reached.
    Network,
    /// The processor refused the credential.
    AuthenticationFailed,
    /// The processor refused the request, with its reason.
    InvalidRequest(String),
    /// The processor reported a status that the adapter's table does not
    /// hold. The raw value is kept; it is never replaced by a default.
    UnmappedStatus(String),
    /// The processor did not answer in time.
    Timeout,
}

impl Clone for ConnectorError {
    fn clone(&self) -> (r: Self)
        ensures
            r == *self,
    {
        match self {
            ConnectorError::Network => ConnectorError::Network,
            ConnectorError::AuthenticationFailed => ConnectorError::AuthenticationFailed,
            ConnectorError::InvalidRequest(reason) => ConnectorError::InvalidRequest(reason.clone()),
            ConnectorError::UnmappedStatus(raw) => ConnectorError::UnmappedStatus(raw.clone()),
            ConnectorError::Timeout => ConnectorError::Timeout,
        }
    }
}

impl ConnectorError {
    /// A transient failure may succeed when tried again; any other will not.
    pub open spec fn transient(&self) -> bool {
        self is Network || self is Timeout
    }

    /// Whether trying the same call again can succeed.
    pub fn is_transient(&self) -> (r: bool)
        ensures
            r == self.transient(),
    {
        match self {
            ConnectorError::Network | ConnectorError::Timeout => true,
            _ => false,
        }
    }
}

/// An operation that a connector may offer.
#[derive(Debug, Clone, Copy, PartialEq, Eq, Structural)]
pub enum Capability {
    Authorize,
    Capture,
    Sync,
    Refund,
    ParseWebhook,
}

/// The connectors that the engine knows, one variant for each adapter.
#[derive(Debug, Clone, Copy, PartialEq, Eq, Hash, Structural)]
pub enum Connector {
    Globalpay,
}

impl Connector {
    /// The name under which the connector is configured.
    pub open spec fn spec_name(self) -> Seq<char> {
        match self {
            Connector::Globalpay => "globalpay"@,
        }
    }

    /// Whether the connector offers the operation.
    pub open spec fn offers(self, capability: Capability) -> bool {
        match self {
            Connector::Globalpay => true,
        }
    }

    /// The name under which the connector is configured.
    pub fn name(self) -> (r: &'static str)
        ensures
            r@ == self.spec_name(),
    {
        match self {
            Connector::Globalpay => "globalpay",
        }
    }

    /// The connector that is configured under `name`, if there is one.
    pub fn from_name(name: &str) -> (r: Option<Connector>)
        ensures
            match r {
                Some(connector) => connector.spec_name() == name@,
                None => forall|connector: Connector| connector.spec_name() != name@,
            },
    {
        if same_text(name, "globalpay") {
            Some(Connector::Globalpay)
        } else {
            None
        }
    }

    /// Whether the connector offers the operation.
    pub fn supports(self, capability: Capability) -> (r: bool)
        ensures
            r == self.offers(capability),
    {
        match self {
            Connector::Globalpay => true,
        }
    }

    /// Maps a raw status, as the connector reports it, to the canonical
    /// model. The mapping is total over the raw values that the connector
    /// documents; any other value fails with `UnmappedStatus`, which
    /// carries the value as it came, and is never given a default status.
    pub fn map_status(self, raw: &str) -> (r: Result<CanonicalStatus, ConnectorError>)
        ensures
            match self.status_for(raw@) {
                Some(status) => r == Ok::<CanonicalStatus, ConnectorError>(status),
                None => r matches Err(ConnectorError::UnmappedStatus(value)) && value@ == raw@,
            },
    {
        match self {
            Connector::Globalpay => crate::globalpay::transformers::map_status(raw),
        }
    }

    /// Makes the event that a reply of the connector stands for: the
    /// canonical status for the raw status that the reply carries, under
    /// the processor's reference. A reply with a raw status that the
    /// connector does not document makes no event; it fails with
    /// `UnmappedStatus`.
    pub fn observe(
        self,
        raw_status: &str,
        reference: Option<String>,
        source: EventSource,
        attempt_ref: u64,
        observed_at: u64,
    ) -> (r: Result<ConnectorEvent, ConnectorError>)
        ensures
            match self.status_for(raw_status@) {
                Some(status) => r == Ok::<ConnectorEvent, ConnectorError>(
                    ConnectorEvent {
                        source,
                        attempt_ref,
                        observed_status: status,
                        connector_reference: reference,
                        observed_at,
                    },
                ),
                None => r matches Err(ConnectorError::UnmappedStatus(value)) && value@ == raw_status@,
            },
    {
        match self.map_status(raw_status) {
            Ok(status) => Ok(
                ConnectorEvent {
                    source,
                    attempt_ref,
                    observed_status: status,
                    connector_reference: reference,
                    observed_at,
                },
            ),
            Err(error) => Err(error),
        }
    }

    /// The canonical status for a raw status of the connector, if the
    /// connector documents that raw value.
    pub open spec fn status_for(self, raw: Seq<char>) -> Option<CanonicalStatus> {
        match self {
            Connector::Globalpay => crate::globalpay::transformers::mapped_status(raw),
        }
    }

    /// The raw statuses that the connector documents.
    pub open spec fn vocabulary(self) -> Seq<Seq<char>> {
        match self {
            Connector::Globalpay => crate::globalpay::transformers::documented(),
        }
    }

    /// The raw statuses that the connector documents.
    pub fn documented_statuses(self) -> (r: Vec<&'static str>)
        ensures
            r@.len() == self.vocabulary().len(),
            forall|i: int| 0 <= i < r@.len() ==> (#[trigger] r@[i])@ == self.vocabulary()[i],
    {
        match self {
            Connector::Globalpay => crate::globalpay::transformers::documented_statuses(),
        }
    }

    /// Whether the connector documents `raw` with a canonical status that a
    /// new attempt can never take: one that cannot be reached from
    /// `Created`.
    pub open spec fn implies_unlisted_transition(self, raw: Seq<char>) -> bool {
        match self.status_for(raw) {
            Some(status) => status != CanonicalStatus::Created && !reachable(
                CanonicalStatus::Created,
                status,
            ),
            None => false,
        }
    }

    /// The documented raw statuses that a new attempt can never take,
    /// because the lifecycle graph has no way to their canonical status
    /// from `Created`. An event with such a status is discarded unless the
    /// attempt was recorded in a status from which it can be reached.
    pub fn unlisted_statuses(self) -> (r: Vec<&'static str>)
        ensures
            r@.map_values(|raw: &'static str| raw@) == self.vocabulary().filter(
                |raw: Seq<char>| self.implies_unlisted_transition(raw),
            ),
    {
        let documented = self.documented_statuses();
        let ghost names = self.vocabulary();
        let ghost flagged = |raw: Seq<char>| self.implies_unlisted_transition(raw);
        let mut found: Vec<&'static str> = Vec::new();
        let mut i: usize = 0;
        proof {
            assert(names.take(0) == Seq::<Seq<char>>::empty());
            reveal_with_fuel(Seq::filter, 1);
            assert(found@.map_values(|raw: &'static str| raw@) == names.take(0).filter(flagged));
        }
        while i < documented.len()
            invariant
                i <= documented@.len(),
                names == self.vocabulary(),
                documented@.len() == names.len(),
                forall|k: int| 0 <= k < documented@.len() ==> (#[trigger] documented@[k])@ == names[k],
                flagged == |raw: Seq<char>| self.implies_unlisted_transition(raw),
                found@.map_values(|raw: &'static str| raw@) == names.take(i as int).filter(flagged),
            decreases documented@.len() - i,
        {
            let raw = documented[i];
            let ghost before = found@;
            let flag = match self.map_status(raw) {
                Ok(status) => status != CanonicalStatus::Created && !CanonicalStatus::Created.can_reach(
                    status,
                ),
                Err(_) => false,
            };
            if flag {
                found.push(raw);
            }
            proof {
                let upto = names.take(i + 1);
                assert(upto.drop_last() == names.take(i as int));
                assert(upto.last() == names[i as int]);
                reveal_with_fuel(Seq::filter, 1);
                if flag {
                    assert(found@.map_values(|raw: &'static str| raw@) == before.map_values(
                        |raw: &'static str| raw@,
                    ).push(raw@));
                }
            }
            i += 1;
        }
        assert(names.take(i as int) == names);
        found
    }
}

/// No two connectors are configured under the same name.
pub proof fn lemma_connector_names_differ(a: Connector, b: Connector)
    ensures
        a.spec_name() == b.spec_name() ==> a == b,
{
}

/// The status mapping of every connector is total over the raw statuses
/// that the connector documents: each of them has a canonical status, so
/// none of them ever fails with `UnmappedStatus`. Every other value has
/// none.
pub proof fn lemma_mapping_is_total_over_vocabulary(connector: Connector, raw: Seq<char>)
    ensures
        connector.vocabulary().contains(raw) <==> connector.status_for(raw) is Some,
{
    match connector {
        Connector::Globalpay => crate::globalpay::transformers::lemma_documented_statuses_are_mapped(
            raw,
        ),
    }
}

} // verus!
