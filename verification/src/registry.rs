//! The connector registry: which connector, with which credential, a
//! profile has configured under a name.
//!
//! Resolution is a lookup in memory; it calls nothing and never blocks.

use vstd::prelude::*;
use crate::connector::Connector;

verus! {

/// The secret with which calls to a connector are authenticated. The
/// engine hands it on and does not look inside.
#[derive(PartialEq, Eq)]
pub struct Credential {
    pub secret: String,
}

impl Clone for Credential {
    fn clone(&self) -> (r: Self)
        ensures
            r == *self,
    {
        Credential { secret: self.secret.clone() }
    }
}

/// One configured connector of one profile. The credential is absent while
/// the configuration lacks the secrets that the connector requires.
#[derive(PartialEq, Eq)]
pub struct ConnectorBinding {
    pub connector: Connector,
    pub profile_id: u64,
    pub credential: Option<Credential>,
}

/// What a resolution gives: the adapter to call and the credential to call
/// it with.
#[derive(PartialEq, Eq)]
pub struct ResolvedConnector {
    pub connector: Connector,
    pub credential: Credential,
}

/// Why a connector could not be resolved.
#[derive(Debug, Clone, Copy, PartialEq, Eq, Structural)]
pub enum RegistryError {
    /// The profile has no connector configured under the name.
    ConnectorNotConfigured,
    /// The connector is configured, but without the secrets it requires.
    CredentialMissing,
}

/// Whether `binding` is the one of `profile_id` under `name`.
pub open spec fn binds(binding: ConnectorBinding, name: Seq<char>, profile_id: u64) -> bool {
    binding.connector.spec_name() == name && binding.profile_id == profile_id
}

/// No profile has the same connector configured twice.
pub open spec fn distinct_bindings(bindings: Seq<ConnectorBinding>) -> bool {
    forall|i: int, j: int|
        0 <= i < j < bindings.len() ==> !((#[trigger] bindings[i]).connector == (
        #[trigger] bindings[j]).connector && bindings[i].profile_id == bindings[j].profile_id)
}

/// What resolving `name` for `profile_id` gives among `bindings`: the
/// connector and its credential; `ConnectorNotConfigured` if the profile
/// has no binding under the name; `CredentialMissing` if the binding has no
/// credential.
pub open spec fn resolution(bindings: Seq<ConnectorBinding>, name: Seq<char>, profile_id: u64)
    -> Result<ResolvedConnector, RegistryError> {
    if exists|i: int| 0 <= i < bindings.len() && binds(#[trigger] bindings[i], name, profile_id) {
        let binding = bindings[choose|i: int|
            0 <= i < bindings.len() && binds(#[trigger] bindings[i], name, profile_id)];
        match binding.credential {
            None => Err(RegistryError::CredentialMissing),
            Some(credential) => Ok(ResolvedConnector { connector: binding.connector, credential }),
        }
    } else {
        Err(RegistryError::ConnectorNotConfigured)
    }
}

/// The bindings after `binding` has been configured: in place of the
/// binding for the same connector and profile, if there was one, else as a
/// new binding at the end.
pub open spec fn rebound(bindings: Seq<ConnectorBinding>, binding: ConnectorBinding) -> Seq<
    ConnectorBinding,
> {
    if exists|i: int|
        0 <= i < bindings.len() && (#[trigger] bindings[i]).connector == binding.connector
            && bindings[i].profile_id == binding.profile_id {
        bindings.update(
            choose|i: int|
                0 <= i < bindings.len() && (#[trigger] bindings[i]).connector == binding.connector
                    && bindings[i].profile_id == binding.profile_id,
            binding,
        )
    } else {
        bindings.push(binding)
    }
}

/// The configured connectors of all profiles. No profile has the same
/// connector configured twice.
pub struct ConnectorRegistry {
    bindings: Vec<ConnectorBinding>,
}

impl View for ConnectorRegistry {
    type V = Seq<ConnectorBinding>;

    /// The bindings, in the order in which they were first configured.
    closed spec fn view(&self) -> Seq<ConnectorBinding> {
        self.bindings@
    }
}

impl ConnectorRegistry {
    #[verifier::type_invariant]
    spec fn inv(&self) -> bool {
        distinct_bindings(self.bindings@)
    }

    /// An empty registry.
    pub fn new() -> (r: ConnectorRegistry)
        ensures
            r@.len() == 0,
    {
        ConnectorRegistry { bindings: Vec::new() }
    }

    /// The bindings, in the order in which they were first configured.
    pub fn bindings(&self) -> (r: &Vec<ConnectorBinding>)
        ensures
            r@ == self@,
            distinct_bindings(r@),
    {
        proof {
            use_type_invariant(self);
        }
        &self.bindings
    }

    /// The place of the binding of `connector` for `profile_id`, if there
    /// is one.
    fn position(bindings: &Vec<ConnectorBinding>, connector: Connector, profile_id: u64) -> (r:
        Option<usize>)
        ensures
            match r {
                Some(i) => i < bindings@.len() && bindings@[i as int].connector == connector
                    && bindings@[i as int].profile_id == profile_id,
                None => forall|j: int|
                    0 <= j < bindings@.len() ==> !((#[trigger] bindings@[j]).connector == connector
                        && bindings@[j].profile_id == profile_id),
            },
    {
        let mut i: usize = 0;
        while i < bindings.len()
            invariant
                i <= bindings@.len(),
                forall|j: int|
                    0 <= j < i ==> !((#[trigger] bindings@[j]).connector == connector
                        && bindings@[j].profile_id == profile_id),
            decreases bindings@.len() - i,
        {
            if bindings[i].connector == connector && bindings[i].profile_id == profile_id {
                return Some(i);
            }
            i += 1;
        }
        None
    }

    /// Configures a connector for a profile: in place of what the profile
    /// had configured for that connector, or as a new binding at the end.
    /// Every other binding stays as it was.
    pub fn bind(&mut self, binding: ConnectorBinding)
        ensures
            final(self)@ == rebound(old(self)@, binding),
    {
        proof {
            use_type_invariant(&*self);
        }
        let mut bindings: Vec<ConnectorBinding> = Vec::new();
        std::mem::swap(&mut bindings, &mut self.bindings);
        match Self::position(&bindings, binding.connector, binding.profile_id) {
            Some(i) => {
                proof {
                    let k = choose|k: int|
                        0 <= k < bindings@.len() && (#[trigger] bindings@[k]).connector
                            == binding.connector && bindings@[k].profile_id == binding.profile_id;
                    assert(k == i);
                }
                bindings.set(i, binding);
            },
            None => {
                bindings.push(binding);
            },
        }
        self.bindings = bindings;
    }

    /// Resolves the connector that `profile_id` has configured under
    /// `connector_name`.
    ///
    /// Fails with `ConnectorNotConfigured` if the profile has nothing
    /// configured under the name, and with `CredentialMissing` if it has,
    /// but without a credential.
    pub fn resolve(&self, connector_name: &str, profile_id: u64) -> (r: Result<
        ResolvedConnector,
        RegistryError,
    >)
        ensures
            r == resolution(self@, connector_name@, profile_id),
    {
        proof {
            use_type_invariant(self);
        }
        let connector = match Connector::from_name(connector_name) {
            Some(connector) => connector,
            None => {
                return Err(RegistryError::ConnectorNotConfigured);
            },
        };
        match Self::position(&self.bindings, connector, profile_id) {
            None => {
                assert forall|i: int| 0 <= i < self.bindings@.len() implies !binds(
                    #[trigger] self.bindings@[i],
                    connector_name@,
                    profile_id,
                ) by {
                    crate::connector::lemma_connector_names_differ(
                        self.bindings@[i].connector,
                        connector,
                    );
                }
                Err(RegistryError::ConnectorNotConfigured)
            },
            Some(i) => {
                proof {
                    assert(binds(self.bindings@[i as int], connector_name@, profile_id));
                    let j = choose|j: int|
                        0 <= j < self.bindings@.len() && binds(
                            #[trigger] self.bindings@[j],
                            connector_name@,
                            profile_id,
                        );
                    lemma_binding_is_unique(self.bindings@, connector_name@, profile_id, i as int, j);
                }
                match &self.bindings[i].credential {
                    None => Err(RegistryError::CredentialMissing),
                    Some(credential) => Ok(
                        ResolvedConnector { connector, credential: credential.clone() },
                    ),
                }
            },
        }
    }
}

/// Resolution has one answer: where no profile has the same connector
/// configured twice, a profile has at most one binding under a name.
pub proof fn lemma_binding_is_unique(
    bindings: Seq<ConnectorBinding>,
    name: Seq<char>,
    profile_id: u64,
    i: int,
    j: int,
)
    requires
        distinct_bindings(bindings),
        0 <= i < bindings.len(),
        0 <= j < bindings.len(),
        binds(bindings[i], name, profile_id),
        binds(bindings[j], name, profile_id),
    ensures
        i == j,
{
    crate::connector::lemma_connector_names_differ(bindings[i].connector, bindings[j].connector);
}

/// What is bound is resolved: once a connector is configured for a
/// profile, resolving its name for the profile gives that connector with
/// the credential it was configured with, or `CredentialMissing` if it was
/// configured with none. No profile comes to have a connector twice.
pub proof fn lemma_bound_is_resolved(bindings: Seq<ConnectorBinding>, binding: ConnectorBinding)
    requires
        distinct_bindings(bindings),
    ensures
        distinct_bindings(rebound(bindings, binding)),
        resolution(rebound(bindings, binding), binding.connector.spec_name(), binding.profile_id)
            == match binding.credential {
            Some(credential) => Ok::<ResolvedConnector, RegistryError>(
                ResolvedConnector { connector: binding.connector, credential },
            ),
            None => Err::<ResolvedConnector, RegistryError>(RegistryError::CredentialMissing),
        },
{
    let after = rebound(bindings, binding);
    let name = binding.connector.spec_name();
    let at = if exists|i: int|
        0 <= i < bindings.len() && (#[trigger] bindings[i]).connector == binding.connector
            && bindings[i].profile_id == binding.profile_id {
        choose|i: int|
            0 <= i < bindings.len() && (#[trigger] bindings[i]).connector == binding.connector
                && bindings[i].profile_id == binding.profile_id
    } else {
        bindings.len() as int
    };
    assert(after[at] == binding);
    assert forall|k: int| 0 <= k < after.len() && k != at implies #[trigger] after[k] == bindings[k]
        && !(bindings[k].connector == binding.connector && bindings[k].profile_id
        == binding.profile_id) by {
        if at < bindings.len() {
            if k < at {
                assert(!(bindings[k].connector == bindings[at].connector && bindings[k].profile_id
                    == bindings[at].profile_id));
            } else {
                assert(!(bindings[at].connector == bindings[k].connector && bindings[at].profile_id
                    == bindings[k].profile_id));
            }
        }
    }
    assert forall|i: int, j: int| 0 <= i < j < after.len() implies !((#[trigger] after[i]).connector
        == (#[trigger] after[j]).connector && after[i].profile_id == after[j].profile_id) by {
        if i != at && j != at {
            assert(after[i] == bindings[i] && after[j] == bindings[j]);
            assert(!(bindings[i].connector == bindings[j].connector && bindings[i].profile_id
                == bindings[j].profile_id));
        } else if i == at {
            assert(after[j] == bindings[j]);
        } else {
            assert(after[i] == bindings[i]);
        }
    }
    assert(binds(after[at], name, binding.profile_id));
    let k = choose|k: int| 0 <= k < after.len() && binds(#[trigger] after[k], name, binding.profile_id);
    lemma_binding_is_unique(after, name, binding.profile_id, at, k);
}

} // verus!
