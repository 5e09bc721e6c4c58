use payment_reconciliation::connector::Connector;
use payment_reconciliation::registry::{
    ConnectorBinding, ConnectorRegistry, Credential, RegistryError, ResolvedConnector,
};

fn secret(s: &str) -> Credential {
    Credential { secret: s.to_string() }
}

#[test]
fn resolves_the_bound_connector_with_its_credential() {
    let mut registry = ConnectorRegistry::new();
    registry.bind(ConnectorBinding {
        connector: Connector::Globalpay,
        profile_id: 4,
        credential: Some(secret("app-key-4")),
    });
    assert!(
        registry.resolve("globalpay", 4)
            == Ok(ResolvedConnector { connector: Connector::Globalpay, credential: secret("app-key-4") })
    );
}

#[test]
fn unbound_profile_is_not_configured() {
    let mut registry = ConnectorRegistry::new();
    assert!(registry.resolve("globalpay", 4) == Err(RegistryError::ConnectorNotConfigured));
    registry.bind(ConnectorBinding {
        connector: Connector::Globalpay,
        profile_id: 4,
        credential: Some(secret("app-key-4")),
    });
    assert!(registry.resolve("globalpay", 5) == Err(RegistryError::ConnectorNotConfigured));
}

#[test]
fn unknown_connector_name_is_not_configured() {
    let mut registry = ConnectorRegistry::new();
    registry.bind(ConnectorBinding {
        connector: Connector::Globalpay,
        profile_id: 4,
        credential: Some(secret("app-key-4")),
    });
    assert!(registry.resolve("globalpayments", 4) == Err(RegistryError::ConnectorNotConfigured));
    assert!(registry.resolve("", 4) == Err(RegistryError::ConnectorNotConfigured));
}

#[test]
fn binding_without_secrets_is_credential_missing() {
    let mut registry = ConnectorRegistry::new();
    registry.bind(ConnectorBinding { connector: Connector::Globalpay, profile_id: 4, credential: None });
    assert!(registry.resolve("globalpay", 4) == Err(RegistryError::CredentialMissing));
}

#[test]
fn binding_again_replaces_the_binding() {
    let mut registry = ConnectorRegistry::new();
    registry.bind(ConnectorBinding { connector: Connector::Globalpay, profile_id: 4, credential: None });
    registry.bind(ConnectorBinding {
        connector: Connector::Globalpay,
        profile_id: 9,
        credential: Some(secret("app-key-9")),
    });
    registry.bind(ConnectorBinding {
        connector: Connector::Globalpay,
        profile_id: 4,
        credential: Some(secret("app-key-4")),
    });
    assert_eq!(registry.bindings().len(), 2);
    assert_eq!(registry.bindings()[0].profile_id, 4);
    assert_eq!(registry.bindings()[1].profile_id, 9);
    assert!(registry.resolve("globalpay", 4).map(|r| r.credential) == Ok(secret("app-key-4")));
    assert!(registry.resolve("globalpay", 9).map(|r| r.credential) == Ok(secret("app-key-9")));
}

#[test]
fn credential_clone_is_equal() {
    let c = secret("s3");
    assert!(c.clone() == c);
}
