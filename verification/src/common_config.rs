//! Connector configuration as a dashboard submits it and as the connector
//! API takes it.
//!
//! These are plain records. A value of an enumeration that belongs to the
//! wider API (a payment method, a currency, a card network) is held by its
//! name on the wire, and a nested document by its JSON text.

use vstd::prelude::*;

verus! {

#[derive(Debug, Clone)]
pub struct ZenApplePay {
    pub terminal_uuid: Option<String>,
    pub pay_wall_secret: Option<String>,
}

/// Apple Pay configuration, in one of the shapes a connector takes.
#[derive(Debug, Clone)]
pub enum ApplePayData {
    /// Session-token metadata, as JSON text.
    ApplePay(String),
    /// Combined (simplified or manual) metadata, as JSON text.
    ApplePayCombined(String),
    Zen(ZenApplePay),
}

#[derive(Debug, Clone)]
pub struct GpayDashboardPayLoad {
    pub gateway_merchant_id: Option<String>,
    pub stripe_version: Option<String>,
    pub stripe_publishable_key: Option<String>,
    pub merchant_name: String,
    pub merchant_id: Option<String>,
}

#[derive(Debug, Clone)]
pub struct ZenGooglePay {
    pub terminal_uuid: Option<String>,
    pub pay_wall_secret: Option<String>,
}

/// Google Pay configuration as the dashboard submits it.
#[derive(Debug, Clone)]
pub enum GooglePayData {
    Standard(GpayDashboardPayLoad),
    Zen(ZenGooglePay),
}

#[derive(Debug, Clone)]
pub struct PaypalSdkData {
    pub client_id: Option<String>,
}

/// Google Pay configuration as the connector API takes it.
#[derive(Debug, Clone)]
pub enum GoogleApiModelData {
    /// Merchant info and allowed payment methods, as JSON text.
    Standard(String),
    Zen(ZenGooglePay),
}

#[derive(Debug, Clone)]
pub struct PaymentMethodsEnabled {
    /// The payment method, by name.
    pub payment_method: String,
    /// The enabled types of that method, each as JSON text.
    pub payment_method_types: Option<Vec<String>>,
}

/// Connector metadata as the connector API takes it.
#[derive(Debug, Clone)]
pub struct ApiModelMetaData {
    /// Three-letter currency code.
    pub merchant_config_currency: Option<String>,
    pub merchant_account_id: Option<String>,
    pub account_name: Option<String>,
    pub terminal_id: Option<String>,
    pub merchant_id: Option<String>,
    pub google_pay: Option<GoogleApiModelData>,
    pub paypal_sdk: Option<PaypalSdkData>,
    pub apple_pay: Option<ApplePayData>,
    pub apple_pay_combined: Option<ApplePayData>,
    pub endpoint_prefix: Option<String>,
    pub mcc: Option<String>,
    pub merchant_country_code: Option<String>,
    pub merchant_name: Option<String>,
    pub acquirer_bin: Option<String>,
    pub acquirer_merchant_id: Option<String>,
    pub acquirer_country_code: Option<String>,
    pub three_ds_requestor_name: Option<String>,
    pub three_ds_requestor_id: Option<String>,
    pub pull_mechanism_for_external_3ds_enabled: Option<bool>,
    pub klarna_region: Option<KlarnaEndpoint>,
    pub source_balance_account: Option<String>,
    pub brand_id: Option<String>,
    pub destination_account_number: Option<String>,
    pub dpa_id: Option<String>,
    pub dpa_name: Option<String>,
    pub locale: Option<String>,
    pub card_brands: Option<Vec<String>>,
    pub merchant_category_code: Option<String>,
    pub merchant_configuration_id: Option<String>,
    pub tenant_id: Option<String>,
    pub platform_url: Option<String>,
}

#[derive(Debug, Clone)]
pub enum KlarnaEndpoint {
    Europe,
    NorthAmerica,
    Oceania,
}

/// One card network that a connector account accepts.
#[derive(Debug, Clone, PartialEq, Eq, Hash)]
pub struct CardProvider {
    /// The card network, by name.
    pub payment_method_type: String,
    /// The accepted currencies, as JSON text.
    pub accepted_currencies: Option<String>,
    /// The accepted countries, as JSON text.
    pub accepted_countries: Option<String>,
}

/// One payment method type that a connector account accepts.
#[derive(Debug, Clone, PartialEq, Eq, Hash)]
pub struct Provider {
    /// The payment method type, by name.
    pub payment_method_type: String,
    /// The accepted currencies, as JSON text.
    pub accepted_currencies: Option<String>,
    /// The accepted countries, as JSON text.
    pub accepted_countries: Option<String>,
    /// The payment experience, by name.
    pub payment_experience: Option<String>,
}

/// What the connector API takes to create or update a connector account.
#[derive(Debug, Clone)]
pub struct ConnectorApiIntegrationPayload {
    pub connector_type: String,
    pub profile_id: String,
    /// The connector, by name.
    pub connector_name: String,
    pub connector_label: Option<String>,
    pub merchant_connector_id: Option<String>,
    pub disabled: bool,
    pub test_mode: bool,
    pub payment_methods_enabled: Option<Vec<PaymentMethodsEnabled>>,
    pub metadata: Option<ApiModelMetaData>,
    /// Webhook secrets of the connector account, as JSON text.
    pub connector_webhook_details: Option<String>,
}

#[derive(Debug, Clone, PartialEq, Eq, Hash)]
pub struct DashboardPaymentMethodPayload {
    /// The payment method, by name.
    pub payment_method: String,
    pub payment_method_type: String,
    pub provider: Option<Vec<Provider>>,
    pub card_provider: Option<Vec<CardProvider>>,
}

/// What a dashboard submits to configure a connector.
#[derive(Debug, Clone)]
pub struct DashboardRequestPayload {
    /// The connector, by name.
    pub connector: String,
    pub payment_methods_enabled: Option<Vec<DashboardPaymentMethodPayload>>,
    pub metadata: Option<ApiModelMetaData>,
}

/// The kind of form field with which a configuration value is entered.
#[derive(Debug, Clone)]
pub enum InputType {
    Text,
    Number,
    Toggle,
    Radio(Vec<String>),
    Select(Vec<String>),
    MultiSelect(Vec<String>),
}

/// One form field of a connector's configuration.
#[derive(Debug, Clone)]
pub struct InputData {
    pub name: String,
    pub label: String,
    pub placeholder: String,
    pub required: bool,
    pub input_type: InputType,
}

} // verus!
