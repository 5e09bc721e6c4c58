//! Onboarding metadata that a merchant dashboard records and reads back.
//!
//! These are plain records. Identifiers, addresses and country codes are
//! held as the text in which they travel.

use vstd::prelude::*;

verus! {

/// One piece of onboarding metadata to record.
#[derive(Debug)]
pub enum SetMetaDataRequest {
    ProductionAgreement(ProductionAgreementRequest),
    SetupProcessor(SetupProcessor),
    ConfigureEndpoint,
    SetupComplete,
    FirstProcessorConnected(ProcessorConnected),
    SecondProcessorConnected(ProcessorConnected),
    ConfiguredRouting(ConfiguredRouting),
    TestPayment(TestPayment),
    IntegrationMethod(IntegrationMethod),
    ConfigurationType(ConfigurationType),
    IntegrationCompleted,
    SPRoutingConfigured(ConfiguredRouting),
    Feedback(Feedback),
    ProdIntent(ProdIntent),
    SPTestPayment,
    DownloadWoocom,
    ConfigureWoocom,
    SetupWoocomWebhook,
    IsMultipleConfiguration,
    IsChangePasswordRequired,
    OnboardingSurvey(OnboardingSurvey),
    ReconStatus(ReconStatus),
}

/// Acceptance of the production agreement.
#[derive(Debug)]
pub struct ProductionAgreementRequest {
    pub version: String,
    /// The address the acceptance came from; filled in by the server.
    pub ip_address: Option<String>,
}

#[derive(Debug)]
pub struct SetupProcessor {
    pub connector_id: String,
}

#[derive(Debug)]
pub struct ProcessorConnected {
    /// The identifier of the merchant's connector account.
    pub processor_id: String,
    pub processor_name: String,
}

#[derive(Debug)]
pub struct OnboardingSurvey {
    pub designation: Option<String>,
    pub about_business: Option<String>,
    pub business_website: Option<String>,
    pub hyperswitch_req: Option<String>,
    pub major_markets: Option<Vec<String>>,
    pub business_size: Option<String>,
    pub required_features: Option<Vec<String>>,
    pub required_processors: Option<Vec<String>>,
    pub planned_live_date: Option<String>,
    pub miscellaneous: Option<String>,
}

#[derive(Debug)]
pub struct ConfiguredRouting {
    pub routing_id: String,
}

#[derive(Debug)]
pub struct TestPayment {
    pub payment_id: String,
}

#[derive(Debug, Clone)]
pub struct IntegrationMethod {
    pub integration_type: String,
}

#[derive(Debug, Clone)]
pub enum ConfigurationType {
    Single,
    Multiple,
}

#[derive(Debug, Clone)]
pub struct Feedback {
    pub email: String,
    pub description: Option<String>,
    pub rating: Option<i32>,
    pub category: Option<String>,
}

/// A merchant's declared intent to go to production.
#[derive(Debug, Clone)]
pub struct ProdIntent {
    pub legal_business_name: Option<String>,
    pub business_label: Option<String>,
    /// Two-letter country code.
    pub business_location: Option<String>,
    pub display_name: Option<String>,
    pub poc_email: Option<String>,
    pub business_type: Option<String>,
    pub business_identifier: Option<String>,
    pub business_website: Option<String>,
    pub poc_name: Option<String>,
    pub poc_contact: Option<String>,
    pub comments: Option<String>,
    pub is_completed: bool,
    /// The product the merchant signed up for, by name.
    pub product_type: String,
    pub business_country_name: Option<String>,
}

#[derive(Debug, Clone)]
pub struct ReconStatus {
    pub is_order_data_set: bool,
    pub is_processor_data_set: bool,
}

/// The key of one piece of onboarding metadata.
#[derive(Debug, Clone, Copy, PartialEq, Eq, Structural)]
pub enum GetMetaDataRequest {
    ProductionAgreement,
    SetupProcessor,
    ConfigureEndpoint,
    SetupComplete,
    FirstProcessorConnected,
    SecondProcessorConnected,
    ConfiguredRouting,
    TestPayment,
    IntegrationMethod,
    ConfigurationType,
    IntegrationCompleted,
    StripeConnected,
    PaypalConnected,
    SPRoutingConfigured,
    Feedback,
    ProdIntent,
    SPTestPayment,
    DownloadWoocom,
    ConfigureWoocom,
    SetupWoocomWebhook,
    IsMultipleConfiguration,
    IsChangePasswordRequired,
    OnboardingSurvey,
    ReconStatus,
}

/// Several keys, asked for at once.
#[derive(Debug)]
pub struct GetMultipleMetaDataPayload {
    pub results: Vec<GetMetaDataRequest>,
}

/// Several keys, as one comma-separated text.
#[derive(Debug)]
pub struct GetMultipleMetaDataRequest {
    pub keys: String,
}

/// What is recorded under one key.
#[derive(Debug)]
pub enum GetMetaDataResponse {
    ProductionAgreement(bool),
    SetupProcessor(Option<SetupProcessor>),
    ConfigureEndpoint(bool),
    SetupComplete(bool),
    FirstProcessorConnected(Option<ProcessorConnected>),
    SecondProcessorConnected(Option<ProcessorConnected>),
    ConfiguredRouting(Option<ConfiguredRouting>),
    TestPayment(Option<TestPayment>),
    IntegrationMethod(Option<IntegrationMethod>),
    ConfigurationType(Option<ConfigurationType>),
    IntegrationCompleted(bool),
    StripeConnected(Option<ProcessorConnected>),
    PaypalConnected(Option<ProcessorConnected>),
    SPRoutingConfigured(Option<ConfiguredRouting>),
    Feedback(Option<Feedback>),
    ProdIntent(Option<ProdIntent>),
    SPTestPayment(bool),
    DownloadWoocom(bool),
    ConfigureWoocom(bool),
    SetupWoocomWebhook(bool),
    IsMultipleConfiguration(bool),
    IsChangePasswordRequired(bool),
    OnboardingSurvey(Option<OnboardingSurvey>),
    ReconStatus(Option<ReconStatus>),
}

} // verus!
