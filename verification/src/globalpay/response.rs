//! What Global Payments answers, field by field.
//!
//! These are plain records. Secrets and amounts are held as the text in
//! which they travel; a value of a request-side enumeration is held by its
//! name on the wire.

use vstd::prelude::*;

verus! {

/// The answer to a payment, capture, void or status request.
#[derive(Debug)]
pub struct GlobalpayPaymentsResponse {
    pub account_id: Option<String>,
    pub account_name: Option<String>,
    pub action: Option<Action>,
    /// The amount in the lowest denomination of the currency, in decimal digits.
    pub amount: Option<String>,
    pub authorization_mode: Option<String>,
    pub batch_id: Option<String>,
    pub capture_mode: Option<String>,
    pub channel: Option<String>,
    pub country: Option<String>,
    /// Three-letter currency code.
    pub currency: Option<String>,
    pub currency_conversion: Option<CurrencyConversion>,
    /// The processor's identifier of the transaction.
    pub id: String,
    pub merchant_id: Option<String>,
    pub merchant_name: Option<String>,
    pub payment_method: Option<PaymentMethod>,
    /// The merchant's own reference for the transaction.
    pub reference: Option<String>,
    /// Where the transaction is in its lifecycle.
    pub status: GlobalpayPaymentStatus,
    pub time_created: Option<String>,
    /// Whether funds move to the merchant or back to the payer, by name.
    pub globalpay_payments_response_type: Option<String>,
}

/// The action that the processor executed.
#[derive(Debug)]
pub struct Action {
    pub app_id: Option<String>,
    pub app_name: Option<String>,
    pub id: Option<String>,
    pub result_code: Option<ResultCode>,
    pub time_created: Option<String>,
    pub action_type: Option<ActionType>,
}

#[derive(Debug)]
pub struct GlobalpayRefreshTokenResponse {
    pub token: String,
    pub seconds_to_expire: i64,
}

#[derive(Debug)]
pub struct GlobalpayRefreshTokenErrorResponse {
    pub error_code: String,
    pub detailed_error_description: String,
}

#[derive(Debug)]
pub struct CurrencyConversion {
    pub commission_percentage: Option<String>,
    pub conversion_rate: Option<String>,
    pub exchange_rate_source: Option<String>,
    pub exchange_source_time: Option<String>,
    pub margin_rate_percentage: Option<String>,
    /// The amount charged to the payer, in decimal digits.
    pub payer_amount: Option<String>,
    pub payer_currency: Option<String>,
}

#[derive(Debug)]
pub struct PaymentMethod {
    pub apm: Option<Apm>,
    pub authentication: Option<Authentication>,
    pub bank_transfer: Option<BankTransfer>,
    pub card: Option<Card>,
    /// The digital wallet used, as JSON text.
    pub digital_wallet: Option<String>,
    pub entry_mode: Option<String>,
    pub fingerprint: Option<String>,
    pub fingerprint_presence_indicator: Option<String>,
    /// The token of the stored payment method.
    pub id: Option<String>,
    pub message: Option<String>,
    pub result: Option<String>,
}

/// The answer of an alternative payment method.
#[derive(Debug)]
pub struct Apm {
    pub bank: Option<Bank>,
    pub fund_status: Option<FundStatus>,
    pub mandate: Option<Mandate>,
    pub provider: Option<ApmProvider>,
    pub provider_payer_name: Option<String>,
    pub provider_time_created: Option<String>,
    pub provider_transaction_reference: Option<String>,
    /// Where to send the payer to complete the payment.
    pub redirect_url: Option<String>,
    pub session_token: Option<String>,
    pub payment_description: Option<String>,
}

#[derive(Debug)]
pub struct Bank {
    pub account_number: Option<String>,
    pub code: Option<String>,
    pub iban: Option<String>,
    pub identifier_code: Option<String>,
    pub name: Option<String>,
}

#[derive(Debug)]
pub struct Mandate {
    pub code: Option<String>,
}

#[derive(Debug)]
pub struct Authentication {
    pub three_ds: Option<ThreeDs>,
}

#[derive(Debug)]
pub struct ThreeDs {
    pub value_result: Option<String>,
}

#[derive(Debug)]
pub struct BankTransfer {
    pub masked_number_last4: Option<String>,
    pub name: Option<String>,
    pub number_type: Option<NumberType>,
}

#[derive(Debug)]
pub struct Card {
    pub authcode: Option<String>,
    pub avs_action: Option<String>,
    pub avs_address_result: Option<String>,
    pub avs_postal_code_result: Option<String>,
    pub brand: Option<Brand>,
    pub brand_reference: Option<String>,
    pub brand_time_reference: Option<String>,
    pub cvv_result: Option<String>,
    pub masked_number_last4: Option<String>,
    pub provider: Option<ProviderClass>,
    pub tag_response: Option<String>,
}

/// Result codes straight from the card issuer.
#[derive(Debug)]
pub struct ProviderClass {
    pub card_provider_avs_address_result: Option<String>,
    pub card_provider_avs_postal_code_result: Option<String>,
    pub card_provider_avs_result: Option<String>,
    pub card_provider_cvv_result: Option<String>,
    pub card_provider_result: Option<String>,
}

#[derive(Debug)]
pub enum ResultCode {
    Declined,
    Success,
    Pending,
    Error,
}

#[derive(Debug)]
pub enum ActionType {
    Adjust,
    Authorize,
    Capture,
    Confirm,
    Force,
    Increment,
    Initiate,
    MultipleCapture,
    Preauthorize,
    PreauthorizeMultipleCapturere,
    Authorization,
    RedirectFrom,
    RedirectTo,
    Refund,
    Hold,
    Release,
    Reverse,
    Split,
    StatusNotification,
    TransactionList,
    TransactionSingle,
}

/// To what degree the merchant is funded for the transaction.
#[derive(Debug)]
pub enum FundStatus {
    Missing,
    NotExpected,
    Received,
    Waiting,
}

#[derive(Debug)]
pub enum ApmProvider {
    Giropay,
    Ideal,
    Paypal,
    Sofort,
    Eps,
    Testpay,
}

#[derive(Debug)]
pub enum NumberType {
    Checking,
    Savings,
}

#[derive(Debug)]
pub enum AvsAction {
    Accept,
    Decline,
    Prompt,
}

/// The result of an address, postal code or CVV check.
#[derive(Debug)]
pub enum GlobalPayResult {
    Matched,
    NotChecked,
    NotMatched,
}

#[derive(Debug)]
pub enum Brand {
    Amex,
    Cup,
    Diners,
    Discover,
    Jcb,
    Mastercard,
    Visa,
}

/// Where a transaction is in the processor's own lifecycle.
#[derive(Clone, Copy, Debug, PartialEq, Eq, Structural)]
pub enum GlobalpayPaymentStatus {
    /// Authorized and captured; funding will follow.
    Captured,
    /// The payment method provider declined the transfer.
    Declined,
    /// The funds have moved as expected.
    Funded,
    /// Initiated; the outcome will be notified separately.
    Initiated,
    /// Sent to the payment method provider, awaiting a result.
    Pending,
    /// Approved; a capture request is needed to move the funds.
    Preauthorized,
    /// The transfer was rejected during funding.
    Rejected,
    /// Reversed before it was funded.
    Reversed,
}

/// The transaction that a notification is about.
#[derive(Debug)]
pub struct GlobalpayWebhookObjectId {
    pub id: String,
}

/// What a notification reports of its transaction.
#[derive(Debug)]
pub struct GlobalpayWebhookObjectEventType {
    pub status: GlobalpayWebhookStatus,
}

/// The statuses that a notification can report; any other is `Unknown`.
#[derive(Clone, Copy, Debug, PartialEq, Eq, Structural)]
pub enum GlobalpayWebhookStatus {
    Declined,
    Captured,
    Unknown,
}

} // verus!
