//! The canonical, provider-agnostic domain model: the currency and status
//! vocabularies of the router, the secret wrapper for card data, the
//! polymorphic credential configuration, and the typed error taxonomy.

use vstd::prelude::*;

verus! {

/// ISO currency codes the router can carry into this connector.
#[derive(Clone, Copy, Debug, PartialEq, Eq, Structural)]
pub enum Currency {
    BGN,
    CHF,
    CZK,
    DKK,
    EUR,
    GBP,
    HUF,
    NOK,
    PLN,
    RON,
    SEK,
    USD,
}

/// The ISO alphabetic code of a currency, as a character sequence.
pub open spec fn spec_currency_code(c: Currency) -> Seq<char> {
    match c {
        Currency::BGN => "BGN"@,
        Currency::CHF => "CHF"@,
        Currency::CZK => "CZK"@,
        Currency::DKK => "DKK"@,
        Currency::EUR => "EUR"@,
        Currency::GBP => "GBP"@,
        Currency::HUF => "HUF"@,
        Currency::NOK => "NOK"@,
        Currency::PLN => "PLN"@,
        Currency::RON => "RON"@,
        Currency::SEK => "SEK"@,
        Currency::USD => "USD"@,
    }
}

impl Currency {
    /// The ISO alphabetic code, for wire shapes that carry the currency as text.
    pub fn code(&self) -> (r: String)
        ensures
            r@ == spec_currency_code(*self),
    {
        match self {
            Currency::BGN => "BGN".to_owned(),
            Currency::CHF => "CHF".to_owned(),
            Currency::CZK => "CZK".to_owned(),
            Currency::DKK => "DKK".to_owned(),
            Currency::EUR => "EUR".to_owned(),
            Currency::GBP => "GBP".to_owned(),
            Currency::HUF => "HUF".to_owned(),
            Currency::NOK => "NOK".to_owned(),
            Currency::PLN => "PLN".to_owned(),
            Currency::RON => "RON".to_owned(),
            Currency::SEK => "SEK".to_owned(),
            Currency::USD => "USD".to_owned(),
        }
    }
}

/// A secret-wrapped string (card number, CVV, expiry parts). The raw value
/// is reachable only through the explicit [`Secret::peek`] reveal; the type
/// deliberately has no `Debug` or `Display`, so it can never end up in
/// generic formatting or logs.
pub struct Secret {
    value: String,
}

impl View for Secret {
    type V = Seq<char>;

    closed spec fn view(&self) -> Seq<char> {
        self.value@
    }
}

impl Secret {
    /// Wrap a raw value.
    pub fn new(value: String) -> (r: Self)
        ensures
            r@ == value@,
    {
        Secret { value }
    }

    /// Explicitly reveal the wrapped value.
    pub fn peek(&self) -> (r: &String)
        ensures
            r@ == self@,
    {
        &self.value
    }
}

/// Card details of the canonical authorize request; every field is
/// secret-wrapped.
pub struct CCard {
    pub card_number: Secret,
    pub card_exp_month: Secret,
    pub card_exp_year: Secret,
    pub card_cvc: Secret,
}

/// The payment-method variant of the canonical request. This connector
/// accepts only [`PaymentMethod::Card`]; every other variant is a hard
/// rejection.
pub enum PaymentMethod {
    Card(CCard),
    Wallet,
    PayLater,
    BankTransfer,
}

/// The shapes in which the router stores connector credentials. This
/// connector requires the header-key shape.
pub enum ConnectorAuthType {
    HeaderKey { api_key: String },
    BodyKey { api_key: String, key1: String },
    SignatureKey { api_key: String, key1: String, api_secret: String },
}

/// The router's canonical lifecycle state of a payment attempt.
#[derive(Clone, Copy, Debug, PartialEq, Eq, Structural)]
pub enum AttemptStatus {
    Charged,
    Pending,
    AuthorizationFailed,
    Failure,
}

/// The router's canonical lifecycle state of a refund.
#[derive(Clone, Copy, Debug, PartialEq, Eq, Structural)]
pub enum RefundStatus {
    Success,
    Pending,
    Failure,
}

/// The typed errors this connector can surface: credential-shape mismatch,
/// unsupported payment method, a field that could not be encoded for the
/// wire, and a required response field that was absent.
#[derive(Debug, Clone, PartialEq, Eq)]
pub enum ConnectorError {
    FailedToObtainAuthType,
    NotImplemented(String),
    RequestEncodingFailed,
    MissingRequiredField { field_name: String },
}

/// The canonical authorize request: minor-unit amount, currency, the
/// payment-method variant, and the caller's optional return URL.
pub struct PaymentsAuthorizeData {
    pub amount: i64,
    pub currency: Currency,
    pub payment_method_data: PaymentMethod,
    pub return_url: Option<String>,
}

/// The canonical refund (and capture) request: minor-unit amount, currency,
/// and the connector-assigned transaction id ("instance id") being acted on.
pub struct RefundsData {
    pub amount: i64,
    pub currency: Currency,
    pub connector_transaction_id: String,
}

} // verus!
