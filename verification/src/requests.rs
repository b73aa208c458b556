//! The credential extractor and the request builder: the wire request of
//! each operation (authorize, refund, capture), constructed from the
//! canonical request plus the extracted credential. Every builder is
//! side-effect-free and input-validated; card data leaves its secret
//! wrapper only to be placed into the wire value, never formatted or
//! logged.

use vstd::prelude::*;
use vstd::string::StrSliceExecFns;
use vstd::string::StringExecFns;
use crate::domain::ConnectorAuthType;
use crate::domain::ConnectorError;
use crate::domain::Currency;
use crate::domain::PaymentMethod;
use crate::domain::PaymentsAuthorizeData;
use crate::domain::RefundsData;
use crate::domain::spec_currency_code;
use crate::numeric::parse_i64;
use crate::numeric::spec_parse_i64;

verus! {

/// The provider sandbox host used when the canonical request carries no
/// return URL: a deliberate, auditable fallback, distinguishable from any
/// caller-supplied URL.
pub open spec fn spec_fallback_redirect_url() -> Seq<char> {
    "https://test-tpgw.trustpay.eu"@
}

/// The fallback redirect URL as a value (see [`spec_fallback_redirect_url`]).
pub fn fallback_redirect_url() -> (r: String)
    ensures
        r@ == spec_fallback_redirect_url(),
{
    "https://test-tpgw.trustpay.eu".to_owned()
}

/// The single credential shape this provider accepts: a header-style API
/// key.
pub struct TrustpayAuthType {
    pub api_key: String,
}

impl TrustpayAuthType {
    /// Extract the provider credential from the router's polymorphic
    /// credential configuration. Only the header-key shape is accepted;
    /// every other shape fails with `FailedToObtainAuthType`.
    pub fn try_from(auth_type: &ConnectorAuthType) -> (r: Result<Self, ConnectorError>)
        ensures
            auth_type matches ConnectorAuthType::HeaderKey { api_key } ==> (r matches Ok(c)
                && c.api_key@ == api_key@),
            !(auth_type is HeaderKey) ==> r == Err::<Self, _>(
                ConnectorError::FailedToObtainAuthType,
            ),
    {
        if let ConnectorAuthType::HeaderKey { api_key } = auth_type {
            Ok(TrustpayAuthType { api_key: api_key.clone() })
        } else {
            Err(ConnectorError::FailedToObtainAuthType)
        }
    }
}

/// The provider's authorize wire request. Field names are the provider's
/// own and must be serialized byte-exact.
#[allow(non_snake_case)]
#[derive(Clone, Debug, PartialEq, Eq)]
pub struct TrustpayPaymentsRequest {
    pub amount: i64,
    pub currency: Currency,
    pub pan: String,
    pub cvv: i64,
    pub exp: String,
    pub redirectUrl: String,
}

impl TrustpayPaymentsRequest {
    /// Build the authorize wire request from the canonical request and the
    /// extracted credential (the credential authenticates the call at the
    /// transport layer; the request body itself carries none of it).
    ///
    /// A non-card payment method is rejected outright; a CVV that is not a
    /// decimal integer fails encoding; expiry is formatted `month/year`;
    /// a missing return URL falls back to the fixed sandbox URL.
    pub fn try_from(item: &PaymentsAuthorizeData, _auth: &TrustpayAuthType) -> (r: Result<
        Self,
        ConnectorError,
    >)
        ensures
            item.payment_method_data matches PaymentMethod::Card(c) ==> {
                match spec_parse_i64(c.card_cvc@) {
                    Some(v) => {
                        &&& r matches Ok(w)
                        &&& w.amount == item.amount
                        &&& w.currency == item.currency
                        &&& w.pan@ == c.card_number@
                        &&& w.cvv == v
                        &&& w.exp@ == c.card_exp_month@ + "/"@ + c.card_exp_year@
                        &&& (match item.return_url {
                            Some(u) => w.redirectUrl@ == u@,
                            None => w.redirectUrl@ == spec_fallback_redirect_url(),
                        })
                    },
                    None => r == Err::<Self, _>(ConnectorError::RequestEncodingFailed),
                }
            },
            !(item.payment_method_data is Card) ==> (r matches Err(e)
                && e matches ConnectorError::NotImplemented(m)
                && m@ == "Unknown payment method"@),
    {
        let payment_method = match &item.payment_method_data {
            PaymentMethod::Card(ccard) => ccard,
            _ => {
                return Err(ConnectorError::NotImplemented("Unknown payment method".to_owned()));
            },
        };
        let cvv = match parse_i64(payment_method.card_cvc.peek().as_str()) {
            Some(v) => v,
            None => {
                return Err(ConnectorError::RequestEncodingFailed);
            },
        };
        let mut exp = payment_method.card_exp_month.peek().clone();
        exp.append("/");
        exp.append(payment_method.card_exp_year.peek().as_str());
        let redirect_url = match &item.return_url {
            Some(u) => u.clone(),
            None => fallback_redirect_url(),
        };
        Ok(
            TrustpayPaymentsRequest {
                amount: item.amount,
                currency: item.currency,
                pan: payment_method.card_number.peek().clone(),
                cvv,
                exp,
                redirectUrl: redirect_url,
            },
        )
    }
}

/// The provider's refund wire request: a direct copy of the canonical
/// refund fields.
#[allow(non_snake_case)]
#[derive(Clone, Debug, PartialEq, Eq)]
pub struct TrustpayRefundRequest {
    pub amount: i64,
    pub instanceId: String,
    pub currency: Currency,
}

impl TrustpayRefundRequest {
    /// Build the refund wire request: a field-for-field copy, with no
    /// validation beyond the canonical request's own invariants.
    pub fn try_from(item: &RefundsData) -> (r: Result<Self, ConnectorError>)
        ensures
            r matches Ok(w) && w.amount == item.amount && w.currency == item.currency
                && w.instanceId@ == item.connector_transaction_id@,
    {
        Ok(
            TrustpayRefundRequest {
                amount: item.amount,
                instanceId: item.connector_transaction_id.clone(),
                currency: item.currency,
            },
        )
    }
}

/// The provider's capture wire request. Its payload coincides with the
/// refund request today, but capture is an independent endpoint on the
/// provider side, so it stays a distinct type.
#[allow(non_snake_case)]
#[derive(Clone, Debug, PartialEq, Eq)]
pub struct TrustpayCaptureRequest {
    pub amount: i64,
    pub instanceId: String,
    pub currency: String,
}

impl TrustpayCaptureRequest {
    /// Build the capture wire request from the canonical fields; this wire
    /// shape carries the currency as its alphabetic code.
    pub fn build(item: &RefundsData) -> (r: Self)
        ensures
            r.amount == item.amount,
            r.instanceId@ == item.connector_transaction_id@,
            r.currency@ == spec_currency_code(item.currency),
    {
        TrustpayCaptureRequest {
            amount: item.amount,
            instanceId: item.connector_transaction_id.clone(),
            currency: item.currency.code(),
        }
    }
}

} // verus!
