//! The response parser: each of the provider's distinct response shapes
//! (immediate payment response, refund response, polled sync response,
//! structured error envelope), parsed into the router's canonical result
//! through the status translator. A required field that is absent is a
//! hard decode failure, never a defaulted status.

use vstd::prelude::*;
use vstd::string::StringExecFns;
use crate::domain::AttemptStatus;
use crate::domain::ConnectorError;
use crate::domain::PaymentMethod;
use crate::domain::PaymentsAuthorizeData;
use crate::domain::RefundStatus as CanonicalRefundStatus;
use crate::numeric::spec_parse_i64;
use crate::status::RefundStatus;
use crate::status::TrustpayPaymentStatus;
use crate::status::spec_attempt_status;
use crate::status::spec_refund_status;

verus! {

/// The provider's immediate payment response. The two trailing status-text
/// fields are legacy duplicates: they pass through for debugging and feed
/// no logic.
#[allow(non_snake_case)]
#[derive(Clone, Debug, PartialEq, Eq)]
pub struct TrustpayPaymentsResponse {
    pub status: TrustpayPaymentStatus,
    pub description: String,
    pub instanceId: String,
    pub paymentStatus: String,
    pub paymentDescription: String,
}

/// The provider's refund response; every field but the status may be
/// absent on the wire.
#[allow(non_snake_case)]
#[derive(Clone, Debug, PartialEq, Eq)]
pub struct RefundResponse {
    pub status: RefundStatus,
    pub description: Option<String>,
    pub instanceId: Option<String>,
    pub paymentStatus: Option<String>,
    pub paymentDescription: Option<String>,
}

/// A sub-error of the provider's error envelope.
#[derive(Clone, Debug, PartialEq, Eq)]
pub struct ErrorType {
    pub code: i32,
    pub description: String,
}

/// The provider's structured error envelope, returned on non-success
/// transport responses. Its codes are a third, diagnostic vocabulary:
/// this shape is surfaced to the caller and never fed to the status
/// translator.
#[derive(Clone, Debug, PartialEq, Eq)]
pub struct TrustpayErrorResponse {
    pub status: i32,
    pub description: String,
    pub errors: Vec<ErrorType>,
}

/// Structured status detail of the polled sync response; informational
/// pass-through only.
#[allow(non_snake_case)]
#[derive(Clone, Debug, PartialEq, Eq)]
pub struct PaymentStatusD {
    pub extendedDescription: String,
    pub schemeResponseCode: String,
}

/// The 3-D-Secure detail of the polled sync response; informational
/// pass-through only.
#[derive(Clone, Debug, PartialEq, Eq)]
pub struct ThreeDS {
    pub eci: String,
}

/// Masked card metadata of the polled sync response; informational
/// pass-through only.
#[allow(non_snake_case)]
#[derive(Clone, Debug, PartialEq, Eq)]
pub struct Card {
    pub maskedPan: String,
    pub expiration: String,
    pub description: Option<String>,
}

/// The provider's polled (sync) payment response: a superset shape whose
/// status and instance id feed the canonical result; the rest passes
/// through for observability.
#[allow(non_snake_case)]
#[derive(Clone, Debug, PartialEq, Eq)]
pub struct TrustPaySyncResponse {
    pub status: TrustpayPaymentStatus,
    pub instanceId: String,
    pub created: String,
    pub amount: String,
    pub currency: String,
    pub reference: Option<String>,
    pub paymentStatus: Option<String>,
    pub paymentDescription: Option<String>,
    pub paymentStatusDetails: Option<PaymentStatusD>,
    pub threeDSecure: Option<ThreeDS>,
    pub card: Option<Card>,
}

/// A further provider response shape (redirect-style payment responses);
/// carried for completeness of the wire vocabulary.
#[allow(non_snake_case)]
#[derive(Clone, Debug, PartialEq, Eq)]
pub struct TrustPayGenericResponse {
    pub status: TrustpayPaymentStatus,
    pub description: Option<String>,
    pub instanceId: Option<String>,
    pub redirectUrl: Option<String>,
    pub redirectParams: Option<String>,
    pub preconditions: Option<String>,
    pub paymentStatus: Option<String>,
    pub paymentDescription: Option<String>,
    pub paymentStatusDetails: Option<PaymentStatusD>,
}

/// The canonical payment response: the resource id built from the
/// provider's instance id, and the redirect outcome (this flow performs
/// no browser redirect).
#[derive(Clone, Debug, PartialEq, Eq)]
pub struct PaymentsResponseData {
    pub resource_id: String,
    pub redirect: bool,
    pub redirection_data: Option<String>,
}

/// The canonical refund response: the connector-assigned refund id and the
/// canonical refund status.
#[derive(Clone, Debug, PartialEq, Eq)]
pub struct RefundsResponseData {
    pub connector_refund_id: String,
    pub refund_status: CanonicalRefundStatus,
}

/// The router's record of a payment attempt, as this module fills it: the
/// canonical status, the parsed response, and the router's own context
/// passed through unchanged.
#[derive(Debug, PartialEq, Eq)]
pub struct RouterData {
    pub status: AttemptStatus,
    pub response: Result<PaymentsResponseData, ConnectorError>,
    pub attempt_id: String,
}

/// The router's record of a refund, as this module fills it.
#[derive(Debug, PartialEq, Eq)]
pub struct RefundsRouterData {
    pub response: Result<RefundsResponseData, ConnectorError>,
    pub refund_id: String,
}

/// The envelope the router hands in: a decoded wire response paired with
/// the record it belongs to.
#[derive(Debug, PartialEq, Eq)]
pub struct ResponseRouterData<R> {
    pub response: R,
    pub data: RouterData,
}

/// The refund counterpart of [`ResponseRouterData`].
#[derive(Debug, PartialEq, Eq)]
pub struct RefundsResponseRouterData {
    pub response: RefundResponse,
    pub data: RefundsRouterData,
}

/// What parsing an immediate payment response yields: the translated
/// status, a transaction response built from the instance id with no
/// redirect, and the record's own context unchanged.
pub open spec fn spec_parse_payments_response(
    item: ResponseRouterData<TrustpayPaymentsResponse>,
) -> RouterData {
    RouterData {
        status: spec_attempt_status(item.response.status),
        response: Ok(
            PaymentsResponseData {
                resource_id: item.response.instanceId,
                redirect: false,
                redirection_data: None,
            },
        ),
        attempt_id: item.data.attempt_id,
    }
}

/// What parsing a polled sync response yields; only status and instance id
/// feed the result.
pub open spec fn spec_parse_sync_response(
    item: ResponseRouterData<TrustPaySyncResponse>,
) -> RouterData {
    RouterData {
        status: spec_attempt_status(item.response.status),
        response: Ok(
            PaymentsResponseData {
                resource_id: item.response.instanceId,
                redirect: false,
                redirection_data: None,
            },
        ),
        attempt_id: item.data.attempt_id,
    }
}

impl RouterData {
    /// Parse the provider's immediate payment response into the router's
    /// record.
    pub fn try_from(item: ResponseRouterData<TrustpayPaymentsResponse>) -> (r: Result<
        Self,
        ConnectorError,
    >)
        ensures
            r == Ok::<Self, ConnectorError>(spec_parse_payments_response(item)),
    {
        Ok(
            RouterData {
                status: AttemptStatus::from(item.response.status),
                response: Ok(
                    PaymentsResponseData {
                        resource_id: item.response.instanceId,
                        redirect: false,
                        redirection_data: None,
                    },
                ),
                attempt_id: item.data.attempt_id,
            },
        )
    }

    /// Parse the provider's polled sync response into the router's record.
    pub fn try_from_sync(item: ResponseRouterData<TrustPaySyncResponse>) -> (r: Result<
        Self,
        ConnectorError,
    >)
        ensures
            r == Ok::<Self, ConnectorError>(spec_parse_sync_response(item)),
    {
        Ok(
            RouterData {
                status: AttemptStatus::from(item.response.status),
                response: Ok(
                    PaymentsResponseData {
                        resource_id: item.response.instanceId,
                        redirect: false,
                        redirection_data: None,
                    },
                ),
                attempt_id: item.data.attempt_id,
            },
        )
    }
}

impl RefundsRouterData {
    /// Parse the provider's refund response into the router's record. An
    /// absent instance id is a hard decode failure — a refund without a
    /// connector-assigned id could never be reconciled later.
    pub fn try_from(item: RefundsResponseRouterData) -> (r: Result<Self, ConnectorError>)
        ensures
            item.response.instanceId matches Some(id) ==> r == Ok::<Self, ConnectorError>(
                RefundsRouterData {
                    response: Ok(
                        RefundsResponseData {
                            connector_refund_id: id,
                            refund_status: spec_refund_status(item.response.status),
                        },
                    ),
                    refund_id: item.data.refund_id,
                },
            ),
            item.response.instanceId is None ==> (r matches Err(e)
                && e matches ConnectorError::MissingRequiredField { field_name }
                && field_name@ == "instanceId"@),
    {
        let connector_refund_id = match item.response.instanceId {
            Some(id) => id,
            None => {
                return Err(
                    ConnectorError::MissingRequiredField { field_name: "instanceId".to_owned() },
                );
            },
        };
        Ok(
            RefundsRouterData {
                response: Ok(
                    RefundsResponseData {
                        connector_refund_id,
                        refund_status: CanonicalRefundStatus::from(item.response.status),
                    },
                ),
                refund_id: item.data.refund_id,
            },
        )
    }
}

/// Law: round-trip of a successful authorization. Any canonical authorize
/// request that encodes successfully (a card method whose CVV parses), paired
/// with a synthetic success response carrying some instance id, reconciles to
/// the canonical status `Charged`, with a resource id equal to that instance
/// id and no redirect.
pub proof fn lemma_authorize_round_trip(
    req: PaymentsAuthorizeData,
    item: ResponseRouterData<TrustpayPaymentsResponse>,
)
    requires
        req.payment_method_data matches PaymentMethod::Card(c) && spec_parse_i64(c.card_cvc@)
            is Some,
        item.response.status == TrustpayPaymentStatus::Success,
    ensures
        spec_parse_payments_response(item).status == AttemptStatus::Charged,
        spec_parse_payments_response(item).response matches Ok(d) && d.resource_id
            == item.response.instanceId && !d.redirect && d.redirection_data is None,
{
}

} // verus!
