//! The status translator: the provider's two closed status-code
//! vocabularies (payment attempts and refunds) and their total mappings
//! into the router's canonical enumerations. The mappings are explicit
//! lookup tables — provider codes are not ordered in meaning, so nothing
//! here is inferred from sign or magnitude — and an unrecognized payment
//! code is a decode failure, never a defaulted status.

use vstd::prelude::*;
use crate::domain::AttemptStatus;
use crate::domain::RefundStatus as CanonicalRefundStatus;

verus! {

/// The provider's payment-attempt status vocabulary: the closed set of
/// seven signed wire codes 0, 1, -1, -2, -3, -4 and -255.
#[derive(Clone, Copy, Debug, PartialEq, Eq, Structural)]
pub enum TrustpayPaymentStatus {
    Success,
    Pending,
    Expired,
    Error,
    ServerCallFailed,
    AbortedByUser,
    Failure,
}

/// The wire code of each payment-attempt status.
pub open spec fn spec_payment_status_code(s: TrustpayPaymentStatus) -> int {
    match s {
        TrustpayPaymentStatus::Success => 0,
        TrustpayPaymentStatus::Pending => 1,
        TrustpayPaymentStatus::Expired => -1,
        TrustpayPaymentStatus::Error => -2,
        TrustpayPaymentStatus::ServerCallFailed => -3,
        TrustpayPaymentStatus::AbortedByUser => -4,
        TrustpayPaymentStatus::Failure => -255,
    }
}

/// Decoding a wire code: defined exactly on the closed set, nothing else.
pub open spec fn spec_payment_status_of_code(code: int) -> Option<TrustpayPaymentStatus> {
    if code == 0 {
        Some(TrustpayPaymentStatus::Success)
    } else if code == 1 {
        Some(TrustpayPaymentStatus::Pending)
    } else if code == -1 {
        Some(TrustpayPaymentStatus::Expired)
    } else if code == -2 {
        Some(TrustpayPaymentStatus::Error)
    } else if code == -3 {
        Some(TrustpayPaymentStatus::ServerCallFailed)
    } else if code == -4 {
        Some(TrustpayPaymentStatus::AbortedByUser)
    } else if code == -255 {
        Some(TrustpayPaymentStatus::Failure)
    } else {
        None
    }
}

impl TrustpayPaymentStatus {
    /// Decode a wire status code; a code outside the closed set yields
    /// nothing, so the caller surfaces a decode failure instead of a
    /// silently defaulted status.
    pub fn from_code(code: i32) -> (r: Option<Self>)
        ensures
            r == spec_payment_status_of_code(code as int),
    {
        if code == 0 {
            Some(TrustpayPaymentStatus::Success)
        } else if code == 1 {
            Some(TrustpayPaymentStatus::Pending)
        } else if code == -1 {
            Some(TrustpayPaymentStatus::Expired)
        } else if code == -2 {
            Some(TrustpayPaymentStatus::Error)
        } else if code == -3 {
            Some(TrustpayPaymentStatus::ServerCallFailed)
        } else if code == -4 {
            Some(TrustpayPaymentStatus::AbortedByUser)
        } else if code == -255 {
            Some(TrustpayPaymentStatus::Failure)
        } else {
            None
        }
    }

    /// The wire code this status is carried as.
    pub fn code(&self) -> (r: i32)
        ensures
            r as int == spec_payment_status_code(*self),
    {
        match self {
            TrustpayPaymentStatus::Success => 0,
            TrustpayPaymentStatus::Pending => 1,
            TrustpayPaymentStatus::Expired => -1,
            TrustpayPaymentStatus::Error => -2,
            TrustpayPaymentStatus::ServerCallFailed => -3,
            TrustpayPaymentStatus::AbortedByUser => -4,
            TrustpayPaymentStatus::Failure => -255,
        }
    }
}

impl Default for TrustpayPaymentStatus {
    /// The default is the unspecified failure, so an unpopulated value can
    /// never read as an optimistic status; decode paths never rely on it.
    fn default() -> (r: Self)
        ensures
            r == TrustpayPaymentStatus::Failure,
    {
        TrustpayPaymentStatus::Failure
    }
}

/// The canonical attempt status of each provider payment status: the fixed
/// translation table of the connector.
pub open spec fn spec_attempt_status(s: TrustpayPaymentStatus) -> AttemptStatus {
    match s {
        TrustpayPaymentStatus::Success => AttemptStatus::Charged,
        TrustpayPaymentStatus::Pending => AttemptStatus::Pending,
        TrustpayPaymentStatus::Expired => AttemptStatus::AuthorizationFailed,
        TrustpayPaymentStatus::Error => AttemptStatus::Failure,
        TrustpayPaymentStatus::ServerCallFailed => AttemptStatus::Failure,
        TrustpayPaymentStatus::AbortedByUser => AttemptStatus::AuthorizationFailed,
        TrustpayPaymentStatus::Failure => AttemptStatus::Failure,
    }
}

impl From<TrustpayPaymentStatus> for AttemptStatus {
    fn from(item: TrustpayPaymentStatus) -> (r: Self) {
        match item {
            TrustpayPaymentStatus::Success => AttemptStatus::Charged,
            TrustpayPaymentStatus::Pending => AttemptStatus::Pending,
            TrustpayPaymentStatus::Expired => AttemptStatus::AuthorizationFailed,
            TrustpayPaymentStatus::Error => AttemptStatus::Failure,
            TrustpayPaymentStatus::ServerCallFailed => AttemptStatus::Failure,
            TrustpayPaymentStatus::AbortedByUser => AttemptStatus::AuthorizationFailed,
            TrustpayPaymentStatus::Failure => AttemptStatus::Failure,
        }
    }
}

impl vstd::std_specs::convert::FromSpecImpl<TrustpayPaymentStatus> for AttemptStatus {
    open spec fn obeys_from_spec() -> bool {
        true
    }

    open spec fn from_spec(v: TrustpayPaymentStatus) -> Self {
        spec_attempt_status(v)
    }
}

/// The provider's refund status vocabulary: 0 is success, 1 is pending,
/// and every other decodable code reads as failure.
#[derive(Clone, Copy, Debug, PartialEq, Eq, Structural)]
pub enum RefundStatus {
    Success,
    Pending,
    Failure,
}

/// Decoding a refund wire code, total over the integers: 0 and 1 are the
/// named states, anything else is a failure.
pub open spec fn spec_refund_status_of_code(code: int) -> RefundStatus {
    if code == 0 {
        RefundStatus::Success
    } else if code == 1 {
        RefundStatus::Pending
    } else {
        RefundStatus::Failure
    }
}

impl RefundStatus {
    /// Decode a refund wire status code.
    pub fn from_code(code: i32) -> (r: Self)
        ensures
            r == spec_refund_status_of_code(code as int),
    {
        if code == 0 {
            RefundStatus::Success
        } else if code == 1 {
            RefundStatus::Pending
        } else {
            RefundStatus::Failure
        }
    }
}

impl Default for RefundStatus {
    /// As for payments, the default reads as failure, never as success.
    fn default() -> (r: Self)
        ensures
            r == RefundStatus::Failure,
    {
        RefundStatus::Failure
    }
}

/// The canonical refund status of each provider refund status.
pub open spec fn spec_refund_status(s: RefundStatus) -> CanonicalRefundStatus {
    match s {
        RefundStatus::Success => CanonicalRefundStatus::Success,
        RefundStatus::Pending => CanonicalRefundStatus::Pending,
        RefundStatus::Failure => CanonicalRefundStatus::Failure,
    }
}

impl From<RefundStatus> for CanonicalRefundStatus {
    fn from(item: RefundStatus) -> (r: Self) {
        match item {
            RefundStatus::Success => CanonicalRefundStatus::Success,
            RefundStatus::Pending => CanonicalRefundStatus::Pending,
            RefundStatus::Failure => CanonicalRefundStatus::Failure,
        }
    }
}

impl vstd::std_specs::convert::FromSpecImpl<RefundStatus> for CanonicalRefundStatus {
    open spec fn obeys_from_spec() -> bool {
        true
    }

    open spec fn from_spec(v: RefundStatus) -> Self {
        spec_refund_status(v)
    }
}

} // verus!
