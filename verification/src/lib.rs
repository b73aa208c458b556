//! Adapter between a canonical, provider-agnostic payment-processing model
//! and the TrustPay gateway's wire representation: request construction,
//! credential extraction, status-code translation, and response parsing.
//!
//! Every transformation here is a pure function from immutable inputs to a
//! freshly constructed value or a typed error; the surrounding router owns
//! transport, retries and persistence.

pub mod domain;
pub mod numeric;
pub mod requests;
pub mod responses;
pub mod status;
