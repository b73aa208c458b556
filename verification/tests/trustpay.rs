use trustpay::domain::AttemptStatus;
use trustpay::domain::CCard;
use trustpay::domain::ConnectorAuthType;
use trustpay::domain::ConnectorError;
use trustpay::domain::Currency;
use trustpay::domain::PaymentMethod;
use trustpay::domain::PaymentsAuthorizeData;
use trustpay::domain::RefundStatus as CanonicalRefundStatus;
use trustpay::domain::RefundsData;
use trustpay::domain::Secret;
use trustpay::numeric::parse_i64;
use trustpay::requests::TrustpayAuthType;
use trustpay::requests::TrustpayCaptureRequest;
use trustpay::requests::TrustpayPaymentsRequest;
use trustpay::requests::TrustpayRefundRequest;
use trustpay::requests::fallback_redirect_url;
use trustpay::responses::ErrorType;
use trustpay::responses::RefundResponse;
use trustpay::responses::RefundsResponseRouterData;
use trustpay::responses::RefundsRouterData;
use trustpay::responses::ResponseRouterData;
use trustpay::responses::RouterData;
use trustpay::responses::TrustPaySyncResponse;
use trustpay::responses::TrustpayErrorResponse;
use trustpay::responses::TrustpayPaymentsResponse;
use trustpay::status::RefundStatus;
use trustpay::status::TrustpayPaymentStatus;

fn card(number: &str, month: &str, year: &str, cvc: &str) -> PaymentMethod {
    PaymentMethod::Card(CCard {
        card_number: Secret::new(number.to_string()),
        card_exp_month: Secret::new(month.to_string()),
        card_exp_year: Secret::new(year.to_string()),
        card_cvc: Secret::new(cvc.to_string()),
    })
}

fn authorize_data(method: PaymentMethod, return_url: Option<&str>) -> PaymentsAuthorizeData {
    PaymentsAuthorizeData {
        amount: 1000,
        currency: Currency::EUR,
        payment_method_data: method,
        return_url: return_url.map(|u| u.to_string()),
    }
}

fn header_auth() -> TrustpayAuthType {
    TrustpayAuthType {
        api_key: "key-123".to_string(),
    }
}

fn payments_response(status: TrustpayPaymentStatus, instance_id: &str) -> TrustpayPaymentsResponse {
    TrustpayPaymentsResponse {
        status,
        description: "desc".to_string(),
        instanceId: instance_id.to_string(),
        paymentStatus: "0".to_string(),
        paymentDescription: "ok".to_string(),
    }
}

fn attempt_record(attempt_id: &str) -> RouterData {
    RouterData {
        status: AttemptStatus::Pending,
        response: Err(ConnectorError::RequestEncodingFailed),
        attempt_id: attempt_id.to_string(),
    }
}

fn refund_record(refund_id: &str) -> RefundsRouterData {
    RefundsRouterData {
        response: Err(ConnectorError::RequestEncodingFailed),
        refund_id: refund_id.to_string(),
    }
}

#[test]
fn attempt_status_table_is_exhaustive() {
    assert!(AttemptStatus::from(TrustpayPaymentStatus::Success) == AttemptStatus::Charged);
    assert!(AttemptStatus::from(TrustpayPaymentStatus::Pending) == AttemptStatus::Pending);
    assert!(
        AttemptStatus::from(TrustpayPaymentStatus::Expired) == AttemptStatus::AuthorizationFailed
    );
    assert!(AttemptStatus::from(TrustpayPaymentStatus::Error) == AttemptStatus::Failure);
    assert!(AttemptStatus::from(TrustpayPaymentStatus::ServerCallFailed) == AttemptStatus::Failure);
    assert!(
        AttemptStatus::from(TrustpayPaymentStatus::AbortedByUser)
            == AttemptStatus::AuthorizationFailed
    );
    assert!(AttemptStatus::from(TrustpayPaymentStatus::Failure) == AttemptStatus::Failure);
}

#[test]
fn refund_status_table_is_exhaustive() {
    assert!(CanonicalRefundStatus::from(RefundStatus::Success) == CanonicalRefundStatus::Success);
    assert!(CanonicalRefundStatus::from(RefundStatus::Pending) == CanonicalRefundStatus::Pending);
    assert!(CanonicalRefundStatus::from(RefundStatus::Failure) == CanonicalRefundStatus::Failure);
}

#[test]
fn payment_status_codes_round_trip() {
    let table = [
        (0, TrustpayPaymentStatus::Success),
        (1, TrustpayPaymentStatus::Pending),
        (-1, TrustpayPaymentStatus::Expired),
        (-2, TrustpayPaymentStatus::Error),
        (-3, TrustpayPaymentStatus::ServerCallFailed),
        (-4, TrustpayPaymentStatus::AbortedByUser),
        (-255, TrustpayPaymentStatus::Failure),
    ];
    for (code, status) in table {
        assert!(TrustpayPaymentStatus::from_code(code) == Some(status));
        assert_eq!(status.code(), code);
    }
}

#[test]
fn unknown_payment_status_code_is_a_decode_failure() {
    assert!(TrustpayPaymentStatus::from_code(2).is_none());
    assert!(TrustpayPaymentStatus::from_code(-5).is_none());
    assert!(TrustpayPaymentStatus::from_code(-254).is_none());
    assert!(TrustpayPaymentStatus::from_code(255).is_none());
}

#[test]
fn refund_status_code_decoding_is_total() {
    assert!(RefundStatus::from_code(0) == RefundStatus::Success);
    assert!(RefundStatus::from_code(1) == RefundStatus::Pending);
    assert!(RefundStatus::from_code(2) == RefundStatus::Failure);
    assert!(RefundStatus::from_code(-1) == RefundStatus::Failure);
    assert!(RefundStatus::from_code(-255) == RefundStatus::Failure);
}

#[test]
fn status_defaults_read_as_failure() {
    assert!(TrustpayPaymentStatus::default() == TrustpayPaymentStatus::Failure);
    assert!(RefundStatus::default() == RefundStatus::Failure);
}

#[test]
fn extract_credential_accepts_header_key_only() {
    let ok = TrustpayAuthType::try_from(&ConnectorAuthType::HeaderKey {
        api_key: "key-123".to_string(),
    })
    .unwrap();
    assert_eq!(ok.api_key, "key-123");

    let body = TrustpayAuthType::try_from(&ConnectorAuthType::BodyKey {
        api_key: "key-123".to_string(),
        key1: "k1".to_string(),
    });
    assert!(matches!(body, Err(ConnectorError::FailedToObtainAuthType)));

    let sig = TrustpayAuthType::try_from(&ConnectorAuthType::SignatureKey {
        api_key: "key-123".to_string(),
        key1: "k1".to_string(),
        api_secret: "sec-456".to_string(),
    });
    assert!(matches!(sig, Err(ConnectorError::FailedToObtainAuthType)));
}

#[test]
fn build_authorize_rejects_non_card_methods() {
    for method in [
        PaymentMethod::Wallet,
        PaymentMethod::PayLater,
        PaymentMethod::BankTransfer,
    ] {
        let mut item = authorize_data(method, Some("https://merchant.example/return"));
        item.amount = 77;
        item.currency = Currency::USD;
        let r = TrustpayPaymentsRequest::try_from(&item, &header_auth());
        match r {
            Err(ConnectorError::NotImplemented(m)) => assert_eq!(m, "Unknown payment method"),
            other => panic!("expected NotImplemented, got {:?}", other),
        }
    }
}

#[test]
fn build_authorize_rejects_non_numeric_cvv() {
    for cvv in ["12a", "", "1.5", " 123", "12 3", "abc", "+", "-", "½23"] {
        let item = authorize_data(card("4200000000000000", "12", "25", cvv), None);
        let r = TrustpayPaymentsRequest::try_from(&item, &header_auth());
        assert!(
            matches!(r, Err(ConnectorError::RequestEncodingFailed)),
            "cvv {:?} should fail encoding",
            cvv
        );
    }
}

#[test]
fn build_authorize_parses_numeric_cvv() {
    let item = authorize_data(card("4200000000000000", "12", "25", "123"), None);
    let w = TrustpayPaymentsRequest::try_from(&item, &header_auth()).unwrap();
    assert_eq!(w.cvv, 123);

    let item = authorize_data(card("4200000000000000", "12", "25", "007"), None);
    let w = TrustpayPaymentsRequest::try_from(&item, &header_auth()).unwrap();
    assert_eq!(w.cvv, 7);
}

#[test]
fn build_authorize_uses_fallback_redirect_url_when_absent() {
    let item = authorize_data(card("4200000000000000", "12", "25", "123"), None);
    let w = TrustpayPaymentsRequest::try_from(&item, &header_auth()).unwrap();
    assert_eq!(w.redirectUrl, "https://test-tpgw.trustpay.eu");
    assert_eq!(fallback_redirect_url(), "https://test-tpgw.trustpay.eu");
}

#[test]
fn build_authorize_keeps_caller_return_url_exactly() {
    let url = " https://merchant.example/return?x=1 ";
    let item = authorize_data(card("4200000000000000", "12", "25", "123"), Some(url));
    let w = TrustpayPaymentsRequest::try_from(&item, &header_auth()).unwrap();
    assert_eq!(w.redirectUrl, url);
}

#[test]
fn build_authorize_scenario_eur_card() {
    let item = authorize_data(card("4200000000000000", "12", "25", "123"), None);
    let w = TrustpayPaymentsRequest::try_from(&item, &header_auth()).unwrap();
    assert_eq!(w.amount, 1000);
    assert!(w.currency == Currency::EUR);
    assert_eq!(w.pan, "4200000000000000");
    assert_eq!(w.exp, "12/25");
    assert_eq!(w.cvv, 123);
    assert_eq!(w.redirectUrl, "https://test-tpgw.trustpay.eu");
}

#[test]
fn build_refund_copies_the_canonical_fields() {
    let item = RefundsData {
        amount: 250,
        currency: Currency::CZK,
        connector_transaction_id: "inst-42".to_string(),
    };
    let w = TrustpayRefundRequest::try_from(&item).unwrap();
    assert_eq!(w.amount, 250);
    assert!(w.currency == Currency::CZK);
    assert_eq!(w.instanceId, "inst-42");
}

#[test]
fn build_capture_copies_the_canonical_fields() {
    let item = RefundsData {
        amount: 3600,
        currency: Currency::EUR,
        connector_transaction_id: "inst-7".to_string(),
    };
    let w = TrustpayCaptureRequest::build(&item);
    assert_eq!(w.amount, 3600);
    assert_eq!(w.currency, "EUR");
    assert_eq!(w.instanceId, "inst-7");
}

#[test]
fn currency_codes_are_the_iso_letters() {
    assert_eq!(Currency::EUR.code(), "EUR");
    assert_eq!(Currency::USD.code(), "USD");
    assert_eq!(Currency::GBP.code(), "GBP");
    assert_eq!(Currency::CZK.code(), "CZK");
}

#[test]
fn parse_payments_response_scenario_charged() {
    let item = ResponseRouterData {
        response: payments_response(TrustpayPaymentStatus::Success, "abc123"),
        data: attempt_record("att-1"),
    };
    let d = RouterData::try_from(item).unwrap();
    assert!(d.status == AttemptStatus::Charged);
    let resp = d.response.unwrap();
    assert_eq!(resp.resource_id, "abc123");
    assert!(!resp.redirect);
    assert!(resp.redirection_data.is_none());
    assert_eq!(d.attempt_id, "att-1");
}

#[test]
fn parse_payments_response_pending_and_failed() {
    let item = ResponseRouterData {
        response: payments_response(TrustpayPaymentStatus::Pending, "p-1"),
        data: attempt_record("att-2"),
    };
    let d = RouterData::try_from(item).unwrap();
    assert!(d.status == AttemptStatus::Pending);

    let item = ResponseRouterData {
        response: payments_response(TrustpayPaymentStatus::AbortedByUser, "p-2"),
        data: attempt_record("att-3"),
    };
    let d = RouterData::try_from(item).unwrap();
    assert!(d.status == AttemptStatus::AuthorizationFailed);
}

#[test]
fn authorize_round_trip_yields_charged_with_same_instance_id() {
    let item = authorize_data(card("4200000000000000", "12", "25", "123"), None);
    let _w = TrustpayPaymentsRequest::try_from(&item, &header_auth()).unwrap();
    let envelope = ResponseRouterData {
        response: payments_response(TrustpayPaymentStatus::Success, "inst-900"),
        data: attempt_record("att-9"),
    };
    let d = RouterData::try_from(envelope).unwrap();
    assert!(d.status == AttemptStatus::Charged);
    assert_eq!(d.response.unwrap().resource_id, "inst-900");
}

#[test]
fn parse_refund_response_requires_instance_id() {
    let item = RefundsResponseRouterData {
        response: RefundResponse {
            status: RefundStatus::Success,
            description: Some("done".to_string()),
            instanceId: None,
            paymentStatus: None,
            paymentDescription: None,
        },
        data: refund_record("ref-1"),
    };
    match RefundsRouterData::try_from(item) {
        Err(ConnectorError::MissingRequiredField { field_name }) => {
            assert_eq!(field_name, "instanceId")
        }
        other => panic!("expected MissingRequiredField, got {:?}", other),
    }
}

#[test]
fn parse_refund_response_copies_instance_id_exactly() {
    let item = RefundsResponseRouterData {
        response: RefundResponse {
            status: RefundStatus::Success,
            description: None,
            instanceId: Some("inst-55".to_string()),
            paymentStatus: None,
            paymentDescription: None,
        },
        data: refund_record("ref-2"),
    };
    let d = RefundsRouterData::try_from(item).unwrap();
    let resp = d.response.unwrap();
    assert_eq!(resp.connector_refund_id, "inst-55");
    assert!(resp.refund_status == CanonicalRefundStatus::Success);
    assert_eq!(d.refund_id, "ref-2");
}

#[test]
fn refund_code_one_reads_as_pending() {
    let status = RefundStatus::from_code(1);
    assert!(status == RefundStatus::Pending);
    assert!(CanonicalRefundStatus::from(status) == CanonicalRefundStatus::Pending);
}

#[test]
fn parse_sync_response_uses_only_status_and_instance_id() {
    let item = ResponseRouterData {
        response: TrustPaySyncResponse {
            status: TrustpayPaymentStatus::Pending,
            instanceId: "sync-3".to_string(),
            created: "2024-01-01".to_string(),
            amount: "10.00".to_string(),
            currency: "EUR".to_string(),
            reference: Some("ref".to_string()),
            paymentStatus: Some("1".to_string()),
            paymentDescription: Some("pending".to_string()),
            paymentStatusDetails: None,
            threeDSecure: None,
            card: None,
        },
        data: attempt_record("att-sync"),
    };
    let d = RouterData::try_from_sync(item).unwrap();
    assert!(d.status == AttemptStatus::Pending);
    let resp = d.response.unwrap();
    assert_eq!(resp.resource_id, "sync-3");
    assert!(!resp.redirect);
    assert_eq!(d.attempt_id, "att-sync");
}

#[test]
fn error_envelope_carries_sub_errors_in_order() {
    let envelope = TrustpayErrorResponse {
        status: 400,
        description: "Validation failed".to_string(),
        errors: vec![
            ErrorType {
                code: 11,
                description: "Invalid CVV format".to_string(),
            },
            ErrorType {
                code: 14,
                description: "Invalid Card expiration (month)".to_string(),
            },
        ],
    };
    assert_eq!(envelope.errors.len(), 2);
    assert_eq!(envelope.errors[0].code, 11);
    assert_eq!(envelope.errors[1].code, 14);
}

#[test]
fn parse_i64_accepts_decimal_integers() {
    assert_eq!(parse_i64("0"), Some(0));
    assert_eq!(parse_i64("123"), Some(123));
    assert_eq!(parse_i64("007"), Some(7));
    assert_eq!(parse_i64("+42"), Some(42));
    assert_eq!(parse_i64("-17"), Some(-17));
    assert_eq!(parse_i64("9223372036854775807"), Some(i64::MAX));
    assert_eq!(parse_i64("-9223372036854775808"), Some(i64::MIN));
}

#[test]
fn parse_i64_rejects_everything_else() {
    assert_eq!(parse_i64(""), None);
    assert_eq!(parse_i64("+"), None);
    assert_eq!(parse_i64("-"), None);
    assert_eq!(parse_i64(" 1"), None);
    assert_eq!(parse_i64("1 "), None);
    assert_eq!(parse_i64("1.5"), None);
    assert_eq!(parse_i64("12a"), None);
    assert_eq!(parse_i64("--1"), None);
    assert_eq!(parse_i64("+-1"), None);
    assert_eq!(parse_i64("9223372036854775808"), None);
    assert_eq!(parse_i64("-9223372036854775809"), None);
    assert_eq!(parse_i64("99999999999999999999999999"), None);
}

#[test]
fn secrets_reveal_only_through_peek() {
    let s = Secret::new("4200000000000000".to_string());
    assert_eq!(s.peek(), "4200000000000000");
}
