use router::api::{
    Address, AddressDetails, Amount, ApplicationResponse, Card, MandateIds, NextAction,
    PaymentMethodData, PaymentMethodDataResponse, PaymentsResponse, PaymentsRetrieveRequest,
    PaymentsSessionResponse, PaymentIdType, Server, SessionToken, VerifyResponse, WalletData,
};
use router::enums::{
    AttemptStatus, AuthFlow, CaptureMethod, HttpMethod, IntentStatus, NextActionType, Operation,
    PaymentMethod, PaymentMethodType, RefundStatus, StoredRefundStatus,
};
use router::errors::ApiErrorResponse;
use router::json::Decoded;
use router::payments::{PaymentAddress, PaymentData};
use router::pipeline::{payments_core, payments_response_for_redirection_flows};
use router::storage::{
    ConnectorResponse, Customer, Metadata, MetadataRecord, OrderDetails, PaymentAttempt,
    PaymentIntent, RedirectForm, Refund,
};
use router::transformers::{
    foreign_from, payment_method_data_to_response, payments_to_payments_response,
    refund_to_response, refunds_to_response, ToResponse,
};

fn moment() -> time::PrimitiveDateTime {
    time::PrimitiveDateTime::new(
        time::Date::from_calendar_date(2023, time::Month::May, 4).unwrap(),
        time::Time::MIDNIGHT,
    )
}

fn document(text: &str) -> serde_json::Value {
    serde_json::from_str(text).unwrap()
}

fn intent(status: IntentStatus) -> PaymentIntent {
    PaymentIntent {
        payment_id: "pay_1".to_string(),
        merchant_id: "merchant_1".to_string(),
        status,
        amount: 6540,
        currency: Some("USD".to_string()),
        amount_captured: Some(100),
        customer_id: Some("cus_intent".to_string()),
        description: Some("two shirts".to_string()),
        return_url: Some("https://shop.example/done".to_string()),
        metadata: Some(MetadataRecord {
            value: document("{\"order_details\":{\"product_name\":\"shirt\",\"quantity\":2}}"),
            parsed: Some(Metadata {
                order_details: Some(OrderDetails { product_name: "shirt".to_string(), quantity: 2 }),
                allowed_payment_method_types: Some(vec![PaymentMethodType::Credit]),
            }),
        }),
        statement_descriptor_name: Some("SHOP".to_string()),
        statement_descriptor_suffix: Some("EU".to_string()),
        created_at: moment(),
        setup_future_usage: None,
        client_secret: Some("pay_1_secret_abc".to_string()),
        shipping_address_id: None,
        billing_address_id: None,
        business_country: "US".to_string(),
        business_label: "default".to_string(),
    }
}

fn attempt() -> PaymentAttempt {
    PaymentAttempt {
        payment_id: "pay_1".to_string(),
        merchant_id: "merchant_1".to_string(),
        attempt_id: "pay_1_1".to_string(),
        status: AttemptStatus::Started,
        amount: 6540,
        currency: Some("USD".to_string()),
        connector: Some("stripe".to_string()),
        error_message: Some("declined".to_string()),
        error_code: Some("card_declined".to_string()),
        payment_method_id: None,
        payment_method: Some(PaymentMethod::Card),
        payment_method_type: Some(PaymentMethodType::Credit),
        payment_experience: None,
        connector_transaction_id: None,
        capture_method: Some(CaptureMethod::Manual),
        confirm: true,
        authentication_type: None,
        cancellation_reason: None,
        amount_to_capture: None,
        mandate_id: Some("man_1".to_string()),
        browser_info: None,
        payment_token: Some("tok_1".to_string()),
        connector_metadata: None,
        business_sub_label: None,
    }
}

fn customer() -> Customer {
    Customer {
        customer_id: "cus_1".to_string(),
        merchant_id: "merchant_1".to_string(),
        name: Some("Jo Doe".to_string()),
        email: Some("jo@example.com".to_string()),
        phone: Some("5551234".to_string()),
        phone_country_code: Some("+1".to_string()),
    }
}

fn card() -> PaymentMethodData {
    PaymentMethodData::Card(Card {
        card_number: "4242424242424242".to_string(),
        card_exp_month: "10".to_string(),
        card_exp_year: "25".to_string(),
        card_holder_name: "Jo Doe".to_string(),
        card_cvc: "123".to_string(),
    })
}

fn form() -> RedirectForm {
    RedirectForm {
        url: "https://acs.example/3ds".to_string(),
        method: HttpMethod::Post,
        form_fields: vec![("PaReq".to_string(), "abc".to_string())],
    }
}

fn server() -> Server {
    Server { base_url: "http://localhost:8080".to_string() }
}

fn refund(id: &str, status: StoredRefundStatus) -> Refund {
    Refund {
        refund_id: id.to_string(),
        payment_id: "pay_1".to_string(),
        refund_amount: 100,
        currency: "USD".to_string(),
        refund_reason: Some("returned".to_string()),
        refund_status: status,
        metadata: None,
        refund_error_message: None,
        refund_error_code: None,
        created_at: moment(),
        updated_at: moment(),
    }
}

fn address() -> PaymentAddress {
    PaymentAddress {
        shipping: None,
        billing: Some(Address {
            address: Some(AddressDetails {
                city: Some("Berlin".to_string()),
                country: Some("DE".to_string()),
                line1: None,
                line2: None,
                line3: None,
                zip: None,
                state: None,
                first_name: None,
                last_name: None,
            }),
            phone: None,
        }),
    }
}

fn respond(
    request: Option<()>,
    payment_attempt: PaymentAttempt,
    payment_intent: PaymentIntent,
    auth_flow: AuthFlow,
    redirection_data: Option<Decoded<RedirectForm>>,
    operation: Operation,
) -> Result<ApplicationResponse<PaymentsResponse>, ApiErrorResponse> {
    payments_to_payments_response(
        request,
        payment_attempt,
        payment_intent,
        vec![],
        Some(card()),
        Some(customer()),
        auth_flow,
        address(),
        &server(),
        redirection_data,
        operation,
    )
}

fn aggregate(status: IntentStatus) -> PaymentData {
    PaymentData {
        payment_intent: intent(status),
        payment_attempt: attempt(),
        connector_response: ConnectorResponse {
            payment_id: "pay_1".to_string(),
            merchant_id: "merchant_1".to_string(),
            attempt_id: "pay_1_1".to_string(),
            connector_name: None,
            connector_transaction_id: None,
            authentication_data: None,
            encoded_data: None,
        },
        amount: Amount::Value(6540),
        mandate_id: Some(MandateIds { mandate_id: "man_1".to_string(), connector_mandate_id: None }),
        currency: "USD".to_string(),
        setup_mandate: None,
        address: address(),
        token: Some("tok_1".to_string()),
        confirm: None,
        force_sync: None,
        payment_method_data: Some(card()),
        refunds: vec![],
        sessions_token: vec![],
        card_cvc: None,
        email: None,
        creds_identifier: None,
        pm_token: None,
    }
}

#[test]
fn redirect_entry_with_redirect_data_is_a_form() {
    let response = respond(
        Some(()),
        attempt(),
        intent(IntentStatus::RequiresCustomerAction),
        AuthFlow::Client,
        Some(Decoded::Valid(form())),
        Operation::PaymentStart,
    );
    assert_eq!(response, Ok(ApplicationResponse::Form(form())));
}

#[test]
fn redirect_entry_without_redirect_data_is_json_with_next_action() {
    let response = respond(
        Some(()),
        attempt(),
        intent(IntentStatus::RequiresCustomerAction),
        AuthFlow::Client,
        None,
        Operation::PaymentStart,
    );
    match response {
        Ok(ApplicationResponse::Json(payload)) => {
            assert_eq!(
                payload.next_action,
                Some(NextAction {
                    next_action_type: NextActionType::RedirectToUrl,
                    redirect_to_url: Some(
                        "http://localhost:8080/payments/redirect/pay_1/merchant_1/pay_1_1".to_string()
                    ),
                })
            );
        }
        other => panic!("unexpected {:?}", other),
    }
}

#[test]
fn undecodable_redirect_data_is_internal_error_for_redirect_entry_only() {
    assert_eq!(
        respond(
            Some(()),
            attempt(),
            intent(IntentStatus::RequiresCustomerAction),
            AuthFlow::Client,
            Some(Decoded::Invalid),
            Operation::PaymentStart,
        ),
        Err(ApiErrorResponse::InternalServerError)
    );
    assert!(matches!(
        respond(
            Some(()),
            attempt(),
            intent(IntentStatus::RequiresCustomerAction),
            AuthFlow::Client,
            Some(Decoded::Invalid),
            Operation::PaymentConfirm,
        ),
        Ok(ApplicationResponse::Json(_))
    ));
}

#[test]
fn other_operations_answer_json_even_with_redirect_data() {
    for operation in [Operation::PaymentConfirm, Operation::PaymentStatus, Operation::PaymentCreate] {
        let response = respond(
            Some(()),
            attempt(),
            intent(IntentStatus::Processing),
            AuthFlow::Merchant,
            Some(Decoded::Valid(form())),
            operation,
        );
        match response {
            Ok(ApplicationResponse::Json(payload)) => assert_eq!(payload.next_action, None),
            other => panic!("unexpected {:?}", other),
        }
    }
}

#[test]
fn redirect_entry_answers_with_the_form_without_a_request_too() {
    assert_eq!(
        respond(
            None,
            attempt(),
            intent(IntentStatus::Processing),
            AuthFlow::Merchant,
            Some(Decoded::Valid(form())),
            Operation::PaymentStart,
        ),
        Ok(ApplicationResponse::Form(form()))
    );
    assert_eq!(
        respond(
            None,
            attempt(),
            intent(IntentStatus::Processing),
            AuthFlow::Merchant,
            Some(Decoded::Invalid),
            Operation::PaymentStart,
        ),
        Err(ApiErrorResponse::InternalServerError)
    );
    assert!(matches!(
        respond(
            None,
            attempt(),
            intent(IntentStatus::Processing),
            AuthFlow::Merchant,
            Some(Decoded::Valid(form())),
            Operation::PaymentStatus,
        ),
        Ok(ApplicationResponse::Json(_))
    ));
}

#[test]
fn next_action_only_while_customer_action_is_required() {
    for status in [
        IntentStatus::Succeeded,
        IntentStatus::Failed,
        IntentStatus::Cancelled,
        IntentStatus::Processing,
        IntentStatus::RequiresPaymentMethod,
        IntentStatus::RequiresConfirmation,
        IntentStatus::RequiresCapture,
    ] {
        match respond(Some(()), attempt(), intent(status), AuthFlow::Merchant, None, Operation::PaymentConfirm) {
            Ok(ApplicationResponse::Json(payload)) => {
                assert_eq!(payload.next_action, None);
                assert_eq!(payload.status, status);
            }
            other => panic!("unexpected {:?}", other),
        }
    }
}

#[test]
fn missing_currency_is_reported_before_anything_else() {
    let mut no_currency = attempt();
    no_currency.currency = None;
    assert_eq!(
        respond(
            Some(()),
            no_currency.clone(),
            intent(IntentStatus::Processing),
            AuthFlow::Merchant,
            Some(Decoded::Invalid),
            Operation::PaymentStart,
        ),
        Err(ApiErrorResponse::MissingRequiredField { field_name: "currency".to_string() })
    );
    assert_eq!(
        respond(None, no_currency, intent(IntentStatus::Processing), AuthFlow::Merchant, None, Operation::PaymentStatus),
        Err(ApiErrorResponse::MissingRequiredField { field_name: "currency".to_string() })
    );
}

#[test]
fn full_payload_for_merchant_flow() {
    let response = respond(
        Some(()),
        attempt(),
        intent(IntentStatus::Succeeded),
        AuthFlow::Merchant,
        None,
        Operation::PaymentConfirm,
    );
    let expected = PaymentsResponse {
        payment_id: Some("pay_1".to_string()),
        merchant_id: Some("merchant_1".to_string()),
        status: IntentStatus::Succeeded,
        amount: 6540,
        amount_capturable: None,
        amount_received: Some(100),
        connector: Some("stripe".to_string()),
        client_secret: Some("pay_1_secret_abc".to_string()),
        created: Some(moment()),
        currency: "USD".to_string(),
        customer_id: Some("cus_1".to_string()),
        description: Some("two shirts".to_string()),
        refunds: None,
        mandate_id: Some("man_1".to_string()),
        payment_method: Some(PaymentMethod::Card),
        payment_method_data: Some(PaymentMethodDataResponse::Card(router::api::CardResponse {
            last4: "4242".to_string(),
            exp_month: "10".to_string(),
            exp_year: "25".to_string(),
        })),
        payment_token: Some("tok_1".to_string()),
        shipping: None,
        billing: address().billing,
        email: Some("jo@example.com".to_string()),
        name: Some("Jo Doe".to_string()),
        phone: Some("5551234".to_string()),
        return_url: Some("https://shop.example/done".to_string()),
        authentication_type: None,
        statement_descriptor_name: Some("SHOP".to_string()),
        statement_descriptor_suffix: Some("EU".to_string()),
        setup_future_usage: None,
        capture_method: Some(CaptureMethod::Manual),
        next_action: None,
        cancellation_reason: None,
        error_code: Some("card_declined".to_string()),
        error_message: Some("declined".to_string()),
        payment_experience: None,
        payment_method_type: Some(PaymentMethodType::Credit),
        connector_label: Some("stripe_US_default".to_string()),
        business_country: Some("US".to_string()),
        business_label: Some("default".to_string()),
        business_sub_label: None,
        allowed_payment_method_types: Some(vec![PaymentMethodType::Credit]),
        metadata: Some(document("{\"order_details\":{\"product_name\":\"shirt\",\"quantity\":2}}")),
    };
    assert_eq!(response, Ok(ApplicationResponse::Json(expected)));
}

#[test]
fn client_flow_hides_the_instrument() {
    match respond(Some(()), attempt(), intent(IntentStatus::Succeeded), AuthFlow::Client, None, Operation::PaymentConfirm) {
        Ok(ApplicationResponse::Json(payload)) => {
            assert_eq!(payload.payment_method, None);
            assert_eq!(payload.payment_method_data, None);
            assert_eq!(payload.payment_method_type, Some(PaymentMethodType::Credit));
            assert_eq!(payload.customer_id, Some("cus_1".to_string()));
        }
        other => panic!("unexpected {:?}", other),
    }
}

#[test]
fn connector_label_carries_sub_label_and_is_absent_before_routing() {
    let mut labelled = attempt();
    labelled.business_sub_label = Some("eu".to_string());
    match respond(Some(()), labelled, intent(IntentStatus::Succeeded), AuthFlow::Merchant, None, Operation::PaymentConfirm) {
        Ok(ApplicationResponse::Json(payload)) => {
            assert_eq!(payload.connector_label, Some("stripe_US_default_eu".to_string()));
            assert_eq!(payload.business_sub_label, Some("eu".to_string()));
        }
        other => panic!("unexpected {:?}", other),
    }
    let mut unrouted = attempt();
    unrouted.connector = None;
    match respond(Some(()), unrouted, intent(IntentStatus::Succeeded), AuthFlow::Merchant, None, Operation::PaymentConfirm) {
        Ok(ApplicationResponse::Json(payload)) => {
            assert_eq!(payload.connector_label, None);
            assert_eq!(payload.connector, None);
        }
        other => panic!("unexpected {:?}", other),
    }
}

#[test]
fn brief_payload_without_a_request() {
    match respond(None, attempt(), intent(IntentStatus::RequiresCustomerAction), AuthFlow::Client, None, Operation::PaymentStart) {
        Ok(ApplicationResponse::Json(payload)) => {
            assert_eq!(payload.payment_id, Some("pay_1".to_string()));
            assert_eq!(payload.customer_id, Some("cus_intent".to_string()));
            assert_eq!(payload.payment_method, Some(PaymentMethod::Card));
            assert!(payload.payment_method_data.is_some());
            assert_eq!(payload.email, Some("jo@example.com".to_string()));
            assert_eq!(payload.next_action, None);
            assert_eq!(payload.connector, None);
            assert_eq!(payload.return_url, None);
            assert_eq!(payload.connector_label, None);
            assert_eq!(payload.business_country, None);
            assert_eq!(payload.allowed_payment_method_types, None);
            assert_eq!(payload.capture_method, Some(CaptureMethod::Manual));
            assert!(payload.metadata.is_some());
        }
        other => panic!("unexpected {:?}", other),
    }
}

#[test]
fn refunds_are_shown_in_order_or_not_at_all() {
    assert_eq!(refunds_to_response(&vec![]), None);
    let refunds = vec![
        refund("ref_1", StoredRefundStatus::Success),
        refund("ref_2", StoredRefundStatus::TransactionFailure),
        refund("ref_3", StoredRefundStatus::ManualReview),
    ];
    let shown = refunds_to_response(&refunds).unwrap();
    assert_eq!(shown.len(), 3);
    assert_eq!(shown[0].refund_id, "ref_1");
    assert_eq!(shown[0].status, RefundStatus::Succeeded);
    assert_eq!(shown[1].refund_id, "ref_2");
    assert_eq!(shown[1].status, RefundStatus::Failed);
    assert_eq!(shown[2].refund_id, "ref_3");
    assert_eq!(shown[2].status, RefundStatus::Review);
    let response = payments_to_payments_response(
        Some(()),
        attempt(),
        intent(IntentStatus::Succeeded),
        refunds,
        None,
        None,
        AuthFlow::Merchant,
        PaymentAddress::default(),
        &server(),
        None,
        Operation::PaymentStatus,
    );
    match response {
        Ok(ApplicationResponse::Json(payload)) => {
            assert_eq!(payload.refunds, Some(shown));
            assert_eq!(payload.customer_id, None);
            assert_eq!(payload.payment_method_data, None);
        }
        other => panic!("unexpected {:?}", other),
    }
}

#[test]
fn refund_statuses_are_mapped() {
    for (stored, shown) in [
        (StoredRefundStatus::Failure, RefundStatus::Failed),
        (StoredRefundStatus::TransactionFailure, RefundStatus::Failed),
        (StoredRefundStatus::ManualReview, RefundStatus::Review),
        (StoredRefundStatus::Pending, RefundStatus::Pending),
        (StoredRefundStatus::Success, RefundStatus::Succeeded),
    ] {
        let response = refund_to_response(&refund("ref_1", stored));
        assert_eq!(response.status, shown);
        assert_eq!(response.amount, 100);
        assert_eq!(response.reason, Some("returned".to_string()));
        assert_eq!(response.created_at, Some(moment()));
    }
}

#[test]
fn card_is_reduced_to_its_last_four_digits() {
    let shown = |number: &str| match payment_method_data_to_response(PaymentMethodData::Card(Card {
        card_number: number.to_string(),
        card_exp_month: "10".to_string(),
        card_exp_year: "25".to_string(),
        card_holder_name: "Jo".to_string(),
        card_cvc: "123".to_string(),
    })) {
        PaymentMethodDataResponse::Card(card) => card.last4,
        other => panic!("unexpected {:?}", other),
    };
    assert_eq!(shown("4242424242424242"), "4242");
    assert_eq!(shown("4000056655665556"), "5556");
    assert_eq!(shown("1234"), "1234");
    assert_eq!(shown("123"), "123");
    assert_eq!(shown(""), "");
    assert_eq!(shown("12345"), "2345");
    assert_eq!(shown("１２３４５６"), "３４５６");
    let wallet = WalletData { issuer_name: "gpay".to_string(), token: Some("t".to_string()) };
    assert_eq!(
        payment_method_data_to_response(PaymentMethodData::Wallet(wallet.clone())),
        PaymentMethodDataResponse::Wallet(wallet)
    );
    assert_eq!(
        payment_method_data_to_response(PaymentMethodData::Paypal),
        PaymentMethodDataResponse::Paypal
    );
}

#[test]
fn session_payload_needs_a_client_secret() {
    let mut data = aggregate(IntentStatus::RequiresPaymentMethod);
    data.sessions_token = vec![
        SessionToken::Paypal { session_token: "pp".to_string() },
        SessionToken::Gpay { data: "{}".to_string() },
    ];
    let response = <PaymentsSessionResponse as ToResponse<(), PaymentData, Operation>>::generate_response(
        Some(()),
        data.clone(),
        None,
        AuthFlow::Client,
        &server(),
        Operation::PaymentSession,
    );
    assert_eq!(
        response,
        Ok(ApplicationResponse::Json(PaymentsSessionResponse {
            payment_id: "pay_1".to_string(),
            client_secret: "pay_1_secret_abc".to_string(),
            session_token: vec![
                SessionToken::Paypal { session_token: "pp".to_string() },
                SessionToken::Gpay { data: "{}".to_string() },
            ],
        }))
    );
    data.payment_intent.client_secret = None;
    let response = <PaymentsSessionResponse as ToResponse<(), PaymentData, Operation>>::generate_response(
        Some(()),
        data,
        None,
        AuthFlow::Client,
        &server(),
        Operation::PaymentSession,
    );
    assert_eq!(
        response,
        Err(ApiErrorResponse::MissingRequiredField { field_name: "client_secret".to_string() })
    );
}

#[test]
fn verify_payload_summarises_customer_and_mandate() {
    let response = <VerifyResponse as ToResponse<(), PaymentData, Operation>>::generate_response(
        None,
        aggregate(IntentStatus::RequiresCustomerAction),
        Some(customer()),
        AuthFlow::Client,
        &server(),
        Operation::PaymentStart,
    );
    match response {
        Ok(ApplicationResponse::Json(payload)) => {
            assert_eq!(payload.verify_id, Some("pay_1".to_string()));
            assert_eq!(payload.merchant_id, Some("merchant_1".to_string()));
            assert_eq!(payload.client_secret, Some("pay_1_secret_abc".to_string()));
            assert_eq!(payload.customer_id, Some("cus_1".to_string()));
            assert_eq!(payload.email, Some("jo@example.com".to_string()));
            assert_eq!(payload.name, Some("Jo Doe".to_string()));
            assert_eq!(payload.phone, Some("5551234".to_string()));
            assert_eq!(payload.mandate_id, Some("man_1".to_string()));
            assert_eq!(payload.payment_method, Some(PaymentMethod::Card));
            assert!(matches!(payload.payment_method_data, Some(PaymentMethodDataResponse::Card(_))));
            assert_eq!(payload.payment_token, Some("tok_1".to_string()));
            assert_eq!(payload.error_code, Some("card_declined".to_string()));
            assert_eq!(payload.error_message, Some("declined".to_string()));
        }
        other => panic!("unexpected {:?}", other),
    }
}

#[test]
fn listing_entry_shows_captured_amount_as_capturable() {
    let mut captured = intent(IntentStatus::Succeeded);
    captured.amount_captured = Some(6000);
    let entry = foreign_from((captured, attempt()));
    assert_eq!(entry.amount_capturable, Some(6000));
    assert_eq!(entry.amount_received, None);
    assert_eq!(entry.amount, 6540);
    assert_eq!(entry.connector, Some("stripe".to_string()));
    assert_eq!(entry.customer_id, Some("cus_intent".to_string()));
    assert_eq!(entry.payment_method_type, Some(PaymentMethodType::Credit));
    assert_eq!(entry.mandate_id, None);
    assert_eq!(entry.currency, "USD");
}

#[test]
fn pipeline_failure_is_the_answer() {
    let failed: Result<(PaymentData, (), Option<Customer>), ApiErrorResponse> =
        Err(ApiErrorResponse::PaymentNotFound);
    let response: Result<ApplicationResponse<PaymentsResponse>, ApiErrorResponse> =
        payments_core(failed, AuthFlow::Merchant, &server(), Operation::PaymentStatus);
    assert_eq!(response, Err(ApiErrorResponse::PaymentNotFound));
}

#[test]
fn pipeline_outcome_is_answered_in_the_shape_asked_for() {
    let mut data = aggregate(IntentStatus::RequiresCustomerAction);
    data.connector_response.authentication_data = Some(Decoded::Valid(form()));
    let response: Result<ApplicationResponse<PaymentsResponse>, ApiErrorResponse> = payments_core(
        Ok((data.clone(), (), Some(customer()))),
        AuthFlow::Client,
        &server(),
        Operation::PaymentStart,
    );
    assert_eq!(response, Ok(ApplicationResponse::Form(form())));
    let response: Result<ApplicationResponse<PaymentsSessionResponse>, ApiErrorResponse> =
        payments_core(Ok((data, (), None)), AuthFlow::Client, &server(), Operation::PaymentSession);
    assert!(matches!(response, Ok(ApplicationResponse::Json(_))));
}

#[test]
fn redirection_flow_answers_as_merchant_status() {
    let request = PaymentsRetrieveRequest {
        resource_id: PaymentIdType::PaymentIntentId("pay_1".to_string()),
        merchant_id: None,
        force_sync: true,
        param: None,
        connector: None,
    };
    let mut data = aggregate(IntentStatus::RequiresCustomerAction);
    data.connector_response.authentication_data = Some(Decoded::Valid(form()));
    match payments_response_for_redirection_flows(Ok((data, request, Some(customer()))), &server()) {
        Ok(ApplicationResponse::Json(payload)) => {
            assert_eq!(payload.payment_method, Some(PaymentMethod::Card));
            assert!(payload.payment_method_data.is_some());
            assert!(payload.next_action.is_some());
        }
        other => panic!("unexpected {:?}", other),
    }
    assert_eq!(
        payments_response_for_redirection_flows(Err(ApiErrorResponse::ClientSecretInvalid), &server()),
        Err(ApiErrorResponse::ClientSecretInvalid)
    );
}
