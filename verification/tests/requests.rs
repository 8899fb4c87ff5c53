use router::access_token::{
    access_token_from_cache, access_token_refreshed, add_access_token, needs_access_token,
    refresh_connector_auth, refresh_step, router_data_type_conversion,
    update_router_data_with_access_token_result, TokenAction,
};
use router::api::{
    Address, AddressDetails, Amount, Card, ConnectorData, MandateIds, PaymentMethodData, Server,
};
use router::enums::{
    AttemptStatus, AuthenticationType, CaptureMethod, Connector, GetToken, IntentStatus,
    MerchantStorageScheme, PaymentMethod,
};
use router::errors::{ApiErrorResponse, ConnectorError, ErrorResponse, StorageError};
use router::flows::{decide_step, ConnectorStep, ConstructFlowSpecificData, Feature};
use router::json::Decoded;
use router::payments::{CallConnectorAction, PaymentAddress, PaymentData};
use router::requests::{
    connector_transaction_id, connector_transaction_id_from_metadata,
    construct_payment_router_data, found_merchant_connector_account,
    merchant_connector_account_label, parse_redirect_payload, PaymentAdditionalData,
};
use router::storage::{
    AccessToken, BrowserInformation, ConnectorAuthType, ConnectorResponse, MerchantAccount,
    MerchantConnectorAccount, Metadata, MetadataRecord, OrderDetails, PaymentAttempt,
    PaymentIntent,
};
use router::types::{
    AccessTokenRequestData, AddAccessTokenResult, CompleteAuthorizeData, PaymentsAuthorizeData,
    PaymentsCancelData, PaymentsCaptureData, PaymentsResponseData, PaymentsSessionData,
    PaymentsSyncData, ResponseId, RouterData, VerifyRequestData,
};

fn moment() -> time::PrimitiveDateTime {
    time::PrimitiveDateTime::new(
        time::Date::from_calendar_date(2023, time::Month::May, 4).unwrap(),
        time::Time::MIDNIGHT,
    )
}

fn document(text: &str) -> serde_json::Value {
    serde_json::from_str(text).unwrap()
}

fn browser() -> BrowserInformation {
    BrowserInformation {
        color_depth: 24,
        java_enabled: false,
        java_script_enabled: true,
        language: "en-GB".to_string(),
        screen_height: 1080,
        screen_width: 1920,
        time_zone: -60,
        ip_address: None,
        accept_header: "text/html".to_string(),
        user_agent: "Mozilla".to_string(),
    }
}

fn card() -> PaymentMethodData {
    PaymentMethodData::Card(Card {
        card_number: "4242424242424242".to_string(),
        card_exp_month: "10".to_string(),
        card_exp_year: "25".to_string(),
        card_holder_name: "Jo Doe".to_string(),
        card_cvc: "123".to_string(),
    })
}

fn aggregate() -> PaymentData {
    PaymentData {
        payment_intent: PaymentIntent {
            payment_id: "pay_1".to_string(),
            merchant_id: "merchant_1".to_string(),
            status: IntentStatus::RequiresConfirmation,
            amount: 6540,
            currency: Some("USD".to_string()),
            amount_captured: Some(40),
            customer_id: None,
            description: Some("two shirts".to_string()),
            return_url: Some("https://shop.example/done".to_string()),
            metadata: Some(MetadataRecord {
                value: document("{\"order_details\":{\"product_name\":\"shirt\",\"quantity\":2}}"),
                parsed: Some(Metadata {
                    order_details: Some(OrderDetails {
                        product_name: "shirt".to_string(),
                        quantity: 2,
                    }),
                    allowed_payment_method_types: None,
                }),
            }),
            statement_descriptor_name: Some("SHOP".to_string()),
            statement_descriptor_suffix: Some("EU".to_string()),
            created_at: moment(),
            setup_future_usage: None,
            client_secret: None,
            shipping_address_id: None,
            billing_address_id: None,
            business_country: "US".to_string(),
            business_label: "default".to_string(),
        },
        payment_attempt: PaymentAttempt {
            payment_id: "pay_1".to_string(),
            merchant_id: "merchant_1".to_string(),
            attempt_id: "pay_1_1".to_string(),
            status: AttemptStatus::Started,
            amount: 6540,
            currency: Some("USD".to_string()),
            connector: Some("stripe".to_string()),
            error_message: None,
            error_code: None,
            payment_method_id: Some("pm_1".to_string()),
            payment_method: Some(PaymentMethod::Card),
            payment_method_type: None,
            payment_experience: None,
            connector_transaction_id: Some("txn_1".to_string()),
            capture_method: Some(CaptureMethod::Manual),
            confirm: true,
            authentication_type: None,
            cancellation_reason: Some("requested_by_customer".to_string()),
            amount_to_capture: None,
            mandate_id: None,
            browser_info: Some(Decoded::Valid(browser())),
            payment_token: None,
            connector_metadata: Some(document("{\"order\":\"o1\"}")),
            business_sub_label: None,
        },
        connector_response: ConnectorResponse {
            payment_id: "pay_1".to_string(),
            merchant_id: "merchant_1".to_string(),
            attempt_id: "pay_1_1".to_string(),
            connector_name: None,
            connector_transaction_id: Some("txn_c".to_string()),
            authentication_data: None,
            encoded_data: Some("{\"three_ds\":true}".to_string()),
        },
        amount: Amount::Value(6540),
        mandate_id: Some(MandateIds { mandate_id: "man_1".to_string(), connector_mandate_id: None }),
        currency: "USD".to_string(),
        setup_mandate: None,
        address: PaymentAddress {
            shipping: None,
            billing: Some(Address {
                address: Some(AddressDetails {
                    city: None,
                    country: Some("DE".to_string()),
                    line1: None,
                    line2: None,
                    line3: None,
                    zip: None,
                    state: None,
                    first_name: None,
                    last_name: None,
                }),
                phone: None,
            }),
        },
        token: None,
        confirm: None,
        force_sync: None,
        payment_method_data: Some(card()),
        refunds: vec![],
        sessions_token: vec![],
        card_cvc: None,
        email: Some("jo@example.com".to_string()),
        creds_identifier: None,
        pm_token: Some("pmt_1".to_string()),
    }
}

fn additional<'a>(
    data: &'a PaymentData,
    connector: &str,
    transaction: Result<Option<String>, ApiErrorResponse>,
) -> PaymentAdditionalData<'a> {
    PaymentAdditionalData {
        router_base_url: "http://localhost:8080".to_string(),
        connector_name: connector.to_string(),
        payment_data: data,
        connector_transaction_id: transaction,
    }
}

fn merchant() -> MerchantAccount {
    MerchantAccount {
        merchant_id: "merchant_1".to_string(),
        storage_scheme: MerchantStorageScheme::RedisKv,
        routing_algorithm: None,
    }
}

fn account(details: Decoded<ConnectorAuthType>) -> MerchantConnectorAccount {
    MerchantConnectorAccount {
        merchant_id: "merchant_1".to_string(),
        connector_name: "stripe".to_string(),
        connector_account_details: details,
        payment_methods_enabled: None,
        metadata: Some(document("{\"region\":\"eu\"}")),
    }
}

fn header_key() -> ConnectorAuthType {
    ConnectorAuthType::HeaderKey { api_key: "sk_test".to_string() }
}

fn server() -> Server {
    Server { base_url: "http://localhost:8080".to_string() }
}

fn missing(field: &str) -> ApiErrorResponse {
    ApiErrorResponse::MissingRequiredField { field_name: field.to_string() }
}

#[test]
fn authorize_request_carries_the_three_addresses() {
    let data = aggregate();
    let request = PaymentsAuthorizeData::try_from(additional(&data, "stripe", Ok(None))).unwrap();
    assert_eq!(
        request.router_return_url,
        Some("http://localhost:8080/payments/pay_1/merchant_1/redirect/response/stripe".to_string())
    );
    assert_eq!(
        request.webhook_url,
        Some("http://localhost:8080/webhooks/merchant_1/stripe".to_string())
    );
    assert_eq!(
        request.complete_authorize_url,
        Some("http://localhost:8080/payments/pay_1/merchant_1/redirect/complete/stripe".to_string())
    );
    assert_eq!(request.payment_method_data, card());
    assert_eq!(request.amount, 6540);
    assert_eq!(request.currency, "USD");
    assert_eq!(request.email, Some("jo@example.com".to_string()));
    assert!(request.confirm);
    assert!(request.enrolled_for_3ds);
    assert_eq!(request.off_session, Some(true));
    assert_eq!(request.mandate_id, data.mandate_id);
    assert_eq!(request.browser_info, Some(browser()));
    assert_eq!(
        request.order_details,
        Some(OrderDetails { product_name: "shirt".to_string(), quantity: 2 })
    );
    assert_eq!(request.statement_descriptor, Some("SHOP".to_string()));
    assert_eq!(request.statement_descriptor_suffix, Some("EU".to_string()));
    assert_eq!(request.capture_method, Some(CaptureMethod::Manual));
    assert_eq!(request.session_token, None);
    assert_eq!(request.related_transaction_id, None);
}

#[test]
fn authorize_return_address_carries_credentials_identifier() {
    let mut data = aggregate();
    data.creds_identifier = Some("acct_9".to_string());
    data.mandate_id = None;
    let request = PaymentsAuthorizeData::try_from(additional(&data, "adyen", Ok(None))).unwrap();
    assert_eq!(
        request.router_return_url,
        Some(
            "http://localhost:8080/payments/pay_1/merchant_1/redirect/response/adyen/acct_9"
                .to_string()
        )
    );
    assert_eq!(request.off_session, None);
}

#[test]
fn authorize_request_errors_in_order() {
    let mut data = aggregate();
    data.payment_attempt.browser_info = Some(Decoded::Invalid);
    data.payment_method_data = None;
    assert_eq!(
        PaymentsAuthorizeData::try_from(additional(&data, "stripe", Ok(None))),
        Err(ApiErrorResponse::InvalidDataValue { field_name: "browser_info".to_string() })
    );
    data.payment_attempt.browser_info = None;
    assert_eq!(
        PaymentsAuthorizeData::try_from(additional(&data, "stripe", Ok(None))),
        Err(missing("payment_method_data"))
    );
    data.payment_method_data = Some(card());
    data.payment_intent.metadata.as_mut().unwrap().parsed = None;
    let request = PaymentsAuthorizeData::try_from(additional(&data, "stripe", Ok(None))).unwrap();
    assert_eq!(request.browser_info, None);
    assert_eq!(request.order_details, None);
}

#[test]
fn sync_request_names_the_transaction_if_there_is_one() {
    let mut data = aggregate();
    assert_eq!(
        PaymentsSyncData::try_from(additional(&data, "stripe", Ok(None))),
        Ok(PaymentsSyncData {
            connector_transaction_id: ResponseId::ConnectorTransactionId("txn_1".to_string()),
            encoded_data: Some("{\"three_ds\":true}".to_string()),
            capture_method: Some(CaptureMethod::Manual),
            connector_meta: Some(document("{\"order\":\"o1\"}")),
        })
    );
    data.payment_attempt.connector_transaction_id = None;
    assert_eq!(
        PaymentsSyncData::try_from(additional(&data, "stripe", Ok(None)))
            .unwrap()
            .connector_transaction_id,
        ResponseId::NoResponseId
    );
}

#[test]
fn capture_request_defaults_to_the_whole_amount() {
    let mut data = aggregate();
    assert_eq!(
        PaymentsCaptureData::try_from(additional(&data, "stripe", Ok(Some("txn_1".to_string())))),
        Ok(PaymentsCaptureData {
            amount_to_capture: 6540,
            currency: "USD".to_string(),
            connector_transaction_id: "txn_1".to_string(),
            payment_amount: 6540,
            connector_meta: Some(document("{\"order\":\"o1\"}")),
        })
    );
    data.payment_attempt.amount_to_capture = Some(1000);
    let request =
        PaymentsCaptureData::try_from(additional(&data, "stripe", Ok(Some("txn_1".to_string()))))
            .unwrap();
    assert_eq!(request.amount_to_capture, 1000);
    assert_eq!(request.payment_amount, 6540);
    data.amount = Amount::Zero;
    data.payment_attempt.amount_to_capture = None;
    let request =
        PaymentsCaptureData::try_from(additional(&data, "stripe", Ok(Some("txn_1".to_string()))))
            .unwrap();
    assert_eq!(request.amount_to_capture, 0);
    assert_eq!(request.payment_amount, 0);
}

#[test]
fn capture_and_cancel_need_a_connector_and_a_transaction() {
    let data = aggregate();
    assert_eq!(
        PaymentsCaptureData::try_from(additional(&data, "nobody", Ok(Some("txn_1".to_string())))),
        Err(ApiErrorResponse::InternalServerError)
    );
    assert_eq!(
        PaymentsCaptureData::try_from(additional(&data, "stripe", Ok(None))),
        Err(ApiErrorResponse::ResourceIdNotFound)
    );
    assert_eq!(
        PaymentsCaptureData::try_from(additional(
            &data,
            "stripe",
            Err(ApiErrorResponse::NotImplemented)
        )),
        Err(ApiErrorResponse::NotImplemented)
    );
    assert_eq!(
        PaymentsCancelData::try_from(additional(&data, "nobody", Ok(None))),
        Err(ApiErrorResponse::InternalServerError)
    );
    assert_eq!(
        PaymentsCancelData::try_from(additional(&data, "stripe", Ok(None))),
        Err(ApiErrorResponse::ResourceIdNotFound)
    );
    assert_eq!(
        PaymentsCancelData::try_from(additional(&data, "stripe", Ok(Some("txn_1".to_string())))),
        Ok(PaymentsCancelData {
            amount: Some(6540),
            currency: Some("USD".to_string()),
            connector_transaction_id: "txn_1".to_string(),
            cancellation_reason: Some("requested_by_customer".to_string()),
            connector_meta: Some(document("{\"order\":\"o1\"}")),
        })
    );
}

#[test]
fn transaction_id_capability_results() {
    let data = aggregate();
    assert_eq!(connector_transaction_id(&data.payment_attempt), Ok(Some("txn_1".to_string())));
    assert_eq!(
        connector_transaction_id_from_metadata(Ok(Some("order_7".to_string()))),
        Ok(Some("order_7".to_string()))
    );
    assert_eq!(connector_transaction_id_from_metadata(Ok(None)), Ok(None));
    assert_eq!(
        connector_transaction_id_from_metadata(Err(ConnectorError::ProcessingStepFailed)),
        Err(ApiErrorResponse::ResourceIdNotFound)
    );
}

#[test]
fn session_request_takes_country_from_billing() {
    let mut data = aggregate();
    assert_eq!(
        PaymentsSessionData::try_from(additional(&data, "klarna", Ok(None))),
        Ok(PaymentsSessionData {
            amount: 6540,
            currency: "USD".to_string(),
            country: Some("DE".to_string()),
            order_details: Some(OrderDetails { product_name: "shirt".to_string(), quantity: 2 }),
        })
    );
    data.address.billing = None;
    data.payment_intent.metadata = None;
    assert_eq!(
        PaymentsSessionData::try_from(additional(&data, "klarna", Ok(None))),
        Ok(PaymentsSessionData {
            amount: 6540,
            currency: "USD".to_string(),
            country: None,
            order_details: None,
        })
    );
}

#[test]
fn verify_request_always_confirms() {
    let mut data = aggregate();
    data.payment_attempt.confirm = false;
    let request = VerifyRequestData::try_from(additional(&data, "stripe", Ok(None))).unwrap();
    assert!(request.confirm);
    assert_eq!(request.payment_method_data, card());
    assert_eq!(request.off_session, Some(true));
    assert_eq!(request.currency, "USD");
    data.payment_method_data = None;
    assert_eq!(
        VerifyRequestData::try_from(additional(&data, "stripe", Ok(None))),
        Err(missing("payment_method_data"))
    );
}

#[test]
fn complete_authorize_parses_the_redirect_payload() {
    let mut data = aggregate();
    let request = CompleteAuthorizeData::try_from(additional(&data, "stripe", Ok(None))).unwrap();
    assert_eq!(request.payload, Some(document("{\"three_ds\": true}")));
    assert_eq!(request.connector_transaction_id, Some("txn_c".to_string()));
    assert_eq!(request.payment_method_data, Some(card()));
    assert_eq!(request.browser_info, Some(browser()));
    data.connector_response.encoded_data = None;
    data.payment_method_data = None;
    let request = CompleteAuthorizeData::try_from(additional(&data, "stripe", Ok(None))).unwrap();
    assert_eq!(request.payload, None);
    assert_eq!(request.payment_method_data, None);
    data.connector_response.encoded_data = Some("{not json".to_string());
    assert_eq!(
        CompleteAuthorizeData::try_from(additional(&data, "stripe", Ok(None))),
        Err(ApiErrorResponse::InternalServerError)
    );
    data.payment_attempt.browser_info = Some(Decoded::Invalid);
    assert_eq!(
        CompleteAuthorizeData::try_from(additional(&data, "stripe", Ok(None))),
        Err(ApiErrorResponse::InvalidDataValue { field_name: "browser_info".to_string() })
    );
}

#[test]
fn redirect_payload_is_read_as_json() {
    assert_eq!(parse_redirect_payload(&None), Ok(None));
    assert_eq!(
        parse_redirect_payload(&Some("[1, 2, {\"a\": null}]".to_string())),
        Ok(Some(document("[1,2,{\"a\":null}]")))
    );
    assert_eq!(parse_redirect_payload(&Some("\"text\"".to_string())), Ok(Some(document("\"text\""))));
    for text in ["", "{", "abc", "{\"a\":1} trailing", "PaRes=abc&MD=1"] {
        assert_eq!(
            parse_redirect_payload(&Some(text.to_string())),
            Err(ApiErrorResponse::InternalServerError)
        );
    }
}

#[test]
fn router_data_is_constructed_from_the_aggregate() {
    let data = aggregate();
    let router_data: RouterData<PaymentsSyncData, PaymentsResponseData> =
        construct_payment_router_data(
            &data,
            "stripe",
            &merchant(),
            &account(Decoded::Valid(header_key())),
            &server(),
            Ok(None),
        )
        .unwrap();
    assert_eq!(router_data.merchant_id, "merchant_1");
    assert_eq!(router_data.connector, "stripe");
    assert_eq!(router_data.payment_id, "pay_1");
    assert_eq!(router_data.attempt_id, "pay_1_1");
    assert_eq!(router_data.status, AttemptStatus::Started);
    assert_eq!(router_data.payment_method, PaymentMethod::Card);
    assert_eq!(router_data.connector_auth_type, header_key());
    assert_eq!(router_data.description, Some("two shirts".to_string()));
    assert_eq!(router_data.return_url, Some("https://shop.example/done".to_string()));
    assert_eq!(router_data.payment_method_id, Some("pm_1".to_string()));
    assert_eq!(router_data.address, data.address);
    assert_eq!(router_data.auth_type, AuthenticationType::NoThreeDs);
    assert_eq!(router_data.connector_meta_data, Some(document("{\"region\":\"eu\"}")));
    assert_eq!(router_data.amount_captured, Some(40));
    assert_eq!(router_data.access_token, None);
    assert_eq!(router_data.session_token, None);
    assert_eq!(router_data.reference_id, None);
    assert_eq!(router_data.payment_method_token, Some("pmt_1".to_string()));
    assert_eq!(
        router_data.response,
        Ok(PaymentsResponseData::TransactionResponse {
            resource_id: ResponseId::ConnectorTransactionId("txn_1".to_string()),
            redirection_data: None,
            mandate_reference: None,
            connector_metadata: None,
        })
    );
    assert_eq!(
        router_data.request.connector_transaction_id,
        ResponseId::ConnectorTransactionId("txn_1".to_string())
    );
}

#[test]
fn fresh_router_data_holds_the_placeholder_error() {
    let mut data = aggregate();
    data.payment_attempt.connector_transaction_id = None;
    data.payment_attempt.authentication_type = Some(AuthenticationType::ThreeDs);
    let router_data: RouterData<PaymentsAuthorizeData, PaymentsResponseData> = data
        .construct_router_data(
            "adyen",
            &merchant(),
            &account(Decoded::Valid(header_key())),
            &server(),
            Ok(None),
        )
        .unwrap();
    assert_eq!(
        router_data.response,
        Err(ErrorResponse {
            code: "HE_00".to_string(),
            message: "Something went wrong".to_string(),
            reason: None,
            status_code: 500,
        })
    );
    assert_eq!(router_data.auth_type, AuthenticationType::ThreeDs);
    assert_eq!(router_data.connector, "adyen");
    assert_eq!(
        router_data.request.webhook_url,
        Some("http://localhost:8080/webhooks/merchant_1/adyen".to_string())
    );
}

#[test]
fn router_data_construction_errors_in_order() {
    let mut data = aggregate();
    data.payment_attempt.payment_method = None;
    data.payment_method_data = None;
    let built: Result<RouterData<PaymentsAuthorizeData, PaymentsResponseData>, ApiErrorResponse> =
        construct_payment_router_data(
            &data,
            "stripe",
            &merchant(),
            &account(Decoded::Invalid),
            &server(),
            Ok(None),
        );
    assert_eq!(built, Err(ApiErrorResponse::InternalServerError));
    let built: Result<RouterData<PaymentsAuthorizeData, PaymentsResponseData>, ApiErrorResponse> =
        construct_payment_router_data(
            &data,
            "stripe",
            &merchant(),
            &account(Decoded::Valid(header_key())),
            &server(),
            Ok(None),
        );
    assert_eq!(built, Err(missing("payment_method_type")));
    data.payment_attempt.payment_method = Some(PaymentMethod::Card);
    let built: Result<RouterData<PaymentsAuthorizeData, PaymentsResponseData>, ApiErrorResponse> =
        construct_payment_router_data(
            &data,
            "stripe",
            &merchant(),
            &account(Decoded::Valid(header_key())),
            &server(),
            Ok(None),
        );
    assert_eq!(built, Err(missing("payment_method_data")));
    let built: Result<RouterData<PaymentsCaptureData, PaymentsResponseData>, ApiErrorResponse> =
        construct_payment_router_data(
            &data,
            "stripe",
            &merchant(),
            &account(Decoded::Valid(header_key())),
            &server(),
            Ok(None),
        );
    assert_eq!(built, Err(ApiErrorResponse::ResourceIdNotFound));
}

#[test]
fn account_label_is_made_of_connector_country_and_label() {
    let mut data = aggregate();
    assert_eq!(merchant_connector_account_label(&data, "stripe"), "stripe_US_default");
    data.payment_attempt.business_sub_label = Some("eu".to_string());
    assert_eq!(merchant_connector_account_label(&data, "adyen"), "adyen_US_default_eu");
}

fn envelope() -> RouterData<PaymentsSyncData, PaymentsResponseData> {
    construct_payment_router_data(
        &aggregate(),
        "globalpay",
        &merchant(),
        &account(Decoded::Valid(ConnectorAuthType::BodyKey {
            api_key: "app".to_string(),
            key1: "secret".to_string(),
        })),
        &server(),
        Ok(None),
    )
    .unwrap()
}

#[test]
fn avoided_call_returns_the_envelope_unchanged() {
    let first = envelope().decide_flows(CallConnectorAction::Avoid);
    assert_eq!(first, ConnectorStep::Settled(envelope()));
    let again = match first {
        ConnectorStep::Settled(router_data) => router_data.decide_flows(CallConnectorAction::Avoid),
        other => panic!("unexpected {:?}", other),
    };
    assert_eq!(again, ConnectorStep::Settled(envelope()));
}

#[test]
fn each_action_decides_its_step() {
    assert_eq!(
        envelope().decide_flows(CallConnectorAction::Trigger),
        ConnectorStep::Send(envelope())
    );
    let mut charged = envelope();
    charged.status = AttemptStatus::Charged;
    assert_eq!(
        envelope().decide_flows(CallConnectorAction::StatusUpdate(AttemptStatus::Charged)),
        ConnectorStep::Settled(charged)
    );
    assert_eq!(
        envelope().decide_flows(CallConnectorAction::HandleResponse(vec![1, 2, 3])),
        ConnectorStep::Interpret(envelope(), vec![1, 2, 3])
    );
    let globalpay = ConnectorData { connector_name: Connector::Globalpay, get_token: GetToken::Connector };
    assert_eq!(envelope().get_session_token(&globalpay), Ok(None));
}

fn token(value: &str) -> AccessToken {
    AccessToken { token: value.to_string(), expires: 3600 }
}

#[test]
fn connector_without_token_support_needs_no_token() {
    let stripe = ConnectorData { connector_name: Connector::Stripe, get_token: GetToken::Connector };
    let not_needed = TokenAction::Finish {
        result: AddAccessTokenResult {
            access_token_result: Ok(None),
            connector_supports_access_token: false,
        },
    };
    assert_eq!(add_access_token(&stripe, false, &merchant()), not_needed);
    assert_eq!(
        Feature::<PaymentsSyncData>::add_access_token(&envelope(), &stripe, false, &merchant()),
        not_needed
    );
}

#[test]
fn token_policy_runs_only_ahead_of_a_call_that_goes_out() {
    assert!(needs_access_token(&ConnectorStep::Send(envelope())));
    assert!(!needs_access_token(&ConnectorStep::Settled(envelope())));
    assert!(!needs_access_token(&ConnectorStep::Interpret(envelope(), vec![1])));
    assert!(!needs_access_token(&envelope().decide_flows(CallConnectorAction::Avoid)));
}

#[test]
fn token_result_is_applied_to_the_call() {
    let with_token = AddAccessTokenResult {
        access_token_result: Ok(Some(token("fresh"))),
        connector_supports_access_token: true,
    };
    let mut carrying = envelope();
    carrying.access_token = Some(token("fresh"));
    assert_eq!(
        update_router_data_with_access_token_result(ConnectorStep::Send(envelope()), with_token.clone()),
        ConnectorStep::Send(carrying)
    );
    let not_needed = AddAccessTokenResult {
        access_token_result: Ok(None),
        connector_supports_access_token: false,
    };
    assert_eq!(
        update_router_data_with_access_token_result(ConnectorStep::Send(envelope()), not_needed),
        ConnectorStep::Send(envelope())
    );
    let refusal = ErrorResponse {
        code: "401".to_string(),
        message: "bad credentials".to_string(),
        reason: None,
        status_code: 401,
    };
    let refused = AddAccessTokenResult {
        access_token_result: Err(refusal.clone()),
        connector_supports_access_token: true,
    };
    let mut answered = envelope();
    answered.response = Err(refusal);
    assert_eq!(
        update_router_data_with_access_token_result(ConnectorStep::Send(envelope()), refused.clone()),
        ConnectorStep::Settled(answered)
    );
    assert_eq!(
        update_router_data_with_access_token_result(ConnectorStep::Settled(envelope()), refused),
        ConnectorStep::Settled(envelope())
    );
    assert_eq!(
        update_router_data_with_access_token_result(
            ConnectorStep::Interpret(envelope(), vec![7]),
            with_token
        ),
        ConnectorStep::Interpret(envelope(), vec![7])
    );
}

#[test]
fn refresh_is_always_sent() {
    let refresh = match access_token_from_cache(Ok(None), &envelope()) {
        Ok(TokenAction::Refresh { router_data }) => router_data,
        other => panic!("unexpected {:?}", other),
    };
    assert_eq!(refresh_step(refresh.clone()), ConnectorStep::Send(refresh));
}

#[test]
fn borrowed_action_decides_the_same_step() {
    for action in [
        CallConnectorAction::Trigger,
        CallConnectorAction::Avoid,
        CallConnectorAction::StatusUpdate(AttemptStatus::Charged),
        CallConnectorAction::HandleResponse(vec![1, 2, 3]),
    ] {
        assert_eq!(decide_step(envelope(), &action), envelope().decide_flows(action.clone()));
    }
}

#[test]
fn merchant_connector_account_lookup_results() {
    let found = account(Decoded::Valid(header_key()));
    assert_eq!(found_merchant_connector_account(Ok(found.clone())), Ok(found));
    assert_eq!(
        found_merchant_connector_account(Err(StorageError::ValueNotFound)),
        Err(ApiErrorResponse::MerchantConnectorAccountNotFound)
    );
    assert_eq!(
        found_merchant_connector_account(Err(StorageError::DatabaseError)),
        Err(ApiErrorResponse::InternalServerError)
    );
}

#[test]
fn completing_request_is_built_around_the_parsed_payload() {
    let mut data = aggregate();
    let request = CompleteAuthorizeData::with_payload(&data, Some(document("[1,2]"))).unwrap();
    assert_eq!(request.payload, Some(document("[1, 2]")));
    assert_eq!(request.amount, 6540);
    assert_eq!(request.currency, "USD");
    assert_eq!(request.email, Some("jo@example.com".to_string()));
    assert!(request.confirm);
    assert_eq!(request.off_session, Some(true));
    assert_eq!(request.capture_method, Some(CaptureMethod::Manual));
    assert_eq!(request.connector_transaction_id, Some("txn_c".to_string()));
    assert_eq!(request.connector_meta, Some(document("{\"order\":\"o1\"}")));
    assert_eq!(request.browser_info, Some(browser()));
    assert_eq!(CompleteAuthorizeData::with_payload(&data, None).unwrap().payload, None);
    data.payment_attempt.browser_info = Some(Decoded::Invalid);
    assert_eq!(
        CompleteAuthorizeData::with_payload(&data, None),
        Err(ApiErrorResponse::InvalidDataValue { field_name: "browser_info".to_string() })
    );
}

#[test]
fn cached_token_is_used_without_refresh() {
    let globalpay = ConnectorData { connector_name: Connector::Globalpay, get_token: GetToken::Connector };
    assert_eq!(
        add_access_token(&globalpay, true, &merchant()),
        TokenAction::ReadCache {
            merchant_id: "merchant_1".to_string(),
            connector_id: "globalpay".to_string()
        }
    );
    for _ in 0..2 {
        assert_eq!(
            access_token_from_cache(Ok(Some(token("cached"))), &envelope()),
            Ok(TokenAction::Finish {
                result: AddAccessTokenResult {
                    access_token_result: Ok(Some(token("cached"))),
                    connector_supports_access_token: true,
                }
            })
        );
    }
}

#[test]
fn missing_token_is_refreshed_once_and_stored() {
    let globalpay = ConnectorData { connector_name: Connector::Globalpay, get_token: GetToken::Connector };
    let refresh = match access_token_from_cache(Ok(None), &envelope()) {
        Ok(TokenAction::Refresh { router_data }) => router_data,
        other => panic!("unexpected {:?}", other),
    };
    assert_eq!(
        refresh.request,
        AccessTokenRequestData { app_id: "app".to_string(), id: Some("secret".to_string()) }
    );
    assert!(refresh.response.is_err());
    assert_eq!(refresh.merchant_id, "merchant_1");
    assert_eq!(refresh.connector, "globalpay");
    assert_eq!(refresh.address, envelope().address);
    let mut answered = refresh;
    answered.response = Ok(token("fresh"));
    let refreshed = refresh_connector_auth(Ok(answered)).unwrap();
    assert_eq!(refreshed, Ok(token("fresh")));
    assert_eq!(
        access_token_refreshed(&globalpay, &merchant(), refreshed),
        TokenAction::StoreAndFinish {
            merchant_id: "merchant_1".to_string(),
            connector_id: "globalpay".to_string(),
            token: token("fresh"),
            result: AddAccessTokenResult {
                access_token_result: Ok(Some(token("fresh"))),
                connector_supports_access_token: true,
            },
        }
    );
    assert_eq!(
        access_token_from_cache(Ok(Some(token("fresh"))), &envelope()),
        Ok(TokenAction::Finish {
            result: AddAccessTokenResult {
                access_token_result: Ok(Some(token("fresh"))),
                connector_supports_access_token: true,
            }
        })
    );
}

#[test]
fn refresh_failures_are_told_apart() {
    let globalpay = ConnectorData { connector_name: Connector::Globalpay, get_token: GetToken::Connector };
    assert_eq!(
        refresh_connector_auth(Err(ConnectorError::ProcessingStepFailed)),
        Err(ApiErrorResponse::InternalServerError)
    );
    let refusal = ErrorResponse {
        code: "401".to_string(),
        message: "bad credentials".to_string(),
        reason: Some("expired key".to_string()),
        status_code: 401,
    };
    assert_eq!(
        access_token_refreshed(&globalpay, &merchant(), Err(refusal.clone())),
        TokenAction::Finish {
            result: AddAccessTokenResult {
                access_token_result: Err(refusal),
                connector_supports_access_token: true,
            }
        }
    );
    assert_eq!(
        access_token_from_cache(Err(StorageError::DatabaseError), &envelope()),
        Err(ApiErrorResponse::InternalServerError)
    );
    assert_eq!(
        access_token_from_cache(Err(StorageError::ValueNotFound), &envelope()),
        Err(ApiErrorResponse::InternalServerError)
    );
    let mut keyless = envelope();
    keyless.connector_auth_type = ConnectorAuthType::NoKey;
    assert_eq!(
        access_token_from_cache(Ok(None), &keyless),
        Err(ApiErrorResponse::InvalidDataValue {
            field_name: "connector_account_details".to_string()
        })
    );
    assert!(matches!(
        access_token_from_cache(Ok(Some(token("cached"))), &keyless),
        Ok(TokenAction::Finish { .. })
    ));
}

#[test]
fn refresh_request_is_derived_from_credentials() {
    assert_eq!(
        AccessTokenRequestData::try_from(header_key()),
        Ok(AccessTokenRequestData { app_id: "sk_test".to_string(), id: None })
    );
    assert_eq!(
        AccessTokenRequestData::try_from(ConnectorAuthType::SignatureKey {
            api_key: "k".to_string(),
            key1: "k1".to_string(),
            api_secret: "s".to_string(),
        }),
        Ok(AccessTokenRequestData { app_id: "k".to_string(), id: Some("k1".to_string()) })
    );
    assert_eq!(
        AccessTokenRequestData::try_from(ConnectorAuthType::NoKey),
        Err(ApiErrorResponse::InvalidDataValue {
            field_name: "connector_account_details".to_string()
        })
    );
}

#[test]
fn envelope_conversion_keeps_everything_but_request_and_answer() {
    let converted: RouterData<u8, u16> = router_data_type_conversion(&envelope(), 7u8, Ok(9u16));
    assert_eq!(converted.request, 7);
    assert_eq!(converted.response, Ok(9));
    assert_eq!(converted.merchant_id, envelope().merchant_id);
    assert_eq!(converted.connector_auth_type, envelope().connector_auth_type);
    assert_eq!(converted.connector_meta_data, envelope().connector_meta_data);
    assert_eq!(converted.payment_method_token, envelope().payment_method_token);
    assert_eq!(converted.status, envelope().status);
}
