use router::api::{Amount, ConnectorCallType, ConnectorData, PaymentListConstraints};
use router::enums::{
    AttemptStatus, AuthFlow, Connector, GetToken, HttpMethod, IntentStatus, MerchantStorageScheme,
    Operation,
};
use router::errors::{to_not_found_response, ApiErrorResponse, StorageError};
use router::json::Decoded;
use router::payments::{
    add_process_sync_task, if_not_create_change_operation, is_confirm, is_start_pay, list_payments,
    route_connector, should_call_connector, validate_payment_list_request, PaymentAddress,
    PaymentData,
};
use router::api::{ApplicationResponse, PaymentIdType};
use router::api::PaymentMethodData;
use router::dispatch::DispatchPlan;
use router::payments::CallConnectorAction;
use router::pipeline::{
    payments_operation_core, PipelineRun, PipelineStage, PipelineStep, StageEvent, StageRequest,
    ValidateResult,
};
use router::storage::Customer;
use router::storage::{
    ConnectorResponse, MerchantAccount, PaymentAttempt, PaymentIntent, RedirectForm,
    RoutingAlgorithm,
};

fn moment() -> time::PrimitiveDateTime {
    time::PrimitiveDateTime::new(
        time::Date::from_calendar_date(2023, time::Month::May, 4).unwrap(),
        time::Time::MIDNIGHT,
    )
}

fn intent(status: IntentStatus) -> PaymentIntent {
    PaymentIntent {
        payment_id: "pay_1".to_string(),
        merchant_id: "merchant_1".to_string(),
        status,
        amount: 6540,
        currency: Some("USD".to_string()),
        amount_captured: None,
        customer_id: Some("cus_1".to_string()),
        description: None,
        return_url: None,
        metadata: None,
        statement_descriptor_name: None,
        statement_descriptor_suffix: None,
        created_at: moment(),
        setup_future_usage: None,
        client_secret: Some("pay_1_secret_abc".to_string()),
        shipping_address_id: None,
        billing_address_id: None,
        business_country: "US".to_string(),
        business_label: "default".to_string(),
    }
}

fn attempt() -> PaymentAttempt {
    PaymentAttempt {
        payment_id: "pay_1".to_string(),
        merchant_id: "merchant_1".to_string(),
        attempt_id: "pay_1_1".to_string(),
        status: AttemptStatus::Started,
        amount: 6540,
        currency: Some("USD".to_string()),
        connector: None,
        error_message: None,
        error_code: None,
        payment_method_id: None,
        payment_method: None,
        payment_method_type: None,
        payment_experience: None,
        connector_transaction_id: None,
        capture_method: None,
        confirm: true,
        authentication_type: None,
        cancellation_reason: None,
        amount_to_capture: None,
        mandate_id: None,
        browser_info: None,
        payment_token: None,
        connector_metadata: None,
        business_sub_label: None,
    }
}

fn connector_response(authentication_data: Option<Decoded<RedirectForm>>) -> ConnectorResponse {
    ConnectorResponse {
        payment_id: "pay_1".to_string(),
        merchant_id: "merchant_1".to_string(),
        attempt_id: "pay_1_1".to_string(),
        connector_name: None,
        connector_transaction_id: None,
        authentication_data,
        encoded_data: None,
    }
}

fn aggregate(
    status: IntentStatus,
    authentication_data: Option<Decoded<RedirectForm>>,
    force_sync: Option<bool>,
) -> PaymentData {
    PaymentData {
        payment_intent: intent(status),
        payment_attempt: attempt(),
        connector_response: connector_response(authentication_data),
        amount: Amount::Value(6540),
        mandate_id: None,
        currency: "USD".to_string(),
        setup_mandate: None,
        address: PaymentAddress::default(),
        token: None,
        confirm: None,
        force_sync,
        payment_method_data: None,
        refunds: vec![],
        sessions_token: vec![],
        card_cvc: None,
        email: None,
        creds_identifier: None,
        pm_token: None,
    }
}

fn form() -> RedirectForm {
    RedirectForm {
        url: "https://acs.example/3ds".to_string(),
        method: HttpMethod::Post,
        form_fields: vec![("PaReq".to_string(), "abc".to_string())],
    }
}

fn merchant(routing: Option<Decoded<RoutingAlgorithm>>) -> MerchantAccount {
    MerchantAccount {
        merchant_id: "merchant_1".to_string(),
        storage_scheme: MerchantStorageScheme::PostgresOnly,
        routing_algorithm: routing,
    }
}

const ALL_STATUSES: [IntentStatus; 8] = [
    IntentStatus::Succeeded,
    IntentStatus::Failed,
    IntentStatus::Cancelled,
    IntentStatus::Processing,
    IntentStatus::RequiresCustomerAction,
    IntentStatus::RequiresPaymentMethod,
    IntentStatus::RequiresConfirmation,
    IntentStatus::RequiresCapture,
];

const ALL_OPERATIONS: [Operation; 10] = [
    Operation::PaymentCreate,
    Operation::PaymentConfirm,
    Operation::PaymentCapture,
    Operation::PaymentCancel,
    Operation::PaymentStatus,
    Operation::PaymentSession,
    Operation::PaymentStart,
    Operation::PaymentUpdate,
    Operation::PaymentMethodValidate,
    Operation::PaymentResponse,
];

fn table(operation: Operation, status: IntentStatus, recorded: bool, force_sync: bool) -> bool {
    match operation {
        Operation::PaymentConfirm | Operation::PaymentSession => true,
        Operation::PaymentStart => {
            status != IntentStatus::Failed && status != IntentStatus::Succeeded && !recorded
        }
        Operation::PaymentStatus => {
            force_sync
                && [
                    IntentStatus::Failed,
                    IntentStatus::Processing,
                    IntentStatus::Succeeded,
                    IntentStatus::RequiresCustomerAction,
                ]
                .contains(&status)
        }
        Operation::PaymentCancel | Operation::PaymentCapture => {
            status == IntentStatus::RequiresCapture
        }
        _ => false,
    }
}

#[test]
fn start_pay_is_recognised() {
    assert!(is_start_pay(&Operation::PaymentStart));
    for operation in ALL_OPERATIONS {
        assert_eq!(is_start_pay(&operation), operation == Operation::PaymentStart);
    }
}

#[test]
fn confirm_overrides_current_operation() {
    assert_eq!(is_confirm(Operation::PaymentUpdate, Some(true)), Operation::PaymentConfirm);
    assert_eq!(is_confirm(Operation::PaymentUpdate, Some(false)), Operation::PaymentUpdate);
    assert_eq!(is_confirm(Operation::PaymentUpdate, None), Operation::PaymentUpdate);
    assert_eq!(is_confirm(Operation::PaymentCreate, None), Operation::PaymentCreate);
}

#[test]
fn settled_intent_is_only_read() {
    for status in ALL_STATUSES {
        let waits = [
            IntentStatus::RequiresConfirmation,
            IntentStatus::RequiresCustomerAction,
            IntentStatus::RequiresPaymentMethod,
        ]
        .contains(&status);
        let expected = if waits { Operation::PaymentUpdate } else { Operation::PaymentStatus };
        assert_eq!(if_not_create_change_operation(status, None, Operation::PaymentUpdate), expected);
        assert_eq!(
            if_not_create_change_operation(status, Some(false), Operation::PaymentUpdate),
            expected
        );
        assert_eq!(
            if_not_create_change_operation(status, Some(true), Operation::PaymentUpdate),
            Operation::PaymentConfirm
        );
    }
}

#[test]
fn dispatch_policy_follows_the_table() {
    for operation in ALL_OPERATIONS {
        for status in ALL_STATUSES {
            for recorded in [false, true] {
                for force_sync in [None, Some(false), Some(true)] {
                    let data = aggregate(
                        status,
                        if recorded { Some(Decoded::Valid(form())) } else { None },
                        force_sync,
                    );
                    assert_eq!(
                        should_call_connector(&operation, &data),
                        table(operation, status, recorded, force_sync == Some(true)),
                        "{:?} {:?} {} {:?}",
                        operation,
                        status,
                        recorded,
                        force_sync
                    );
                }
            }
        }
    }
}

#[test]
fn start_does_not_call_with_undecodable_authentication_data() {
    let data = aggregate(IntentStatus::RequiresCustomerAction, Some(Decoded::Invalid), None);
    assert!(!should_call_connector(&Operation::PaymentStart, &data));
}

#[test]
fn routing_resolves_to_stripe() {
    let account = merchant(Some(Decoded::Valid(RoutingAlgorithm::Single("stripe".to_string()))));
    let mut data = aggregate(IntentStatus::RequiresConfirmation, None, None);
    let before = data.clone();
    let routed = route_connector(&account, &mut data, ConnectorCallType::Routing);
    assert_eq!(
        routed,
        Ok(ConnectorCallType::Single(ConnectorData {
            connector_name: Connector::Stripe,
            get_token: GetToken::Connector
        }))
    );
    assert_eq!(data.payment_attempt.connector, Some("stripe".to_string()));
    let mut expected = before;
    expected.payment_attempt.connector = Some("stripe".to_string());
    assert_eq!(data, expected);
}

#[test]
fn routing_resolves_to_every_connector_by_its_name() {
    for name in ["aci", "adyen", "authorizedotnet", "multisafepay", "shift4", "worldpay"] {
        let account = merchant(Some(Decoded::Valid(RoutingAlgorithm::Single(name.to_string()))));
        let mut data = aggregate(IntentStatus::RequiresConfirmation, None, None);
        match route_connector(&account, &mut data, ConnectorCallType::Routing) {
            Ok(ConnectorCallType::Single(connector)) => {
                assert_eq!(connector.connector_name.name(), name);
                assert_eq!(connector.get_token, GetToken::Connector);
            }
            other => panic!("unexpected {:?}", other),
        }
        assert_eq!(data.payment_attempt.connector.as_deref(), Some(name));
    }
}

#[test]
fn routing_fails_on_broken_configuration() {
    for routing in [
        None,
        Some(Decoded::Invalid),
        Some(Decoded::Valid(RoutingAlgorithm::Single("no_such_connector".to_string()))),
        Some(Decoded::Valid(RoutingAlgorithm::Single("Stripe".to_string()))),
        Some(Decoded::Valid(RoutingAlgorithm::Single(String::new()))),
    ] {
        let account = merchant(routing);
        let mut data = aggregate(IntentStatus::RequiresConfirmation, None, None);
        let before = data.clone();
        assert_eq!(
            route_connector(&account, &mut data, ConnectorCallType::Routing),
            Err(ApiErrorResponse::InternalServerError)
        );
        assert_eq!(data, before);
    }
}

#[test]
fn single_connector_is_recorded_and_nothing_else_changes() {
    let account = merchant(None);
    let mut data = aggregate(IntentStatus::RequiresConfirmation, None, Some(true));
    data.payment_attempt.connector = Some("adyen".to_string());
    let before = data.clone();
    let connector = ConnectorData { connector_name: Connector::Checkout, get_token: GetToken::Metadata };
    assert_eq!(
        route_connector(&account, &mut data, ConnectorCallType::Single(connector)),
        Ok(ConnectorCallType::Single(connector))
    );
    let mut expected = before;
    expected.payment_attempt.connector = Some("checkout".to_string());
    assert_eq!(data, expected);
}

#[test]
fn routing_again_records_the_same_connector() {
    let account = merchant(Some(Decoded::Valid(RoutingAlgorithm::Single("stripe".to_string()))));
    let mut data = aggregate(IntentStatus::RequiresConfirmation, None, None);
    let first = route_connector(&account, &mut data, ConnectorCallType::Routing);
    let once = data.clone();
    let second = route_connector(&account, &mut data, ConnectorCallType::Routing);
    assert_eq!(first, second);
    assert_eq!(data, once);
    let routed = first.unwrap();
    assert_eq!(route_connector(&account, &mut data, routed.clone()), Ok(routed));
    assert_eq!(data, once);
}

#[test]
fn multiple_connectors_pass_through_routing() {
    let account = merchant(Some(Decoded::Valid(RoutingAlgorithm::Single("stripe".to_string()))));
    let mut data = aggregate(IntentStatus::RequiresConfirmation, None, None);
    let before = data.clone();
    let list = vec![
        ConnectorData { connector_name: Connector::Klarna, get_token: GetToken::Connector },
        ConnectorData { connector_name: Connector::Adyen, get_token: GetToken::Metadata },
    ];
    assert_eq!(
        route_connector(&account, &mut data, ConnectorCallType::Multiple(list.clone())),
        Ok(ConnectorCallType::Multiple(list))
    );
    assert_eq!(data, before);
    assert_eq!(
        route_connector(&account, &mut data, ConnectorCallType::Multiple(vec![])),
        Ok(ConnectorCallType::Multiple(vec![]))
    );
}

#[test]
fn connector_names_round_trip() {
    let names = [
        "aci", "adyen", "airwallex", "applepay", "authorizedotnet", "bambora", "bluesnap",
        "braintree", "checkout", "cybersource", "dlocal", "fiserv", "globalpay", "klarna",
        "mollie", "multisafepay", "nmi", "nuvei", "payu", "rapyd", "shift4", "stripe",
        "trustpay", "worldline", "worldpay",
    ];
    for name in names {
        let connector = Connector::from_name(name).unwrap();
        assert_eq!(connector.name(), name);
    }
    assert_eq!(Connector::from_name("stripe"), Some(Connector::Stripe));
    assert_eq!(Connector::from_name("paypal"), None);
    assert_eq!(Connector::from_name(""), None);
    assert_eq!(Connector::from_name("stripe "), None);
}

fn validated() -> ValidateResult {
    ValidateResult {
        merchant_id: "merchant_1".to_string(),
        payment_id: PaymentIdType::PaymentIntentId("pay_1".to_string()),
        mandate_type: None,
        storage_scheme: MerchantStorageScheme::PostgresOnly,
    }
}

fn customer() -> Customer {
    Customer {
        customer_id: "cus_1".to_string(),
        merchant_id: "merchant_1".to_string(),
        name: None,
        email: None,
        phone: None,
        phone_country_code: None,
    }
}

fn going_on(step: PipelineStep) -> (PipelineRun, StageRequest) {
    match step {
        PipelineStep::Run { run, request } => (run, request),
        other => panic!("unexpected {:?}", other),
    }
}

/// Runs an operation up to the point where the follow-up task is to be
/// scheduled, with a routing configuration that names stripe.
fn run_until_task(operation: Operation, status: IntentStatus) -> (MerchantAccount, PipelineRun, PaymentData) {
    let account = merchant(Some(Decoded::Valid(RoutingAlgorithm::Single("stripe".to_string()))));
    let (run, request) = going_on(PipelineRun::start(operation, CallConnectorAction::Trigger));
    assert_eq!(request, StageRequest::ValidateRequest);
    assert_eq!(run.stage, PipelineStage::ValidateRequest);

    let (run, request) = going_on(payments_operation_core(
        &account,
        run,
        StageEvent::Validated(Ok((operation, validated()))),
    ));
    assert_eq!(request, StageRequest::GetTrackers);
    assert_eq!(run.validate_result, Some(validated()));

    let loaded = aggregate(status, None, None);
    let (run, request) = going_on(payments_operation_core(
        &account,
        run,
        StageEvent::TrackersLoaded(Ok((operation, loaded.clone(), None))),
    ));
    assert_eq!(
        request,
        StageRequest::GetOrCreateCustomerDetails { payment_data: loaded.clone(), customer_details: None }
    );
    assert_eq!(run.payment_data, None);

    let (run, request) = going_on(payments_operation_core(
        &account,
        run,
        StageEvent::CustomerResolved(Ok((operation, loaded.clone(), Some(customer())))),
    ));
    assert_eq!(request, StageRequest::MakePaymentMethodData { payment_data: loaded.clone() });
    assert_eq!(run.customer, Some(customer()));

    let (run, request) = going_on(payments_operation_core(
        &account,
        run,
        StageEvent::PaymentMethodResolved(Ok((operation, loaded.clone(), Some(PaymentMethodData::Paypal)))),
    ));
    assert_eq!(request, StageRequest::GetConnector);
    let mut with_method = loaded;
    with_method.payment_method_data = Some(PaymentMethodData::Paypal);
    assert_eq!(run.payment_data, Some(with_method.clone()));

    let (run, request) = going_on(payments_operation_core(
        &account,
        run,
        StageEvent::ConnectorChosen(Ok(ConnectorCallType::Routing)),
    ));
    let mut routed = with_method;
    routed.payment_attempt.connector = Some("stripe".to_string());
    assert_eq!(
        request,
        StageRequest::UpdateTrackers { payment_data: routed.clone(), customer: Some(customer()) }
    );
    assert_eq!(
        run.connector_details,
        Some(ConnectorCallType::Single(ConnectorData {
            connector_name: Connector::Stripe,
            get_token: GetToken::Connector
        }))
    );
    assert_eq!(run.payment_data, None);

    let mut persisted = routed;
    persisted.payment_intent.description = Some("persisted".to_string());
    let (run, request) = going_on(payments_operation_core(
        &account,
        run,
        StageEvent::TrackersUpdated(Ok((operation, persisted.clone()))),
    ));
    assert_eq!(request, StageRequest::AddTaskToProcessTracker);
    assert_eq!(run.stage, PipelineStage::AddTaskToProcessTracker);
    assert_eq!(run.payment_data, Some(persisted.clone()));
    (account, run, persisted)
}

#[test]
fn pipeline_runs_every_stage_in_order_and_dispatches_what_was_persisted() {
    let (account, run, persisted) =
        run_until_task(Operation::PaymentConfirm, IntentStatus::RequiresConfirmation);
    let (run, request) =
        going_on(payments_operation_core(&account, run, StageEvent::TaskScheduled(Ok(()))));
    assert_eq!(
        request,
        StageRequest::CallConnector {
            payment_data: persisted.clone(),
            customer: Some(customer()),
            call_connector_action: CallConnectorAction::Trigger,
            plan: DispatchPlan::Single(ConnectorData {
                connector_name: Connector::Stripe,
                get_token: GetToken::Connector
            }),
        }
    );
    assert_eq!(run.stage, PipelineStage::CallConnector);
    let mut answered = persisted;
    answered.payment_attempt.status = AttemptStatus::Charged;
    assert_eq!(
        payments_operation_core(&account, run, StageEvent::Dispatched(Ok(answered.clone()))),
        PipelineStep::Finish { payment_data: answered, customer: Some(customer()) }
    );
}

#[test]
fn pipeline_finishes_without_dispatch_where_the_policy_says_so() {
    for (operation, status) in [
        (Operation::PaymentCreate, IntentStatus::RequiresConfirmation),
        (Operation::PaymentCapture, IntentStatus::Succeeded),
        (Operation::PaymentStatus, IntentStatus::Processing),
        (Operation::PaymentStart, IntentStatus::Failed),
    ] {
        let (account, run, persisted) = run_until_task(operation, status);
        assert_eq!(
            payments_operation_core(&account, run, StageEvent::TaskScheduled(Ok(()))),
            PipelineStep::Finish { payment_data: persisted, customer: Some(customer()) }
        );
    }
}

#[test]
fn pipeline_aborts_at_the_stage_that_fails() {
    let account = merchant(None);
    let (run, _) = going_on(PipelineRun::start(Operation::PaymentConfirm, CallConnectorAction::Trigger));
    assert_eq!(
        payments_operation_core(
            &account,
            run,
            StageEvent::Validated(Err(ApiErrorResponse::ClientSecretInvalid))
        ),
        PipelineStep::Abort(ApiErrorResponse::ClientSecretInvalid)
    );
    let (run, _) = going_on(PipelineRun::start(Operation::PaymentConfirm, CallConnectorAction::Trigger));
    let (run, _) = going_on(payments_operation_core(
        &account,
        run,
        StageEvent::Validated(Ok((Operation::PaymentConfirm, validated()))),
    ));
    assert_eq!(
        payments_operation_core(
            &account,
            run,
            StageEvent::TrackersLoaded(Err(ApiErrorResponse::PaymentNotFound))
        ),
        PipelineStep::Abort(ApiErrorResponse::PaymentNotFound)
    );
    let (account, run, _) = run_until_task(Operation::PaymentConfirm, IntentStatus::RequiresConfirmation);
    assert_eq!(
        payments_operation_core(
            &account,
            run,
            StageEvent::TaskScheduled(Err(ApiErrorResponse::InternalServerError))
        ),
        PipelineStep::Abort(ApiErrorResponse::InternalServerError)
    );
}

#[test]
fn store_failure_while_resolving_the_customer_is_internal() {
    let account = merchant(None);
    for error in [StorageError::ValueNotFound, StorageError::DatabaseError] {
        let run = PipelineRun {
            stage: PipelineStage::GetOrCreateCustomerDetails,
            operation: Operation::PaymentConfirm,
            call_connector_action: Some(CallConnectorAction::Trigger),
            validate_result: Some(validated()),
            payment_data: None,
            customer: None,
            connector_details: None,
        };
        assert_eq!(
            payments_operation_core(&account, run, StageEvent::CustomerResolved(Err(error))),
            PipelineStep::Abort(ApiErrorResponse::InternalServerError)
        );
    }
}

#[test]
fn routing_failure_ends_the_run_before_anything_is_persisted() {
    let account = merchant(None);
    let run = PipelineRun {
        stage: PipelineStage::GetConnector,
        operation: Operation::PaymentConfirm,
        call_connector_action: Some(CallConnectorAction::Trigger),
        validate_result: Some(validated()),
        payment_data: Some(aggregate(IntentStatus::RequiresConfirmation, None, None)),
        customer: None,
        connector_details: None,
    };
    assert_eq!(
        payments_operation_core(&account, run, StageEvent::ConnectorChosen(Ok(ConnectorCallType::Routing))),
        PipelineStep::Abort(ApiErrorResponse::InternalServerError)
    );
}

#[test]
fn run_hands_out_what_it_keeps() {
    let (run, _) = going_on(PipelineRun::start(Operation::PaymentConfirm, CallConnectorAction::Trigger));
    assert_eq!(run.validated(), Err(ApiErrorResponse::InternalServerError));
    assert_eq!(run.kept_payment_data(), Err(ApiErrorResponse::InternalServerError));
    let (_, run, persisted) =
        run_until_task(Operation::PaymentConfirm, IntentStatus::RequiresConfirmation);
    assert_eq!(run.validated(), Ok(&validated()));
    assert_eq!(run.kept_payment_data(), Ok(&persisted));
}

#[test]
fn event_from_another_stage_is_internal_error() {
    let account = merchant(None);
    let (run, _) = going_on(PipelineRun::start(Operation::PaymentConfirm, CallConnectorAction::Trigger));
    assert_eq!(
        payments_operation_core(&account, run, StageEvent::TaskScheduled(Ok(()))),
        PipelineStep::Abort(ApiErrorResponse::InternalServerError)
    );
    let (run, _) = going_on(PipelineRun::start(Operation::PaymentConfirm, CallConnectorAction::Trigger));
    assert_eq!(
        payments_operation_core(
            &account,
            run,
            StageEvent::TrackersLoaded(Err(ApiErrorResponse::PaymentNotFound))
        ),
        PipelineStep::Abort(ApiErrorResponse::InternalServerError)
    );
    let (account, run, persisted) =
        run_until_task(Operation::PaymentConfirm, IntentStatus::RequiresConfirmation);
    assert_eq!(
        payments_operation_core(&account, run, StageEvent::Dispatched(Ok(persisted))),
        PipelineStep::Abort(ApiErrorResponse::InternalServerError)
    );
}

#[test]
fn avoided_run_dispatches_under_the_avoiding_action() {
    let account = merchant(None);
    let persisted = aggregate(IntentStatus::RequiresConfirmation, None, None);
    let stripe = ConnectorData { connector_name: Connector::Stripe, get_token: GetToken::Connector };
    for _ in 0..2 {
        let run = PipelineRun {
            stage: PipelineStage::AddTaskToProcessTracker,
            operation: Operation::PaymentConfirm,
            call_connector_action: Some(CallConnectorAction::Avoid),
            validate_result: Some(validated()),
            payment_data: Some(persisted.clone()),
            customer: None,
            connector_details: Some(ConnectorCallType::Single(stripe)),
        };
        let (_, request) =
            going_on(payments_operation_core(&account, run, StageEvent::TaskScheduled(Ok(()))));
        assert_eq!(
            request,
            StageRequest::CallConnector {
                payment_data: persisted.clone(),
                customer: None,
                call_connector_action: CallConnectorAction::Avoid,
                plan: DispatchPlan::Single(stripe),
            }
        );
    }
}

#[test]
fn absent_record_becomes_domain_not_found() {
    assert_eq!(
        to_not_found_response(StorageError::ValueNotFound, ApiErrorResponse::PaymentNotFound),
        ApiErrorResponse::PaymentNotFound
    );
    assert_eq!(
        to_not_found_response(StorageError::ValueNotFound, ApiErrorResponse::FileNotFound),
        ApiErrorResponse::FileNotFound
    );
    assert_eq!(
        to_not_found_response(StorageError::DatabaseError, ApiErrorResponse::PaymentNotFound),
        ApiErrorResponse::InternalServerError
    );
}

#[test]
fn sync_task_is_keyed_by_runner_task_attempt_and_merchant() {
    let task = add_process_sync_task(&attempt(), moment());
    assert_eq!(task.id, "PAYMENTS_SYNC_WORKFLOW_PAYMENTS_SYNC_pay_1_1_merchant_1");
    assert_eq!(task.name, "PAYMENTS_SYNC");
    assert_eq!(task.runner, "PAYMENTS_SYNC_WORKFLOW");
    assert_eq!(task.schedule_time, moment());
    assert!(task.tracking_data.force_sync);
    assert_eq!(task.tracking_data.merchant_id, Some("merchant_1".to_string()));
    assert_eq!(
        task.tracking_data.resource_id,
        PaymentIdType::PaymentAttemptId("pay_1_1".to_string())
    );
    assert_eq!(task.tracking_data.param, None);
    assert_eq!(task.tracking_data.connector, None);
    assert_eq!(add_process_sync_task(&attempt(), moment()), task);
}

#[test]
fn listing_limit_is_between_1_and_100() {
    let constraints = |limit| PaymentListConstraints {
        customer_id: None,
        starting_after: None,
        ending_before: None,
        limit,
    };
    assert_eq!(validate_payment_list_request(&constraints(1)), Ok(()));
    assert_eq!(validate_payment_list_request(&constraints(100)), Ok(()));
    for limit in [0, -1, 101, i64::MAX, i64::MIN] {
        assert_eq!(
            validate_payment_list_request(&constraints(limit)),
            Err(ApiErrorResponse::InvalidRequestData {
                message: "limit should be in between 1 and 100".to_string()
            })
        );
    }
}

#[test]
fn listing_keeps_order_and_counts() {
    let mut second_intent = intent(IntentStatus::Succeeded);
    second_intent.payment_id = "pay_2".to_string();
    second_intent.currency = None;
    second_intent.amount_captured = Some(6540);
    let mut second_attempt = attempt();
    second_attempt.connector = Some("stripe".to_string());
    let found = vec![(intent(IntentStatus::Processing), attempt()), (second_intent, second_attempt)];
    match list_payments(Ok(found)) {
        Ok(ApplicationResponse::Json(listing)) => {
            assert_eq!(listing.size, 2);
            assert_eq!(listing.data.len(), 2);
            assert_eq!(listing.data[0].payment_id, Some("pay_1".to_string()));
            assert_eq!(listing.data[0].currency, "USD");
            assert_eq!(listing.data[0].status, IntentStatus::Processing);
            assert_eq!(listing.data[0].connector, None);
            assert_eq!(listing.data[1].payment_id, Some("pay_2".to_string()));
            assert_eq!(listing.data[1].currency, "");
            assert_eq!(listing.data[1].amount_capturable, Some(6540));
            assert_eq!(listing.data[1].amount_received, None);
            assert_eq!(listing.data[1].connector, Some("stripe".to_string()));
        }
        other => panic!("unexpected {:?}", other),
    }
    match list_payments(Ok(vec![])) {
        Ok(ApplicationResponse::Json(listing)) => {
            assert_eq!(listing.size, 0);
            assert!(listing.data.is_empty());
        }
        other => panic!("unexpected {:?}", other),
    }
    assert_eq!(
        list_payments(Err(StorageError::ValueNotFound)),
        Err(ApiErrorResponse::PaymentNotFound)
    );
    assert_eq!(
        list_payments(Err(StorageError::DatabaseError)),
        Err(ApiErrorResponse::InternalServerError)
    );
}

#[test]
fn amount_has_a_form_for_zero() {
    assert_eq!(Amount::from_i64(0), Amount::Zero);
    assert_eq!(Amount::from_i64(6540), Amount::Value(6540));
    assert_eq!(Amount::from_i64(-1), Amount::Value(-1));
    assert_eq!(Amount::Zero.to_i64(), 0);
    assert_eq!(Amount::Value(6540).to_i64(), 6540);
    assert_eq!(Amount::Value(0).to_i64(), 0);
    let _ = AuthFlow::Client;
}
