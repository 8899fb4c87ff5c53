//! The aggregate one operation works on, the policy that decides whether a
//! connector is called, and the router that fixes which connector it is.

use vstd::prelude::*;
use vstd::string::*;
use crate::api::{
    Address, Amount, ApplicationResponse, ConnectorCallType, ConnectorData, MandateData,
    MandateIds, PaymentIdType, PaymentListConstraints, PaymentListResponse, PaymentMethodData,
    PaymentsResponse, PaymentsRetrieveRequest, SessionToken,
};
use crate::enums::{AttemptStatus, Connector, GetToken, IntentStatus, Operation};
use crate::errors::{to_not_found_response, ApiErrorResponse, StorageError};
use crate::helpers::{get_process_tracker_id, process_tracker_id};
use crate::json::Decoded;
use crate::storage::{
    ConnectorResponse, MerchantAccount, PaymentAttempt, PaymentIntent, ProcessTrackerNew, Refund,
    RoutingAlgorithm,
};
use crate::text::opt_view;
use crate::transformers::{foreign_from, is_listed};

verus! {

/// Whether and how a connector is invoked for a prepared call.
#[derive(Clone, Debug, PartialEq)]
pub enum CallConnectorAction {
    /// Call the connector now.
    Trigger,
    /// Skip the call and keep the current state: the idempotent re-entry.
    Avoid,
    /// Record a status without any call.
    StatusUpdate(AttemptStatus),
    /// Fold a payload a redirect callback already delivered.
    HandleResponse(Vec<u8>),
}

/// The addresses of a payment.
#[derive(Debug, PartialEq)]
pub struct PaymentAddress {
    pub shipping: Option<Address>,
    pub billing: Option<Address>,
}

impl Clone for PaymentAddress {
    fn clone(&self) -> (r: Self)
        ensures
            r == *self,
    {
        PaymentAddress {
            shipping: self.shipping.clone(),
            billing: self.billing.clone(),
        }
    }
}

impl Default for PaymentAddress {
    fn default() -> (r: PaymentAddress)
        ensures
            r.shipping is None,
            r.billing is None,
    {
        PaymentAddress { shipping: None, billing: None }
    }
}

/// The unit of work of one operation: the intent, the attempt and everything
/// gathered around them. It belongs to one run of the pipeline.
#[derive(Clone, Debug, PartialEq)]
pub struct PaymentData {
    pub payment_intent: PaymentIntent,
    pub payment_attempt: PaymentAttempt,
    pub connector_response: ConnectorResponse,
    pub amount: Amount,
    pub mandate_id: Option<MandateIds>,
    pub currency: String,
    pub setup_mandate: Option<MandateData>,
    pub address: PaymentAddress,
    pub token: Option<String>,
    pub confirm: Option<bool>,
    pub force_sync: Option<bool>,
    pub payment_method_data: Option<PaymentMethodData>,
    pub refunds: Vec<Refund>,
    pub sessions_token: Vec<SessionToken>,
    pub card_cvc: Option<String>,
    pub email: Option<String>,
    pub creds_identifier: Option<String>,
    pub pm_token: Option<String>,
}

/// What a request says about the customer.
#[derive(Clone, Debug, PartialEq, Default)]
pub struct CustomerDetails {
    pub customer_id: Option<String>,
    pub name: Option<String>,
    pub email: Option<String>,
    pub phone: Option<String>,
    pub phone_country_code: Option<String>,
}

impl PaymentData {
    /// The aggregate with the attempt's connector replaced and nothing else
    /// touched.
    pub open spec fn with_connector(self, connector: Option<String>) -> PaymentData {
        PaymentData {
            payment_attempt: PaymentAttempt { connector, ..self.payment_attempt },
            ..self
        }
    }

    /// Whether the intent and the attempt are records of the same payment.
    pub open spec fn same_payment(self) -> bool {
        self.payment_intent.payment_id@ == self.payment_attempt.payment_id@
    }
}

/// Whether the operation is the redirect entry.
pub fn is_start_pay(operation: &Operation) -> (r: bool)
    ensures
        r == (*operation == Operation::PaymentStart),
{
    matches!(operation, Operation::PaymentStart)
}

/// The operation an update request is run as. A request that asks for
/// confirmation is a confirm; otherwise the current operation stands while the
/// intent still waits for input, and a settled intent is only read.
pub open spec fn operation_after_status(
    status: IntentStatus,
    confirm: Option<bool>,
    current: Operation,
) -> Operation {
    if confirm == Some(true) {
        Operation::PaymentConfirm
    } else if status == IntentStatus::RequiresConfirmation || status
        == IntentStatus::RequiresCustomerAction || status == IntentStatus::RequiresPaymentMethod {
        current
    } else {
        Operation::PaymentStatus
    }
}

/// Picks the operation an update request is run as.
pub fn if_not_create_change_operation(
    status: IntentStatus,
    confirm: Option<bool>,
    current: Operation,
) -> (r: Operation)
    ensures
        r == operation_after_status(status, confirm, current),
{
    let confirmed = match confirm {
        Some(c) => c,
        None => false,
    };
    if confirmed {
        Operation::PaymentConfirm
    } else {
        match status {
            IntentStatus::RequiresConfirmation
            | IntentStatus::RequiresCustomerAction
            | IntentStatus::RequiresPaymentMethod => current,
            _ => Operation::PaymentStatus,
        }
    }
}

/// The confirm operation where the request asks for confirmation, else the
/// operation given.
pub fn is_confirm(operation: Operation, confirm: Option<bool>) -> (r: Operation)
    ensures
        confirm == Some(true) ==> r == Operation::PaymentConfirm,
        confirm != Some(true) ==> r == operation,
{
    match confirm {
        Some(true) => Operation::PaymentConfirm,
        _ => operation,
    }
}

/// The dispatch policy: for each operation, the condition under which a
/// connector is called.
///
/// | operation | calls a connector when |
/// |---|---|
/// | confirm, session | always |
/// | start | the intent neither failed nor succeeded, and no authentication data is recorded |
/// | status | a sync is forced, and the intent failed, succeeded, is processing or awaits the customer |
/// | cancel, capture | the intent waits for capture |
/// | any other | never |
pub open spec fn calls_connector(
    operation: Operation,
    status: IntentStatus,
    authentication_recorded: bool,
    force_sync: bool,
) -> bool {
    match operation {
        Operation::PaymentConfirm => true,
        Operation::PaymentSession => true,
        Operation::PaymentStart => status != IntentStatus::Failed && status
            != IntentStatus::Succeeded && !authentication_recorded,
        Operation::PaymentStatus => force_sync && (status == IntentStatus::Failed || status
            == IntentStatus::Processing || status == IntentStatus::Succeeded || status
            == IntentStatus::RequiresCustomerAction),
        Operation::PaymentCancel => status == IntentStatus::RequiresCapture,
        Operation::PaymentCapture => status == IntentStatus::RequiresCapture,
        _ => false,
    }
}

/// The dispatch policy applied to an aggregate.
pub open spec fn should_call_connector_spec(
    operation: Operation,
    payment_data: PaymentData,
) -> bool {
    calls_connector(
        operation,
        payment_data.payment_intent.status,
        payment_data.connector_response.authentication_data is Some,
        payment_data.force_sync == Some(true),
    )
}

/// Whether the operation calls a connector for this aggregate.
pub fn should_call_connector(operation: &Operation, payment_data: &PaymentData) -> (r: bool)
    ensures
        r == should_call_connector_spec(*operation, *payment_data),
{
    let status = payment_data.payment_intent.status;
    match operation {
        Operation::PaymentConfirm => true,
        Operation::PaymentStart => {
            !matches!(status, IntentStatus::Failed | IntentStatus::Succeeded)
                && payment_data.connector_response.authentication_data.is_none()
        },
        Operation::PaymentStatus => {
            let force_sync = match payment_data.force_sync {
                Some(f) => f,
                None => false,
            };
            matches!(
                status,
                IntentStatus::Failed
                    | IntentStatus::Processing
                    | IntentStatus::Succeeded
                    | IntentStatus::RequiresCustomerAction
            ) && force_sync
        },
        Operation::PaymentCancel => matches!(status, IntentStatus::RequiresCapture),
        Operation::PaymentCapture => matches!(status, IntentStatus::RequiresCapture),
        Operation::PaymentSession => true,
        _ => false,
    }
}

/// The connector the merchant's routing configuration names, where the
/// configuration is present, decodes and names a connector that exists.
pub open spec fn configured_connector(merchant_account: MerchantAccount) -> Option<ConnectorData> {
    match merchant_account.routing_algorithm {
        Some(Decoded::Valid(RoutingAlgorithm::Single(name))) => ConnectorData::by_name_spec(
            name@,
            GetToken::Connector,
        ),
        _ => None,
    }
}

/// The call type the router hands to dispatch, or nothing where routing fails.
pub open spec fn routed_call_type(
    merchant_account: MerchantAccount,
    connector_call_type: ConnectorCallType,
) -> Option<ConnectorCallType> {
    match connector_call_type {
        ConnectorCallType::Single(connector) => Some(ConnectorCallType::Single(connector)),
        ConnectorCallType::Multiple(connectors) => Some(ConnectorCallType::Multiple(connectors)),
        ConnectorCallType::Routing => match configured_connector(merchant_account) {
            Some(connector) => Some(ConnectorCallType::Single(connector)),
            None => None,
        },
    }
}

/// Whether `after` is the aggregate `before` as the router leaves it for the
/// call type it hands on: with the single connector recorded on the attempt
/// and nothing else touched, and untouched for a list of connectors.
pub open spec fn is_routed(
    before: PaymentData,
    after: PaymentData,
    call_type: ConnectorCallType,
) -> bool {
    match call_type {
        ConnectorCallType::Single(connector) => {
            &&& after.payment_attempt.connector matches Some(name)
            &&& name@ == connector.connector_name.name_spec()
            &&& after == before.with_connector(after.payment_attempt.connector)
        },
        _ => after == before,
    }
}

/// Fixes the connector of an operation before anything is persisted or sent.
///
/// A single connector is recorded on the attempt and handed on. A list of
/// connectors is final and passes through with the aggregate untouched.
/// Deferred routing is resolved from the merchant's configuration to the one
/// connector it names, which is recorded on the attempt; a configuration that
/// is absent, does not decode or names no existing connector is the internal
/// error, and the aggregate is left as it was.
pub fn route_connector(
    merchant_account: &MerchantAccount,
    payment_data: &mut PaymentData,
    connector_call_type: ConnectorCallType,
) -> (r: Result<ConnectorCallType, ApiErrorResponse>)
    ensures
        match routed_call_type(*merchant_account, connector_call_type) {
            Some(call_type) => r == Ok::<ConnectorCallType, ApiErrorResponse>(call_type),
            None => r == Err::<ConnectorCallType, ApiErrorResponse>(
                ApiErrorResponse::InternalServerError,
            ),
        },
        r matches Ok(call_type) ==> is_routed(*old(payment_data), *final(payment_data), call_type),
        r is Err ==> *final(payment_data) == *old(payment_data),
        old(payment_data).same_payment() ==> final(payment_data).same_payment(),
{
    match connector_call_type {
        ConnectorCallType::Single(connector) => {
            payment_data.payment_attempt.connector = Some(connector.connector_name.name());
            Ok(ConnectorCallType::Single(connector))
        },
        ConnectorCallType::Routing => {
            let connector_name = match &merchant_account.routing_algorithm {
                Some(Decoded::Valid(RoutingAlgorithm::Single(name))) => name,
                _ => {
                    return Err(ApiErrorResponse::InternalServerError);
                },
            };
            let connector_data = match ConnectorData::get_connector_by_name(
                connector_name.as_str(),
                GetToken::Connector,
            ) {
                Ok(data) => data,
                Err(_) => {
                    return Err(ApiErrorResponse::InternalServerError);
                },
            };
            proof {
                Connector::lemma_from_name_is_name(connector_name@);
            }
            payment_data.payment_attempt.connector = Some(connector_name.clone());
            Ok(ConnectorCallType::Single(connector_data))
        },
        ConnectorCallType::Multiple(connectors) => Ok(ConnectorCallType::Multiple(connectors)),
    }
}

/// The follow-up task that syncs an attempt with its connector at
/// `schedule_time`: a forced status lookup of the attempt on behalf of its
/// merchant, under an identifier made of the runner, the task, the attempt
/// and the merchant.
pub open spec fn is_sync_task(
    task: ProcessTrackerNew,
    payment_attempt: PaymentAttempt,
    schedule_time: time::PrimitiveDateTime,
) -> bool {
    &&& task.id@ == process_tracker_id(
        "PAYMENTS_SYNC_WORKFLOW"@,
        "PAYMENTS_SYNC"@,
        payment_attempt.attempt_id@,
        payment_attempt.merchant_id@,
    )
    &&& task.name@ == "PAYMENTS_SYNC"@
    &&& task.runner@ == "PAYMENTS_SYNC_WORKFLOW"@
    &&& task.tracking_data == PaymentsRetrieveRequest {
        force_sync: true,
        merchant_id: Some(payment_attempt.merchant_id),
        resource_id: PaymentIdType::PaymentAttemptId(payment_attempt.attempt_id),
        param: None,
        connector: None,
    }
    &&& task.schedule_time == schedule_time
}

/// Makes the follow-up task that syncs an attempt with its connector.
pub fn add_process_sync_task(
    payment_attempt: &PaymentAttempt,
    schedule_time: time::PrimitiveDateTime,
) -> (r: ProcessTrackerNew)
    ensures
        is_sync_task(r, *payment_attempt, schedule_time),
{
    let tracking_data = PaymentsRetrieveRequest {
        force_sync: true,
        merchant_id: Some(payment_attempt.merchant_id.clone()),
        resource_id: PaymentIdType::PaymentAttemptId(payment_attempt.attempt_id.clone()),
        param: None,
        connector: None,
    };
    let runner = "PAYMENTS_SYNC_WORKFLOW";
    let task = "PAYMENTS_SYNC";
    let process_tracker_id = get_process_tracker_id(
        runner,
        task,
        payment_attempt.attempt_id.as_str(),
        payment_attempt.merchant_id.as_str(),
    );
    ProcessTrackerNew {
        id: process_tracker_id,
        name: String::from_str(task),
        runner: String::from_str(runner),
        tracking_data,
        schedule_time,
    }
}

/// Checks the bounds of a payment listing: between 1 and 100 entries.
pub fn validate_payment_list_request(constraints: &PaymentListConstraints) -> (r: Result<
    (),
    ApiErrorResponse,
>)
    ensures
        1 <= constraints.limit <= 100 ==> r is Ok,
        !(1 <= constraints.limit <= 100) ==> {
            &&& r matches Err(ApiErrorResponse::InvalidRequestData { message })
            &&& message@ == "limit should be in between 1 and 100"@
        },
{
    if constraints.limit > 100 || constraints.limit < 1 {
        Err(
            ApiErrorResponse::InvalidRequestData {
                message: String::from_str("limit should be in between 1 and 100"),
            },
        )
    } else {
        Ok(())
    }
}

/// Whether `listing` lists the payments found, one entry each and in order.
pub open spec fn is_listing(
    listing: PaymentListResponse,
    found: Seq<(PaymentIntent, PaymentAttempt)>,
) -> bool {
    &&& listing.size == found.len()
    &&& listing.data@.len() == found.len()
    &&& forall|i: int| 0 <= i < found.len() ==> is_listed(#[trigger] listing.data@[i], found[i])
}

/// Lists the payments a merchant's query found. A query that failed in the
/// store is the payment-not-found error where nothing matched and the
/// internal error otherwise.
pub fn list_payments(found: Result<Vec<(PaymentIntent, PaymentAttempt)>, StorageError>) -> (r:
    Result<ApplicationResponse<PaymentListResponse>, ApiErrorResponse>)
    ensures
        match found {
            Err(StorageError::ValueNotFound) => r == Err::<
                ApplicationResponse<PaymentListResponse>,
                ApiErrorResponse,
            >(ApiErrorResponse::PaymentNotFound),
            Err(_) => r == Err::<ApplicationResponse<PaymentListResponse>, ApiErrorResponse>(
                ApiErrorResponse::InternalServerError,
            ),
            Ok(payments) => r matches Ok(ApplicationResponse::Json(listing)) && is_listing(
                listing,
                payments@,
            ),
        },
{
    let payments = match found {
        Ok(payments) => payments,
        Err(e) => {
            return Err(to_not_found_response(e, ApiErrorResponse::PaymentNotFound));
        },
    };
    let ghost all = payments@;
    let mut data: Vec<PaymentsResponse> = Vec::new();
    for item in it: payments.into_iter()
        invariant
            it.seq() == all,
            data@.len() == it.index(),
            forall|i: int| 0 <= i < data@.len() ==> is_listed(#[trigger] data@[i], all[i]),
    {
        data.push(foreign_from(item));
    }
    Ok(ApplicationResponse::Json(PaymentListResponse { size: data.len(), data }))
}

/// The dispatch policy, row by row, for every operation and every aggregate.
pub proof fn lemma_dispatch_policy(operation: Operation, payment_data: PaymentData)
    ensures
        operation == Operation::PaymentConfirm || operation == Operation::PaymentSession
            ==> should_call_connector_spec(operation, payment_data),
        operation == Operation::PaymentStart ==> (should_call_connector_spec(
            operation,
            payment_data,
        ) <==> payment_data.payment_intent.status != IntentStatus::Failed
            && payment_data.payment_intent.status != IntentStatus::Succeeded
            && payment_data.connector_response.authentication_data is None),
        operation == Operation::PaymentStatus ==> (should_call_connector_spec(
            operation,
            payment_data,
        ) <==> payment_data.force_sync == Some(true) && (payment_data.payment_intent.status
            == IntentStatus::Failed || payment_data.payment_intent.status
            == IntentStatus::Processing || payment_data.payment_intent.status
            == IntentStatus::Succeeded || payment_data.payment_intent.status
            == IntentStatus::RequiresCustomerAction)),
        operation == Operation::PaymentCancel || operation == Operation::PaymentCapture ==> (
        should_call_connector_spec(operation, payment_data) <==> payment_data.payment_intent.status
            == IntentStatus::RequiresCapture),
        operation == Operation::PaymentCreate || operation == Operation::PaymentUpdate || operation
            == Operation::PaymentMethodValidate || operation == Operation::PaymentResponse
            ==> !should_call_connector_spec(operation, payment_data),
{
}

/// Deferred routing resolves to the connector the merchant's configuration
/// names: where the configured name is a connector's name, the router hands
/// exactly that connector to dispatch.
pub proof fn lemma_routing_resolves_to_configured_connector(
    merchant_account: MerchantAccount,
    name: String,
    connector: Connector,
)
    requires
        merchant_account.routing_algorithm == Some(Decoded::Valid(RoutingAlgorithm::Single(name))),
        name@ == connector.name_spec(),
    ensures
        routed_call_type(merchant_account, ConnectorCallType::Routing) == Some(
            ConnectorCallType::Single(
                ConnectorData { connector_name: connector, get_token: GetToken::Connector },
            ),
        ),
{
    Connector::lemma_name_round_trip(connector);
}

/// A call type that is not deferred leaves the router as it came in, whatever
/// the merchant has configured.
pub proof fn lemma_routing_keeps_decided_call_types(
    merchant_account: MerchantAccount,
    connector_call_type: ConnectorCallType,
)
    requires
        !(connector_call_type is Routing),
    ensures
        routed_call_type(merchant_account, connector_call_type) == Some(connector_call_type),
{
}

/// Routing is idempotent. An aggregate that was routed and is routed again
/// for the same call type has the same connector recorded, by the same name,
/// and is otherwise what it was: taking a run up again writes nothing new
/// into the attempt.
pub proof fn lemma_routing_again_changes_nothing(
    first: PaymentData,
    second: PaymentData,
    third: PaymentData,
    call_type: ConnectorCallType,
)
    requires
        is_routed(first, second, call_type),
        is_routed(second, third, call_type),
    ensures
        opt_view(third.payment_attempt.connector) == opt_view(second.payment_attempt.connector),
        third == second.with_connector(third.payment_attempt.connector),
        !(call_type is Single) ==> third == first,
{
}

} // verus!
