//! The operation pipeline: the fixed sequence of stages every operation runs
//! through, and the answer built from its outcome.
//!
//! The stages read and write durable state and talk to connectors, so they
//! are run by the caller. The pipeline keeps what a run has gathered, hands
//! each stage what it works on, takes back what the stage brought, and
//! decides what comes next. Routing and the decision to dispatch are the
//! pipeline's own.

use vstd::prelude::*;
use crate::api::{
    ApplicationResponse, ConnectorCallType, PaymentIdType, PaymentMethodData, PaymentsResponse,
    PaymentsRetrieveRequest, Server,
};
use crate::dispatch::{call_connector, dispatch_plan, DispatchPlan};
use crate::enums::{AuthFlow, MandateTxnType, MerchantStorageScheme, Operation};
use crate::flows::{is_step_under, step_under, ConnectorStep};
use crate::types::RouterData;
use crate::errors::{ApiErrorResponse, StorageError};
use crate::payments::{
    is_routed, route_connector, routed_call_type, should_call_connector_spec,
    CallConnectorAction, CustomerDetails, PaymentData,
};
use crate::storage::{Customer, MerchantAccount};
use crate::transformers::ToResponse;

verus! {

/// The stages of an operation that the caller runs, in their order.
#[derive(Clone, Copy, Debug, PartialEq, Eq, Structural)]
pub enum PipelineStage {
    /// Check the request and fix the identifiers it runs under.
    ValidateRequest,
    /// Read or create the intent, the attempt and the connector response.
    GetTrackers,
    /// Find or create the customer.
    GetOrCreateCustomerDetails,
    /// Resolve the payment-method data.
    MakePaymentMethodData,
    /// Decide the call type. The pipeline routes it as soon as it is known.
    GetConnector,
    /// Persist the intent and the attempt.
    UpdateTrackers,
    /// Schedule the follow-up task, where the operation has one.
    AddTaskToProcessTracker,
    /// Dispatch to the connector and fold the answer back.
    CallConnector,
}

/// What validation fixes for the rest of a run: the merchant, the payment, the
/// kind of mandate and the storage scheme. The later stages only read it.
#[derive(Clone, Debug, PartialEq)]
pub struct ValidateResult {
    pub merchant_id: String,
    pub payment_id: PaymentIdType,
    pub mandate_type: Option<MandateTxnType>,
    pub storage_scheme: MerchantStorageScheme,
}

/// What a run of the pipeline has gathered so far. The aggregate is kept
/// here between the stages that only read it and handed out to the stages
/// that work on it.
#[derive(Debug, PartialEq)]
pub struct PipelineRun {
    /// The stage whose outcome is awaited.
    pub stage: PipelineStage,
    /// The operation as the last stage left it.
    pub operation: Operation,
    pub call_connector_action: Option<CallConnectorAction>,
    pub validate_result: Option<ValidateResult>,
    pub payment_data: Option<PaymentData>,
    pub customer: Option<Customer>,
    pub connector_details: Option<ConnectorCallType>,
}

/// What a stage brought back.
#[derive(Debug, PartialEq)]
pub enum StageEvent {
    Validated(Result<(Operation, ValidateResult), ApiErrorResponse>),
    TrackersLoaded(Result<(Operation, PaymentData, Option<CustomerDetails>), ApiErrorResponse>),
    CustomerResolved(Result<(Operation, PaymentData, Option<Customer>), StorageError>),
    PaymentMethodResolved(
        Result<(Operation, PaymentData, Option<PaymentMethodData>), ApiErrorResponse>,
    ),
    ConnectorChosen(Result<ConnectorCallType, ApiErrorResponse>),
    TrackersUpdated(Result<(Operation, PaymentData), ApiErrorResponse>),
    TaskScheduled(Result<(), ApiErrorResponse>),
    Dispatched(Result<PaymentData, ApiErrorResponse>),
}

/// What the caller is to do next, with what the stage works on. What a
/// stage only reads, it reads from the run.
#[derive(Debug, PartialEq)]
pub enum StageRequest {
    ValidateRequest,
    GetTrackers,
    GetOrCreateCustomerDetails {
        payment_data: PaymentData,
        customer_details: Option<CustomerDetails>,
    },
    MakePaymentMethodData { payment_data: PaymentData },
    GetConnector,
    UpdateTrackers { payment_data: PaymentData, customer: Option<Customer> },
    AddTaskToProcessTracker,
    CallConnector {
        payment_data: PaymentData,
        customer: Option<Customer>,
        call_connector_action: CallConnectorAction,
        plan: DispatchPlan,
    },
}

/// Where a run stands after a step.
#[derive(Debug, PartialEq)]
pub enum PipelineStep {
    /// The caller runs the stage the request names and comes back with the
    /// run and with what the stage brought.
    Run { run: PipelineRun, request: StageRequest },
    /// The run is complete: the aggregate and the customer are its result.
    Finish { payment_data: PaymentData, customer: Option<Customer> },
    /// A stage failed: the run ends with this error and no later stage runs.
    Abort(ApiErrorResponse),
}

impl PipelineStage {
    /// The place of a stage in the sequence, from zero.
    pub open spec fn position(self) -> nat {
        match self {
            PipelineStage::ValidateRequest => 0,
            PipelineStage::GetTrackers => 1,
            PipelineStage::GetOrCreateCustomerDetails => 2,
            PipelineStage::MakePaymentMethodData => 3,
            PipelineStage::GetConnector => 4,
            PipelineStage::UpdateTrackers => 5,
            PipelineStage::AddTaskToProcessTracker => 6,
            PipelineStage::CallConnector => 7,
        }
    }
}

impl StageRequest {
    /// The stage a request asks for.
    pub open spec fn stage(self) -> PipelineStage {
        match self {
            StageRequest::ValidateRequest => PipelineStage::ValidateRequest,
            StageRequest::GetTrackers => PipelineStage::GetTrackers,
            StageRequest::GetOrCreateCustomerDetails { .. } => {
                PipelineStage::GetOrCreateCustomerDetails
            },
            StageRequest::MakePaymentMethodData { .. } => PipelineStage::MakePaymentMethodData,
            StageRequest::GetConnector => PipelineStage::GetConnector,
            StageRequest::UpdateTrackers { .. } => PipelineStage::UpdateTrackers,
            StageRequest::AddTaskToProcessTracker => PipelineStage::AddTaskToProcessTracker,
            StageRequest::CallConnector { .. } => PipelineStage::CallConnector,
        }
    }
}

impl StageEvent {
    /// The stage an event comes from.
    pub open spec fn stage_spec(self) -> PipelineStage {
        match self {
            StageEvent::Validated(_) => PipelineStage::ValidateRequest,
            StageEvent::TrackersLoaded(_) => PipelineStage::GetTrackers,
            StageEvent::CustomerResolved(_) => PipelineStage::GetOrCreateCustomerDetails,
            StageEvent::PaymentMethodResolved(_) => PipelineStage::MakePaymentMethodData,
            StageEvent::ConnectorChosen(_) => PipelineStage::GetConnector,
            StageEvent::TrackersUpdated(_) => PipelineStage::UpdateTrackers,
            StageEvent::TaskScheduled(_) => PipelineStage::AddTaskToProcessTracker,
            StageEvent::Dispatched(_) => PipelineStage::CallConnector,
        }
    }

    /// The stage an event comes from.
    pub fn stage(&self) -> (r: PipelineStage)
        ensures
            r == self.stage_spec(),
    {
        match self {
            StageEvent::Validated(_) => PipelineStage::ValidateRequest,
            StageEvent::TrackersLoaded(_) => PipelineStage::GetTrackers,
            StageEvent::CustomerResolved(_) => PipelineStage::GetOrCreateCustomerDetails,
            StageEvent::PaymentMethodResolved(_) => PipelineStage::MakePaymentMethodData,
            StageEvent::ConnectorChosen(_) => PipelineStage::GetConnector,
            StageEvent::TrackersUpdated(_) => PipelineStage::UpdateTrackers,
            StageEvent::TaskScheduled(_) => PipelineStage::AddTaskToProcessTracker,
            StageEvent::Dispatched(_) => PipelineStage::CallConnector,
        }
    }

    /// The error a stage failed with, as the run reports it: the stage's own
    /// error, and the internal error for a failure in the store.
    pub open spec fn failure(self) -> Option<ApiErrorResponse> {
        match self {
            StageEvent::Validated(Err(e)) => Some(e),
            StageEvent::TrackersLoaded(Err(e)) => Some(e),
            StageEvent::CustomerResolved(Err(_)) => Some(ApiErrorResponse::InternalServerError),
            StageEvent::PaymentMethodResolved(Err(e)) => Some(e),
            StageEvent::ConnectorChosen(Err(e)) => Some(e),
            StageEvent::TrackersUpdated(Err(e)) => Some(e),
            StageEvent::TaskScheduled(Err(e)) => Some(e),
            StageEvent::Dispatched(Err(e)) => Some(e),
            _ => None,
        }
    }
}

impl PipelineRun {
    /// Whether a run holds what its stage needs: the aggregate while the
    /// pipeline keeps it and not while a stage works on it, the validation
    /// result once there is one, the action until dispatch takes it, and a
    /// call type that is routed from the moment it is known.
    pub open spec fn well_formed(self) -> bool {
        &&& self.stage != PipelineStage::ValidateRequest ==> self.validate_result is Some
        &&& self.payment_data is Some <==> self.stage == PipelineStage::GetConnector || self.stage
            == PipelineStage::AddTaskToProcessTracker
        &&& self.call_connector_action is Some <==> self.stage != PipelineStage::CallConnector
        &&& self.connector_details is Some <==> self.stage == PipelineStage::UpdateTrackers
            || self.stage == PipelineStage::AddTaskToProcessTracker
        &&& !(self.connector_details matches Some(ConnectorCallType::Routing))
    }

    /// The run of an operation before its first stage.
    pub open spec fn initial(
        operation: Operation,
        call_connector_action: CallConnectorAction,
    ) -> PipelineRun {
        PipelineRun {
            stage: PipelineStage::ValidateRequest,
            operation,
            call_connector_action: Some(call_connector_action),
            validate_result: None,
            payment_data: None,
            customer: None,
            connector_details: None,
        }
    }

    /// What validation fixed for the run. A run that has none yet, which no
    /// run past its first stage is, gives the internal error.
    pub fn validated(&self) -> (r: Result<&ValidateResult, ApiErrorResponse>)
        ensures
            match self.validate_result {
                Some(validate_result) => r == Ok::<&ValidateResult, ApiErrorResponse>(
                    &validate_result,
                ),
                None => r == Err::<&ValidateResult, ApiErrorResponse>(
                    ApiErrorResponse::InternalServerError,
                ),
            },
            self.well_formed() && self.stage != PipelineStage::ValidateRequest ==> r is Ok,
    {
        match &self.validate_result {
            Some(validate_result) => Ok(validate_result),
            None => Err(ApiErrorResponse::InternalServerError),
        }
    }

    /// The aggregate the run keeps. A run that keeps none, because a stage
    /// works on it or none is loaded yet, gives the internal error.
    pub fn kept_payment_data(&self) -> (r: Result<&PaymentData, ApiErrorResponse>)
        ensures
            match self.payment_data {
                Some(payment_data) => r == Ok::<&PaymentData, ApiErrorResponse>(&payment_data),
                None => r == Err::<&PaymentData, ApiErrorResponse>(
                    ApiErrorResponse::InternalServerError,
                ),
            },
            self.well_formed() && self.stage == PipelineStage::AddTaskToProcessTracker ==> r is Ok,
    {
        match &self.payment_data {
            Some(payment_data) => Ok(payment_data),
            None => Err(ApiErrorResponse::InternalServerError),
        }
    }

    /// Starts a run: validation comes first.
    pub fn start(operation: Operation, call_connector_action: CallConnectorAction) -> (r:
        PipelineStep)
        ensures
            r == (PipelineStep::Run {
                run: PipelineRun::initial(operation, call_connector_action),
                request: StageRequest::ValidateRequest,
            }),
            PipelineRun::initial(operation, call_connector_action).well_formed(),
    {
        PipelineStep::Run {
            run: PipelineRun {
                stage: PipelineStage::ValidateRequest,
                operation,
                call_connector_action: Some(call_connector_action),
                validate_result: None,
                payment_data: None,
                customer: None,
                connector_details: None,
            },
            request: StageRequest::ValidateRequest,
        }
    }
}

/// The step after the call type is known. The pipeline routes it on the
/// aggregate it keeps and hands the aggregate on to be persisted: a single
/// connector is recorded on the attempt, nothing else changes, and a list of
/// connectors changes nothing. A call type that cannot be routed, or a run
/// that keeps no aggregate, ends the run with the internal error.
pub open spec fn is_routing_step(
    merchant_account: MerchantAccount,
    run: PipelineRun,
    connector_details: ConnectorCallType,
    r: PipelineStep,
) -> bool {
    match (run.payment_data, routed_call_type(merchant_account, connector_details)) {
        (Some(payment_data), Some(call_type)) => {
            &&& r matches PipelineStep::Run {
                run: next,
                request: StageRequest::UpdateTrackers { payment_data: routed, customer },
            }
            &&& next == PipelineRun {
                stage: PipelineStage::UpdateTrackers,
                payment_data: None,
                connector_details: Some(call_type),
                ..run
            }
            &&& customer == run.customer
            &&& is_routed(payment_data, routed, call_type)
        },
        _ => r == PipelineStep::Abort(ApiErrorResponse::InternalServerError),
    }
}

/// The step after the follow-up task is scheduled: the decision to dispatch.
/// An operation whose policy calls the connector for the persisted aggregate
/// is dispatched as its call type plans, with the action the run was started
/// with. Every other operation is complete, and its result is the aggregate
/// as it was persisted.
pub open spec fn dispatch_step(run: PipelineRun) -> PipelineStep {
    match (run.payment_data, run.connector_details, run.call_connector_action) {
        (Some(payment_data), Some(connector_details), Some(call_connector_action)) => {
            if !should_call_connector_spec(run.operation, payment_data) {
                PipelineStep::Finish { payment_data, customer: run.customer }
            } else {
                match dispatch_plan(payment_data, connector_details) {
                    Some(plan) => PipelineStep::Run {
                        run: PipelineRun {
                            stage: PipelineStage::CallConnector,
                            payment_data: None,
                            connector_details: None,
                            call_connector_action: None,
                            ..run
                        },
                        request: StageRequest::CallConnector {
                            payment_data,
                            customer: run.customer,
                            call_connector_action,
                            plan,
                        },
                    },
                    None => PipelineStep::Abort(ApiErrorResponse::InternalServerError),
                }
            }
        },
        _ => PipelineStep::Abort(ApiErrorResponse::InternalServerError),
    }
}

/// Whether `r` is the step of `run` after `event`.
///
/// An event from any stage but the one the run awaits ends the run with the
/// internal error. A stage that failed ends the run at once with its error.
/// A stage that completed is followed by the next one, which is handed what
/// it works on; the operation is the one the stage left.
pub open spec fn is_step(
    merchant_account: MerchantAccount,
    run: PipelineRun,
    event: StageEvent,
    r: PipelineStep,
) -> bool {
    if event.stage_spec() != run.stage {
        r == PipelineStep::Abort(ApiErrorResponse::InternalServerError)
    } else if event.failure() is Some {
        r == PipelineStep::Abort(event.failure()->0)
    } else {
        match event {
            StageEvent::Validated(Ok((operation, validate_result))) => r == (PipelineStep::Run {
                run: PipelineRun {
                    stage: PipelineStage::GetTrackers,
                    operation,
                    validate_result: Some(validate_result),
                    ..run
                },
                request: StageRequest::GetTrackers,
            }),
            StageEvent::TrackersLoaded(Ok((operation, payment_data, customer_details))) => r == (
            PipelineStep::Run {
                run: PipelineRun {
                    stage: PipelineStage::GetOrCreateCustomerDetails,
                    operation,
                    payment_data: None,
                    ..run
                },
                request: StageRequest::GetOrCreateCustomerDetails { payment_data, customer_details },
            }),
            StageEvent::CustomerResolved(Ok((operation, payment_data, customer))) => r == (
            PipelineStep::Run {
                run: PipelineRun {
                    stage: PipelineStage::MakePaymentMethodData,
                    operation,
                    payment_data: None,
                    customer,
                    ..run
                },
                request: StageRequest::MakePaymentMethodData { payment_data },
            }),
            StageEvent::PaymentMethodResolved(Ok((operation, payment_data, payment_method_data))) => r
                == (PipelineStep::Run {
                run: PipelineRun {
                    stage: PipelineStage::GetConnector,
                    operation,
                    payment_data: Some(PaymentData { payment_method_data, ..payment_data }),
                    ..run
                },
                request: StageRequest::GetConnector,
            }),
            StageEvent::ConnectorChosen(Ok(connector_details)) => is_routing_step(
                merchant_account,
                run,
                connector_details,
                r,
            ),
            StageEvent::TrackersUpdated(Ok((operation, payment_data))) => r == (PipelineStep::Run {
                run: PipelineRun {
                    stage: PipelineStage::AddTaskToProcessTracker,
                    operation,
                    payment_data: Some(payment_data),
                    ..run
                },
                request: StageRequest::AddTaskToProcessTracker,
            }),
            StageEvent::TaskScheduled(Ok(())) => r == dispatch_step(run),
            StageEvent::Dispatched(Ok(payment_data)) => r == (PipelineStep::Finish {
                payment_data,
                customer: run.customer,
            }),
            _ => false,
        }
    }
}

/// Advances a run of the pipeline with what the awaited stage brought.
pub fn payments_operation_core(
    merchant_account: &MerchantAccount,
    run: PipelineRun,
    event: StageEvent,
) -> (r: PipelineStep)
    ensures
        is_step(*merchant_account, run, event, r),
{
    if event.stage() != run.stage {
        return PipelineStep::Abort(ApiErrorResponse::InternalServerError);
    }
    let mut run = run;
    match event {
        StageEvent::Validated(outcome) => match outcome {
            Ok((operation, validate_result)) => {
                run.stage = PipelineStage::GetTrackers;
                run.operation = operation;
                run.validate_result = Some(validate_result);
                PipelineStep::Run { run, request: StageRequest::GetTrackers }
            },
            Err(e) => PipelineStep::Abort(e),
        },
        StageEvent::TrackersLoaded(outcome) => match outcome {
            Ok((operation, payment_data, customer_details)) => {
                run.stage = PipelineStage::GetOrCreateCustomerDetails;
                run.operation = operation;
                run.payment_data = None;
                PipelineStep::Run {
                    run,
                    request: StageRequest::GetOrCreateCustomerDetails {
                        payment_data,
                        customer_details,
                    },
                }
            },
            Err(e) => PipelineStep::Abort(e),
        },
        StageEvent::CustomerResolved(outcome) => match outcome {
            Ok((operation, payment_data, customer)) => {
                run.stage = PipelineStage::MakePaymentMethodData;
                run.operation = operation;
                run.payment_data = None;
                run.customer = customer;
                PipelineStep::Run { run, request: StageRequest::MakePaymentMethodData { payment_data } }
            },
            Err(_) => PipelineStep::Abort(ApiErrorResponse::InternalServerError),
        },
        StageEvent::PaymentMethodResolved(outcome) => match outcome {
            Ok((operation, payment_data, payment_method_data)) => {
                let mut payment_data = payment_data;
                payment_data.payment_method_data = payment_method_data;
                run.stage = PipelineStage::GetConnector;
                run.operation = operation;
                run.payment_data = Some(payment_data);
                PipelineStep::Run { run, request: StageRequest::GetConnector }
            },
            Err(e) => PipelineStep::Abort(e),
        },
        StageEvent::ConnectorChosen(outcome) => match outcome {
            Ok(connector_details) => {
                let mut payment_data = match run.payment_data {
                    Some(payment_data) => payment_data,
                    None => {
                        return PipelineStep::Abort(ApiErrorResponse::InternalServerError);
                    },
                };
                let call_type = match route_connector(
                    merchant_account,
                    &mut payment_data,
                    connector_details,
                ) {
                    Ok(call_type) => call_type,
                    Err(e) => {
                        return PipelineStep::Abort(e);
                    },
                };
                let customer = run.customer.clone();
                run.stage = PipelineStage::UpdateTrackers;
                run.payment_data = None;
                run.connector_details = Some(call_type);
                PipelineStep::Run {
                    run,
                    request: StageRequest::UpdateTrackers { payment_data, customer },
                }
            },
            Err(e) => PipelineStep::Abort(e),
        },
        StageEvent::TrackersUpdated(outcome) => match outcome {
            Ok((operation, payment_data)) => {
                run.stage = PipelineStage::AddTaskToProcessTracker;
                run.operation = operation;
                run.payment_data = Some(payment_data);
                PipelineStep::Run { run, request: StageRequest::AddTaskToProcessTracker }
            },
            Err(e) => PipelineStep::Abort(e),
        },
        StageEvent::TaskScheduled(outcome) => match outcome {
            Ok(()) => {
                let (payment_data, connector_details, call_connector_action) = match (
                    run.payment_data,
                    run.connector_details,
                    run.call_connector_action,
                ) {
                    (Some(payment_data), Some(details), Some(action)) => (
                        payment_data,
                        details,
                        action,
                    ),
                    _ => {
                        return PipelineStep::Abort(ApiErrorResponse::InternalServerError);
                    },
                };
                match call_connector(&run.operation, &payment_data, connector_details) {
                    Ok(None) => PipelineStep::Finish { payment_data, customer: run.customer },
                    Ok(Some(plan)) => {
                        let customer = run.customer.clone();
                        PipelineStep::Run {
                            run: PipelineRun {
                                stage: PipelineStage::CallConnector,
                                operation: run.operation,
                                call_connector_action: None,
                                validate_result: run.validate_result,
                                payment_data: None,
                                customer: run.customer,
                                connector_details: None,
                            },
                            request: StageRequest::CallConnector {
                                payment_data,
                                customer,
                                call_connector_action,
                                plan,
                            },
                        }
                    },
                    Err(e) => PipelineStep::Abort(e),
                }
            },
            Err(e) => PipelineStep::Abort(e),
        },
        StageEvent::Dispatched(outcome) => match outcome {
            Ok(payment_data) => PipelineStep::Finish { payment_data, customer: run.customer },
            Err(e) => PipelineStep::Abort(e),
        },
    }
}

/// A stage that fails ends the run with its error, whatever the run has
/// gathered; no later stage is asked for.
pub proof fn lemma_failure_ends_the_run(
    merchant_account: MerchantAccount,
    run: PipelineRun,
    event: StageEvent,
    r: PipelineStep,
)
    requires
        is_step(merchant_account, run, event, r),
        event.stage_spec() == run.stage,
        event.failure() is Some,
    ensures
        r == PipelineStep::Abort(event.failure()->0),
{
}

/// A step that goes on asks for the stage one place after the one that just
/// completed, and the run awaits exactly the stage asked for: the stages are
/// run once each, in their order.
pub proof fn lemma_stage_order(
    merchant_account: MerchantAccount,
    run: PipelineRun,
    event: StageEvent,
    r: PipelineStep,
)
    requires
        is_step(merchant_account, run, event, r),
    ensures
        r matches PipelineStep::Run { run: next, request } ==> {
            &&& next.stage.position() == run.stage.position() + 1
            &&& request.stage() == next.stage
        },
{
}

/// A run that holds what its stage needs goes on holding it, and of its
/// steps only routing can fail: a stage that completed is never answered with
/// an error, unless it brought a call type that cannot be routed.
pub proof fn lemma_well_formed_runs_stay_well_formed(
    merchant_account: MerchantAccount,
    run: PipelineRun,
    event: StageEvent,
    r: PipelineStep,
)
    requires
        run.well_formed(),
        is_step(merchant_account, run, event, r),
        event.stage_spec() == run.stage,
        event.failure() is None,
    ensures
        r matches PipelineStep::Run { run: next, .. } ==> next.well_formed(),
        r is Abort <==> (event matches StageEvent::ConnectorChosen(Ok(connector_details))
            && routed_call_type(merchant_account, connector_details) is None),
{
}

/// What is dispatched is what was persisted. The call to the connector is
/// asked for only after the follow-up task is scheduled, with the aggregate
/// the persisting stage brought back and under the action the run was
/// started with; and an operation whose policy does not call the connector
/// ends with that aggregate untouched.
pub proof fn lemma_dispatch_follows_persistence(
    merchant_account: MerchantAccount,
    run: PipelineRun,
    event: StageEvent,
    r: PipelineStep,
)
    requires
        run.well_formed(),
        is_step(merchant_account, run, event, r),
    ensures
        r matches PipelineStep::Run {
            request: StageRequest::CallConnector { payment_data, call_connector_action, .. },
            ..
        } ==> {
            &&& event is TaskScheduled
            &&& run.stage == PipelineStage::AddTaskToProcessTracker
            &&& run.payment_data == Some(payment_data)
            &&& run.call_connector_action == Some(call_connector_action)
            &&& should_call_connector_spec(run.operation, payment_data)
        },
        event is TaskScheduled && event.failure() is None && run.stage
            == PipelineStage::AddTaskToProcessTracker && !should_call_connector_spec(
            run.operation,
            run.payment_data->0,
        ) ==> r == (PipelineStep::Finish {
            payment_data: run.payment_data->0,
            customer: run.customer,
        }),
{
}

/// The action a run was started with is the action it is dispatched under: no
/// step changes it on the way.
pub proof fn lemma_action_is_kept(
    merchant_account: MerchantAccount,
    run: PipelineRun,
    event: StageEvent,
    r: PipelineStep,
)
    requires
        run.well_formed(),
        is_step(merchant_account, run, event, r),
    ensures
        r matches PipelineStep::Run { run: next, request } ==> match request {
            StageRequest::CallConnector { call_connector_action, .. } => Some(call_connector_action)
                == run.call_connector_action,
            _ => next.call_connector_action == run.call_connector_action,
        },
{
}

/// A run started with the action that avoids the call reaches no connector,
/// whether it is dispatched to one connector or to a list of them. Where it
/// is dispatched at all, it is dispatched under that action; under that
/// action a prepared call settles as it stands, and so does every call of a
/// fan-out, whose steps are decided under the same action. Running the
/// pipeline again in the same way therefore sends nothing either, and what
/// is handed on to be folded is the envelope as it was prepared, both times.
pub proof fn lemma_avoided_run_calls_no_connector<Req, Res>(
    merchant_account: MerchantAccount,
    run: PipelineRun,
    event: StageEvent,
    r: PipelineStep,
    envelope: RouterData<Req, Res>,
    step: ConnectorStep<RouterData<Req, Res>>,
)
    requires
        run.well_formed(),
        run.call_connector_action == Some(CallConnectorAction::Avoid),
        is_step(merchant_account, run, event, r),
    ensures
        r matches PipelineStep::Run {
            request: StageRequest::CallConnector { call_connector_action, .. },
            ..
        } ==> {
            &&& call_connector_action == CallConnectorAction::Avoid
            &&& !step_under(envelope, call_connector_action).calls_connector()
            &&& step_under(envelope, call_connector_action) == ConnectorStep::Settled(envelope)
            &&& is_step_under(step, envelope, call_connector_action) ==> step
                == ConnectorStep::Settled(envelope) && !step.calls_connector()
        },
{
}

/// Builds the answer to an operation from the outcome of its pipeline: the
/// error of a run that failed, else the response shape made from the final
/// aggregate.
pub fn payments_core<Res, Req>(
    outcome: Result<(PaymentData, Req, Option<Customer>), ApiErrorResponse>,
    auth_flow: AuthFlow,
    server: &Server,
    operation: Operation,
) -> (r: Result<ApplicationResponse<Res>, ApiErrorResponse>) where
    Res: ToResponse<Req, PaymentData, Operation>,

    ensures
        match outcome {
            Err(e) => r == Err::<ApplicationResponse<Res>, ApiErrorResponse>(e),
            Ok((payment_data, _, customer)) => Res::answers(
                true,
                payment_data,
                customer,
                auth_flow,
                *server,
                operation,
                r,
            ),
        },
{
    match outcome {
        Err(e) => Err(e),
        Ok((payment_data, req, customer)) => Res::generate_response(
            Some(req),
            payment_data,
            customer,
            auth_flow,
            server,
            operation,
        ),
    }
}

/// The answer to the status run that follows a redirect: the payment-status
/// payload of a merchant-authenticated status operation.
pub fn payments_response_for_redirection_flows(
    outcome: Result<(PaymentData, PaymentsRetrieveRequest, Option<Customer>), ApiErrorResponse>,
    server: &Server,
) -> (r: Result<ApplicationResponse<PaymentsResponse>, ApiErrorResponse>)
    ensures
        match outcome {
            Err(e) => r == Err::<ApplicationResponse<PaymentsResponse>, ApiErrorResponse>(e),
            Ok((payment_data, _, customer)) => <PaymentsResponse as ToResponse<
                PaymentsRetrieveRequest,
                PaymentData,
                Operation,
            >>::answers(
                true,
                payment_data,
                customer,
                AuthFlow::Merchant,
                *server,
                Operation::PaymentStatus,
                r,
            ),
        },
{
    payments_core::<PaymentsResponse, PaymentsRetrieveRequest>(
        outcome,
        AuthFlow::Merchant,
        server,
        Operation::PaymentStatus,
    )
}

} // verus!
