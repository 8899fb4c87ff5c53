//! What every flow offers to dispatch: the envelope of its call, and the
//! step a prepared call takes under a given action.

use vstd::prelude::*;
use crate::access_token::{add_access_token, plan_start, TokenAction};
use crate::api::{ConnectorData, Server};
use crate::errors::{ApiErrorResponse, ErrorResponse};
use crate::payments::{CallConnectorAction, PaymentData};
use crate::requests::{construct_payment_router_data, router_data_constructed, FlowRequest};
use crate::storage::{MerchantAccount, MerchantConnectorAccount};
use crate::types::{AddAccessTokenResult, PaymentsResponseData, RouterData};

verus! {

/// Builds the envelope of a flow's call from the state of a payment.
pub trait ConstructFlowSpecificData<Req, Res> {
    /// Whether `r` is what constructing the envelope from these parts gives.
    spec fn constructs(
        &self,
        connector_id: Seq<char>,
        merchant_account: MerchantAccount,
        merchant_connector_account: MerchantConnectorAccount,
        server: Server,
        connector_transaction_id: Result<Option<String>, ApiErrorResponse>,
        r: Result<RouterData<Req, Res>, ApiErrorResponse>,
    ) -> bool;

    /// Constructs the envelope. The merchant's account with the connector
    /// and what the connector's transaction-id capability returned are read
    /// by the caller.
    fn construct_router_data(
        &self,
        connector_id: &str,
        merchant_account: &MerchantAccount,
        merchant_connector_account: &MerchantConnectorAccount,
        server: &Server,
        connector_transaction_id: Result<Option<String>, ApiErrorResponse>,
    ) -> (r: Result<RouterData<Req, Res>, ApiErrorResponse>)
        ensures
            self.constructs(
                connector_id@,
                *merchant_account,
                *merchant_connector_account,
                *server,
                connector_transaction_id,
                r,
            ),
    ;
}

impl<Req: FlowRequest> ConstructFlowSpecificData<Req, PaymentsResponseData> for PaymentData {
    open spec fn constructs(
        &self,
        connector_id: Seq<char>,
        merchant_account: MerchantAccount,
        merchant_connector_account: MerchantConnectorAccount,
        server: Server,
        connector_transaction_id: Result<Option<String>, ApiErrorResponse>,
        r: Result<RouterData<Req, PaymentsResponseData>, ApiErrorResponse>,
    ) -> bool {
        router_data_constructed(
            *self,
            connector_id,
            merchant_account,
            merchant_connector_account,
            server,
            connector_transaction_id,
            r,
        )
    }

    fn construct_router_data(
        &self,
        connector_id: &str,
        merchant_account: &MerchantAccount,
        merchant_connector_account: &MerchantConnectorAccount,
        server: &Server,
        connector_transaction_id: Result<Option<String>, ApiErrorResponse>,
    ) -> (r: Result<RouterData<Req, PaymentsResponseData>, ApiErrorResponse>) {
        construct_payment_router_data(
            self,
            connector_id,
            merchant_account,
            merchant_connector_account,
            server,
            connector_transaction_id,
        )
    }
}

/// What is done with a prepared call.
#[derive(Debug, PartialEq)]
pub enum ConnectorStep<D> {
    /// Nothing is sent: the envelope is the outcome as it stands.
    Settled(D),
    /// The request is sent to the connector.
    Send(D),
    /// The payload is handed to the connector's response handler together
    /// with the envelope; nothing is sent.
    Interpret(D, Vec<u8>),
}

impl<D> ConnectorStep<D> {
    /// Whether the step goes out to the connector over the network.
    pub open spec fn calls_connector(self) -> bool {
        self is Send
    }
}

/// A session token a connector issued ahead of the call, or its refusal.
#[derive(Debug, PartialEq)]
pub struct SessionTokenResult {
    pub session_token_result: Result<Option<String>, ErrorResponse>,
}

/// The step of a prepared call under an action: sent when triggered, left as
/// it is when avoided, given the status of a status update, and handed over
/// with the payload of a callback.
pub open spec fn step_under<Req, Res>(
    envelope: RouterData<Req, Res>,
    call_connector_action: CallConnectorAction,
) -> ConnectorStep<RouterData<Req, Res>> {
    match call_connector_action {
        CallConnectorAction::Trigger => ConnectorStep::Send(envelope),
        CallConnectorAction::Avoid => ConnectorStep::Settled(envelope),
        CallConnectorAction::StatusUpdate(status) => ConnectorStep::Settled(
            RouterData { status, ..envelope },
        ),
        CallConnectorAction::HandleResponse(payload) => ConnectorStep::Interpret(envelope, payload),
    }
}

/// A step with the payload it carries taken by its bytes.
pub enum StepShape<D> {
    Settled(D),
    Send(D),
    Interpret(D, Seq<u8>),
}

impl<D> ConnectorStep<D> {
    /// The step with its payload taken by its bytes.
    pub open spec fn shape(self) -> StepShape<D> {
        match self {
            ConnectorStep::Settled(envelope) => StepShape::Settled(envelope),
            ConnectorStep::Send(envelope) => StepShape::Send(envelope),
            ConnectorStep::Interpret(envelope, payload) => StepShape::Interpret(envelope, payload@),
        }
    }
}

/// Whether `step` is the step of `envelope` under an action that is only
/// borrowed: the step the action decides, with a copy of the payload where the
/// action carries one.
pub open spec fn is_step_under<Req, Res>(
    step: ConnectorStep<RouterData<Req, Res>>,
    envelope: RouterData<Req, Res>,
    call_connector_action: CallConnectorAction,
) -> bool {
    step.shape() == step_under(envelope, call_connector_action).shape()
}

/// Decides the step of a prepared call under an action that other calls are
/// decided under as well.
pub fn decide_step<Req, Res>(
    envelope: RouterData<Req, Res>,
    call_connector_action: &CallConnectorAction,
) -> (r: ConnectorStep<RouterData<Req, Res>>)
    ensures
        is_step_under(r, envelope, *call_connector_action),
{
    match call_connector_action {
        CallConnectorAction::Trigger => ConnectorStep::Send(envelope),
        CallConnectorAction::Avoid => ConnectorStep::Settled(envelope),
        CallConnectorAction::StatusUpdate(status) => {
            let mut router_data = envelope;
            router_data.status = *status;
            ConnectorStep::Settled(router_data)
        },
        CallConnectorAction::HandleResponse(payload) => ConnectorStep::Interpret(
            envelope,
            payload.clone(),
        ),
    }
}

/// The step a prepared call takes under an action.
pub trait Feature<T>: Sized {
    /// The envelope with its attempt status replaced.
    spec fn with_status(self, status: crate::enums::AttemptStatus) -> Self;

    /// Decides the step of this call under `call_connector_action`: sent when
    /// triggered, left as it is when avoided, given the status of a status
    /// update, and handed over with the payload of a callback.
    fn decide_flows(self, call_connector_action: CallConnectorAction) -> (r: ConnectorStep<Self>)
        ensures
            match call_connector_action {
                CallConnectorAction::Trigger => r == ConnectorStep::Send(self),
                CallConnectorAction::Avoid => r == ConnectorStep::Settled(self),
                CallConnectorAction::StatusUpdate(status) => r == ConnectorStep::Settled(
                    self.with_status(status),
                ),
                CallConnectorAction::HandleResponse(payload) => r == ConnectorStep::Interpret(
                    self,
                    payload,
                ),
            },
    ;

    /// Starts the access-token policy for this call.
    fn add_access_token(
        &self,
        connector: &ConnectorData,
        supports_access_token: bool,
        merchant_account: &MerchantAccount,
    ) -> (r: TokenAction)
        ensures
            r.plan() == plan_start(supports_access_token),
    ;

    /// The session token to send along, for flows that fetch one ahead of the
    /// call; no flow does unless it says so.
    fn get_session_token(&self, _connector: &ConnectorData) -> (r: Result<
        Option<SessionTokenResult>,
        ApiErrorResponse,
    >)
        default_ensures
            r == Ok::<Option<SessionTokenResult>, ApiErrorResponse>(None),
    {
        Ok(None)
    }
}

impl<Req, Res> Feature<Req> for RouterData<Req, Res> {
    open spec fn with_status(self, status: crate::enums::AttemptStatus) -> Self {
        RouterData { status, ..self }
    }

    fn decide_flows(self, call_connector_action: CallConnectorAction) -> (r: ConnectorStep<Self>)
        ensures
            r == step_under(self, call_connector_action),
    {
        match call_connector_action {
            CallConnectorAction::Trigger => ConnectorStep::Send(self),
            CallConnectorAction::Avoid => ConnectorStep::Settled(self),
            CallConnectorAction::StatusUpdate(status) => {
                let mut router_data = self;
                router_data.status = status;
                ConnectorStep::Settled(router_data)
            },
            CallConnectorAction::HandleResponse(payload) => ConnectorStep::Interpret(self, payload),
        }
    }

    fn add_access_token(
        &self,
        connector: &ConnectorData,
        supports_access_token: bool,
        merchant_account: &MerchantAccount,
    ) -> (r: TokenAction)
        ensures
            supports_access_token ==> {
                &&& r matches TokenAction::ReadCache { merchant_id, connector_id }
                &&& merchant_id == merchant_account.merchant_id
                &&& connector_id@ == connector.connector_name.name_spec()
            },
            !supports_access_token ==> r == (TokenAction::Finish {
                result: AddAccessTokenResult::not_needed(),
            }),
    {
        add_access_token(connector, supports_access_token, merchant_account)
    }
}

/// An avoided call goes nowhere and changes nothing: the envelope comes back
/// as it went in, nothing is sent to the connector, and avoiding it once more
/// gives the same again. Re-entering with the action that avoids the call is
/// therefore safe however often it is done.
pub proof fn lemma_avoid_is_idempotent<Req, Res>(envelope: RouterData<Req, Res>)
    ensures
        step_under(envelope, CallConnectorAction::Avoid) == ConnectorStep::Settled(envelope),
        !step_under(envelope, CallConnectorAction::Avoid).calls_connector(),
        step_under(
            step_under(envelope, CallConnectorAction::Avoid)->Settled_0,
            CallConnectorAction::Avoid,
        ) == step_under(envelope, CallConnectorAction::Avoid),
{
}

/// A step decided under a borrowed action goes out to the connector exactly
/// where the action triggers the call; under the action that avoids the call
/// it is the envelope as it stands.
pub proof fn lemma_borrowed_action_decides_alike<Req, Res>(
    step: ConnectorStep<RouterData<Req, Res>>,
    envelope: RouterData<Req, Res>,
    call_connector_action: CallConnectorAction,
)
    requires
        is_step_under(step, envelope, call_connector_action),
    ensures
        step.calls_connector() <==> call_connector_action == CallConnectorAction::Trigger,
        call_connector_action == CallConnectorAction::Avoid ==> step == ConnectorStep::Settled(
            envelope,
        ),
{
}

/// Only a triggered call goes out to the connector.
pub proof fn lemma_only_trigger_calls<Req, Res>(
    envelope: RouterData<Req, Res>,
    call_connector_action: CallConnectorAction,
)
    ensures
        step_under(envelope, call_connector_action).calls_connector() <==> call_connector_action
            == CallConnectorAction::Trigger,
{
}

} // verus!
