//! The envelope of one connector call and the request each flow puts in it.

use vstd::prelude::*;
use crate::api::{MandateData, MandateIds, PaymentMethodData, SessionToken};
use crate::enums::{
    AttemptStatus, AuthenticationType, CaptureMethod, FutureUsage, PaymentExperience,
    PaymentMethod, PaymentMethodType,
};
use crate::errors::ErrorResponse;
use crate::payments::PaymentAddress;
use crate::storage::{AccessToken, BrowserInformation, ConnectorAuthType, OrderDetails, RedirectForm};

verus! {

/// How a connector names the transaction it answered for.
#[derive(Clone, Debug, PartialEq)]
pub enum ResponseId {
    ConnectorTransactionId(String),
    EncodedData(String),
    NoResponseId,
}

/// What a connector answered.
#[derive(Clone, Debug, PartialEq)]
#[allow(inconsistent_fields)]
pub enum PaymentsResponseData {
    TransactionResponse {
        resource_id: ResponseId,
        redirection_data: Option<RedirectForm>,
        mandate_reference: Option<String>,
        connector_metadata: Option<serde_json::Value>,
    },
    SessionResponse { session_token: SessionToken },
    SessionTokenResponse { session_token: String },
}

/// The envelope of one connector call: who is called on whose behalf, with
/// which credentials and which request, and a slot for the answer. The slot is
/// filled by dispatch; until then it holds what is known from earlier calls.
#[derive(Debug, PartialEq)]
pub struct RouterData<Req, Res> {
    pub merchant_id: String,
    pub connector: String,
    pub payment_id: String,
    pub attempt_id: String,
    pub status: AttemptStatus,
    pub payment_method: PaymentMethod,
    pub connector_auth_type: ConnectorAuthType,
    pub description: Option<String>,
    pub return_url: Option<String>,
    pub payment_method_id: Option<String>,
    pub address: PaymentAddress,
    pub auth_type: AuthenticationType,
    pub connector_meta_data: Option<serde_json::Value>,
    pub amount_captured: Option<i64>,
    pub access_token: Option<AccessToken>,
    pub session_token: Option<String>,
    pub reference_id: Option<String>,
    pub payment_method_token: Option<String>,
    pub request: Req,
    pub response: Result<Res, ErrorResponse>,
}

impl<Req: Clone, Res: Clone> Clone for RouterData<Req, Res> {
    fn clone(&self) -> (r: Self)
        ensures
            r.without_request() == self.without_request(),
    {
        RouterData {
            merchant_id: self.merchant_id.clone(),
            connector: self.connector.clone(),
            payment_id: self.payment_id.clone(),
            attempt_id: self.attempt_id.clone(),
            status: self.status,
            payment_method: self.payment_method,
            connector_auth_type: self.connector_auth_type.clone(),
            description: self.description.clone(),
            return_url: self.return_url.clone(),
            payment_method_id: self.payment_method_id.clone(),
            address: self.address.clone(),
            auth_type: self.auth_type,
            connector_meta_data: self.connector_meta_data.clone(),
            amount_captured: self.amount_captured,
            access_token: self.access_token.clone(),
            session_token: self.session_token.clone(),
            reference_id: self.reference_id.clone(),
            payment_method_token: self.payment_method_token.clone(),
            request: self.request.clone(),
            response: match &self.response {
                Ok(res) => Ok(res.clone()),
                Err(e) => Err(e.clone()),
            },
        }
    }
}

impl<Req, Res> RouterData<Req, Res> {
    /// The envelope without its request and its answer.
    pub open spec fn without_request(self) -> RouterData<(), ()> {
        RouterData {
            merchant_id: self.merchant_id,
            connector: self.connector,
            payment_id: self.payment_id,
            attempt_id: self.attempt_id,
            status: self.status,
            payment_method: self.payment_method,
            connector_auth_type: self.connector_auth_type,
            description: self.description,
            return_url: self.return_url,
            payment_method_id: self.payment_method_id,
            address: self.address,
            auth_type: self.auth_type,
            connector_meta_data: self.connector_meta_data,
            amount_captured: self.amount_captured,
            access_token: self.access_token,
            session_token: self.session_token,
            reference_id: self.reference_id,
            payment_method_token: self.payment_method_token,
            request: (),
            response: Ok(()),
        }
    }
}

/// The request of an authorisation.
#[derive(Clone, Debug, PartialEq)]
pub struct PaymentsAuthorizeData {
    pub payment_method_data: PaymentMethodData,
    pub amount: i64,
    pub email: Option<String>,
    pub currency: String,
    pub confirm: bool,
    pub statement_descriptor_suffix: Option<String>,
    pub statement_descriptor: Option<String>,
    pub capture_method: Option<CaptureMethod>,
    pub router_return_url: Option<String>,
    pub webhook_url: Option<String>,
    pub complete_authorize_url: Option<String>,
    pub setup_future_usage: Option<FutureUsage>,
    pub mandate_id: Option<MandateIds>,
    pub off_session: Option<bool>,
    pub setup_mandate_details: Option<MandateData>,
    pub browser_info: Option<BrowserInformation>,
    pub order_details: Option<OrderDetails>,
    pub session_token: Option<String>,
    pub enrolled_for_3ds: bool,
    pub related_transaction_id: Option<String>,
    pub payment_experience: Option<PaymentExperience>,
    pub payment_method_type: Option<PaymentMethodType>,
}

/// The request of a status sync.
#[derive(Clone, Debug, PartialEq)]
pub struct PaymentsSyncData {
    pub connector_transaction_id: ResponseId,
    pub encoded_data: Option<String>,
    pub capture_method: Option<CaptureMethod>,
    pub connector_meta: Option<serde_json::Value>,
}

/// The request of a capture.
#[derive(Clone, Debug, PartialEq)]
pub struct PaymentsCaptureData {
    pub amount_to_capture: i64,
    pub currency: String,
    pub connector_transaction_id: String,
    pub payment_amount: i64,
    pub connector_meta: Option<serde_json::Value>,
}

/// The request of a cancellation.
#[derive(Clone, Debug, PartialEq)]
pub struct PaymentsCancelData {
    pub amount: Option<i64>,
    pub currency: Option<String>,
    pub connector_transaction_id: String,
    pub cancellation_reason: Option<String>,
    pub connector_meta: Option<serde_json::Value>,
}

/// The request of a session-token fetch.
#[derive(Clone, Debug, PartialEq)]
pub struct PaymentsSessionData {
    pub amount: i64,
    pub currency: String,
    pub country: Option<String>,
    pub order_details: Option<OrderDetails>,
}

/// The request of a payment-method verification.
#[derive(Clone, Debug, PartialEq)]
pub struct VerifyRequestData {
    pub currency: String,
    pub payment_method_data: PaymentMethodData,
    pub confirm: bool,
    pub statement_descriptor_suffix: Option<String>,
    pub mandate_id: Option<MandateIds>,
    pub setup_future_usage: Option<FutureUsage>,
    pub off_session: Option<bool>,
    pub setup_mandate_details: Option<MandateData>,
}

/// The request that completes an authorisation after a redirect.
#[derive(Clone, Debug, PartialEq)]
pub struct CompleteAuthorizeData {
    pub payment_method_data: Option<PaymentMethodData>,
    pub amount: i64,
    pub email: Option<String>,
    pub currency: String,
    pub confirm: bool,
    pub statement_descriptor_suffix: Option<String>,
    pub capture_method: Option<CaptureMethod>,
    pub setup_future_usage: Option<FutureUsage>,
    pub mandate_id: Option<MandateIds>,
    pub off_session: Option<bool>,
    pub setup_mandate_details: Option<MandateData>,
    pub payload: Option<serde_json::Value>,
    pub browser_info: Option<BrowserInformation>,
    pub connector_transaction_id: Option<String>,
    pub connector_meta: Option<serde_json::Value>,
}

/// The request that asks a connector for a fresh access token.
#[derive(Clone, Debug, PartialEq)]
pub struct AccessTokenRequestData {
    pub app_id: String,
    pub id: Option<String>,
}

/// What the access-token policy hands to a call: the token or the
/// connector's refusal, and whether the connector works with tokens at all.
/// For a connector that works without them there is no token and no error:
/// none is needed.
#[derive(Debug, PartialEq)]
pub struct AddAccessTokenResult {
    pub access_token_result: Result<Option<AccessToken>, ErrorResponse>,
    pub connector_supports_access_token: bool,
}

impl Clone for AddAccessTokenResult {
    fn clone(&self) -> (r: Self)
        ensures
            r == *self,
    {
        AddAccessTokenResult {
            access_token_result: match &self.access_token_result {
                Ok(token) => Ok(token.clone()),
                Err(e) => Err(e.clone()),
            },
            connector_supports_access_token: self.connector_supports_access_token,
        }
    }
}

} // verus!
