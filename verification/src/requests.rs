//! From the aggregate to the request of one connector call: the request each
//! flow sends, and the envelope around it.

use vstd::prelude::*;
use vstd::string::*;
use crate::api::{MandateIds, Server};
use crate::enums::{AuthenticationType, Connector, PaymentMethod};
use crate::errors::{to_not_found_response, ApiErrorResponse, ErrorResponse, StorageError};
use crate::helpers::{
    complete_authorize_url, create_complete_authorize_url, create_redirect_url,
    create_webhook_url, redirect_url, webhook_url,
};
use crate::json::{json_document, parse_json, Decoded};
use crate::payments::PaymentData;
use crate::storage::{
    BrowserInformation, ConnectorAuthType, MerchantAccount, MerchantConnectorAccount,
    MetadataRecord, OrderDetails, PaymentAttempt,
};
use crate::text::opt_view;
use crate::types::{
    CompleteAuthorizeData, PaymentsAuthorizeData, PaymentsCancelData, PaymentsCaptureData,
    PaymentsResponseData, PaymentsSessionData, PaymentsSyncData, ResponseId, RouterData,
    VerifyRequestData,
};

verus! {

/// What a flow's request is built from: the aggregate, the connector the
/// call goes to, the router's own base address, and what the connector's
/// transaction-id capability returned for the attempt.
#[derive(Debug)]
pub struct PaymentAdditionalData<'a> {
    pub router_base_url: String,
    pub connector_name: String,
    pub payment_data: &'a PaymentData,
    pub connector_transaction_id: Result<Option<String>, ApiErrorResponse>,
}

/// The transaction id of an attempt for a connector that keeps none of its
/// own: the one recorded on the attempt.
pub fn connector_transaction_id(payment_attempt: &PaymentAttempt) -> (r: Result<
    Option<String>,
    ApiErrorResponse,
>)
    ensures
        r == Ok::<Option<String>, ApiErrorResponse>(payment_attempt.connector_transaction_id),
{
    Ok(payment_attempt.connector_transaction_id.clone())
}

/// The transaction id of an attempt for a connector that derives it from the
/// attempt's connector metadata: what the connector derived, and the
/// resource-id-not-found error where it could not.
pub fn connector_transaction_id_from_metadata(
    derived: Result<Option<String>, crate::errors::ConnectorError>,
) -> (r: Result<Option<String>, ApiErrorResponse>)
    ensures
        match derived {
            Ok(id) => r == Ok::<Option<String>, ApiErrorResponse>(id),
            Err(_) => r == Err::<Option<String>, ApiErrorResponse>(
                ApiErrorResponse::ResourceIdNotFound,
            ),
        },
{
    match derived {
        Ok(id) => Ok(id),
        Err(_) => Err(ApiErrorResponse::ResourceIdNotFound),
    }
}

/// A request that can be built for any prepared call.
pub trait FlowRequest: Sized {
    /// Whether `r` is what building this request from the given parts gives.
    spec fn built_from(
        router_base_url: Seq<char>,
        connector_name: Seq<char>,
        payment_data: PaymentData,
        connector_transaction_id: Result<Option<String>, ApiErrorResponse>,
        r: Result<Self, ApiErrorResponse>,
    ) -> bool;

    /// Builds the request.
    fn build(additional_data: PaymentAdditionalData) -> (r: Result<Self, ApiErrorResponse>)
        ensures
            Self::built_from(
                additional_data.router_base_url@,
                additional_data.connector_name@,
                *additional_data.payment_data,
                additional_data.connector_transaction_id,
                r,
            ),
    ;
}

/// The browser information of an attempt, where it is recorded and decodes.
pub open spec fn browser_info_of(payment_attempt: PaymentAttempt) -> Option<BrowserInformation> {
    match payment_attempt.browser_info {
        Some(Decoded::Valid(info)) => Some(info),
        _ => None,
    }
}

/// The order details the metadata of an intent carries, where it does.
pub open spec fn order_details_of(metadata: Option<MetadataRecord>) -> Option<OrderDetails> {
    match metadata {
        Some(MetadataRecord { parsed: Some(m), .. }) => m.order_details,
        _ => None,
    }
}

/// `Some(true)` for a payment with a mandate, nothing without.
pub open spec fn off_session_of(mandate_id: Option<MandateIds>) -> Option<bool> {
    match mandate_id {
        Some(_) => Some(true),
        None => None,
    }
}

fn browser_info(payment_attempt: &PaymentAttempt) -> (r: Result<
    Option<BrowserInformation>,
    ApiErrorResponse,
>)
    ensures
        match payment_attempt.browser_info {
            Some(Decoded::Invalid) => r matches Err(e) && e.is_invalid_value("browser_info"@),
            _ => r == Ok::<Option<BrowserInformation>, ApiErrorResponse>(
                browser_info_of(*payment_attempt),
            ),
        },
{
    match &payment_attempt.browser_info {
        Some(Decoded::Valid(info)) => Ok(Some(info.clone())),
        Some(Decoded::Invalid) => Err(ApiErrorResponse::invalid_data_value("browser_info")),
        None => Ok(None),
    }
}

fn order_details(metadata: &Option<MetadataRecord>) -> (r: Option<OrderDetails>)
    ensures
        r == order_details_of(*metadata),
{
    match metadata {
        Some(record) => match &record.parsed {
            Some(m) => m.order_details.clone(),
            None => None,
        },
        None => None,
    }
}

fn off_session(mandate_id: &Option<MandateIds>) -> (r: Option<bool>)
    ensures
        r == off_session_of(*mandate_id),
{
    match mandate_id {
        Some(_) => Some(true),
        None => None,
    }
}

/// The authorisation request of an aggregate with the given instrument and
/// addresses.
pub open spec fn authorize_data(
    payment_data: PaymentData,
    router_return_url: Option<String>,
    webhook_url: Option<String>,
    complete_authorize_url: Option<String>,
) -> PaymentsAuthorizeData {
    PaymentsAuthorizeData {
        payment_method_data: payment_data.payment_method_data->0,
        amount: payment_data.amount.value(),
        email: payment_data.email,
        currency: payment_data.currency,
        confirm: payment_data.payment_attempt.confirm,
        statement_descriptor_suffix: payment_data.payment_intent.statement_descriptor_suffix,
        statement_descriptor: payment_data.payment_intent.statement_descriptor_name,
        capture_method: payment_data.payment_attempt.capture_method,
        router_return_url,
        webhook_url,
        complete_authorize_url,
        setup_future_usage: payment_data.payment_intent.setup_future_usage,
        mandate_id: payment_data.mandate_id,
        off_session: off_session_of(payment_data.mandate_id),
        setup_mandate_details: payment_data.setup_mandate,
        browser_info: browser_info_of(payment_data.payment_attempt),
        order_details: order_details_of(payment_data.payment_intent.metadata),
        session_token: None,
        enrolled_for_3ds: true,
        related_transaction_id: None,
        payment_experience: payment_data.payment_attempt.payment_experience,
        payment_method_type: payment_data.payment_attempt.payment_method_type,
    }
}

/// What building an authorisation request gives: the invalid-value error for
/// browser information that does not decode, else the missing-field error
/// where there is no instrument, else the request with its three addresses.
pub open spec fn authorize_built(
    router_base_url: Seq<char>,
    connector_name: Seq<char>,
    payment_data: PaymentData,
    r: Result<PaymentsAuthorizeData, ApiErrorResponse>,
) -> bool {
    if payment_data.payment_attempt.browser_info == Some(Decoded::<BrowserInformation>::Invalid) {
        r matches Err(e) && e.is_invalid_value("browser_info"@)
    } else if payment_data.payment_method_data is None {
        r matches Err(e) && e.is_missing_field("payment_method_data"@)
    } else {
        &&& r matches Ok(request)
        &&& request == authorize_data(
            payment_data,
            request.router_return_url,
            request.webhook_url,
            request.complete_authorize_url,
        )
        &&& request.router_return_url matches Some(url)
        &&& url@ == redirect_url(
            router_base_url,
            payment_data.payment_attempt.payment_id@,
            payment_data.payment_attempt.merchant_id@,
            connector_name,
            opt_view(payment_data.creds_identifier),
        )
        &&& request.webhook_url matches Some(webhook)
        &&& webhook@ == webhook_url(
            router_base_url,
            payment_data.payment_attempt.merchant_id@,
            connector_name,
        )
        &&& request.complete_authorize_url matches Some(complete)
        &&& complete@ == complete_authorize_url(
            router_base_url,
            payment_data.payment_attempt.payment_id@,
            payment_data.payment_attempt.merchant_id@,
            connector_name,
        )
    }
}

impl PaymentsAuthorizeData {
    /// Builds the request of an authorisation.
    pub fn try_from(additional_data: PaymentAdditionalData) -> (r: Result<Self, ApiErrorResponse>)
        ensures
            authorize_built(
                additional_data.router_base_url@,
                additional_data.connector_name@,
                *additional_data.payment_data,
                r,
            ),
    {
        let payment_data = additional_data.payment_data;
        let router_base_url = additional_data.router_base_url.as_str();
        let connector_name = additional_data.connector_name.as_str();
        let attempt = &payment_data.payment_attempt;
        let browser_info = match browser_info(attempt) {
            Ok(info) => info,
            Err(e) => {
                return Err(e);
            },
        };
        let order_details = order_details(&payment_data.payment_intent.metadata);
        let complete_authorize_url = Some(
            create_complete_authorize_url(router_base_url, attempt, connector_name),
        );
        let webhook_url = Some(create_webhook_url(router_base_url, attempt, connector_name));
        let creds_identifier: Option<&str> = match &payment_data.creds_identifier {
            Some(c) => Some(c.as_str()),
            None => None,
        };
        let router_return_url = Some(
            create_redirect_url(router_base_url, attempt, connector_name, creds_identifier),
        );
        let payment_method_data = match &payment_data.payment_method_data {
            Some(data) => data.clone(),
            None => {
                return Err(ApiErrorResponse::missing_required_field("payment_method_data"));
            },
        };
        Ok(
            PaymentsAuthorizeData {
                payment_method_data,
                setup_future_usage: payment_data.payment_intent.setup_future_usage,
                mandate_id: payment_data.mandate_id.clone(),
                off_session: off_session(&payment_data.mandate_id),
                setup_mandate_details: payment_data.setup_mandate.clone(),
                confirm: payment_data.payment_attempt.confirm,
                statement_descriptor_suffix: payment_data.payment_intent.statement_descriptor_suffix.clone(),
                statement_descriptor: payment_data.payment_intent.statement_descriptor_name.clone(),
                capture_method: payment_data.payment_attempt.capture_method,
                amount: payment_data.amount.to_i64(),
                currency: payment_data.currency.clone(),
                browser_info,
                email: payment_data.email.clone(),
                payment_experience: payment_data.payment_attempt.payment_experience,
                order_details,
                session_token: None,
                enrolled_for_3ds: true,
                related_transaction_id: None,
                payment_method_type: payment_data.payment_attempt.payment_method_type,
                router_return_url,
                webhook_url,
                complete_authorize_url,
            },
        )
    }
}

impl FlowRequest for PaymentsAuthorizeData {
    open spec fn built_from(
        router_base_url: Seq<char>,
        connector_name: Seq<char>,
        payment_data: PaymentData,
        connector_transaction_id: Result<Option<String>, ApiErrorResponse>,
        r: Result<Self, ApiErrorResponse>,
    ) -> bool {
        authorize_built(router_base_url, connector_name, payment_data, r)
    }

    fn build(additional_data: PaymentAdditionalData) -> (r: Result<Self, ApiErrorResponse>) {
        PaymentsAuthorizeData::try_from(additional_data)
    }
}

/// The request of a status sync for an aggregate.
pub open spec fn sync_data(payment_data: PaymentData) -> PaymentsSyncData {
    PaymentsSyncData {
        connector_transaction_id: match payment_data.payment_attempt.connector_transaction_id {
            Some(id) => ResponseId::ConnectorTransactionId(id),
            None => ResponseId::NoResponseId,
        },
        encoded_data: payment_data.connector_response.encoded_data,
        capture_method: payment_data.payment_attempt.capture_method,
        connector_meta: payment_data.payment_attempt.connector_metadata,
    }
}

impl PaymentsSyncData {
    /// Builds the request of a status sync; it cannot fail.
    pub fn try_from(additional_data: PaymentAdditionalData) -> (r: Result<Self, ApiErrorResponse>)
        ensures
            r == Ok::<Self, ApiErrorResponse>(sync_data(*additional_data.payment_data)),
    {
        let payment_data = additional_data.payment_data;
        Ok(
            PaymentsSyncData {
                connector_transaction_id: match &payment_data.payment_attempt.connector_transaction_id {
                    Some(id) => ResponseId::ConnectorTransactionId(id.clone()),
                    None => ResponseId::NoResponseId,
                },
                encoded_data: payment_data.connector_response.encoded_data.clone(),
                capture_method: payment_data.payment_attempt.capture_method,
                connector_meta: payment_data.payment_attempt.connector_metadata.clone(),
            },
        )
    }
}

impl FlowRequest for PaymentsSyncData {
    open spec fn built_from(
        router_base_url: Seq<char>,
        connector_name: Seq<char>,
        payment_data: PaymentData,
        connector_transaction_id: Result<Option<String>, ApiErrorResponse>,
        r: Result<Self, ApiErrorResponse>,
    ) -> bool {
        r == Ok::<Self, ApiErrorResponse>(sync_data(payment_data))
    }

    fn build(additional_data: PaymentAdditionalData) -> (r: Result<Self, ApiErrorResponse>) {
        PaymentsSyncData::try_from(additional_data)
    }
}

/// The transaction a capture or a cancellation refers to: the internal error
/// for a connector name that does not exist, else the failure of the
/// connector's transaction-id capability, else the resource-id-not-found error
/// where the attempt has no transaction yet.
pub open spec fn referred_transaction(
    connector_name: Seq<char>,
    connector_transaction_id: Result<Option<String>, ApiErrorResponse>,
) -> Result<String, ApiErrorResponse> {
    if Connector::from_name_spec(connector_name) is None {
        Err(ApiErrorResponse::InternalServerError)
    } else {
        match connector_transaction_id {
            Err(e) => Err(e),
            Ok(None) => Err(ApiErrorResponse::ResourceIdNotFound),
            Ok(Some(id)) => Ok(id),
        }
    }
}

fn transaction_referred_to(
    connector_name: &str,
    connector_transaction_id: Result<Option<String>, ApiErrorResponse>,
) -> (r: Result<String, ApiErrorResponse>)
    ensures
        r == referred_transaction(connector_name@, connector_transaction_id),
{
    if Connector::from_name(connector_name).is_none() {
        return Err(ApiErrorResponse::InternalServerError);
    }
    match connector_transaction_id {
        Err(e) => Err(e),
        Ok(None) => Err(ApiErrorResponse::ResourceIdNotFound),
        Ok(Some(id)) => Ok(id),
    }
}

/// What building a capture request gives. The amount to capture is the one
/// recorded on the attempt, and the whole amount of the payment where none is
/// recorded.
pub open spec fn capture_built(
    connector_name: Seq<char>,
    payment_data: PaymentData,
    connector_transaction_id: Result<Option<String>, ApiErrorResponse>,
) -> Result<PaymentsCaptureData, ApiErrorResponse> {
    match referred_transaction(connector_name, connector_transaction_id) {
        Err(e) => Err(e),
        Ok(id) => Ok(
            PaymentsCaptureData {
                amount_to_capture: match payment_data.payment_attempt.amount_to_capture {
                    Some(amount) => amount,
                    None => payment_data.amount.value(),
                },
                currency: payment_data.currency,
                connector_transaction_id: id,
                payment_amount: payment_data.amount.value(),
                connector_meta: payment_data.payment_attempt.connector_metadata,
            },
        ),
    }
}

impl PaymentsCaptureData {
    /// Builds the request of a capture.
    pub fn try_from(additional_data: PaymentAdditionalData) -> (r: Result<Self, ApiErrorResponse>)
        ensures
            r == capture_built(
                additional_data.connector_name@,
                *additional_data.payment_data,
                additional_data.connector_transaction_id,
            ),
    {
        let payment_data = additional_data.payment_data;
        let amount_to_capture: i64 = match payment_data.payment_attempt.amount_to_capture {
            Some(amount) => amount,
            None => payment_data.amount.to_i64(),
        };
        let connector_transaction_id = match transaction_referred_to(
            additional_data.connector_name.as_str(),
            additional_data.connector_transaction_id,
        ) {
            Ok(id) => id,
            Err(e) => {
                return Err(e);
            },
        };
        Ok(
            PaymentsCaptureData {
                amount_to_capture,
                currency: payment_data.currency.clone(),
                connector_transaction_id,
                payment_amount: payment_data.amount.to_i64(),
                connector_meta: payment_data.payment_attempt.connector_metadata.clone(),
            },
        )
    }
}

impl FlowRequest for PaymentsCaptureData {
    open spec fn built_from(
        router_base_url: Seq<char>,
        connector_name: Seq<char>,
        payment_data: PaymentData,
        connector_transaction_id: Result<Option<String>, ApiErrorResponse>,
        r: Result<Self, ApiErrorResponse>,
    ) -> bool {
        r == capture_built(connector_name, payment_data, connector_transaction_id)
    }

    fn build(additional_data: PaymentAdditionalData) -> (r: Result<Self, ApiErrorResponse>) {
        PaymentsCaptureData::try_from(additional_data)
    }
}

/// What building a cancellation request gives.
pub open spec fn cancel_built(
    connector_name: Seq<char>,
    payment_data: PaymentData,
    connector_transaction_id: Result<Option<String>, ApiErrorResponse>,
) -> Result<PaymentsCancelData, ApiErrorResponse> {
    match referred_transaction(connector_name, connector_transaction_id) {
        Err(e) => Err(e),
        Ok(id) => Ok(
            PaymentsCancelData {
                amount: Some(payment_data.amount.value()),
                currency: Some(payment_data.currency),
                connector_transaction_id: id,
                cancellation_reason: payment_data.payment_attempt.cancellation_reason,
                connector_meta: payment_data.payment_attempt.connector_metadata,
            },
        ),
    }
}

impl PaymentsCancelData {
    /// Builds the request of a cancellation.
    pub fn try_from(additional_data: PaymentAdditionalData) -> (r: Result<Self, ApiErrorResponse>)
        ensures
            r == cancel_built(
                additional_data.connector_name@,
                *additional_data.payment_data,
                additional_data.connector_transaction_id,
            ),
    {
        let payment_data = additional_data.payment_data;
        let connector_transaction_id = match transaction_referred_to(
            additional_data.connector_name.as_str(),
            additional_data.connector_transaction_id,
        ) {
            Ok(id) => id,
            Err(e) => {
                return Err(e);
            },
        };
        Ok(
            PaymentsCancelData {
                amount: Some(payment_data.amount.to_i64()),
                currency: Some(payment_data.currency.clone()),
                connector_transaction_id,
                cancellation_reason: payment_data.payment_attempt.cancellation_reason.clone(),
                connector_meta: payment_data.payment_attempt.connector_metadata.clone(),
            },
        )
    }
}

impl FlowRequest for PaymentsCancelData {
    open spec fn built_from(
        router_base_url: Seq<char>,
        connector_name: Seq<char>,
        payment_data: PaymentData,
        connector_transaction_id: Result<Option<String>, ApiErrorResponse>,
        r: Result<Self, ApiErrorResponse>,
    ) -> bool {
        r == cancel_built(connector_name, payment_data, connector_transaction_id)
    }

    fn build(additional_data: PaymentAdditionalData) -> (r: Result<Self, ApiErrorResponse>) {
        PaymentsCancelData::try_from(additional_data)
    }
}

/// The country of the billing address of an aggregate, where it has one.
pub open spec fn billing_country(payment_data: PaymentData) -> Option<String> {
    match payment_data.address.billing {
        Some(billing) => match billing.address {
            Some(details) => details.country,
            None => None,
        },
        None => None,
    }
}

/// The request of a session-token fetch for an aggregate.
pub open spec fn session_data(payment_data: PaymentData) -> PaymentsSessionData {
    PaymentsSessionData {
        amount: payment_data.amount.value(),
        currency: payment_data.currency,
        country: billing_country(payment_data),
        order_details: order_details_of(payment_data.payment_intent.metadata),
    }
}

impl PaymentsSessionData {
    /// Builds the request of a session-token fetch; it cannot fail.
    pub fn try_from(additional_data: PaymentAdditionalData) -> (r: Result<Self, ApiErrorResponse>)
        ensures
            r == Ok::<Self, ApiErrorResponse>(session_data(*additional_data.payment_data)),
    {
        let payment_data = additional_data.payment_data;
        let country = match &payment_data.address.billing {
            Some(billing) => match &billing.address {
                Some(details) => details.country.clone(),
                None => None,
            },
            None => None,
        };
        Ok(
            PaymentsSessionData {
                amount: payment_data.amount.to_i64(),
                currency: payment_data.currency.clone(),
                country,
                order_details: order_details(&payment_data.payment_intent.metadata),
            },
        )
    }
}

impl FlowRequest for PaymentsSessionData {
    open spec fn built_from(
        router_base_url: Seq<char>,
        connector_name: Seq<char>,
        payment_data: PaymentData,
        connector_transaction_id: Result<Option<String>, ApiErrorResponse>,
        r: Result<Self, ApiErrorResponse>,
    ) -> bool {
        r == Ok::<Self, ApiErrorResponse>(session_data(payment_data))
    }

    fn build(additional_data: PaymentAdditionalData) -> (r: Result<Self, ApiErrorResponse>) {
        PaymentsSessionData::try_from(additional_data)
    }
}

/// What building a verification request gives: the missing-field error where
/// there is no instrument, else the request, which always confirms.
pub open spec fn verify_built(
    payment_data: PaymentData,
    r: Result<VerifyRequestData, ApiErrorResponse>,
) -> bool {
    match payment_data.payment_method_data {
        None => r matches Err(e) && e.is_missing_field("payment_method_data"@),
        Some(payment_method_data) => r == Ok::<VerifyRequestData, ApiErrorResponse>(
            VerifyRequestData {
                currency: payment_data.currency,
                payment_method_data,
                confirm: true,
                statement_descriptor_suffix: payment_data.payment_intent.statement_descriptor_suffix,
                mandate_id: payment_data.mandate_id,
                setup_future_usage: payment_data.payment_intent.setup_future_usage,
                off_session: off_session_of(payment_data.mandate_id),
                setup_mandate_details: payment_data.setup_mandate,
            },
        ),
    }
}

impl VerifyRequestData {
    /// Builds the request of a payment-method verification.
    pub fn try_from(additional_data: PaymentAdditionalData) -> (r: Result<Self, ApiErrorResponse>)
        ensures
            verify_built(*additional_data.payment_data, r),
    {
        let payment_data = additional_data.payment_data;
        let payment_method_data = match &payment_data.payment_method_data {
            Some(data) => data.clone(),
            None => {
                return Err(ApiErrorResponse::missing_required_field("payment_method_data"));
            },
        };
        Ok(
            VerifyRequestData {
                currency: payment_data.currency.clone(),
                confirm: true,
                payment_method_data,
                statement_descriptor_suffix: payment_data.payment_intent.statement_descriptor_suffix.clone(),
                setup_future_usage: payment_data.payment_intent.setup_future_usage,
                off_session: off_session(&payment_data.mandate_id),
                mandate_id: payment_data.mandate_id.clone(),
                setup_mandate_details: payment_data.setup_mandate.clone(),
            },
        )
    }
}

impl FlowRequest for VerifyRequestData {
    open spec fn built_from(
        router_base_url: Seq<char>,
        connector_name: Seq<char>,
        payment_data: PaymentData,
        connector_transaction_id: Result<Option<String>, ApiErrorResponse>,
        r: Result<Self, ApiErrorResponse>,
    ) -> bool {
        verify_built(payment_data, r)
    }

    fn build(additional_data: PaymentAdditionalData) -> (r: Result<Self, ApiErrorResponse>) {
        VerifyRequestData::try_from(additional_data)
    }
}

/// The payload a redirect left behind, read as a JSON document: nothing where
/// none was left, and no answer at all where what was left is no JSON.
pub open spec fn redirect_payload(encoded_data: Option<String>) -> Option<Option<serde_json::Value>> {
    match encoded_data {
        None => Some(None),
        Some(text) => match json_document(text@) {
            Some(document) => Some(Some(document)),
            None => None,
        },
    }
}

/// Reads the payload a redirect left behind as a JSON document; a payload
/// that is no JSON is the internal error.
pub fn parse_redirect_payload(encoded_data: &Option<String>) -> (r: Result<
    Option<serde_json::Value>,
    ApiErrorResponse,
>)
    ensures
        match redirect_payload(*encoded_data) {
            Some(payload) => r == Ok::<Option<serde_json::Value>, ApiErrorResponse>(payload),
            None => r == Err::<Option<serde_json::Value>, ApiErrorResponse>(
                ApiErrorResponse::InternalServerError,
            ),
        },
{
    match encoded_data {
        None => Ok(None),
        Some(text) => match parse_json(text.as_str()) {
            Ok(document) => Ok(Some(document)),
            Err(_) => Err(ApiErrorResponse::InternalServerError),
        },
    }
}

/// The request that completes an authorisation, from the aggregate and the
/// payload the redirect left behind, already read: the invalid-value error
/// for browser information that does not decode, else the request.
pub open spec fn complete_authorize_request(
    payment_data: PaymentData,
    payload: Option<serde_json::Value>,
    r: Result<CompleteAuthorizeData, ApiErrorResponse>,
) -> bool {
    if payment_data.payment_attempt.browser_info == Some(Decoded::<BrowserInformation>::Invalid) {
        r matches Err(e) && e.is_invalid_value("browser_info"@)
    } else {
        r == Ok::<CompleteAuthorizeData, ApiErrorResponse>(
            CompleteAuthorizeData {
                payment_method_data: payment_data.payment_method_data,
                amount: payment_data.amount.value(),
                email: payment_data.email,
                currency: payment_data.currency,
                confirm: payment_data.payment_attempt.confirm,
                statement_descriptor_suffix: payment_data.payment_intent.statement_descriptor_suffix,
                capture_method: payment_data.payment_attempt.capture_method,
                setup_future_usage: payment_data.payment_intent.setup_future_usage,
                mandate_id: payment_data.mandate_id,
                off_session: off_session_of(payment_data.mandate_id),
                setup_mandate_details: payment_data.setup_mandate,
                payload,
                browser_info: browser_info_of(payment_data.payment_attempt),
                connector_transaction_id: payment_data.connector_response.connector_transaction_id,
                connector_meta: payment_data.payment_attempt.connector_metadata,
            },
        )
    }
}

/// What building the request that completes an authorisation gives: the
/// invalid-value error for browser information that does not decode, else the
/// internal error for a redirect payload that is no JSON, else the request
/// with the payload read as JSON.
pub open spec fn complete_authorize_built(
    payment_data: PaymentData,
    r: Result<CompleteAuthorizeData, ApiErrorResponse>,
) -> bool {
    if payment_data.payment_attempt.browser_info == Some(Decoded::<BrowserInformation>::Invalid) {
        r matches Err(e) && e.is_invalid_value("browser_info"@)
    } else {
        match redirect_payload(payment_data.connector_response.encoded_data) {
            None => r == Err::<CompleteAuthorizeData, ApiErrorResponse>(
                ApiErrorResponse::InternalServerError,
            ),
            Some(payload) => complete_authorize_request(payment_data, payload, r),
        }
    }
}

impl CompleteAuthorizeData {
    /// Builds the request that completes an authorisation from the aggregate
    /// and the payload of the redirect, already read as JSON.
    pub fn with_payload(payment_data: &PaymentData, payload: Option<serde_json::Value>) -> (r:
        Result<Self, ApiErrorResponse>)
        ensures
            complete_authorize_request(*payment_data, payload, r),
    {
        let browser_info = match browser_info(&payment_data.payment_attempt) {
            Ok(info) => info,
            Err(e) => {
                return Err(e);
            },
        };
        Ok(
            CompleteAuthorizeData {
                setup_future_usage: payment_data.payment_intent.setup_future_usage,
                mandate_id: payment_data.mandate_id.clone(),
                off_session: off_session(&payment_data.mandate_id),
                setup_mandate_details: payment_data.setup_mandate.clone(),
                confirm: payment_data.payment_attempt.confirm,
                statement_descriptor_suffix: payment_data.payment_intent.statement_descriptor_suffix.clone(),
                capture_method: payment_data.payment_attempt.capture_method,
                amount: payment_data.amount.to_i64(),
                currency: payment_data.currency.clone(),
                browser_info,
                email: payment_data.email.clone(),
                payment_method_data: payment_data.payment_method_data.clone(),
                connector_transaction_id: payment_data.connector_response.connector_transaction_id.clone(),
                payload,
                connector_meta: payment_data.payment_attempt.connector_metadata.clone(),
            },
        )
    }

    /// Builds the request that completes an authorisation after a redirect.
    pub fn try_from(additional_data: PaymentAdditionalData) -> (r: Result<Self, ApiErrorResponse>)
        ensures
            complete_authorize_built(*additional_data.payment_data, r),
    {
        let payment_data = additional_data.payment_data;
        match &payment_data.payment_attempt.browser_info {
            Some(Decoded::Invalid) => {
                return Err(ApiErrorResponse::invalid_data_value("browser_info"));
            },
            _ => {},
        }
        let json_payload = match parse_redirect_payload(&payment_data.connector_response.encoded_data) {
            Ok(payload) => payload,
            Err(e) => {
                return Err(e);
            },
        };
        CompleteAuthorizeData::with_payload(payment_data, json_payload)
    }
}

impl FlowRequest for CompleteAuthorizeData {
    open spec fn built_from(
        router_base_url: Seq<char>,
        connector_name: Seq<char>,
        payment_data: PaymentData,
        connector_transaction_id: Result<Option<String>, ApiErrorResponse>,
        r: Result<Self, ApiErrorResponse>,
    ) -> bool {
        complete_authorize_built(payment_data, r)
    }

    fn build(additional_data: PaymentAdditionalData) -> (r: Result<Self, ApiErrorResponse>) {
        CompleteAuthorizeData::try_from(additional_data)
    }
}

/// What the answer slot of a fresh envelope holds: the transaction the
/// attempt already has with the connector, or the placeholder error.
pub open spec fn initial_response(
    response: Result<PaymentsResponseData, ErrorResponse>,
    payment_attempt: PaymentAttempt,
) -> bool {
    match payment_attempt.connector_transaction_id {
        Some(id) => response == Ok::<PaymentsResponseData, ErrorResponse>(
            PaymentsResponseData::TransactionResponse {
                resource_id: ResponseId::ConnectorTransactionId(id),
                redirection_data: None,
                mandate_reference: None,
                connector_metadata: None,
            },
        ),
        None => response matches Err(e) && e.is_placeholder(),
    }
}

/// The envelope of a call for an aggregate, around the parts that are built
/// rather than taken over.
pub open spec fn router_data_for<T>(
    payment_data: PaymentData,
    merchant_account: MerchantAccount,
    merchant_connector_account: MerchantConnectorAccount,
    connector: String,
    request: T,
    response: Result<PaymentsResponseData, ErrorResponse>,
) -> RouterData<T, PaymentsResponseData> {
    RouterData {
        merchant_id: merchant_account.merchant_id,
        connector,
        payment_id: payment_data.payment_attempt.payment_id,
        attempt_id: payment_data.payment_attempt.attempt_id,
        status: payment_data.payment_attempt.status,
        payment_method: payment_data.payment_attempt.payment_method->0,
        connector_auth_type: merchant_connector_account.connector_account_details->0,
        description: payment_data.payment_intent.description,
        return_url: payment_data.payment_intent.return_url,
        payment_method_id: payment_data.payment_attempt.payment_method_id,
        address: payment_data.address,
        auth_type: match payment_data.payment_attempt.authentication_type {
            Some(auth_type) => auth_type,
            None => AuthenticationType::NoThreeDs,
        },
        connector_meta_data: merchant_connector_account.metadata,
        amount_captured: payment_data.payment_intent.amount_captured,
        access_token: None,
        session_token: None,
        reference_id: None,
        payment_method_token: payment_data.pm_token,
        request,
        response,
    }
}

/// What constructing the envelope of a call gives. The merchant's credentials
/// with the connector must decode, else the internal error; the attempt must
/// have a payment method, else the missing-field error; then the flow's
/// request is built, and its failure is the failure of the whole.
pub open spec fn router_data_constructed<T: FlowRequest>(
    payment_data: PaymentData,
    connector_id: Seq<char>,
    merchant_account: MerchantAccount,
    merchant_connector_account: MerchantConnectorAccount,
    server: Server,
    connector_transaction_id: Result<Option<String>, ApiErrorResponse>,
    r: Result<RouterData<T, PaymentsResponseData>, ApiErrorResponse>,
) -> bool {
    if merchant_connector_account.connector_account_details is Invalid {
        r == Err::<RouterData<T, PaymentsResponseData>, ApiErrorResponse>(
            ApiErrorResponse::InternalServerError,
        )
    } else if payment_data.payment_attempt.payment_method is None {
        r matches Err(e) && e.is_missing_field("payment_method_type"@)
    } else {
        match r {
            Err(e) => T::built_from(
                server.base_url@,
                connector_id,
                payment_data,
                connector_transaction_id,
                Err(e),
            ),
            Ok(router_data) => {
                &&& T::built_from(
                    server.base_url@,
                    connector_id,
                    payment_data,
                    connector_transaction_id,
                    Ok(router_data.request),
                )
                &&& router_data == router_data_for(
                    payment_data,
                    merchant_account,
                    merchant_connector_account,
                    router_data.connector,
                    router_data.request,
                    router_data.response,
                )
                &&& router_data.connector@ == connector_id
                &&& initial_response(router_data.response, payment_data.payment_attempt)
            },
        }
    }
}

/// The label under which the merchant's account with the connector of a call
/// is looked up.
pub fn merchant_connector_account_label(payment_data: &PaymentData, connector_id: &str) -> (r:
    String)
    ensures
        r@ == crate::helpers::connector_label(
            payment_data.payment_intent.business_country@,
            payment_data.payment_intent.business_label@,
            opt_view(payment_data.payment_attempt.business_sub_label),
            connector_id@,
        ),
{
    crate::helpers::get_connector_label(
        payment_data.payment_intent.business_country.as_str(),
        payment_data.payment_intent.business_label.as_str(),
        payment_data.payment_attempt.business_sub_label.as_ref(),
        connector_id,
    )
}

/// The merchant's account with the connector of a call, from what the store
/// found under its label. An account that is not there is the
/// account-not-found error; a lookup that failed in any other way is the
/// internal error.
pub fn found_merchant_connector_account(
    found: Result<MerchantConnectorAccount, StorageError>,
) -> (r: Result<MerchantConnectorAccount, ApiErrorResponse>)
    ensures
        match found {
            Ok(account) => r == Ok::<MerchantConnectorAccount, ApiErrorResponse>(account),
            Err(StorageError::ValueNotFound) => r == Err::<
                MerchantConnectorAccount,
                ApiErrorResponse,
            >(ApiErrorResponse::MerchantConnectorAccountNotFound),
            Err(_) => r == Err::<MerchantConnectorAccount, ApiErrorResponse>(
                ApiErrorResponse::InternalServerError,
            ),
        },
{
    match found {
        Ok(account) => Ok(account),
        Err(e) => Err(to_not_found_response(e, ApiErrorResponse::MerchantConnectorAccountNotFound)),
    }
}

/// Constructs the envelope of one connector call from the aggregate and the
/// merchant's account with the connector.
pub fn construct_payment_router_data<T: FlowRequest>(
    payment_data: &PaymentData,
    connector_id: &str,
    merchant_account: &MerchantAccount,
    merchant_connector_account: &MerchantConnectorAccount,
    server: &Server,
    connector_transaction_id: Result<Option<String>, ApiErrorResponse>,
) -> (r: Result<RouterData<T, PaymentsResponseData>, ApiErrorResponse>)
    ensures
        router_data_constructed(
            *payment_data,
            connector_id@,
            *merchant_account,
            *merchant_connector_account,
            *server,
            connector_transaction_id,
            r,
        ),
{
    let auth_type: ConnectorAuthType = match &merchant_connector_account.connector_account_details {
        Decoded::Valid(auth) => auth.clone(),
        Decoded::Invalid => {
            return Err(ApiErrorResponse::InternalServerError);
        },
    };
    let payment_method: PaymentMethod = match payment_data.payment_attempt.payment_method {
        Some(method) => method,
        None => {
            return Err(ApiErrorResponse::missing_required_field("payment_method_type"));
        },
    };
    let response = match &payment_data.payment_attempt.connector_transaction_id {
        Some(id) => Ok(
            PaymentsResponseData::TransactionResponse {
                resource_id: ResponseId::ConnectorTransactionId(id.clone()),
                redirection_data: None,
                mandate_reference: None,
                connector_metadata: None,
            },
        ),
        None => Err(ErrorResponse::placeholder()),
    };
    let additional_data = PaymentAdditionalData {
        router_base_url: server.base_url.clone(),
        connector_name: String::from_str(connector_id),
        payment_data,
        connector_transaction_id,
    };
    let request = match T::build(additional_data) {
        Ok(request) => request,
        Err(e) => {
            return Err(e);
        },
    };
    Ok(
        RouterData {
            merchant_id: merchant_account.merchant_id.clone(),
            connector: String::from_str(connector_id),
            payment_id: payment_data.payment_attempt.payment_id.clone(),
            attempt_id: payment_data.payment_attempt.attempt_id.clone(),
            status: payment_data.payment_attempt.status,
            payment_method,
            connector_auth_type: auth_type,
            description: payment_data.payment_intent.description.clone(),
            return_url: payment_data.payment_intent.return_url.clone(),
            payment_method_id: payment_data.payment_attempt.payment_method_id.clone(),
            address: payment_data.address.clone(),
            auth_type: match payment_data.payment_attempt.authentication_type {
                Some(auth_type) => auth_type,
                None => AuthenticationType::NoThreeDs,
            },
            connector_meta_data: merchant_connector_account.metadata.clone(),
            request,
            response,
            amount_captured: payment_data.payment_intent.amount_captured,
            access_token: None,
            session_token: None,
            reference_id: None,
            payment_method_token: payment_data.pm_token.clone(),
        },
    )
}

} // verus!
