//! The way back from a connector's redirect: what the callback must carry,
//! and what is made of the status run that follows it.

use vstd::prelude::*;
use crate::api::{
    ApplicationResponse, ConnectorData, PaymentIdType, PaymentsResponse, PaymentsRetrieveRequest,
    RedirectionResponse,
};
use crate::enums::GetToken;
use crate::errors::{ApiErrorResponse, ConnectorError};
use crate::payments::CallConnectorAction;

verus! {

/// What a redirect callback names: the connector it comes from, the query
/// the connector appended, and the payment it is about.
#[derive(Clone, Debug, PartialEq)]
pub struct RedirectRequest {
    pub connector: String,
    pub connector_data: ConnectorData,
    pub query_params: String,
    pub payment_id: String,
}

/// Why a callback cannot be handled, in the order the checks are made.
pub enum RedirectRefusal {
    NoConnector,
    NoQuery,
    NoPaymentId,
    UnknownConnector,
}

/// The first thing wrong with a callback, if anything is.
pub open spec fn redirect_refusal(req: PaymentsRetrieveRequest) -> Option<RedirectRefusal> {
    if req.connector is None {
        Some(RedirectRefusal::NoConnector)
    } else if req.param is None {
        Some(RedirectRefusal::NoQuery)
    } else if !(req.resource_id is PaymentIntentId) {
        Some(RedirectRefusal::NoPaymentId)
    } else if ConnectorData::by_name_spec(req.connector->0@, GetToken::Connector) is None {
        Some(RedirectRefusal::UnknownConnector)
    } else {
        None
    }
}

/// Reads a redirect callback.
///
/// The connector and the query are required fields, and the payment must be
/// named by its intent id: each is the missing-field error where it is not
/// there. A connector name that no connector carries is the internal error.
pub fn redirect_request(req: &PaymentsRetrieveRequest) -> (r: Result<
    RedirectRequest,
    ApiErrorResponse,
>)
    ensures
        match redirect_refusal(*req) {
            Some(RedirectRefusal::NoConnector) => r matches Err(e) && e.is_missing_field(
                "connector"@,
            ),
            Some(RedirectRefusal::NoQuery) => r matches Err(e) && e.is_missing_field("param"@),
            Some(RedirectRefusal::NoPaymentId) => r matches Err(e) && e.is_missing_field(
                "payment_id"@,
            ),
            Some(RedirectRefusal::UnknownConnector) => r == Err::<RedirectRequest, ApiErrorResponse>(
                ApiErrorResponse::InternalServerError,
            ),
            None => r == Ok::<RedirectRequest, ApiErrorResponse>(
                RedirectRequest {
                    connector: req.connector->0,
                    connector_data: ConnectorData::by_name_spec(
                        req.connector->0@,
                        GetToken::Connector,
                    )->0,
                    query_params: req.param->0,
                    payment_id: req.resource_id->PaymentIntentId_0,
                },
            ),
        },
{
    let connector = match &req.connector {
        Some(c) => c.clone(),
        None => {
            return Err(ApiErrorResponse::missing_required_field("connector"));
        },
    };
    let query_params = match &req.param {
        Some(p) => p.clone(),
        None => {
            return Err(ApiErrorResponse::missing_required_field("param"));
        },
    };
    let payment_id = match &req.resource_id {
        PaymentIdType::PaymentIntentId(id) => id.clone(),
        _ => {
            return Err(ApiErrorResponse::missing_required_field("payment_id"));
        },
    };
    let connector_data = match ConnectorData::get_connector_by_name(
        connector.as_str(),
        GetToken::Connector,
    ) {
        Ok(data) => data,
        Err(e) => {
            return Err(e);
        },
    };
    Ok(RedirectRequest { connector, connector_data, query_params, payment_id })
}

/// The action the status run after a redirect is made under: the one the
/// connector read out of the callback's query, and the internal error where
/// it could not read one.
pub fn redirect_flow_type(classified: Result<CallConnectorAction, ConnectorError>) -> (r: Result<
    CallConnectorAction,
    ApiErrorResponse,
>)
    ensures
        match classified {
            Ok(action) => r == Ok::<CallConnectorAction, ApiErrorResponse>(action),
            Err(_) => r == Err::<CallConnectorAction, ApiErrorResponse>(
                ApiErrorResponse::InternalServerError,
            ),
        },
{
    match classified {
        Ok(action) => Ok(action),
        Err(_) => Err(ApiErrorResponse::InternalServerError),
    }
}

/// The payload of the status run after a redirect. A connector's own error
/// is handed on as it came; a run that failed with anything else is reported
/// as not implemented; an answer of any shape but the payment-status payload
/// is the internal error.
pub fn redirect_payments_response(
    response: Result<ApplicationResponse<PaymentsResponse>, ApiErrorResponse>,
) -> (r: Result<PaymentsResponse, ApiErrorResponse>)
    ensures
        match response {
            Err(e) => if e is ExternalConnectorError {
                r == Err::<PaymentsResponse, ApiErrorResponse>(e)
            } else {
                r == Err::<PaymentsResponse, ApiErrorResponse>(ApiErrorResponse::NotImplemented)
            },
            Ok(ApplicationResponse::Json(payload)) => r == Ok::<PaymentsResponse, ApiErrorResponse>(
                payload,
            ),
            Ok(_) => r == Err::<PaymentsResponse, ApiErrorResponse>(
                ApiErrorResponse::InternalServerError,
            ),
        },
{
    match response {
        Err(e) => match e {
            ApiErrorResponse::ExternalConnectorError { .. } => Err(e),
            _ => Err(ApiErrorResponse::NotImplemented),
        },
        Ok(ApplicationResponse::Json(payload)) => Ok(payload),
        Ok(_) => Err(ApiErrorResponse::InternalServerError),
    }
}

/// Ends the handling of a redirect: the customer's browser is sent to the
/// address made for the merchant, and a failure to make one is the failure of
/// the whole.
pub fn handle_payments_redirect_response(
    redirection: Result<RedirectionResponse, ApiErrorResponse>,
) -> (r: Result<ApplicationResponse<RedirectionResponse>, ApiErrorResponse>)
    ensures
        match redirection {
            Ok(target) => r == Ok::<ApplicationResponse<RedirectionResponse>, ApiErrorResponse>(
                ApplicationResponse::JsonForRedirection(target),
            ),
            Err(e) => r == Err::<ApplicationResponse<RedirectionResponse>, ApiErrorResponse>(e),
        },
{
    match redirection {
        Ok(target) => Ok(ApplicationResponse::JsonForRedirection(target)),
        Err(e) => Err(e),
    }
}

} // verus!
