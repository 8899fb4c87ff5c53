//! Evidence files of disputes: what a stored file's record allows, and where
//! an uploaded file goes. Reading the upload, the store and the provider of
//! the bytes are the caller's.

use vstd::prelude::*;
use vstd::string::*;
use vstd::utf8::{decode_utf8, valid_utf8};
use crate::api::{ConnectorData, CreateFileRequest};
use crate::enums::{Connector, FilePurpose, FileUploadProvider, GetToken};
use crate::errors::{
    to_not_found_response, ApiErrorResponse, ConnectorError, ErrorResponse, StorageError,
};
use crate::flows::ConnectorStep;
use crate::storage::{Dispute, FileMetadata, PaymentAttempt, PaymentIntent};
use crate::types::RouterData;
use crate::text::str_eq;

verus! {

/// Calls `String::from_utf8`, which hands the bytes back as a string where
/// they are valid UTF-8 and refuses them otherwise.
#[verifier::external_body]
fn string_from_utf8(bytes: Vec<u8>) -> (r: Option<String>)
    ensures
        match r {
            Some(s) => valid_utf8(bytes@) && s@ == decode_utf8(bytes@),
            None => !valid_utf8(bytes@),
        },
{
    match String::from_utf8(bytes) {
        Ok(s) => Some(s),
        Err(_) => None,
    }
}

/// The text of a form field from the chunk read of it: the chunk decoded as
/// UTF-8, and nothing where the read failed, the field was empty or the chunk
/// is no UTF-8.
pub fn read_string(chunk: Result<Option<Vec<u8>>, ()>) -> (r: Option<String>)
    ensures
        match chunk {
            Ok(Some(bytes)) => if valid_utf8(bytes@) {
                r matches Some(s) && s@ == decode_utf8(bytes@)
            } else {
                r is None
            },
            _ => r is None,
        },
{
    match chunk {
        Ok(Some(bytes)) => string_from_utf8(bytes),
        _ => None,
    }
}

/// The purpose a form field names: evidence of a dispute is the only one.
pub fn get_file_purpose(purpose: Option<&str>) -> (r: Option<FilePurpose>)
    ensures
        match purpose {
            Some(text) => if text@ == "dispute_evidence"@ {
                r == Some(FilePurpose::DisputeEvidence)
            } else {
                r is None
            },
            None => r is None,
        },
{
    match purpose {
        Some(text) => if str_eq(text, "dispute_evidence") {
            Some(FilePurpose::DisputeEvidence)
        } else {
            None
        },
        None => None,
    }
}

/// The dispute a file request belongs to. Evidence without a dispute is the
/// missing-dispute error.
pub fn file_request_dispute(create_file_request: &CreateFileRequest) -> (r: Result<
    String,
    ApiErrorResponse,
>)
    ensures
        match create_file_request.dispute_id {
            Some(id) => r == Ok::<String, ApiErrorResponse>(id),
            None => r == Err::<String, ApiErrorResponse>(ApiErrorResponse::MissingDisputeId),
        },
{
    match create_file_request.purpose {
        FilePurpose::DisputeEvidence => match &create_file_request.dispute_id {
            Some(id) => Ok(id.clone()),
            None => Err(ApiErrorResponse::MissingDisputeId),
        },
    }
}

/// The connector a dispute was raised at, from what the store found under
/// the dispute's id. A dispute that is not there is the dispute-not-found
/// error with that id; a connector name that no connector carries is the
/// internal error.
pub fn dispute_connector(dispute_id: &String, found: Result<Dispute, StorageError>) -> (r: Result<
    (Dispute, ConnectorData),
    ApiErrorResponse,
>)
    ensures
        match found {
            Err(StorageError::ValueNotFound) => r == Err::<
                (Dispute, ConnectorData),
                ApiErrorResponse,
            >(ApiErrorResponse::DisputeNotFound { dispute_id: *dispute_id }),
            Err(_) => r == Err::<(Dispute, ConnectorData), ApiErrorResponse>(
                ApiErrorResponse::InternalServerError,
            ),
            Ok(dispute) => match ConnectorData::by_name_spec(dispute.connector@, GetToken::Connector) {
                Some(connector) => r == Ok::<(Dispute, ConnectorData), ApiErrorResponse>(
                    (dispute, connector),
                ),
                None => r == Err::<(Dispute, ConnectorData), ApiErrorResponse>(
                    ApiErrorResponse::InternalServerError,
                ),
            },
        },
{
    let dispute = match found {
        Ok(dispute) => dispute,
        Err(e) => {
            return Err(
                to_not_found_response(
                    e,
                    ApiErrorResponse::DisputeNotFound { dispute_id: dispute_id.clone() },
                ),
            );
        },
    };
    match ConnectorData::get_connector_by_name(dispute.connector.as_str(), GetToken::Connector) {
        Ok(connector) => Ok((dispute, connector)),
        Err(e) => Err(e),
    }
}

/// The payment a dispute is about, from what the store found under the ids
/// the dispute refers to. An intent or an attempt that could not be read, for
/// whatever reason, is the payment-not-found error; the intent is looked at
/// first.
pub fn found_dispute_payment(
    payment_intent: Result<PaymentIntent, StorageError>,
    payment_attempt: Result<PaymentAttempt, StorageError>,
) -> (r: Result<(PaymentIntent, PaymentAttempt), ApiErrorResponse>)
    ensures
        match (payment_intent, payment_attempt) {
            (Ok(intent), Ok(attempt)) => r == Ok::<
                (PaymentIntent, PaymentAttempt),
                ApiErrorResponse,
            >((intent, attempt)),
            _ => r == Err::<(PaymentIntent, PaymentAttempt), ApiErrorResponse>(
                ApiErrorResponse::PaymentNotFound,
            ),
        },
{
    match (payment_intent, payment_attempt) {
        (Ok(intent), Ok(attempt)) => Ok((intent, attempt)),
        _ => Err(ApiErrorResponse::PaymentNotFound),
    }
}

/// What the connector's check of an upload means for the request: a file the
/// connector refuses is the validation error with the connector's reason, and
/// a check that failed in any other way the internal error.
pub fn validate_file_upload(validation: Result<(), ConnectorError>) -> (r: Result<
    (),
    ApiErrorResponse,
>)
    ensures
        match validation {
            Ok(()) => r is Ok,
            Err(ConnectorError::FileValidationFailed { reason }) => r == Err::<
                (),
                ApiErrorResponse,
            >(ApiErrorResponse::FileValidationFailed { reason }),
            Err(_) => r == Err::<(), ApiErrorResponse>(ApiErrorResponse::InternalServerError),
        },
{
    match validation {
        Ok(()) => Ok(()),
        Err(ConnectorError::FileValidationFailed { reason }) => Err(
            ApiErrorResponse::FileValidationFailed { reason },
        ),
        Err(_) => Err(ApiErrorResponse::InternalServerError),
    }
}

/// The key under which a file is deleted, from what the store found under
/// the file's id.
///
/// A record that could not be read is the file-not-found error. A file
/// without a provider or a provider's id, or one marked unavailable, is the
/// not-available error. Only files the router itself keeps can be deleted:
/// any other provider is the not-supported error.
pub fn delete_file_using_file_id(found: Result<FileMetadata, StorageError>) -> (r: Result<
    String,
    ApiErrorResponse,
>)
    ensures
        match found {
            Err(_) => r == Err::<String, ApiErrorResponse>(ApiErrorResponse::FileNotFound),
            Ok(metadata) => match (metadata.file_upload_provider, metadata.provider_file_id) {
                (Some(provider), Some(id)) => if !metadata.available {
                    r == Err::<String, ApiErrorResponse>(ApiErrorResponse::FileNotAvailable)
                } else if provider == FileUploadProvider::Router {
                    r == Ok::<String, ApiErrorResponse>(id)
                } else {
                    r matches Err(ApiErrorResponse::NotSupported { message }) && message@
                        == "Not Supported if provider is not Router"@
                },
                _ => r == Err::<String, ApiErrorResponse>(ApiErrorResponse::FileNotAvailable),
            },
        },
{
    let file_metadata_object = match found {
        Ok(metadata) => metadata,
        Err(_) => {
            return Err(ApiErrorResponse::FileNotFound);
        },
    };
    let (provider, provider_file_id) = match (
        file_metadata_object.file_upload_provider,
        file_metadata_object.provider_file_id,
        file_metadata_object.available,
    ) {
        (Some(provider), Some(provider_file_id), true) => (provider, provider_file_id),
        _ => {
            return Err(ApiErrorResponse::FileNotAvailable);
        },
    };
    match provider {
        FileUploadProvider::Router => Ok(provider_file_id),
        _ => Err(
            ApiErrorResponse::NotSupported {
                message: String::from_str("Not Supported if provider is not Router"),
            },
        ),
    }
}

/// How the content of a file is come by.
#[derive(Clone, Debug, PartialEq)]
pub enum FileRetrieval {
    /// No file was asked for: neither content nor id.
    Nothing,
    /// The router keeps the file: its content is fetched under the id.
    Fetch { provider_file_id: String },
    /// Another provider keeps the file: only its id there is known.
    Elsewhere { provider_file_id: String },
}

/// Decides how the content of a file is come by, from what the store found
/// under the file's id; `None` stands for no file asked for and no lookup
/// made. A record that could not be read, or one without a provider or a
/// provider's id, is the file-not-found error.
pub fn retrieve_file_and_provider_file_id_from_file_id(
    found: Option<Result<FileMetadata, StorageError>>,
) -> (r: Result<FileRetrieval, ApiErrorResponse>)
    ensures
        match found {
            None => r == Ok::<FileRetrieval, ApiErrorResponse>(FileRetrieval::Nothing),
            Some(Err(_)) => r == Err::<FileRetrieval, ApiErrorResponse>(ApiErrorResponse::FileNotFound),
            Some(Ok(metadata)) => match (metadata.file_upload_provider, metadata.provider_file_id) {
                (Some(FileUploadProvider::Router), Some(provider_file_id)) => r == Ok::<
                    FileRetrieval,
                    ApiErrorResponse,
                >(FileRetrieval::Fetch { provider_file_id }),
                (Some(_), Some(provider_file_id)) => r == Ok::<FileRetrieval, ApiErrorResponse>(
                    FileRetrieval::Elsewhere { provider_file_id },
                ),
                _ => r == Err::<FileRetrieval, ApiErrorResponse>(ApiErrorResponse::FileNotFound),
            },
        },
{
    match found {
        None => Ok(FileRetrieval::Nothing),
        Some(Err(_)) => Err(ApiErrorResponse::FileNotFound),
        Some(Ok(file_metadata_object)) => {
            let (provider, provider_file_id) = match (
                file_metadata_object.file_upload_provider,
                file_metadata_object.provider_file_id,
            ) {
                (Some(provider), Some(provider_file_id)) => (provider, provider_file_id),
                _ => {
                    return Err(ApiErrorResponse::FileNotFound);
                },
            };
            match provider {
                FileUploadProvider::Router => Ok(FileRetrieval::Fetch { provider_file_id }),
                _ => Ok(FileRetrieval::Elsewhere { provider_file_id }),
            }
        },
    }
}

/// The provider a connector is when it keeps files itself.
pub open spec fn provider_of(connector: Connector) -> Option<FileUploadProvider> {
    match connector {
        Connector::Stripe => Some(FileUploadProvider::Stripe),
        Connector::Checkout => Some(FileUploadProvider::Checkout),
        _ => None,
    }
}

/// The provider a connector is when it keeps files itself; a connector that
/// keeps none is the not-supported error.
pub fn file_upload_provider(connector: &Connector) -> (r: Result<FileUploadProvider, ApiErrorResponse>)
    ensures
        match provider_of(*connector) {
            Some(provider) => r == Ok::<FileUploadProvider, ApiErrorResponse>(provider),
            None => r matches Err(ApiErrorResponse::NotSupported { message }) && message@
                == "Connector not supported as file provider"@,
        },
{
    match connector {
        Connector::Stripe => Ok(FileUploadProvider::Stripe),
        Connector::Checkout => Ok(FileUploadProvider::Checkout),
        _ => Err(
            ApiErrorResponse::NotSupported {
                message: String::from_str("Connector not supported as file provider"),
            },
        ),
    }
}

/// The failure a connector answered with, handed to the caller as it came:
/// code, message, status and reason unchanged, beside the connector's name.
pub fn external_connector_error(err: ErrorResponse, connector: String) -> (r: ApiErrorResponse)
    ensures
        r == (ApiErrorResponse::ExternalConnectorError {
            code: err.code,
            message: err.message,
            connector,
            status_code: err.status_code,
            reason: err.reason,
        }),
{
    ApiErrorResponse::ExternalConnectorError {
        code: err.code,
        message: err.message,
        connector,
        status_code: err.status_code,
        reason: err.reason,
    }
}

/// What a connector answered to an upload.
#[derive(Clone, Debug, PartialEq)]
pub struct UploadFileResponse {
    pub provider_file_id: String,
}

/// How an upload went, by the place the file was sent to.
pub enum UploadOutcome {
    /// The connector keeps files: the round trip to it, and in it the
    /// connector's answer.
    Connector(Result<Result<UploadFileResponse, ErrorResponse>, ConnectorError>),
    /// The router keeps the file under `file_key`: the outcome of storing it.
    Router { file_key: String, stored: Result<(), ApiErrorResponse> },
}

/// The step an upload to a connector takes: the file is always sent.
pub fn upload_step<Req, Res>(router_data: RouterData<Req, Res>) -> (r: ConnectorStep<
    RouterData<Req, Res>,
>)
    ensures
        r == ConnectorStep::Send(router_data),
{
    ConnectorStep::Send(router_data)
}

/// The id and the provider of an uploaded file.
///
/// A file sent to the connector is kept under the id the connector answered
/// with, and the connector is its provider. A round trip that failed is the
/// internal error; a refusal of the connector is handed on unchanged as the
/// external-connector error under the dispute's connector name; a connector
/// that is no file provider is the not-supported error. A file kept by the
/// router is kept under its key, and a failure to store it is the failure of
/// the upload.
pub fn upload_and_get_provider_provider_file_id(
    connector: &ConnectorData,
    dispute: &Dispute,
    outcome: UploadOutcome,
) -> (r: Result<(String, FileUploadProvider), ApiErrorResponse>)
    ensures
        match outcome {
            UploadOutcome::Connector(Err(_)) => r == Err::<
                (String, FileUploadProvider),
                ApiErrorResponse,
            >(ApiErrorResponse::InternalServerError),
            UploadOutcome::Connector(Ok(Err(err))) => r matches Err(
                ApiErrorResponse::ExternalConnectorError {
                    code,
                    message,
                    connector: name,
                    status_code,
                    reason,
                },
            ) && code == err.code && message == err.message && name == dispute.connector
                && status_code == err.status_code && reason == err.reason,
            UploadOutcome::Connector(Ok(Ok(response))) => match provider_of(connector.connector_name) {
                Some(provider) => r == Ok::<(String, FileUploadProvider), ApiErrorResponse>(
                    (response.provider_file_id, provider),
                ),
                None => r matches Err(ApiErrorResponse::NotSupported { message }) && message@
                    == "Connector not supported as file provider"@,
            },
            UploadOutcome::Router { file_key, stored: Ok(()) } => r == Ok::<
                (String, FileUploadProvider),
                ApiErrorResponse,
            >((file_key, FileUploadProvider::Router)),
            UploadOutcome::Router { file_key, stored: Err(e) } => r == Err::<
                (String, FileUploadProvider),
                ApiErrorResponse,
            >(e),
        },
{
    match outcome {
        UploadOutcome::Connector(Err(_)) => Err(ApiErrorResponse::InternalServerError),
        UploadOutcome::Connector(Ok(Err(err))) => Err(
            external_connector_error(err, dispute.connector.clone()),
        ),
        UploadOutcome::Connector(Ok(Ok(upload_file_response))) => {
            match file_upload_provider(&connector.connector_name) {
                Ok(provider) => Ok((upload_file_response.provider_file_id, provider)),
                Err(e) => Err(e),
            }
        },
        UploadOutcome::Router { file_key, stored } => match stored {
            Ok(()) => Ok((file_key, FileUploadProvider::Router)),
            Err(e) => Err(e),
        },
    }
}

} // verus!
