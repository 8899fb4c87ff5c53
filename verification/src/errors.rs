//! The error kinds the core reports to its callers, and the error a
//! connector reports to the core.

use vstd::prelude::*;
use vstd::string::*;

verus! {

/// What an operation can fail with. Validation and not-found kinds name what
/// was wrong; storage failures, undecodable persisted configuration and broken
/// invariants all surface as the one opaque `InternalServerError`; a
/// connector's own failure is passed on unchanged in `ExternalConnectorError`.
#[derive(Clone, Debug, PartialEq, Eq)]
#[allow(inconsistent_fields)]
pub enum ApiErrorResponse {
    InternalServerError,
    NotImplemented,
    PaymentNotFound,
    AddressNotFound,
    MerchantConnectorAccountNotFound,
    ResourceIdNotFound,
    ClientSecretInvalid,
    MissingRequiredField { field_name: String },
    InvalidDataValue { field_name: String },
    InvalidRequestData { message: String },
    MissingDisputeId,
    DisputeNotFound { dispute_id: String },
    FileValidationFailed { reason: String },
    FileNotFound,
    FileNotAvailable,
    NotSupported { message: String },
    ExternalConnectorError {
        code: String,
        message: String,
        connector: String,
        status_code: u16,
        reason: Option<String>,
    },
}

impl ApiErrorResponse {
    /// The error for a required field that is absent.
    pub fn missing_required_field(field_name: &str) -> (r: ApiErrorResponse)
        ensures
            r matches ApiErrorResponse::MissingRequiredField { field_name: f } && f@ == field_name@,
    {
        ApiErrorResponse::MissingRequiredField { field_name: String::from_str(field_name) }
    }

    /// The error for a field whose stored value cannot be used.
    pub fn invalid_data_value(field_name: &str) -> (r: ApiErrorResponse)
        ensures
            r matches ApiErrorResponse::InvalidDataValue { field_name: f } && f@ == field_name@,
    {
        ApiErrorResponse::InvalidDataValue { field_name: String::from_str(field_name) }
    }

    /// Whether this is the missing-field error for `field_name`.
    pub open spec fn is_missing_field(self, field_name: Seq<char>) -> bool {
        self matches ApiErrorResponse::MissingRequiredField { field_name: f } && f@ == field_name
    }

    /// Whether this is the invalid-value error for `field_name`.
    pub open spec fn is_invalid_value(self, field_name: Seq<char>) -> bool {
        self matches ApiErrorResponse::InvalidDataValue { field_name: f } && f@ == field_name
    }
}

/// What the storage interface can fail with.
#[derive(Clone, Copy, Debug, PartialEq, Eq, Structural)]
pub enum StorageError {
    /// The record asked for is absent.
    ValueNotFound,
    /// Anything else: the store is unreachable, the write conflicted.
    DatabaseError,
}

/// What a connector's adapter can fail with before or after the round trip.
#[derive(Clone, Debug, PartialEq, Eq)]
pub enum ConnectorError {
    FileValidationFailed { reason: String },
    InvalidConnectorName,
    ProcessingStepFailed,
    NotImplemented,
}

/// The failure a connector answered with: its own code, message, status and
/// reason.
#[derive(Debug, PartialEq, Eq)]
pub struct ErrorResponse {
    pub code: String,
    pub message: String,
    pub reason: Option<String>,
    pub status_code: u16,
}

impl Clone for ErrorResponse {
    fn clone(&self) -> (r: Self)
        ensures
            r == *self,
    {
        ErrorResponse {
            code: self.code.clone(),
            message: self.message.clone(),
            reason: self.reason.clone(),
            status_code: self.status_code,
        }
    }
}

impl ErrorResponse {
    /// The placeholder that fills a response slot before any connector has
    /// answered.
    pub open spec fn is_placeholder(self) -> bool {
        &&& self.code@ == "HE_00"@
        &&& self.message@ == "Something went wrong"@
        &&& self.reason is None
        &&& self.status_code == 500
    }

    /// The placeholder that fills a response slot before any connector has
    /// answered.
    pub fn placeholder() -> (r: ErrorResponse)
        ensures
            r.is_placeholder(),
    {
        ErrorResponse {
            code: String::from_str("HE_00"),
            message: String::from_str("Something went wrong"),
            reason: None,
            status_code: 500,
        }
    }
}

/// Turns a storage failure into the error an operation reports: an absent
/// record becomes `not_found`, the domain's own not-found kind, and every
/// other failure the internal error.
pub fn to_not_found_response(error: StorageError, not_found: ApiErrorResponse) -> (r:
    ApiErrorResponse)
    ensures
        error == StorageError::ValueNotFound ==> r == not_found,
        error != StorageError::ValueNotFound ==> r == ApiErrorResponse::InternalServerError,
{
    match error {
        StorageError::ValueNotFound => not_found,
        StorageError::DatabaseError => ApiErrorResponse::InternalServerError,
    }
}

} // verus!
