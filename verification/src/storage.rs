//! The durable records the core reads and writes through the storage
//! interface, with persisted JSON fields already decoded.

use vstd::prelude::*;
use crate::enums::{
    AttemptStatus, AuthenticationType, CaptureMethod, FileUploadProvider, FutureUsage, HttpMethod,
    IntentStatus, MerchantStorageScheme, PaymentExperience, PaymentMethod, PaymentMethodType,
    StoredRefundStatus,
};
use crate::json::Decoded;

verus! {

/// One line of an order.
#[derive(Debug, PartialEq)]
pub struct OrderDetails {
    pub product_name: String,
    pub quantity: u16,
}

impl Clone for OrderDetails {
    fn clone(&self) -> (r: Self)
        ensures
            r == *self,
    {
        OrderDetails {
            product_name: self.product_name.clone(),
            quantity: self.quantity,
        }
    }
}

/// What the core reads out of an intent's metadata document.
#[derive(Clone, Debug, PartialEq)]
pub struct Metadata {
    pub order_details: Option<OrderDetails>,
    pub allowed_payment_method_types: Option<Vec<PaymentMethodType>>,
}

/// An intent's metadata: the document as the merchant sent it, and what the
/// core reads out of it (`None` where the document does not have that shape).
#[derive(Clone, Debug, PartialEq)]
pub struct MetadataRecord {
    pub value: serde_json::Value,
    pub parsed: Option<Metadata>,
}

/// The merchant-level record of a payment.
#[derive(Clone, Debug, PartialEq)]
pub struct PaymentIntent {
    pub payment_id: String,
    pub merchant_id: String,
    pub status: IntentStatus,
    pub amount: i64,
    pub currency: Option<String>,
    pub amount_captured: Option<i64>,
    pub customer_id: Option<String>,
    pub description: Option<String>,
    pub return_url: Option<String>,
    pub metadata: Option<MetadataRecord>,
    pub statement_descriptor_name: Option<String>,
    pub statement_descriptor_suffix: Option<String>,
    pub created_at: time::PrimitiveDateTime,
    pub setup_future_usage: Option<FutureUsage>,
    pub client_secret: Option<String>,
    pub shipping_address_id: Option<String>,
    pub billing_address_id: Option<String>,
    pub business_country: String,
    pub business_label: String,
}

/// What a browser told the merchant about itself.
#[derive(Debug, PartialEq)]
pub struct BrowserInformation {
    pub color_depth: u8,
    pub java_enabled: bool,
    pub java_script_enabled: bool,
    pub language: String,
    pub screen_height: u32,
    pub screen_width: u32,
    pub time_zone: i32,
    pub ip_address: Option<String>,
    pub accept_header: String,
    pub user_agent: String,
}

impl Clone for BrowserInformation {
    fn clone(&self) -> (r: Self)
        ensures
            r == *self,
    {
        BrowserInformation {
            color_depth: self.color_depth,
            java_enabled: self.java_enabled,
            java_script_enabled: self.java_script_enabled,
            language: self.language.clone(),
            screen_height: self.screen_height,
            screen_width: self.screen_width,
            time_zone: self.time_zone,
            ip_address: self.ip_address.clone(),
            accept_header: self.accept_header.clone(),
            user_agent: self.user_agent.clone(),
        }
    }
}

/// One connector-directed try at fulfilling an intent.
#[derive(Clone, Debug, PartialEq)]
pub struct PaymentAttempt {
    pub payment_id: String,
    pub merchant_id: String,
    pub attempt_id: String,
    pub status: AttemptStatus,
    pub amount: i64,
    pub currency: Option<String>,
    pub connector: Option<String>,
    pub error_message: Option<String>,
    pub error_code: Option<String>,
    pub payment_method_id: Option<String>,
    pub payment_method: Option<PaymentMethod>,
    pub payment_method_type: Option<PaymentMethodType>,
    pub payment_experience: Option<PaymentExperience>,
    pub connector_transaction_id: Option<String>,
    pub capture_method: Option<CaptureMethod>,
    pub confirm: bool,
    pub authentication_type: Option<AuthenticationType>,
    pub cancellation_reason: Option<String>,
    pub amount_to_capture: Option<i64>,
    pub mandate_id: Option<String>,
    pub browser_info: Option<Decoded<BrowserInformation>>,
    pub payment_token: Option<String>,
    pub connector_metadata: Option<serde_json::Value>,
    pub business_sub_label: Option<String>,
}

/// The form a browser is sent to a connector with.
#[derive(Clone, Debug, PartialEq)]
pub struct RedirectForm {
    pub url: String,
    pub method: HttpMethod,
    pub form_fields: Vec<(String, String)>,
}

/// What the last connector call left behind for an attempt.
#[derive(Clone, Debug, PartialEq)]
pub struct ConnectorResponse {
    pub payment_id: String,
    pub merchant_id: String,
    pub attempt_id: String,
    pub connector_name: Option<String>,
    pub connector_transaction_id: Option<String>,
    pub authentication_data: Option<Decoded<RedirectForm>>,
    pub encoded_data: Option<String>,
}

/// A refund as it is persisted.
#[derive(Clone, Debug, PartialEq)]
pub struct Refund {
    pub refund_id: String,
    pub payment_id: String,
    pub refund_amount: i64,
    pub currency: String,
    pub refund_reason: Option<String>,
    pub refund_status: StoredRefundStatus,
    pub metadata: Option<serde_json::Value>,
    pub refund_error_message: Option<String>,
    pub refund_error_code: Option<String>,
    pub created_at: time::PrimitiveDateTime,
    pub updated_at: time::PrimitiveDateTime,
}

/// A customer of a merchant.
#[derive(Debug, PartialEq)]
pub struct Customer {
    pub customer_id: String,
    pub merchant_id: String,
    pub name: Option<String>,
    pub email: Option<String>,
    pub phone: Option<String>,
    pub phone_country_code: Option<String>,
}

impl Clone for Customer {
    fn clone(&self) -> (r: Self)
        ensures
            r == *self,
    {
        Customer {
            customer_id: self.customer_id.clone(),
            merchant_id: self.merchant_id.clone(),
            name: self.name.clone(),
            email: self.email.clone(),
            phone: self.phone.clone(),
            phone_country_code: self.phone_country_code.clone(),
        }
    }
}

/// An address as it is persisted.
#[derive(Clone, Debug, PartialEq)]
pub struct Address {
    pub address_id: String,
    pub city: Option<String>,
    pub country: Option<String>,
    pub line1: Option<String>,
    pub line2: Option<String>,
    pub line3: Option<String>,
    pub state: Option<String>,
    pub zip: Option<String>,
    pub first_name: Option<String>,
    pub last_name: Option<String>,
    pub phone_number: Option<String>,
    pub country_code: Option<String>,
}

/// The merchant's configured rule for choosing a connector. Only the rule
/// that names one connector exists.
#[derive(Clone, Debug, PartialEq)]
pub enum RoutingAlgorithm {
    Single(String),
}

/// The merchant on whose behalf an operation runs.
#[derive(Clone, Debug, PartialEq)]
pub struct MerchantAccount {
    pub merchant_id: String,
    pub storage_scheme: MerchantStorageScheme,
    pub routing_algorithm: Option<Decoded<RoutingAlgorithm>>,
}

/// The credentials a merchant holds with a connector.
#[derive(Debug, PartialEq)]
pub enum ConnectorAuthType {
    HeaderKey { api_key: String },
    BodyKey { api_key: String, key1: String },
    SignatureKey { api_key: String, key1: String, api_secret: String },
    NoKey,
}

impl Clone for ConnectorAuthType {
    fn clone(&self) -> (r: Self)
        ensures
            r == *self,
    {
        match self {
            ConnectorAuthType::HeaderKey { api_key } => ConnectorAuthType::HeaderKey {
                api_key: api_key.clone(),
            },
            ConnectorAuthType::BodyKey { api_key, key1 } => ConnectorAuthType::BodyKey {
                api_key: api_key.clone(),
                key1: key1.clone(),
            },
            ConnectorAuthType::SignatureKey { api_key, key1, api_secret } => {
                ConnectorAuthType::SignatureKey {
                    api_key: api_key.clone(),
                    key1: key1.clone(),
                    api_secret: api_secret.clone(),
                }
            },
            ConnectorAuthType::NoKey => ConnectorAuthType::NoKey,
        }
    }
}

/// One entry of the payment methods a merchant enabled at a connector.
#[derive(Clone, Debug, PartialEq, Default)]
pub struct PaymentMethodEnabled {
    payment_method: String,
}

impl PaymentMethodEnabled {
    pub closed spec fn payment_method_view(self) -> Seq<char> {
        self.payment_method@
    }

    pub fn new(payment_method: String) -> (r: PaymentMethodEnabled)
        ensures
            r.payment_method_view() == payment_method@,
    {
        PaymentMethodEnabled { payment_method }
    }

    pub fn payment_method(&self) -> (r: &String)
        ensures
            r@ == self.payment_method_view(),
    {
        &self.payment_method
    }
}

/// A merchant's account with one connector.
#[derive(Clone, Debug, PartialEq)]
pub struct MerchantConnectorAccount {
    pub merchant_id: String,
    pub connector_name: String,
    pub connector_account_details: Decoded<ConnectorAuthType>,
    pub payment_methods_enabled: Option<Vec<Decoded<PaymentMethodEnabled>>>,
    pub metadata: Option<serde_json::Value>,
}

/// A dispute as it is persisted.
#[derive(Clone, Debug, PartialEq)]
pub struct Dispute {
    pub dispute_id: String,
    pub payment_id: String,
    pub attempt_id: String,
    pub merchant_id: String,
    pub connector: String,
}

/// What is recorded about an uploaded file.
#[derive(Clone, Debug, PartialEq)]
pub struct FileMetadata {
    pub file_id: String,
    pub merchant_id: String,
    pub provider_file_id: Option<String>,
    pub file_upload_provider: Option<FileUploadProvider>,
    pub available: bool,
}

/// A follow-up task handed to the scheduler.
#[derive(Clone, Debug, PartialEq)]
pub struct ProcessTrackerNew {
    pub id: String,
    pub name: String,
    pub runner: String,
    pub tracking_data: crate::api::PaymentsRetrieveRequest,
    pub schedule_time: time::PrimitiveDateTime,
}

/// A credential a connector issued, with the seconds it stays valid.
#[derive(Debug, PartialEq)]
pub struct AccessToken {
    pub token: String,
    pub expires: i64,
}

impl Clone for AccessToken {
    fn clone(&self) -> (r: Self)
        ensures
            r == *self,
    {
        AccessToken {
            token: self.token.clone(),
            expires: self.expires,
        }
    }
}

} // verus!
