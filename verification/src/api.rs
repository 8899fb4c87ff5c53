//! The request and response shapes exchanged with the merchant-facing layer.

use vstd::prelude::*;
use crate::errors::ApiErrorResponse;
use crate::enums::{
    AuthenticationType, CaptureMethod, Connector, FilePurpose, FutureUsage, GetToken, HttpMethod,
    IntentStatus, NextActionType, PaymentExperience, PaymentMethod, PaymentMethodType,
    RefundStatus, SupportedWallets,
};
use crate::storage::RedirectForm;

verus! {

/// How a request names the payment it is about.
#[derive(Clone, Debug, PartialEq)]
pub enum PaymentIdType {
    PaymentIntentId(String),
    ConnectorTransactionId(String),
    PaymentAttemptId(String),
}

/// A request to look a payment up, also the payload of a follow-up sync task.
#[derive(Clone, Debug, PartialEq)]
pub struct PaymentsRetrieveRequest {
    pub resource_id: PaymentIdType,
    pub merchant_id: Option<String>,
    pub force_sync: bool,
    pub param: Option<String>,
    pub connector: Option<String>,
}

/// A request for the session tokens of a payment's wallets.
#[derive(Clone, Debug, PartialEq)]
pub struct PaymentsSessionRequest {
    pub payment_id: String,
    pub client_secret: String,
    pub wallets: Vec<SupportedWallets>,
}

/// An amount in the currency's minor unit; zero has a form of its own.
#[derive(Clone, Copy, Debug, PartialEq, Eq, Structural)]
pub enum Amount {
    Value(i64),
    Zero,
}

impl Amount {
    /// The amount as a number.
    pub open spec fn value(self) -> i64 {
        match self {
            Amount::Value(v) => v,
            Amount::Zero => 0,
        }
    }

    /// The form of a number: `Zero` for zero, `Value` for every other number.
    pub open spec fn of(amount: i64) -> Amount {
        if amount == 0 {
            Amount::Zero
        } else {
            Amount::Value(amount)
        }
    }

    /// The form of a number: `Zero` for zero, `Value` for every other number.
    pub fn from_i64(amount: i64) -> (r: Amount)
        ensures
            r == Amount::of(amount),
    {
        if amount == 0 {
            Amount::Zero
        } else {
            Amount::Value(amount)
        }
    }

    /// The amount as a number.
    pub fn to_i64(self) -> (r: i64)
        ensures
            r == self.value(),
    {
        match self {
            Amount::Value(v) => v,
            Amount::Zero => 0,
        }
    }
}

/// A connector together with the place its session tokens come from.
#[derive(Clone, Copy, Debug, PartialEq, Eq, Structural)]
pub struct ConnectorData {
    pub connector_name: Connector,
    pub get_token: GetToken,
}

impl ConnectorData {
    /// What a name resolves to: the connector of that name with the given
    /// token source, or nothing where no connector carries the name.
    pub open spec fn by_name_spec(name: Seq<char>, get_token: GetToken) -> Option<ConnectorData> {
        match Connector::from_name_spec(name) {
            Some(connector_name) => Some(ConnectorData { connector_name, get_token }),
            None => None,
        }
    }

    /// Resolves a connector by name. A name that no connector carries is a
    /// broken configuration and reported as the internal error.
    pub fn get_connector_by_name(name: &str, get_token: GetToken) -> (r: Result<
        ConnectorData,
        ApiErrorResponse,
    >)
        ensures
            match Self::by_name_spec(name@, get_token) {
                Some(data) => r == Ok::<ConnectorData, ApiErrorResponse>(data),
                None => r == Err::<ConnectorData, ApiErrorResponse>(
                    ApiErrorResponse::InternalServerError,
                ),
            },
    {
        match Connector::from_name(name) {
            Some(connector_name) => Ok(ConnectorData { connector_name, get_token }),
            None => Err(ApiErrorResponse::InternalServerError),
        }
    }
}

/// Which connector or connectors an operation is dispatched to.
#[derive(Clone, Debug, PartialEq)]
pub enum ConnectorCallType {
    /// Left to the merchant's routing configuration.
    Routing,
    /// Several connectors at once; the list is final.
    Multiple(Vec<ConnectorData>),
    /// Exactly this connector.
    Single(ConnectorData),
}

/// The parts of an address.
#[derive(Debug, PartialEq)]
pub struct AddressDetails {
    pub city: Option<String>,
    pub country: Option<String>,
    pub line1: Option<String>,
    pub line2: Option<String>,
    pub line3: Option<String>,
    pub zip: Option<String>,
    pub state: Option<String>,
    pub first_name: Option<String>,
    pub last_name: Option<String>,
}

impl Clone for AddressDetails {
    fn clone(&self) -> (r: Self)
        ensures
            r == *self,
    {
        AddressDetails {
            city: self.city.clone(),
            country: self.country.clone(),
            line1: self.line1.clone(),
            line2: self.line2.clone(),
            line3: self.line3.clone(),
            zip: self.zip.clone(),
            state: self.state.clone(),
            first_name: self.first_name.clone(),
            last_name: self.last_name.clone(),
        }
    }
}

/// A phone number.
#[derive(Debug, PartialEq)]
pub struct PhoneDetails {
    pub number: Option<String>,
    pub country_code: Option<String>,
}

impl Clone for PhoneDetails {
    fn clone(&self) -> (r: Self)
        ensures
            r == *self,
    {
        PhoneDetails {
            number: self.number.clone(),
            country_code: self.country_code.clone(),
        }
    }
}

/// An address as it is shown to the merchant and to connectors.
#[derive(Debug, PartialEq)]
pub struct Address {
    pub address: Option<AddressDetails>,
    pub phone: Option<PhoneDetails>,
}

impl Clone for Address {
    fn clone(&self) -> (r: Self)
        ensures
            r == *self,
    {
        Address {
            address: self.address.clone(),
            phone: self.phone.clone(),
        }
    }
}

/// A card as the customer entered it.
#[derive(Debug, PartialEq)]
pub struct Card {
    pub card_number: String,
    pub card_exp_month: String,
    pub card_exp_year: String,
    pub card_holder_name: String,
    pub card_cvc: String,
}

impl Clone for Card {
    fn clone(&self) -> (r: Self)
        ensures
            r == *self,
    {
        Card {
            card_number: self.card_number.clone(),
            card_exp_month: self.card_exp_month.clone(),
            card_exp_year: self.card_exp_year.clone(),
            card_holder_name: self.card_holder_name.clone(),
            card_cvc: self.card_cvc.clone(),
        }
    }
}

/// A wallet's payment token.
#[derive(Debug, PartialEq)]
pub struct WalletData {
    pub issuer_name: String,
    pub token: Option<String>,
}

impl Clone for WalletData {
    fn clone(&self) -> (r: Self)
        ensures
            r == *self,
    {
        WalletData {
            issuer_name: self.issuer_name.clone(),
            token: self.token.clone(),
        }
    }
}

/// The instrument a payment is made with, as the customer supplied it.
#[derive(Debug, PartialEq)]
pub enum PaymentMethodData {
    Card(Card),
    Wallet(WalletData),
    PayLater,
    BankTransfer,
    Paypal,
}

impl Clone for PaymentMethodData {
    fn clone(&self) -> (r: Self)
        ensures
            r == *self,
    {
        match self {
            PaymentMethodData::Card(card) => PaymentMethodData::Card(card.clone()),
            PaymentMethodData::Wallet(wallet) => PaymentMethodData::Wallet(wallet.clone()),
            PaymentMethodData::PayLater => PaymentMethodData::PayLater,
            PaymentMethodData::BankTransfer => PaymentMethodData::BankTransfer,
            PaymentMethodData::Paypal => PaymentMethodData::Paypal,
        }
    }
}

/// What of a card is shown back to the merchant.
#[derive(Clone, Debug, PartialEq)]
pub struct CardResponse {
    pub last4: String,
    pub exp_month: String,
    pub exp_year: String,
}

/// What of the instrument is shown back to the merchant.
#[derive(Clone, Debug, PartialEq)]
pub enum PaymentMethodDataResponse {
    Card(CardResponse),
    Wallet(WalletData),
    PayLater,
    BankTransfer,
    Paypal,
}

/// The mandate a payment is charged against.
#[derive(Debug, PartialEq)]
pub struct MandateIds {
    pub mandate_id: String,
    pub connector_mandate_id: Option<String>,
}

impl Clone for MandateIds {
    fn clone(&self) -> (r: Self)
        ensures
            r == *self,
    {
        MandateIds {
            mandate_id: self.mandate_id.clone(),
            connector_mandate_id: self.connector_mandate_id.clone(),
        }
    }
}

/// The terms of a mandate that a payment sets up.
#[derive(Debug, PartialEq)]
pub struct MandateData {
    pub accepted_at: Option<time::PrimitiveDateTime>,
    pub ip_address: Option<String>,
    pub user_agent: Option<String>,
    pub single_use_amount: Option<i64>,
    pub multi_use_amount: Option<i64>,
}

impl Clone for MandateData {
    fn clone(&self) -> (r: Self)
        ensures
            r == *self,
    {
        MandateData {
            accepted_at: self.accepted_at.clone(),
            ip_address: self.ip_address.clone(),
            user_agent: self.user_agent.clone(),
            single_use_amount: self.single_use_amount,
            multi_use_amount: self.multi_use_amount,
        }
    }
}

/// A session token one connector issued for a wallet.
#[derive(Debug, PartialEq)]
pub enum SessionToken {
    Gpay { data: String },
    Klarna { session_token: String, session_id: String },
    Paypal { session_token: String },
    Applepay { session_token_data: String },
}

impl Clone for SessionToken {
    fn clone(&self) -> (r: Self)
        ensures
            r == *self,
    {
        match self {
            SessionToken::Gpay { data } => SessionToken::Gpay { data: data.clone() },
            SessionToken::Klarna { session_token, session_id } => SessionToken::Klarna {
                session_token: session_token.clone(),
                session_id: session_id.clone(),
            },
            SessionToken::Paypal { session_token } => SessionToken::Paypal {
                session_token: session_token.clone(),
            },
            SessionToken::Applepay { session_token_data } => SessionToken::Applepay {
                session_token_data: session_token_data.clone(),
            },
        }
    }
}

/// What the customer has to do next.
#[derive(Clone, Debug, PartialEq)]
pub struct NextAction {
    pub next_action_type: NextActionType,
    pub redirect_to_url: Option<String>,
}

/// A refund as it is shown to the merchant.
#[derive(Clone, Debug, PartialEq)]
pub struct RefundResponse {
    pub refund_id: String,
    pub payment_id: String,
    pub amount: i64,
    pub currency: String,
    pub reason: Option<String>,
    pub status: RefundStatus,
    pub metadata: Option<serde_json::Value>,
    pub error_message: Option<String>,
    pub error_code: Option<String>,
    pub created_at: Option<time::PrimitiveDateTime>,
    pub updated_at: Option<time::PrimitiveDateTime>,
}

/// The payment-status payload.
#[derive(Clone, Debug, PartialEq)]
pub struct PaymentsResponse {
    pub payment_id: Option<String>,
    pub merchant_id: Option<String>,
    pub status: IntentStatus,
    pub amount: i64,
    pub amount_capturable: Option<i64>,
    pub amount_received: Option<i64>,
    pub connector: Option<String>,
    pub client_secret: Option<String>,
    pub created: Option<time::PrimitiveDateTime>,
    pub currency: String,
    pub customer_id: Option<String>,
    pub description: Option<String>,
    pub refunds: Option<Vec<RefundResponse>>,
    pub mandate_id: Option<String>,
    pub payment_method: Option<PaymentMethod>,
    pub payment_method_data: Option<PaymentMethodDataResponse>,
    pub payment_token: Option<String>,
    pub shipping: Option<Address>,
    pub billing: Option<Address>,
    pub email: Option<String>,
    pub name: Option<String>,
    pub phone: Option<String>,
    pub return_url: Option<String>,
    pub authentication_type: Option<AuthenticationType>,
    pub statement_descriptor_name: Option<String>,
    pub statement_descriptor_suffix: Option<String>,
    pub setup_future_usage: Option<FutureUsage>,
    pub capture_method: Option<CaptureMethod>,
    pub next_action: Option<NextAction>,
    pub cancellation_reason: Option<String>,
    pub error_code: Option<String>,
    pub error_message: Option<String>,
    pub payment_experience: Option<PaymentExperience>,
    pub payment_method_type: Option<PaymentMethodType>,
    pub connector_label: Option<String>,
    pub business_country: Option<String>,
    pub business_label: Option<String>,
    pub business_sub_label: Option<String>,
    pub allowed_payment_method_types: Option<Vec<PaymentMethodType>>,
    pub metadata: Option<serde_json::Value>,
}

/// The payload of a session-token fetch.
#[derive(Clone, Debug, PartialEq)]
pub struct PaymentsSessionResponse {
    pub payment_id: String,
    pub client_secret: String,
    pub session_token: Vec<SessionToken>,
}

/// The payload of a payment-method verification.
#[derive(Clone, Debug, PartialEq)]
pub struct VerifyResponse {
    pub verify_id: Option<String>,
    pub merchant_id: Option<String>,
    pub client_secret: Option<String>,
    pub customer_id: Option<String>,
    pub email: Option<String>,
    pub name: Option<String>,
    pub phone: Option<String>,
    pub mandate_id: Option<String>,
    pub payment_method: Option<PaymentMethod>,
    pub payment_method_data: Option<PaymentMethodDataResponse>,
    pub payment_token: Option<String>,
    pub error_code: Option<String>,
    pub error_message: Option<String>,
}

/// The bounds of a payment listing.
#[derive(Clone, Debug, PartialEq)]
pub struct PaymentListConstraints {
    pub customer_id: Option<String>,
    pub starting_after: Option<String>,
    pub ending_before: Option<String>,
    pub limit: i64,
}

/// A page of payments.
#[derive(Clone, Debug, PartialEq)]
pub struct PaymentListResponse {
    pub size: usize,
    pub data: Vec<PaymentsResponse>,
}

/// Where the customer's browser is sent after a connector's redirect.
#[derive(Clone, Debug, PartialEq)]
pub struct RedirectionResponse {
    pub return_url: String,
    pub params: Vec<(String, String)>,
    pub return_url_with_query_params: String,
    pub http_method: HttpMethod,
    pub headers: Vec<(String, String)>,
}

/// The shapes handed to the HTTP layer, which turns them into transport
/// responses.
#[derive(Clone, Debug, PartialEq)]
pub enum ApplicationResponse<R> {
    Json(R),
    StatusOk,
    TextPlain(String),
    JsonForRedirection(RedirectionResponse),
    Form(RedirectForm),
}

/// The server's own settings that responses are built from.
#[derive(Clone, Debug, PartialEq)]
pub struct Server {
    pub base_url: String,
}

/// A request to store a file.
#[derive(Clone, Debug, PartialEq)]
pub struct CreateFileRequest {
    pub file: Vec<u8>,
    pub file_name: Option<String>,
    pub file_size: i32,
    pub file_type: String,
    pub purpose: FilePurpose,
    pub dispute_id: Option<String>,
}

} // verus!
