//! From the final state of an operation to the payload shown to the merchant.

use vstd::prelude::*;
use vstd::string::*;
use crate::api::{
    ApplicationResponse, Card, CardResponse, NextAction, PaymentMethodData,
    PaymentMethodDataResponse, PaymentsResponse, PaymentsSessionResponse, RefundResponse, Server,
    VerifyResponse,
};
use crate::enums::{
    AuthFlow, IntentStatus, NextActionType, Operation, PaymentMethodType, RefundStatus,
    StoredRefundStatus,
};
use crate::errors::ApiErrorResponse;
use crate::helpers::{connector_label, create_startpay_url, get_connector_label, startpay_url};
use crate::json::Decoded;
use crate::payments::{is_start_pay, PaymentAddress, PaymentData};
use crate::storage::{Customer, MetadataRecord, PaymentAttempt, PaymentIntent, RedirectForm, Refund};
use crate::text::opt_view;

verus! {

/// How a persisted refund status is reported.
pub open spec fn refund_status_shown(status: StoredRefundStatus) -> RefundStatus {
    match status {
        StoredRefundStatus::Failure => RefundStatus::Failed,
        StoredRefundStatus::TransactionFailure => RefundStatus::Failed,
        StoredRefundStatus::ManualReview => RefundStatus::Review,
        StoredRefundStatus::Pending => RefundStatus::Pending,
        StoredRefundStatus::Success => RefundStatus::Succeeded,
    }
}

/// A refund as it is shown to the merchant.
pub open spec fn refund_shown(refund: Refund) -> RefundResponse {
    RefundResponse {
        refund_id: refund.refund_id,
        payment_id: refund.payment_id,
        amount: refund.refund_amount,
        currency: refund.currency,
        reason: refund.refund_reason,
        status: refund_status_shown(refund.refund_status),
        metadata: refund.metadata,
        error_message: refund.refund_error_message,
        error_code: refund.refund_error_code,
        created_at: Some(refund.created_at),
        updated_at: Some(refund.updated_at),
    }
}

/// Turns a persisted refund into the shape shown to the merchant.
pub fn refund_to_response(refund: &Refund) -> (r: RefundResponse)
    ensures
        r == refund_shown(*refund),
{
    let status = match refund.refund_status {
        StoredRefundStatus::Failure | StoredRefundStatus::TransactionFailure => RefundStatus::Failed,
        StoredRefundStatus::ManualReview => RefundStatus::Review,
        StoredRefundStatus::Pending => RefundStatus::Pending,
        StoredRefundStatus::Success => RefundStatus::Succeeded,
    };
    let metadata = match &refund.metadata {
        Some(m) => Some(m.clone()),
        None => None,
    };
    RefundResponse {
        refund_id: refund.refund_id.clone(),
        payment_id: refund.payment_id.clone(),
        amount: refund.refund_amount,
        currency: refund.currency.clone(),
        reason: refund.refund_reason.clone(),
        status,
        metadata,
        error_message: refund.refund_error_message.clone(),
        error_code: refund.refund_error_code.clone(),
        created_at: Some(refund.created_at.clone()),
        updated_at: Some(refund.updated_at.clone()),
    }
}

/// The refunds of a payload: absent where there is none, else one entry per
/// refund, in order.
pub open spec fn refunds_shown(shown: Option<Vec<RefundResponse>>, refunds: Seq<Refund>) -> bool {
    if refunds.len() == 0 {
        shown is None
    } else {
        shown matches Some(list) && list@ == refunds.map_values(|r: Refund| refund_shown(r))
    }
}

/// Turns the refunds of a payment into the shape shown to the merchant.
pub fn refunds_to_response(refunds: &Vec<Refund>) -> (r: Option<Vec<RefundResponse>>)
    ensures
        refunds_shown(r, refunds@),
{
    if refunds.len() == 0 {
        return None;
    }
    let mut list: Vec<RefundResponse> = Vec::new();
    let mut i: usize = 0;
    while i < refunds.len()
        invariant
            i <= refunds.len(),
            list@ == refunds@.take(i as int).map_values(|r: Refund| refund_shown(r)),
        decreases refunds.len() - i,
    {
        let shown = refund_to_response(&refunds[i]);
        list.push(shown);
        i += 1;
    }
    proof {
        assert(refunds@.take(refunds.len() as int) == refunds@);
    }
    Some(list)
}

/// The last four characters of a card number, or all of it where it is
/// shorter.
pub open spec fn last_four(card_number: Seq<char>) -> Seq<char> {
    if card_number.len() >= 4 {
        card_number.subrange(card_number.len() - 4, card_number.len() as int)
    } else {
        card_number
    }
}

/// Whether `shown` is what is shown back of the instrument `data`: a wallet
/// token as it is, of a card the expiry and the last four digits only.
pub open spec fn payment_method_data_shown(
    shown: PaymentMethodDataResponse,
    data: PaymentMethodData,
) -> bool {
    match data {
        PaymentMethodData::Card(card) => {
            &&& shown matches PaymentMethodDataResponse::Card(c)
            &&& c.last4@ == last_four(card.card_number@)
            &&& c.exp_month == card.card_exp_month
            &&& c.exp_year == card.card_exp_year
        },
        PaymentMethodData::Wallet(wallet) => shown == PaymentMethodDataResponse::Wallet(wallet),
        PaymentMethodData::PayLater => shown == PaymentMethodDataResponse::PayLater,
        PaymentMethodData::BankTransfer => shown == PaymentMethodDataResponse::BankTransfer,
        PaymentMethodData::Paypal => shown == PaymentMethodDataResponse::Paypal,
    }
}

/// The same for an instrument that may be absent.
pub open spec fn opt_payment_method_data_shown(
    shown: Option<PaymentMethodDataResponse>,
    data: Option<PaymentMethodData>,
) -> bool {
    match data {
        Some(d) => shown matches Some(s) && payment_method_data_shown(s, d),
        None => shown is None,
    }
}

/// Reduces an instrument to what may be shown back to the merchant.
pub fn payment_method_data_to_response(data: PaymentMethodData) -> (r: PaymentMethodDataResponse)
    ensures
        payment_method_data_shown(r, data),
{
    match data {
        PaymentMethodData::Card(card) => {
            let Card { card_number, card_exp_month, card_exp_year, card_holder_name: _, card_cvc: _ } =
                card;
            let number: &str = card_number.as_str();
            let len = number.unicode_len();
            let from: usize = if len >= 4 {
                len - 4
            } else {
                0
            };
            let tail: &str = number.substring_char(from, len);
            proof {
                assert(card_number@.subrange(0, card_number@.len() as int) == card_number@);
            }
            PaymentMethodDataResponse::Card(
                CardResponse {
                    last4: String::from_str(tail),
                    exp_month: card_exp_month,
                    exp_year: card_exp_year,
                },
            )
        },
        PaymentMethodData::Wallet(wallet) => PaymentMethodDataResponse::Wallet(wallet),
        PaymentMethodData::PayLater => PaymentMethodDataResponse::PayLater,
        PaymentMethodData::BankTransfer => PaymentMethodDataResponse::BankTransfer,
        PaymentMethodData::Paypal => PaymentMethodDataResponse::Paypal,
    }
}

/// The same for an instrument that may be absent.
pub fn opt_payment_method_data_to_response(data: Option<PaymentMethodData>) -> (r: Option<
    PaymentMethodDataResponse,
>)
    ensures
        opt_payment_method_data_shown(r, data),
{
    match data {
        Some(d) => Some(payment_method_data_to_response(d)),
        None => None,
    }
}

/// The `next_action` of a payload: the redirect to the start address while the
/// intent waits for the customer, and nothing at any other time.
pub open spec fn next_action_shown(
    shown: Option<NextAction>,
    server: Server,
    payment_attempt: PaymentAttempt,
    payment_intent: PaymentIntent,
) -> bool {
    if payment_intent.status == IntentStatus::RequiresCustomerAction {
        &&& shown matches Some(action)
        &&& action.next_action_type == NextActionType::RedirectToUrl
        &&& action.redirect_to_url matches Some(url)
        &&& url@ == startpay_url(
            server.base_url@,
            payment_intent.payment_id@,
            payment_intent.merchant_id@,
            payment_attempt.attempt_id@,
        )
    } else {
        shown is None
    }
}

/// The connector label of a payload: the label of the connector the attempt
/// was routed through, and nothing where it was not routed yet.
pub open spec fn connector_label_shown(
    shown: Option<String>,
    payment_attempt: PaymentAttempt,
    payment_intent: PaymentIntent,
) -> bool {
    match payment_attempt.connector {
        Some(name) => shown matches Some(label) && label@ == connector_label(
            payment_intent.business_country@,
            payment_intent.business_label@,
            opt_view(payment_attempt.business_sub_label),
            name@,
        ),
        None => shown is None,
    }
}

/// The customer's identifier, where a customer is known.
pub open spec fn customer_id_of(customer: Option<Customer>) -> Option<String> {
    match customer {
        Some(c) => Some(c.customer_id),
        None => None,
    }
}

/// The customer's e-mail address, where it is known.
pub open spec fn customer_email_of(customer: Option<Customer>) -> Option<String> {
    match customer {
        Some(c) => c.email,
        None => None,
    }
}

/// The customer's name, where it is known.
pub open spec fn customer_name_of(customer: Option<Customer>) -> Option<String> {
    match customer {
        Some(c) => c.name,
        None => None,
    }
}

/// The customer's phone number, where it is known.
pub open spec fn customer_phone_of(customer: Option<Customer>) -> Option<String> {
    match customer {
        Some(c) => c.phone,
        None => None,
    }
}

/// The metadata document of an intent as the merchant sent it.
pub open spec fn metadata_document(metadata: Option<MetadataRecord>) -> Option<serde_json::Value> {
    match metadata {
        Some(record) => Some(record.value),
        None => None,
    }
}

/// The payment method types the metadata of an intent allows, where it says.
pub open spec fn allowed_types(metadata: Option<MetadataRecord>) -> Option<Vec<PaymentMethodType>> {
    match metadata {
        Some(MetadataRecord { parsed: Some(m), .. }) => m.allowed_payment_method_types,
        _ => None,
    }
}

/// The payment-status payload for a request: every field taken from the
/// intent, the attempt, the customer and the addresses. The instrument and its
/// method are shown to the merchant's own server only. The parts that are
/// built rather than taken over are handed in.
pub open spec fn full_payload(
    payment_attempt: PaymentAttempt,
    payment_intent: PaymentIntent,
    customer: Option<Customer>,
    auth_flow: AuthFlow,
    address: PaymentAddress,
    refunds: Option<Vec<RefundResponse>>,
    payment_method_data: Option<PaymentMethodDataResponse>,
    next_action: Option<NextAction>,
    connector_label: Option<String>,
) -> PaymentsResponse {
    PaymentsResponse {
        payment_id: Some(payment_attempt.payment_id),
        merchant_id: Some(payment_attempt.merchant_id),
        status: payment_intent.status,
        amount: payment_attempt.amount,
        amount_capturable: None,
        amount_received: payment_intent.amount_captured,
        connector: payment_attempt.connector,
        client_secret: payment_intent.client_secret,
        created: Some(payment_intent.created_at),
        currency: payment_attempt.currency->0,
        customer_id: customer_id_of(customer),
        description: payment_intent.description,
        refunds,
        mandate_id: payment_attempt.mandate_id,
        payment_method: if auth_flow == AuthFlow::Merchant {
            payment_attempt.payment_method
        } else {
            None
        },
        payment_method_data,
        payment_token: payment_attempt.payment_token,
        shipping: address.shipping,
        billing: address.billing,
        email: customer_email_of(customer),
        name: customer_name_of(customer),
        phone: customer_phone_of(customer),
        return_url: payment_intent.return_url,
        authentication_type: payment_attempt.authentication_type,
        statement_descriptor_name: payment_intent.statement_descriptor_name,
        statement_descriptor_suffix: payment_intent.statement_descriptor_suffix,
        setup_future_usage: payment_intent.setup_future_usage,
        capture_method: payment_attempt.capture_method,
        next_action,
        cancellation_reason: payment_attempt.cancellation_reason,
        error_code: payment_attempt.error_code,
        error_message: payment_attempt.error_message,
        payment_experience: payment_attempt.payment_experience,
        payment_method_type: payment_attempt.payment_method_type,
        connector_label,
        business_country: Some(payment_intent.business_country),
        business_label: Some(payment_intent.business_label),
        business_sub_label: payment_attempt.business_sub_label,
        allowed_payment_method_types: allowed_types(payment_intent.metadata),
        metadata: metadata_document(payment_intent.metadata),
    }
}

/// The payment-status payload where there is no request to answer: the
/// identifiers, amounts, status and instrument, with everything that only a
/// request gives rise to left out.
pub open spec fn brief_payload(
    payment_attempt: PaymentAttempt,
    payment_intent: PaymentIntent,
    customer: Option<Customer>,
    address: PaymentAddress,
    refunds: Option<Vec<RefundResponse>>,
    payment_method_data: Option<PaymentMethodDataResponse>,
) -> PaymentsResponse {
    PaymentsResponse {
        payment_id: Some(payment_attempt.payment_id),
        merchant_id: Some(payment_attempt.merchant_id),
        status: payment_intent.status,
        amount: payment_attempt.amount,
        amount_capturable: None,
        amount_received: payment_intent.amount_captured,
        connector: None,
        client_secret: payment_intent.client_secret,
        created: Some(payment_intent.created_at),
        currency: payment_attempt.currency->0,
        customer_id: payment_intent.customer_id,
        description: payment_intent.description,
        refunds,
        mandate_id: payment_attempt.mandate_id,
        payment_method: payment_attempt.payment_method,
        payment_method_data,
        payment_token: payment_attempt.payment_token,
        shipping: address.shipping,
        billing: address.billing,
        email: customer_email_of(customer),
        name: customer_name_of(customer),
        phone: customer_phone_of(customer),
        return_url: None,
        authentication_type: None,
        statement_descriptor_name: None,
        statement_descriptor_suffix: None,
        setup_future_usage: None,
        capture_method: payment_attempt.capture_method,
        next_action: None,
        cancellation_reason: payment_attempt.cancellation_reason,
        error_code: payment_attempt.error_code,
        error_message: payment_attempt.error_message,
        payment_experience: None,
        payment_method_type: None,
        connector_label: None,
        business_country: None,
        business_label: None,
        business_sub_label: None,
        allowed_payment_method_types: None,
        metadata: metadata_document(payment_intent.metadata),
    }
}

/// Which shape answers an operation.
#[derive(Clone, Copy, Debug, PartialEq, Eq, Structural)]
pub enum ResponseShape {
    /// The attempt has no currency: the missing-field error.
    MissingCurrency,
    /// The recorded redirect data cannot be decoded: the internal error.
    UndecodableRedirect,
    /// The browser-redirection form.
    Form,
    /// The payment-status payload.
    Json,
}

/// The shape that answers an operation. The form is for the redirect entry
/// alone, where redirect data is recorded, with or without a request to
/// answer; every other case is the payment-status payload.
pub open spec fn response_shape(
    payment_attempt: PaymentAttempt,
    redirection_data: Option<Decoded<RedirectForm>>,
    operation: Operation,
) -> ResponseShape {
    if payment_attempt.currency is None {
        ResponseShape::MissingCurrency
    } else if operation == Operation::PaymentStart && redirection_data is Some {
        if redirection_data->0 is Valid {
            ResponseShape::Form
        } else {
            ResponseShape::UndecodableRedirect
        }
    } else {
        ResponseShape::Json
    }
}

/// Whether `r` is the answer to an operation on the given parts of an
/// aggregate: the error or the form where the shape is one of those, and
/// else the payment-status payload, full for a request and brief without
/// one.
pub open spec fn is_payments_response(
    has_request: bool,
    payment_attempt: PaymentAttempt,
    payment_intent: PaymentIntent,
    refunds: Seq<Refund>,
    payment_method_data: Option<PaymentMethodData>,
    customer: Option<Customer>,
    auth_flow: AuthFlow,
    address: PaymentAddress,
    server: Server,
    redirection_data: Option<Decoded<RedirectForm>>,
    operation: Operation,
    r: Result<ApplicationResponse<PaymentsResponse>, ApiErrorResponse>,
) -> bool {
    match response_shape(payment_attempt, redirection_data, operation) {
        ResponseShape::MissingCurrency => r matches Err(e) && e.is_missing_field("currency"@),
        ResponseShape::UndecodableRedirect => r == Err::<
            ApplicationResponse<PaymentsResponse>,
            ApiErrorResponse,
        >(ApiErrorResponse::InternalServerError),
        ResponseShape::Form => r matches Ok(ApplicationResponse::Form(form)) && redirection_data
            == Some(Decoded::Valid(form)),
        ResponseShape::Json => {
            &&& r matches Ok(ApplicationResponse::Json(payload))
            &&& refunds_shown(payload.refunds, refunds)
            &&& has_request ==> {
                &&& payload == full_payload(
                    payment_attempt,
                    payment_intent,
                    customer,
                    auth_flow,
                    address,
                    payload.refunds,
                    payload.payment_method_data,
                    payload.next_action,
                    payload.connector_label,
                )
                &&& next_action_shown(payload.next_action, server, payment_attempt, payment_intent)
                &&& connector_label_shown(payload.connector_label, payment_attempt, payment_intent)
                &&& if auth_flow == AuthFlow::Merchant {
                    opt_payment_method_data_shown(payload.payment_method_data, payment_method_data)
                } else {
                    payload.payment_method_data is None
                }
            }
            &&& !has_request ==> {
                &&& payload == brief_payload(
                    payment_attempt,
                    payment_intent,
                    customer,
                    address,
                    payload.refunds,
                    payload.payment_method_data,
                )
                &&& opt_payment_method_data_shown(payload.payment_method_data, payment_method_data)
            }
        },
    }
}

/// Maps the final state of a payment into the answer to its operation.
///
/// The redirect entry with recorded redirect data is answered with that form.
/// Everything else is answered with the payment-status payload, whose
/// `next_action` carries the redirect address exactly while the intent waits
/// for the customer.
pub fn payments_to_payments_response<R>(
    payment_request: Option<R>,
    payment_attempt: PaymentAttempt,
    payment_intent: PaymentIntent,
    refunds: Vec<Refund>,
    payment_method_data: Option<PaymentMethodData>,
    customer: Option<Customer>,
    auth_flow: AuthFlow,
    address: PaymentAddress,
    server: &Server,
    redirection_data: Option<Decoded<RedirectForm>>,
    operation: Operation,
) -> (r: Result<ApplicationResponse<PaymentsResponse>, ApiErrorResponse>)
    ensures
        is_payments_response(
            payment_request is Some,
            payment_attempt,
            payment_intent,
            refunds@,
            payment_method_data,
            customer,
            auth_flow,
            address,
            *server,
            redirection_data,
            operation,
            r,
        ),
{
    let currency = match &payment_attempt.currency {
        Some(c) => c.clone(),
        None => {
            return Err(ApiErrorResponse::missing_required_field("currency"));
        },
    };
    let refunds_response = refunds_to_response(&refunds);
    let (customer_id, email, name, phone) = match customer {
        Some(c) => (Some(c.customer_id), c.email, c.name, c.phone),
        None => (None, None, None, None),
    };
    if is_start_pay(&operation) && redirection_data.is_some() {
        return match redirection_data {
            Some(Decoded::Valid(form)) => Ok(ApplicationResponse::Form(form)),
            _ => Err(ApiErrorResponse::InternalServerError),
        };
    }
    match payment_request {
        Some(_request) => {
            let next_action = if matches!(
                payment_intent.status,
                IntentStatus::RequiresCustomerAction
            ) {
                let url = create_startpay_url(server, &payment_attempt, &payment_intent);
                Some(
                    NextAction {
                        next_action_type: NextActionType::RedirectToUrl,
                        redirect_to_url: Some(url),
                    },
                )
            } else {
                None
            };
            let connector_label = match &payment_attempt.connector {
                Some(connector_name) => Some(
                    get_connector_label(
                        payment_intent.business_country.as_str(),
                        payment_intent.business_label.as_str(),
                        payment_attempt.business_sub_label.as_ref(),
                        connector_name.as_str(),
                    ),
                ),
                None => None,
            };
            let (document, allowed) = match payment_intent.metadata {
                Some(record) => {
                    let allowed = match record.parsed {
                        Some(m) => m.allowed_payment_method_types,
                        None => None,
                    };
                    (Some(record.value), allowed)
                },
                None => (None, None),
            };
            let is_merchant_flow = matches!(auth_flow, AuthFlow::Merchant);
            Ok(
                ApplicationResponse::Json(
                    PaymentsResponse {
                        payment_id: Some(payment_attempt.payment_id),
                        merchant_id: Some(payment_attempt.merchant_id),
                        status: payment_intent.status,
                        amount: payment_attempt.amount,
                        amount_capturable: None,
                        amount_received: payment_intent.amount_captured,
                        connector: payment_attempt.connector,
                        client_secret: payment_intent.client_secret,
                        created: Some(payment_intent.created_at),
                        currency,
                        customer_id,
                        description: payment_intent.description,
                        refunds: refunds_response,
                        mandate_id: payment_attempt.mandate_id,
                        payment_method: if is_merchant_flow {
                            payment_attempt.payment_method
                        } else {
                            None
                        },
                        payment_method_data: if is_merchant_flow {
                            opt_payment_method_data_to_response(payment_method_data)
                        } else {
                            None
                        },
                        payment_token: payment_attempt.payment_token,
                        shipping: address.shipping,
                        billing: address.billing,
                        email,
                        name,
                        phone,
                        return_url: payment_intent.return_url,
                        authentication_type: payment_attempt.authentication_type,
                        statement_descriptor_name: payment_intent.statement_descriptor_name,
                        statement_descriptor_suffix: payment_intent.statement_descriptor_suffix,
                        setup_future_usage: payment_intent.setup_future_usage,
                        capture_method: payment_attempt.capture_method,
                        next_action,
                        cancellation_reason: payment_attempt.cancellation_reason,
                        error_code: payment_attempt.error_code,
                        error_message: payment_attempt.error_message,
                        payment_experience: payment_attempt.payment_experience,
                        payment_method_type: payment_attempt.payment_method_type,
                        connector_label,
                        business_country: Some(payment_intent.business_country),
                        business_label: Some(payment_intent.business_label),
                        business_sub_label: payment_attempt.business_sub_label,
                        allowed_payment_method_types: allowed,
                        metadata: document,
                    },
                ),
            )
        },
        None => {
            let document = match payment_intent.metadata {
                Some(record) => Some(record.value),
                None => None,
            };
            Ok(
                ApplicationResponse::Json(
                    PaymentsResponse {
                        payment_id: Some(payment_attempt.payment_id),
                        merchant_id: Some(payment_attempt.merchant_id),
                        status: payment_intent.status,
                        amount: payment_attempt.amount,
                        amount_capturable: None,
                        amount_received: payment_intent.amount_captured,
                        connector: None,
                        client_secret: payment_intent.client_secret,
                        created: Some(payment_intent.created_at),
                        currency,
                        customer_id: payment_intent.customer_id,
                        description: payment_intent.description,
                        refunds: refunds_response,
                        mandate_id: payment_attempt.mandate_id,
                        payment_method: payment_attempt.payment_method,
                        payment_method_data: opt_payment_method_data_to_response(payment_method_data),
                        payment_token: payment_attempt.payment_token,
                        shipping: address.shipping,
                        billing: address.billing,
                        email,
                        name,
                        phone,
                        return_url: None,
                        authentication_type: None,
                        statement_descriptor_name: None,
                        statement_descriptor_suffix: None,
                        setup_future_usage: None,
                        capture_method: payment_attempt.capture_method,
                        next_action: None,
                        cancellation_reason: payment_attempt.cancellation_reason,
                        error_code: payment_attempt.error_code,
                        error_message: payment_attempt.error_message,
                        payment_experience: None,
                        payment_method_type: None,
                        connector_label: None,
                        business_country: None,
                        business_label: None,
                        business_sub_label: None,
                        allowed_payment_method_types: None,
                        metadata: document,
                    },
                ),
            )
        },
    }
}

/// Maps the final state of an operation into a response shape.
pub trait ToResponse<Req, D, Op>: Sized {
    /// Whether `response` is the answer of this shape to the final state
    /// `data` of `operation`.
    spec fn answers(
        has_request: bool,
        data: D,
        customer: Option<Customer>,
        auth_flow: AuthFlow,
        server: Server,
        operation: Op,
        response: Result<ApplicationResponse<Self>, ApiErrorResponse>,
    ) -> bool;

    /// Builds the answer of this shape.
    fn generate_response(
        req: Option<Req>,
        data: D,
        customer: Option<Customer>,
        auth_flow: AuthFlow,
        server: &Server,
        operation: Op,
    ) -> (r: Result<ApplicationResponse<Self>, ApiErrorResponse>)
        ensures
            Self::answers(req is Some, data, customer, auth_flow, *server, operation, r),
    ;
}

impl<Req> ToResponse<Req, PaymentData, Operation> for PaymentsResponse {
    open spec fn answers(
        has_request: bool,
        data: PaymentData,
        customer: Option<Customer>,
        auth_flow: AuthFlow,
        server: Server,
        operation: Operation,
        response: Result<ApplicationResponse<Self>, ApiErrorResponse>,
    ) -> bool {
        is_payments_response(
            has_request,
            data.payment_attempt,
            data.payment_intent,
            data.refunds@,
            data.payment_method_data,
            customer,
            auth_flow,
            data.address,
            server,
            data.connector_response.authentication_data,
            operation,
            response,
        )
    }

    fn generate_response(
        req: Option<Req>,
        data: PaymentData,
        customer: Option<Customer>,
        auth_flow: AuthFlow,
        server: &Server,
        operation: Operation,
    ) -> (r: Result<ApplicationResponse<Self>, ApiErrorResponse>) {
        payments_to_payments_response(
            req,
            data.payment_attempt,
            data.payment_intent,
            data.refunds,
            data.payment_method_data,
            customer,
            auth_flow,
            data.address,
            server,
            data.connector_response.authentication_data,
            operation,
        )
    }
}

impl<Req> ToResponse<Req, PaymentData, Operation> for PaymentsSessionResponse {
    /// The session payload carries the tokens gathered so far, in order, and
    /// the intent's client secret; an intent without one is the missing-field
    /// error.
    open spec fn answers(
        has_request: bool,
        data: PaymentData,
        customer: Option<Customer>,
        auth_flow: AuthFlow,
        server: Server,
        operation: Operation,
        response: Result<ApplicationResponse<Self>, ApiErrorResponse>,
    ) -> bool {
        match data.payment_intent.client_secret {
            Some(client_secret) => response == Ok::<ApplicationResponse<Self>, ApiErrorResponse>(
                ApplicationResponse::Json(
                    PaymentsSessionResponse {
                        session_token: data.sessions_token,
                        payment_id: data.payment_attempt.payment_id,
                        client_secret,
                    },
                ),
            ),
            None => response matches Err(e) && e.is_missing_field("client_secret"@),
        }
    }

    fn generate_response(
        _req: Option<Req>,
        data: PaymentData,
        _customer: Option<Customer>,
        _auth_flow: AuthFlow,
        _server: &Server,
        _operation: Operation,
    ) -> (r: Result<ApplicationResponse<Self>, ApiErrorResponse>) {
        match data.payment_intent.client_secret {
            Some(client_secret) => Ok(
                ApplicationResponse::Json(
                    PaymentsSessionResponse {
                        session_token: data.sessions_token,
                        payment_id: data.payment_attempt.payment_id,
                        client_secret,
                    },
                ),
            ),
            None => Err(ApiErrorResponse::missing_required_field("client_secret")),
        }
    }
}

/// The verification payload: the identifiers of the customer and the mandate
/// and the instrument, whatever the operation and the flow.
pub open spec fn verify_payload(
    data: PaymentData,
    customer: Option<Customer>,
    payment_method_data: Option<PaymentMethodDataResponse>,
) -> VerifyResponse {
    VerifyResponse {
        verify_id: Some(data.payment_intent.payment_id),
        merchant_id: Some(data.payment_intent.merchant_id),
        client_secret: data.payment_intent.client_secret,
        customer_id: customer_id_of(customer),
        email: customer_email_of(customer),
        name: customer_name_of(customer),
        phone: customer_phone_of(customer),
        mandate_id: match data.mandate_id {
            Some(ids) => Some(ids.mandate_id),
            None => None,
        },
        payment_method: data.payment_attempt.payment_method,
        payment_method_data,
        payment_token: data.token,
        error_code: data.payment_attempt.error_code,
        error_message: data.payment_attempt.error_message,
    }
}

impl<Req> ToResponse<Req, PaymentData, Operation> for VerifyResponse {
    open spec fn answers(
        has_request: bool,
        data: PaymentData,
        customer: Option<Customer>,
        auth_flow: AuthFlow,
        server: Server,
        operation: Operation,
        response: Result<ApplicationResponse<Self>, ApiErrorResponse>,
    ) -> bool {
        &&& response matches Ok(ApplicationResponse::Json(payload))
        &&& payload == verify_payload(data, customer, payload.payment_method_data)
        &&& opt_payment_method_data_shown(payload.payment_method_data, data.payment_method_data)
    }

    fn generate_response(
        _req: Option<Req>,
        data: PaymentData,
        customer: Option<Customer>,
        _auth_flow: AuthFlow,
        _server: &Server,
        _operation: Operation,
    ) -> (r: Result<ApplicationResponse<Self>, ApiErrorResponse>) {
        let (customer_id, email, name, phone) = match customer {
            Some(c) => (Some(c.customer_id), c.email, c.name, c.phone),
            None => (None, None, None, None),
        };
        Ok(
            ApplicationResponse::Json(
                VerifyResponse {
                    verify_id: Some(data.payment_intent.payment_id),
                    merchant_id: Some(data.payment_intent.merchant_id),
                    client_secret: data.payment_intent.client_secret,
                    customer_id,
                    email,
                    name,
                    phone,
                    mandate_id: match data.mandate_id {
                        Some(ids) => Some(ids.mandate_id),
                        None => None,
                    },
                    payment_method: data.payment_attempt.payment_method,
                    payment_method_data: opt_payment_method_data_to_response(data.payment_method_data),
                    payment_token: data.token,
                    error_code: data.payment_attempt.error_code,
                    error_message: data.payment_attempt.error_message,
                },
            ),
        )
    }
}

/// The entry of a payment in a listing: what the intent says of it, and of
/// the attempt the connector and the payment method. The captured amount
/// stands in the capturable field.
pub open spec fn listed_payload(
    payment_intent: PaymentIntent,
    payment_attempt: PaymentAttempt,
    currency: String,
) -> PaymentsResponse {
    PaymentsResponse {
        payment_id: Some(payment_intent.payment_id),
        merchant_id: Some(payment_intent.merchant_id),
        status: payment_intent.status,
        amount: payment_intent.amount,
        amount_capturable: payment_intent.amount_captured,
        amount_received: None,
        connector: payment_attempt.connector,
        client_secret: payment_intent.client_secret,
        created: Some(payment_intent.created_at),
        currency,
        customer_id: payment_intent.customer_id,
        description: payment_intent.description,
        refunds: None,
        mandate_id: None,
        payment_method: payment_attempt.payment_method,
        payment_method_data: None,
        payment_token: None,
        shipping: None,
        billing: None,
        email: None,
        name: None,
        phone: None,
        return_url: None,
        authentication_type: None,
        statement_descriptor_name: None,
        statement_descriptor_suffix: None,
        setup_future_usage: None,
        capture_method: None,
        next_action: None,
        cancellation_reason: None,
        error_code: None,
        error_message: None,
        payment_experience: None,
        payment_method_type: payment_attempt.payment_method_type,
        connector_label: None,
        business_country: None,
        business_label: None,
        business_sub_label: None,
        allowed_payment_method_types: None,
        metadata: metadata_document(payment_intent.metadata),
    }
}

/// Whether `entry` is the listing entry of the pair.
pub open spec fn is_listed(entry: PaymentsResponse, pair: (PaymentIntent, PaymentAttempt)) -> bool {
    &&& entry == listed_payload(pair.0, pair.1, entry.currency)
    &&& entry.currency@ == match pair.0.currency {
        Some(c) => c@,
        None => Seq::<char>::empty(),
    }
}

/// The listing entry of a payment; the currency is empty where the intent has
/// none.
pub fn foreign_from(item: (PaymentIntent, PaymentAttempt)) -> (r: PaymentsResponse)
    ensures
        is_listed(r, item),
{
    let (pi, pa) = item;
    PaymentsResponse {
        payment_id: Some(pi.payment_id),
        merchant_id: Some(pi.merchant_id),
        status: pi.status,
        amount: pi.amount,
        amount_capturable: pi.amount_captured,
        amount_received: None,
        connector: pa.connector,
        client_secret: pi.client_secret,
        created: Some(pi.created_at),
        currency: match pi.currency {
            Some(c) => c,
            None => String::new(),
        },
        customer_id: pi.customer_id,
        description: pi.description,
        refunds: None,
        mandate_id: None,
        payment_method: pa.payment_method,
        payment_method_data: None,
        payment_token: None,
        shipping: None,
        billing: None,
        email: None,
        name: None,
        phone: None,
        return_url: None,
        authentication_type: None,
        statement_descriptor_name: None,
        statement_descriptor_suffix: None,
        setup_future_usage: None,
        capture_method: None,
        next_action: None,
        cancellation_reason: None,
        error_code: None,
        error_message: None,
        payment_experience: None,
        payment_method_type: pa.payment_method_type,
        connector_label: None,
        business_country: None,
        business_label: None,
        business_sub_label: None,
        allowed_payment_method_types: None,
        metadata: match pi.metadata {
            Some(record) => Some(record.value),
            None => None,
        },
    }
}

/// The answers of the redirect entry. With redirect data recorded it is
/// answered with that data as a form, whether or not there is a request to
/// answer. Without any, a request is answered with the payment-status
/// payload, whose next action is the redirect to the start address exactly
/// while the intent waits for the customer.
pub proof fn lemma_redirect_entry_answers(
    has_request: bool,
    payment_attempt: PaymentAttempt,
    payment_intent: PaymentIntent,
    refunds: Seq<Refund>,
    payment_method_data: Option<PaymentMethodData>,
    customer: Option<Customer>,
    auth_flow: AuthFlow,
    address: PaymentAddress,
    server: Server,
    redirection_data: Option<Decoded<RedirectForm>>,
    r: Result<ApplicationResponse<PaymentsResponse>, ApiErrorResponse>,
)
    requires
        payment_attempt.currency is Some,
        is_payments_response(
            has_request,
            payment_attempt,
            payment_intent,
            refunds,
            payment_method_data,
            customer,
            auth_flow,
            address,
            server,
            redirection_data,
            Operation::PaymentStart,
            r,
        ),
    ensures
        redirection_data matches Some(Decoded::Valid(form)) ==> r == Ok::<
            ApplicationResponse<PaymentsResponse>,
            ApiErrorResponse,
        >(ApplicationResponse::Form(form)),
        redirection_data == Some(Decoded::<RedirectForm>::Invalid) ==> r == Err::<
            ApplicationResponse<PaymentsResponse>,
            ApiErrorResponse,
        >(ApiErrorResponse::InternalServerError),
        redirection_data is None ==> r matches Ok(ApplicationResponse::Json(_)),
        has_request && redirection_data is None && payment_intent.status
            == IntentStatus::RequiresCustomerAction ==> {
            &&& r matches Ok(ApplicationResponse::Json(payload))
            &&& payload.next_action matches Some(action)
            &&& action.next_action_type == NextActionType::RedirectToUrl
            &&& action.redirect_to_url matches Some(url)
            &&& url@ == startpay_url(
                server.base_url@,
                payment_intent.payment_id@,
                payment_intent.merchant_id@,
                payment_attempt.attempt_id@,
            )
        },
        redirection_data is None && payment_intent.status != IntentStatus::RequiresCustomerAction ==> {
            &&& r matches Ok(ApplicationResponse::Json(payload))
            &&& payload.next_action is None
        },
{
}

/// Any operation but the redirect entry is answered with the payment-status
/// payload, whatever redirect data is recorded.
pub proof fn lemma_only_redirect_entry_answers_with_form(
    has_request: bool,
    payment_attempt: PaymentAttempt,
    payment_intent: PaymentIntent,
    refunds: Seq<Refund>,
    payment_method_data: Option<PaymentMethodData>,
    customer: Option<Customer>,
    auth_flow: AuthFlow,
    address: PaymentAddress,
    server: Server,
    redirection_data: Option<Decoded<RedirectForm>>,
    operation: Operation,
    r: Result<ApplicationResponse<PaymentsResponse>, ApiErrorResponse>,
)
    requires
        payment_attempt.currency is Some,
        operation != Operation::PaymentStart,
        is_payments_response(
            has_request,
            payment_attempt,
            payment_intent,
            refunds,
            payment_method_data,
            customer,
            auth_flow,
            address,
            server,
            redirection_data,
            operation,
            r,
        ),
    ensures
        r matches Ok(ApplicationResponse::Json(_)),
{
}

} // verus!
