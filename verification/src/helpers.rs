//! The addresses and labels the core derives from its records, and the check
//! of a client secret.

use vstd::prelude::*;
use vstd::string::*;
use crate::api::Server;
use crate::errors::ApiErrorResponse;
use crate::storage::{PaymentAttempt, PaymentIntent};

verus! {

/// `{base}/payments/redirect/{payment}/{merchant}/{attempt}`
pub open spec fn startpay_url(
    base_url: Seq<char>,
    payment_id: Seq<char>,
    merchant_id: Seq<char>,
    attempt_id: Seq<char>,
) -> Seq<char> {
    base_url + "/payments/redirect/"@ + payment_id + "/"@ + merchant_id + "/"@ + attempt_id
}

/// The address a customer is sent to when the payment needs an action of
/// theirs.
pub fn create_startpay_url(
    server: &Server,
    payment_attempt: &PaymentAttempt,
    payment_intent: &PaymentIntent,
) -> (r: String)
    ensures
        r@ == startpay_url(
            server.base_url@,
            payment_intent.payment_id@,
            payment_intent.merchant_id@,
            payment_attempt.attempt_id@,
        ),
{
    let mut url = server.base_url.clone();
    url.append("/payments/redirect/");
    url.append(payment_intent.payment_id.as_str());
    url.append("/");
    url.append(payment_intent.merchant_id.as_str());
    url.append("/");
    url.append(payment_attempt.attempt_id.as_str());
    url
}

/// `{base}/payments/{payment}/{merchant}/redirect/response/{connector}`, and
/// `/{creds}` behind it where a credentials identifier is given.
pub open spec fn redirect_url(
    base_url: Seq<char>,
    payment_id: Seq<char>,
    merchant_id: Seq<char>,
    connector_name: Seq<char>,
    creds_identifier: Option<Seq<char>>,
) -> Seq<char> {
    let url = base_url + "/payments/"@ + payment_id + "/"@ + merchant_id + "/redirect/response/"@
        + connector_name;
    match creds_identifier {
        Some(creds) => url + "/"@ + creds,
        None => url,
    }
}

/// The address a connector sends the customer back to.
pub fn create_redirect_url(
    router_base_url: &str,
    payment_attempt: &PaymentAttempt,
    connector_name: &str,
    creds_identifier: Option<&str>,
) -> (r: String)
    ensures
        r@ == redirect_url(
            router_base_url@,
            payment_attempt.payment_id@,
            payment_attempt.merchant_id@,
            connector_name@,
            match creds_identifier {
                Some(c) => Some(c@),
                None => None,
            },
        ),
{
    let mut url = String::from_str(router_base_url);
    url.append("/payments/");
    url.append(payment_attempt.payment_id.as_str());
    url.append("/");
    url.append(payment_attempt.merchant_id.as_str());
    url.append("/redirect/response/");
    url.append(connector_name);
    match creds_identifier {
        Some(creds) => {
            url.append("/");
            url.append(creds);
        },
        None => {},
    }
    url
}

/// `{base}/webhooks/{merchant}/{connector}`
pub open spec fn webhook_url(
    base_url: Seq<char>,
    merchant_id: Seq<char>,
    connector_name: Seq<char>,
) -> Seq<char> {
    base_url + "/webhooks/"@ + merchant_id + "/"@ + connector_name
}

/// The address a connector sends its notifications to.
pub fn create_webhook_url(
    router_base_url: &str,
    payment_attempt: &PaymentAttempt,
    connector_name: &str,
) -> (r: String)
    ensures
        r@ == webhook_url(router_base_url@, payment_attempt.merchant_id@, connector_name@),
{
    let mut url = String::from_str(router_base_url);
    url.append("/webhooks/");
    url.append(payment_attempt.merchant_id.as_str());
    url.append("/");
    url.append(connector_name);
    url
}

/// `{base}/payments/{payment}/{merchant}/redirect/complete/{connector}`
pub open spec fn complete_authorize_url(
    base_url: Seq<char>,
    payment_id: Seq<char>,
    merchant_id: Seq<char>,
    connector_name: Seq<char>,
) -> Seq<char> {
    base_url + "/payments/"@ + payment_id + "/"@ + merchant_id + "/redirect/complete/"@
        + connector_name
}

/// The address a connector sends the customer to when the authorisation is
/// completed in a second step.
pub fn create_complete_authorize_url(
    router_base_url: &str,
    payment_attempt: &PaymentAttempt,
    connector_name: &str,
) -> (r: String)
    ensures
        r@ == complete_authorize_url(
            router_base_url@,
            payment_attempt.payment_id@,
            payment_attempt.merchant_id@,
            connector_name@,
        ),
{
    let mut url = String::from_str(router_base_url);
    url.append("/payments/");
    url.append(payment_attempt.payment_id.as_str());
    url.append("/");
    url.append(payment_attempt.merchant_id.as_str());
    url.append("/redirect/complete/");
    url.append(connector_name);
    url
}

/// `{connector}_{country}_{label}`, and `_{sub label}` behind it where there
/// is one.
pub open spec fn connector_label(
    business_country: Seq<char>,
    business_label: Seq<char>,
    business_sub_label: Option<Seq<char>>,
    connector_name: Seq<char>,
) -> Seq<char> {
    let label = connector_name + "_"@ + business_country + "_"@ + business_label;
    match business_sub_label {
        Some(sub_label) => label + "_"@ + sub_label,
        None => label,
    }
}

/// The label under which a merchant's account with a connector is found.
pub fn get_connector_label(
    business_country: &str,
    business_label: &str,
    business_sub_label: Option<&String>,
    connector_name: &str,
) -> (r: String)
    ensures
        r@ == connector_label(
            business_country@,
            business_label@,
            match business_sub_label {
                Some(s) => Some(s@),
                None => None,
            },
            connector_name@,
        ),
{
    let mut label = String::from_str(connector_name);
    label.append("_");
    label.append(business_country);
    label.append("_");
    label.append(business_label);
    match business_sub_label {
        Some(sub_label) => {
            label.append("_");
            label.append(sub_label.as_str());
        },
        None => {},
    }
    label
}

/// `{runner}_{task}_{attempt}_{merchant}`
pub open spec fn process_tracker_id(
    runner: Seq<char>,
    task_name: Seq<char>,
    txn_id: Seq<char>,
    merchant_id: Seq<char>,
) -> Seq<char> {
    runner + "_"@ + task_name + "_"@ + txn_id + "_"@ + merchant_id
}

/// The identifier of a follow-up task. It is a function of its four parts
/// alone, so scheduling the same task twice names the same record.
pub fn get_process_tracker_id(runner: &str, task_name: &str, txn_id: &str, merchant_id: &str) -> (r:
    String)
    ensures
        r@ == process_tracker_id(runner@, task_name@, txn_id@, merchant_id@),
{
    let mut id = String::from_str(runner);
    id.append("_");
    id.append(task_name);
    id.append("_");
    id.append(txn_id);
    id.append("_");
    id.append(merchant_id);
    id
}

/// Checks the client secret of a request against the one of the intent. Only
/// two secrets that are both present and differ are refused.
pub fn authenticate_client_secret(
    request_client_secret: Option<&String>,
    payment_intent_client_secret: Option<&String>,
) -> (r: Result<(), ApiErrorResponse>)
    ensures
        r is Err <==> (request_client_secret matches Some(a) && payment_intent_client_secret matches Some(b)
            && a@ != b@),
        r is Err ==> r == Err::<(), ApiErrorResponse>(ApiErrorResponse::ClientSecretInvalid),
{
    match (request_client_secret, payment_intent_client_secret) {
        (Some(request), Some(intent)) => {
            if *request == *intent {
                Ok(())
            } else {
                Err(ApiErrorResponse::ClientSecretInvalid)
            }
        },
        _ => Ok(()),
    }
}

} // verus!
