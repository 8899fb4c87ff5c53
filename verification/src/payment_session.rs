//! The session-token operation: it gathers, for the wallets of a payment, a
//! session token from every connector the merchant can use for them.

use vstd::prelude::*;
use vstd::string::*;
use crate::api::{
    Address, AddressDetails, Amount, ConnectorCallType, ConnectorData, PaymentIdType,
    PaymentsSessionRequest, PhoneDetails,
};
use crate::dispatch::{call_connector, dispatch_plan, DispatchPlan};
use crate::enums::{Connector, GetToken, Operation, PaymentMethod, SupportedWallets};
use crate::errors::{to_not_found_response, ApiErrorResponse, StorageError};
use crate::helpers::authenticate_client_secret;
use crate::payments::{CustomerDetails, PaymentAddress, PaymentData};
use crate::pipeline::ValidateResult;
use crate::json::Decoded;
use crate::storage::{
    ConnectorResponse, MerchantAccount, MerchantConnectorAccount, PaymentAttempt, PaymentIntent,
    PaymentMethodEnabled,
};
use crate::text::{contains_str, str_eq, views};
use crate::transformers::metadata_document;

verus! {

/// The session-token operation.
#[derive(Clone, Copy, Debug, PartialEq, Eq, Structural)]
pub struct PaymentSession;

/// A change to a persisted intent.
#[derive(Clone, Debug, PartialEq)]
pub enum PaymentIntentUpdate {
    MetadataUpdate { metadata: serde_json::Value },
}

/// The records of a payment after the request was checked against them.
#[derive(Clone, Debug, PartialEq)]
pub struct SessionTrackers {
    pub payment_intent: PaymentIntent,
    pub payment_attempt: PaymentAttempt,
    pub currency: String,
    pub amount: Amount,
}

/// A persisted address as it is shown: every part taken over, the phone
/// number beside it.
pub open spec fn address_shown(address: crate::storage::Address) -> Address {
    Address {
        address: Some(
            AddressDetails {
                city: address.city,
                country: address.country,
                line1: address.line1,
                line2: address.line2,
                line3: address.line3,
                zip: address.zip,
                state: address.state,
                first_name: address.first_name,
                last_name: address.last_name,
            },
        ),
        phone: Some(PhoneDetails { number: address.phone_number, country_code: address.country_code }),
    }
}

/// Turns a persisted address into the shape shown to merchants and
/// connectors.
pub fn address_to_api(address: &crate::storage::Address) -> (r: Address)
    ensures
        r == address_shown(*address),
{
    Address {
        address: Some(
            AddressDetails {
                city: address.city.clone(),
                country: address.country.clone(),
                line1: address.line1.clone(),
                line2: address.line2.clone(),
                line3: address.line3.clone(),
                zip: address.zip.clone(),
                state: address.state.clone(),
                first_name: address.first_name.clone(),
                last_name: address.last_name.clone(),
            },
        ),
        phone: Some(
            PhoneDetails {
                number: address.phone_number.clone(),
                country_code: address.country_code.clone(),
            },
        ),
    }
}

/// The connector and the token source that stand behind a wallet.
pub open spec fn wallet_connector(wallet: SupportedWallets) -> ConnectorData {
    match wallet {
        SupportedWallets::Gpay => ConnectorData {
            connector_name: Connector::Adyen,
            get_token: GetToken::Metadata,
        },
        SupportedWallets::ApplePay => ConnectorData {
            connector_name: Connector::Applepay,
            get_token: GetToken::Connector,
        },
        SupportedWallets::Paypal => ConnectorData {
            connector_name: Connector::Braintree,
            get_token: GetToken::Connector,
        },
        SupportedWallets::Klarna => ConnectorData {
            connector_name: Connector::Klarna,
            get_token: GetToken::Connector,
        },
    }
}

/// Whether the merchant enabled wallets at the connector of an account.
pub open spec fn wallet_enabled(account: MerchantConnectorAccount) -> bool {
    match account.payment_methods_enabled {
        Some(methods) => exists|i: int|
            0 <= i < methods@.len() && enables_wallet(#[trigger] methods@[i]),
        None => false,
    }
}

/// Whether an entry of the enabled payment methods enables wallets. An entry
/// that does not decode enables nothing.
pub open spec fn enables_wallet(entry: Decoded<PaymentMethodEnabled>) -> bool {
    match entry {
        Decoded::Valid(method) => method.payment_method_view() == "wallet"@,
        Decoded::Invalid => false,
    }
}

/// Whether an account counts towards the names gathered: with a list of
/// supported connectors, the accounts of those; without one, the accounts
/// that have wallets enabled.
pub open spec fn account_counts(
    account: MerchantConnectorAccount,
    supported: Option<Seq<Seq<char>>>,
) -> bool {
    match supported {
        Some(names) => names.contains(account.connector_name@),
        None => wallet_enabled(account),
    }
}

/// The connector names of the accounts that count, each once, in the order
/// the accounts first name them.
pub open spec fn names_of(
    accounts: Seq<MerchantConnectorAccount>,
    supported: Option<Seq<Seq<char>>>,
) -> Seq<Seq<char>>
    decreases accounts.len(),
{
    if accounts.len() == 0 {
        Seq::empty()
    } else {
        let before = names_of(accounts.drop_last(), supported);
        let account = accounts.last();
        if account_counts(account, supported) && !before.contains(account.connector_name@) {
            before.push(account.connector_name@)
        } else {
            before
        }
    }
}

/// No name is gathered twice, however often the accounts name it.
pub proof fn lemma_names_are_distinct(
    accounts: Seq<MerchantConnectorAccount>,
    supported: Option<Seq<Seq<char>>>,
)
    ensures
        names_of(accounts, supported).no_duplicates(),
    decreases accounts.len(),
{
    if accounts.len() > 0 {
        lemma_names_are_distinct(accounts.drop_last(), supported);
    }
}

/// Every name gathered is the connector name of an account that counts.
pub proof fn lemma_names_come_from_accounts(
    accounts: Seq<MerchantConnectorAccount>,
    supported: Option<Seq<Seq<char>>>,
    name: Seq<char>,
)
    requires
        names_of(accounts, supported).contains(name),
    ensures
        exists|i: int|
            0 <= i < accounts.len() && (#[trigger] accounts[i]).connector_name@ == name
                && account_counts(accounts[i], supported),
    decreases accounts.len(),
{
    if accounts.len() > 0 && names_of(accounts.drop_last(), supported).contains(name) {
        let earlier = accounts.drop_last();
        lemma_names_come_from_accounts(earlier, supported, name);
        let i = choose|i: int|
            0 <= i < earlier.len() && (#[trigger] earlier[i]).connector_name@ == name
                && account_counts(earlier[i], supported);
        assert(accounts[i] == earlier[i]);
    }
}

/// The connectors a list of names resolves to, in order and with the given
/// token source; nothing where one of the names is no connector's.
pub open spec fn resolved(names: Seq<Seq<char>>, get_token: GetToken) -> Option<Seq<ConnectorData>>
    decreases names.len(),
{
    if names.len() == 0 {
        Some(Seq::empty())
    } else {
        match (
            resolved(names.drop_last(), get_token),
            ConnectorData::by_name_spec(names.last(), get_token),
        ) {
            (Some(before), Some(connector)) => Some(before.push(connector)),
            _ => None,
        }
    }
}

/// The connector asked for a wallet: its connector, where the merchant has
/// an account with it that counts either way.
pub open spec fn connector_for_wallet(
    wallet: SupportedWallets,
    supported_names: Seq<Seq<char>>,
    enabled_names: Seq<Seq<char>>,
) -> Option<ConnectorData> {
    let connector = wallet_connector(wallet);
    let name = connector.connector_name.name_spec();
    if enabled_names.contains(name) || supported_names.contains(name) {
        Some(connector)
    } else {
        None
    }
}

/// The connectors asked for the given wallets, in the order of the wallets.
pub open spec fn wallet_connectors(
    wallets: Seq<SupportedWallets>,
    supported_names: Seq<Seq<char>>,
    enabled_names: Seq<Seq<char>>,
) -> Seq<ConnectorData> {
    wallets.filter_map(
        |wallet: SupportedWallets| connector_for_wallet(wallet, supported_names, enabled_names),
    )
}

/// The connectors a session request goes out to, or nothing where a name
/// among the merchant's accounts is no connector's.
///
/// A request that names wallets is answered by the connectors of those
/// wallets, as far as the merchant has accounts with them. A request that
/// names none is answered by every connector the merchant can use for
/// wallets: first those on the list of supported wallet connectors, asked
/// for a token of their own, then those with wallets enabled, whose token
/// comes from the account's metadata.
pub open spec fn session_connectors(
    supported_wallets: Seq<Seq<char>>,
    accounts: Seq<MerchantConnectorAccount>,
    wallets: Seq<SupportedWallets>,
) -> Option<Seq<ConnectorData>> {
    let supported_names = names_of(accounts, Some(supported_wallets));
    let enabled_names = names_of(accounts, None);
    if wallets.len() > 0 {
        Some(wallet_connectors(wallets, supported_names, enabled_names))
    } else {
        match (
            resolved(supported_names, GetToken::Connector),
            resolved(enabled_names, GetToken::Metadata),
        ) {
            (Some(first), Some(second)) => Some(first + second),
            _ => None,
        }
    }
}

/// Names resolve one for one and in order: the list of connectors is as long
/// as the list of names, and each connector is the one its name stands for.
pub proof fn lemma_resolved_in_order(names: Seq<Seq<char>>, get_token: GetToken)
    requires
        resolved(names, get_token) is Some,
    ensures
        resolved(names, get_token)->0.len() == names.len(),
        forall|j: int|
            0 <= j < names.len() ==> ConnectorData::by_name_spec(#[trigger] names[j], get_token)
                == Some(resolved(names, get_token)->0[j]),
    decreases names.len(),
{
    if names.len() > 0 {
        lemma_resolved_in_order(names.drop_last(), get_token);
        assert forall|j: int| 0 <= j < names.len() implies ConnectorData::by_name_spec(
            #[trigger] names[j],
            get_token,
        ) == Some(resolved(names, get_token)->0[j]) by {
            if j < names.len() - 1 {
                assert(names[j] == names.drop_last()[j]);
            }
        }
    }
}

/// Every connector a session request goes out to is a connector the merchant
/// has an account with.
pub proof fn lemma_session_connectors_have_accounts(
    supported_wallets: Seq<Seq<char>>,
    accounts: Seq<MerchantConnectorAccount>,
    wallets: Seq<SupportedWallets>,
    i: int,
)
    requires
        session_connectors(supported_wallets, accounts, wallets) is Some,
        0 <= i < session_connectors(supported_wallets, accounts, wallets)->0.len(),
    ensures
        exists|k: int|
            0 <= k < accounts.len() && (#[trigger] accounts[k]).connector_name@
                == session_connectors(
                supported_wallets,
                accounts,
                wallets,
            )->0[i].connector_name.name_spec(),
{
    let list = session_connectors(supported_wallets, accounts, wallets)->0;
    let supported_names = names_of(accounts, Some(supported_wallets));
    let enabled_names = names_of(accounts, None);
    let name = list[i].connector_name.name_spec();
    if wallets.len() > 0 {
        let for_wallet = |wallet: SupportedWallets|
            connector_for_wallet(wallet, supported_names, enabled_names);
        wallets.lemma_filter_map_contains(for_wallet, list[i]);
        if enabled_names.contains(name) {
            lemma_names_come_from_accounts(accounts, None, name);
        } else {
            lemma_names_come_from_accounts(accounts, Some(supported_wallets), name);
        }
    } else {
        let first = resolved(supported_names, GetToken::Connector)->0;
        lemma_resolved_in_order(supported_names, GetToken::Connector);
        lemma_resolved_in_order(enabled_names, GetToken::Metadata);
        if i < first.len() {
            Connector::lemma_from_name_is_name(supported_names[i]);
            lemma_names_come_from_accounts(accounts, Some(supported_wallets), name);
        } else {
            let j = i - first.len();
            Connector::lemma_from_name_is_name(enabled_names[j]);
            lemma_names_come_from_accounts(accounts, None, name);
        }
    }
}

fn has_wallet_enabled(account: &MerchantConnectorAccount) -> (r: bool)
    ensures
        r == wallet_enabled(*account),
{
    match &account.payment_methods_enabled {
        None => false,
        Some(methods) => {
            let mut i: usize = 0;
            while i < methods.len()
                invariant
                    i <= methods.len(),
                    account.payment_methods_enabled == Some(*methods),
                    forall|j: int| 0 <= j < i ==> !enables_wallet(#[trigger] methods@[j]),
                decreases methods.len() - i,
            {
                let enabled = match &methods[i] {
                    Decoded::Valid(method) => str_eq(method.payment_method().as_str(), "wallet"),
                    Decoded::Invalid => false,
                };
                if enabled {
                    assert(enables_wallet(account.payment_methods_enabled->0@[i as int]));
                    return true;
                }
                i += 1;
            }
            false
        },
    }
}

fn gather_names(accounts: &Vec<MerchantConnectorAccount>, supported: Option<&Vec<String>>) -> (r:
    Vec<String>)
    ensures
        views(r@) == names_of(
            accounts@,
            match supported {
                Some(list) => Some(views(list@)),
                None => None,
            },
        ),
{
    let ghost wanted = match supported {
        Some(list) => Some(views(list@)),
        None => None,
    };
    let mut names: Vec<String> = Vec::new();
    let mut i: usize = 0;
    while i < accounts.len()
        invariant
            i <= accounts.len(),
            wanted == match supported {
                Some(list) => Some(views(list@)),
                None => None,
            },
            views(names@) == names_of(accounts@.take(i as int), wanted),
        decreases accounts.len() - i,
    {
        let account = &accounts[i];
        proof {
            assert(accounts@.take(i + 1).drop_last() == accounts@.take(i as int));
        }
        let counts = match supported {
            Some(list) => contains_str(list, account.connector_name.as_str()),
            None => has_wallet_enabled(account),
        };
        if counts && !contains_str(&names, account.connector_name.as_str()) {
            names.push(account.connector_name.clone());
        }
        i += 1;
    }
    proof {
        assert(accounts@.take(accounts.len() as int) == accounts@);
    }
    names
}

fn resolve_into(connectors: &mut Vec<ConnectorData>, names: &Vec<String>, get_token: GetToken) -> (r:
    Result<(), ApiErrorResponse>)
    ensures
        match resolved(views(names@), get_token) {
            Some(list) => r is Ok && final(connectors)@ == old(connectors)@ + list,
            None => r == Err::<(), ApiErrorResponse>(ApiErrorResponse::InternalServerError),
        },
{
    let ghost start = connectors@;
    let mut i: usize = 0;
    while i < names.len()
        invariant
            i <= names.len(),
            resolved(views(names@).take(i as int), get_token) matches Some(list) && connectors@
                == start + list,
        decreases names.len() - i,
    {
        proof {
            assert(views(names@).take(i + 1).drop_last() == views(names@).take(i as int));
        }
        match ConnectorData::get_connector_by_name(names[i].as_str(), get_token) {
            Ok(connector) => {
                connectors.push(connector);
            },
            Err(e) => {
                proof {
                    lemma_unresolved_stays(views(names@), (i + 1) as int, get_token);
                }
                return Err(e);
            },
        }
        i += 1;
    }
    proof {
        assert(views(names@).take(names.len() as int) == views(names@));
    }
    Ok(())
}

/// A list of names whose beginning does not resolve does not resolve.
proof fn lemma_unresolved_stays(names: Seq<Seq<char>>, n: int, get_token: GetToken)
    requires
        0 <= n <= names.len(),
        resolved(names.take(n), get_token) is None,
    ensures
        resolved(names, get_token) is None,
    decreases names.len() - n,
{
    if n < names.len() {
        assert(names.take(n + 1).drop_last() == names.take(n));
        lemma_unresolved_stays(names, n + 1, get_token);
    } else {
        assert(names.take(n) == names);
    }
}

impl PaymentSession {
    /// Validates a session request. The payment id is already made and comes
    /// with the request; nothing in the request can be refused here.
    pub fn validate_request(
        &self,
        request: &PaymentsSessionRequest,
        merchant_account: &MerchantAccount,
    ) -> (r: Result<(Operation, ValidateResult), ApiErrorResponse>)
        ensures
            r == Ok::<(Operation, ValidateResult), ApiErrorResponse>(
                (
                    Operation::PaymentSession,
                    ValidateResult {
                        merchant_id: merchant_account.merchant_id,
                        payment_id: PaymentIdType::PaymentIntentId(request.payment_id),
                        mandate_type: None,
                        storage_scheme: merchant_account.storage_scheme,
                    },
                ),
            ),
    {
        let given_payment_id = request.payment_id.clone();
        Ok(
            (
                Operation::PaymentSession,
                ValidateResult {
                    merchant_id: merchant_account.merchant_id.clone(),
                    payment_id: PaymentIdType::PaymentIntentId(given_payment_id),
                    mandate_type: None,
                    storage_scheme: merchant_account.storage_scheme,
                },
            ),
        )
    }

    /// The intent a session request is about. A request that names its
    /// payment in any other way finds no payment.
    pub fn payment_intent_id(&self, payment_id: &PaymentIdType) -> (r: Result<
        String,
        ApiErrorResponse,
    >)
        ensures
            match *payment_id {
                PaymentIdType::PaymentIntentId(id) => r == Ok::<String, ApiErrorResponse>(id),
                _ => r == Err::<String, ApiErrorResponse>(ApiErrorResponse::PaymentNotFound),
            },
    {
        match payment_id {
            PaymentIdType::PaymentIntentId(id) => Ok(id.clone()),
            _ => Err(ApiErrorResponse::PaymentNotFound),
        }
    }

    /// The records of a payment from what the store found under the payment's
    /// id. An attempt or an intent that is not there is the payment-not-found
    /// error; a lookup that failed in any other way is the internal error.
    /// The attempt is looked at first.
    pub fn found_trackers(
        &self,
        payment_attempt: Result<PaymentAttempt, StorageError>,
        payment_intent: Result<PaymentIntent, StorageError>,
    ) -> (r: Result<(PaymentAttempt, PaymentIntent), ApiErrorResponse>)
        ensures
            match (payment_attempt, payment_intent) {
                (Ok(attempt), Ok(intent)) => r == Ok::<
                    (PaymentAttempt, PaymentIntent),
                    ApiErrorResponse,
                >((attempt, intent)),
                (Err(StorageError::ValueNotFound), _) => r == Err::<
                    (PaymentAttempt, PaymentIntent),
                    ApiErrorResponse,
                >(ApiErrorResponse::PaymentNotFound),
                (Err(_), _) => r == Err::<(PaymentAttempt, PaymentIntent), ApiErrorResponse>(
                    ApiErrorResponse::InternalServerError,
                ),
                (Ok(_), Err(StorageError::ValueNotFound)) => r == Err::<
                    (PaymentAttempt, PaymentIntent),
                    ApiErrorResponse,
                >(ApiErrorResponse::PaymentNotFound),
                (Ok(_), Err(_)) => r == Err::<(PaymentAttempt, PaymentIntent), ApiErrorResponse>(
                    ApiErrorResponse::InternalServerError,
                ),
            },
    {
        let attempt = match payment_attempt {
            Ok(attempt) => attempt,
            Err(e) => {
                return Err(to_not_found_response(e, ApiErrorResponse::PaymentNotFound));
            },
        };
        let intent = match payment_intent {
            Ok(intent) => intent,
            Err(e) => {
                return Err(to_not_found_response(e, ApiErrorResponse::PaymentNotFound));
            },
        };
        Ok((attempt, intent))
    }

    /// An address of a payment from what the store found under the id the
    /// intent refers to; `None` stands for an intent that refers to no address
    /// and a lookup that was not made. An address that is referred to but not
    /// there is the address-not-found error; a lookup that failed in any other
    /// way is the internal error.
    pub fn found_address(
        &self,
        found: Option<Result<crate::storage::Address, StorageError>>,
    ) -> (r: Result<Option<crate::storage::Address>, ApiErrorResponse>)
        ensures
            match found {
                None => r == Ok::<Option<crate::storage::Address>, ApiErrorResponse>(None),
                Some(Ok(address)) => r == Ok::<Option<crate::storage::Address>, ApiErrorResponse>(
                    Some(address),
                ),
                Some(Err(StorageError::ValueNotFound)) => r == Err::<
                    Option<crate::storage::Address>,
                    ApiErrorResponse,
                >(ApiErrorResponse::AddressNotFound),
                Some(Err(_)) => r == Err::<Option<crate::storage::Address>, ApiErrorResponse>(
                    ApiErrorResponse::InternalServerError,
                ),
            },
    {
        match found {
            None => Ok(None),
            Some(Ok(address)) => Ok(Some(address)),
            Some(Err(e)) => Err(to_not_found_response(e, ApiErrorResponse::AddressNotFound)),
        }
    }

    /// Checks a session request against the records of its payment.
    ///
    /// The intent must have a currency, else the missing-field error. The
    /// client secret of the request must not differ from the intent's, else
    /// the invalid-secret error. The attempt is then one made with a wallet,
    /// and the amount and the currency are the intent's.
    pub fn check_trackers(
        &self,
        request: &PaymentsSessionRequest,
        payment_attempt: PaymentAttempt,
        payment_intent: PaymentIntent,
    ) -> (r: Result<SessionTrackers, ApiErrorResponse>)
        ensures
            match payment_intent.currency {
                None => r matches Err(e) && e.is_missing_field("currency"@),
                Some(currency) => if payment_intent.client_secret matches Some(secret) && secret@
                    != request.client_secret@ {
                    r == Err::<SessionTrackers, ApiErrorResponse>(
                        ApiErrorResponse::ClientSecretInvalid,
                    )
                } else {
                    &&& r matches Ok(trackers)
                    &&& trackers.payment_intent == payment_intent
                    &&& trackers.payment_attempt == PaymentAttempt {
                        payment_method: Some(PaymentMethod::Wallet),
                        ..payment_attempt
                    }
                    &&& trackers.currency == currency
                    &&& trackers.amount == Amount::of(payment_intent.amount)
                },
            },
    {
        let mut payment_attempt = payment_attempt;
        let currency = match &payment_intent.currency {
            Some(c) => c.clone(),
            None => {
                return Err(ApiErrorResponse::missing_required_field("currency"));
            },
        };
        payment_attempt.payment_method = Some(PaymentMethod::Wallet);
        let amount = Amount::from_i64(payment_intent.amount);
        match authenticate_client_secret(
            Some(&request.client_secret),
            payment_intent.client_secret.as_ref(),
        ) {
            Ok(()) => {},
            Err(e) => {
                return Err(e);
            },
        }
        Ok(SessionTrackers { payment_intent, payment_attempt, currency, amount })
    }

    /// Builds the aggregate of a session run from the checked records, the
    /// addresses found for the intent and the connector response found for
    /// the attempt.
    ///
    /// A connector response that is not there is the payment-not-found error,
    /// and one that could not be read for any other reason the internal
    /// error. The aggregate starts without tokens, refunds or
    /// payment-method data; the intent in it refers to exactly the addresses
    /// that were found. The customer is known by the intent's customer id
    /// alone.
    pub fn get_trackers(
        &self,
        trackers: SessionTrackers,
        shipping_address: Option<crate::storage::Address>,
        billing_address: Option<crate::storage::Address>,
        connector_response: Result<ConnectorResponse, StorageError>,
    ) -> (r: Result<(Operation, PaymentData, Option<CustomerDetails>), ApiErrorResponse>)
        ensures
            match connector_response {
                Err(StorageError::ValueNotFound) => r == Err::<
                    (Operation, PaymentData, Option<CustomerDetails>),
                    ApiErrorResponse,
                >(ApiErrorResponse::PaymentNotFound),
                Err(_) => r == Err::<
                    (Operation, PaymentData, Option<CustomerDetails>),
                    ApiErrorResponse,
                >(ApiErrorResponse::InternalServerError),
                Ok(response) => {
                    &&& r matches Ok((operation, payment_data, customer_details))
                    &&& operation == Operation::PaymentSession
                    &&& payment_data == session_aggregate(
                        trackers,
                        shipping_address,
                        billing_address,
                        response,
                        payment_data.refunds,
                        payment_data.sessions_token,
                    )
                    &&& payment_data.refunds@.len() == 0
                    &&& payment_data.sessions_token@.len() == 0
                    &&& trackers.payment_intent.payment_id@ == trackers.payment_attempt.payment_id@
                        ==> payment_data.same_payment()
                    &&& customer_details == Some(
                        CustomerDetails {
                            customer_id: trackers.payment_intent.customer_id,
                            name: None,
                            email: None,
                            phone: None,
                            phone_country_code: None,
                        },
                    )
                },
            },
    {
        let SessionTrackers { payment_intent, payment_attempt, currency, amount } = trackers;
        let mut payment_intent = payment_intent;
        let (shipping_id, shipping) = match &shipping_address {
            Some(a) => (Some(a.address_id.clone()), Some(address_to_api(a))),
            None => (None, None),
        };
        let (billing_id, billing) = match &billing_address {
            Some(a) => (Some(a.address_id.clone()), Some(address_to_api(a))),
            None => (None, None),
        };
        payment_intent.shipping_address_id = shipping_id;
        payment_intent.billing_address_id = billing_id;
        let connector_response = match connector_response {
            Ok(response) => response,
            Err(e) => {
                return Err(to_not_found_response(e, ApiErrorResponse::PaymentNotFound));
            },
        };
        let customer_details = CustomerDetails {
            customer_id: payment_intent.customer_id.clone(),
            name: None,
            email: None,
            phone: None,
            phone_country_code: None,
        };
        Ok(
            (
                Operation::PaymentSession,
                PaymentData {
                    payment_intent,
                    payment_attempt,
                    currency,
                    amount,
                    email: None,
                    mandate_id: None,
                    token: None,
                    setup_mandate: None,
                    address: PaymentAddress { shipping, billing },
                    confirm: None,
                    payment_method_data: None,
                    force_sync: None,
                    refunds: Vec::new(),
                    sessions_token: Vec::new(),
                    connector_response,
                    card_cvc: None,
                    creds_identifier: None,
                    pm_token: None,
                },
                Some(customer_details),
            ),
        )
    }

    /// The change a session run persists before dispatch: the intent's
    /// metadata, where it has any.
    pub fn intent_update(&self, payment_data: &PaymentData) -> (r: Option<PaymentIntentUpdate>)
        ensures
            r == planned_intent_update(*payment_data),
    {
        match &payment_data.payment_intent.metadata {
            Some(record) => Some(
                PaymentIntentUpdate::MetadataUpdate { metadata: record.value.clone() },
            ),
            None => None,
        }
    }

    /// Takes the persisted intent back into the aggregate. Without an update
    /// the aggregate stays as it is. An update that found no intent is the
    /// payment-not-found error, and one that failed otherwise the internal
    /// error.
    pub fn update_trackers(
        &self,
        payment_data: PaymentData,
        updated: Option<Result<PaymentIntent, StorageError>>,
    ) -> (r: Result<(Operation, PaymentData), ApiErrorResponse>)
        ensures
            match updated {
                None => r == Ok::<(Operation, PaymentData), ApiErrorResponse>(
                    (Operation::PaymentSession, payment_data),
                ),
                Some(Ok(payment_intent)) => r == Ok::<(Operation, PaymentData), ApiErrorResponse>(
                    (Operation::PaymentSession, PaymentData { payment_intent, ..payment_data }),
                ),
                Some(Err(StorageError::ValueNotFound)) => r == Err::<
                    (Operation, PaymentData),
                    ApiErrorResponse,
                >(ApiErrorResponse::PaymentNotFound),
                Some(Err(_)) => r == Err::<(Operation, PaymentData), ApiErrorResponse>(
                    ApiErrorResponse::InternalServerError,
                ),
            },
    {
        let mut payment_data = payment_data;
        match updated {
            None => {},
            Some(Ok(payment_intent)) => {
                payment_data.payment_intent = payment_intent;
            },
            Some(Err(e)) => {
                return Err(to_not_found_response(e, ApiErrorResponse::PaymentNotFound));
            },
        }
        Ok((Operation::PaymentSession, payment_data))
    }

    /// Decides the connectors a session request goes out to, from the
    /// connectors supported for wallets and the merchant's accounts. Accounts
    /// that could not be read are the internal error, and so is an account
    /// whose connector does not exist.
    pub fn get_connector(
        &self,
        supported_wallets: &Vec<String>,
        connector_accounts: Result<Vec<MerchantConnectorAccount>, StorageError>,
        request: &PaymentsSessionRequest,
    ) -> (r: Result<ConnectorCallType, ApiErrorResponse>)
        ensures
            match connector_accounts {
                Err(_) => r == Err::<ConnectorCallType, ApiErrorResponse>(
                    ApiErrorResponse::InternalServerError,
                ),
                Ok(accounts) => match session_connectors(
                    views(supported_wallets@),
                    accounts@,
                    request.wallets@,
                ) {
                    Some(list) => r matches Ok(ConnectorCallType::Multiple(connectors))
                        && connectors@ == list,
                    None => r == Err::<ConnectorCallType, ApiErrorResponse>(
                        ApiErrorResponse::InternalServerError,
                    ),
                },
            },
    {
        let connector_accounts = match connector_accounts {
            Ok(accounts) => accounts,
            Err(_) => {
                return Err(ApiErrorResponse::InternalServerError);
            },
        };
        let normal_connector_names = gather_names(&connector_accounts, Some(supported_wallets));
        let session_token_from_metadata_connectors = gather_names(&connector_accounts, None);
        let mut connectors_data: Vec<ConnectorData> = Vec::new();
        if request.wallets.len() > 0 {
            let ghost for_wallet = |wallet: SupportedWallets|
                connector_for_wallet(
                    wallet,
                    views(normal_connector_names@),
                    views(session_token_from_metadata_connectors@),
                );
            let mut i: usize = 0;
            while i < request.wallets.len()
                invariant
                    i <= request.wallets.len(),
                    for_wallet == |wallet: SupportedWallets|
                        connector_for_wallet(
                            wallet,
                            views(normal_connector_names@),
                            views(session_token_from_metadata_connectors@),
                        ),
                    connectors_data@ == request.wallets@.take(i as int).filter_map(for_wallet),
                decreases request.wallets.len() - i,
            {
                proof {
                    request.wallets@.lemma_filter_map_take_succ(for_wallet, i as int);
                }
                let connector = match request.wallets[i] {
                    SupportedWallets::Gpay => ConnectorData {
                        connector_name: Connector::Adyen,
                        get_token: GetToken::Metadata,
                    },
                    SupportedWallets::ApplePay => ConnectorData {
                        connector_name: Connector::Applepay,
                        get_token: GetToken::Connector,
                    },
                    SupportedWallets::Paypal => ConnectorData {
                        connector_name: Connector::Braintree,
                        get_token: GetToken::Connector,
                    },
                    SupportedWallets::Klarna => ConnectorData {
                        connector_name: Connector::Klarna,
                        get_token: GetToken::Connector,
                    },
                };
                let name = connector.connector_name.name();
                if contains_str(&session_token_from_metadata_connectors, name.as_str())
                    || contains_str(&normal_connector_names, name.as_str()) {
                    connectors_data.push(connector);
                }
                i += 1;
            }
            proof {
                assert(request.wallets@.take(request.wallets.len() as int) == request.wallets@);
            }
        } else {
            match resolve_into(&mut connectors_data, &normal_connector_names, GetToken::Connector) {
                Ok(()) => {},
                Err(e) => {
                    return Err(e);
                },
            }
            match resolve_into(
                &mut connectors_data,
                &session_token_from_metadata_connectors,
                GetToken::Metadata,
            ) {
                Ok(()) => {},
                Err(e) => {
                    return Err(e);
                },
            }
        }
        Ok(ConnectorCallType::Multiple(connectors_data))
    }

    /// Dispatches a session run: its policy always calls the connectors.
    pub fn calling_connector(
        &self,
        payment_data: &PaymentData,
        connector_details: ConnectorCallType,
    ) -> (r: Result<Option<DispatchPlan>, ApiErrorResponse>)
        ensures
            match dispatch_plan(*payment_data, connector_details) {
                Some(plan) => r == Ok::<Option<DispatchPlan>, ApiErrorResponse>(Some(plan)),
                None => r == Err::<Option<DispatchPlan>, ApiErrorResponse>(
                    ApiErrorResponse::InternalServerError,
                ),
            },
    {
        call_connector(&Operation::PaymentSession, payment_data, connector_details)
    }
}

/// The change a session run persists: the metadata document of the intent,
/// where it has one.
pub open spec fn planned_intent_update(payment_data: PaymentData) -> Option<PaymentIntentUpdate> {
    match payment_data.payment_intent.metadata {
        Some(record) => Some(PaymentIntentUpdate::MetadataUpdate { metadata: record.value }),
        None => None,
    }
}

/// The metadata document an intent has in the store after a change was
/// persisted for it.
pub open spec fn document_after(
    stored: Option<serde_json::Value>,
    update: Option<PaymentIntentUpdate>,
) -> Option<serde_json::Value> {
    match update {
        Some(PaymentIntentUpdate::MetadataUpdate { metadata }) => Some(metadata),
        None => stored,
    }
}

/// What a session run persists is what it loaded: the change it plans carries
/// the document the intent already has, so the stored document is the same
/// after the run as before it, however often the run is made.
pub proof fn lemma_session_run_persists_what_it_loaded(payment_data: PaymentData)
    ensures
        document_after(
            metadata_document(payment_data.payment_intent.metadata),
            planned_intent_update(payment_data),
        ) == metadata_document(payment_data.payment_intent.metadata),
{
}

/// The aggregate a session run starts from, around its lists of refunds and
/// session tokens.
pub open spec fn session_aggregate(
    trackers: SessionTrackers,
    shipping_address: Option<crate::storage::Address>,
    billing_address: Option<crate::storage::Address>,
    connector_response: ConnectorResponse,
    refunds: Vec<crate::storage::Refund>,
    sessions_token: Vec<crate::api::SessionToken>,
) -> PaymentData {
    PaymentData {
        payment_intent: PaymentIntent {
            shipping_address_id: match shipping_address {
                Some(a) => Some(a.address_id),
                None => None,
            },
            billing_address_id: match billing_address {
                Some(a) => Some(a.address_id),
                None => None,
            },
            ..trackers.payment_intent
        },
        payment_attempt: trackers.payment_attempt,
        connector_response,
        amount: trackers.amount,
        mandate_id: None,
        currency: trackers.currency,
        setup_mandate: None,
        address: PaymentAddress {
            shipping: match shipping_address {
                Some(a) => Some(address_shown(a)),
                None => None,
            },
            billing: match billing_address {
                Some(a) => Some(address_shown(a)),
                None => None,
            },
        },
        token: None,
        confirm: None,
        force_sync: None,
        payment_method_data: None,
        refunds,
        sessions_token,
        card_cvc: None,
        email: None,
        creds_identifier: None,
        pm_token: None,
    }
}

} // verus!
