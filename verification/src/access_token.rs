//! The access-token policy: use the cached credential of a merchant with a
//! connector, and refresh it once where none is cached.
//!
//! Reading the cache, asking the connector and writing the cache are done by
//! the caller. Each function here takes what the caller's last step brought
//! and says what to do next.

use vstd::prelude::*;
use vstd::string::*;
use crate::api::ConnectorData;
use crate::errors::{ApiErrorResponse, ConnectorError, ErrorResponse, StorageError};
use crate::storage::{AccessToken, ConnectorAuthType, MerchantAccount};
use crate::types::{AccessTokenRequestData, AddAccessTokenResult, RouterData};
use crate::flows::ConnectorStep;

verus! {

/// What the policy asks of its caller next.
#[derive(Debug, PartialEq)]
pub enum TokenAction {
    /// Read the token cached for the merchant with the connector.
    ReadCache { merchant_id: String, connector_id: String },
    /// Ask the connector for a fresh token with this envelope.
    Refresh { router_data: RouterData<AccessTokenRequestData, AccessToken> },
    /// Write the token to the cache, then finish with the result. A failure
    /// of the write is logged and dropped: the next request refreshes again.
    StoreAndFinish {
        merchant_id: String,
        connector_id: String,
        token: AccessToken,
        result: AddAccessTokenResult,
    },
    /// The policy is done.
    Finish { result: AddAccessTokenResult },
}

/// Why the policy gives up.
pub enum TokenFailure {
    /// The cache could not be read: the internal error.
    CacheUnreadable,
    /// The merchant's credentials cannot ask for a token: the invalid-value
    /// error for the connector account details.
    CredentialsUnusable,
    /// The refresh call could not be made: the internal error.
    ConnectorUnreachable,
}

/// A step of the policy: what is done next, and with which token or result.
/// Under whose names the cache is read or written, and the envelope of a
/// refresh, are stated beside it where a step is decided.
pub enum TokenPlan {
    ReadCache,
    Refresh,
    StoreAndFinish(AccessToken, AddAccessTokenResult),
    Finish(AddAccessTokenResult),
    Fail(TokenFailure),
}

impl AddAccessTokenResult {
    /// The result for a connector that works without access tokens: no
    /// token, and no error either.
    pub open spec fn not_needed() -> AddAccessTokenResult {
        AddAccessTokenResult {
            access_token_result: Ok(None),
            connector_supports_access_token: false,
        }
    }

    /// The result that hands out a token of a connector that works with them.
    pub open spec fn token(access_token: AccessToken) -> AddAccessTokenResult {
        AddAccessTokenResult {
            access_token_result: Ok(Some(access_token)),
            connector_supports_access_token: true,
        }
    }

    /// The result that hands on the refusal of a connector to issue a token.
    pub open spec fn refused(refusal: ErrorResponse) -> AddAccessTokenResult {
        AddAccessTokenResult {
            access_token_result: Err(refusal),
            connector_supports_access_token: true,
        }
    }
}

impl TokenAction {
    /// The step this action stands for.
    pub open spec fn plan(self) -> TokenPlan {
        match self {
            TokenAction::ReadCache { .. } => TokenPlan::ReadCache,
            TokenAction::Refresh { .. } => TokenPlan::Refresh,
            TokenAction::StoreAndFinish { token, result, .. } => TokenPlan::StoreAndFinish(
                token,
                result,
            ),
            TokenAction::Finish { result } => TokenPlan::Finish(result),
        }
    }
}

/// The first step: nothing to do for a connector without token support, else
/// a look into the cache.
pub open spec fn plan_start(supports_access_token: bool) -> TokenPlan {
    if supports_access_token {
        TokenPlan::ReadCache
    } else {
        TokenPlan::Finish(AddAccessTokenResult::not_needed())
    }
}

/// Starts the policy for a call to `connector` on behalf of a merchant.
///
/// A connector without token support needs no token: the result carries
/// none and says that none is needed, which is no failure; neither the cache
/// nor the connector is asked. Any other connector's cached token is asked
/// for, under the merchant's and the connector's identifiers.
pub fn add_access_token(
    connector: &ConnectorData,
    supports_access_token: bool,
    merchant_account: &MerchantAccount,
) -> (r: TokenAction)
    ensures
        r.plan() == plan_start(supports_access_token),
        supports_access_token ==> {
            &&& r matches TokenAction::ReadCache { merchant_id, connector_id }
            &&& merchant_id == merchant_account.merchant_id
            &&& connector_id@ == connector.connector_name.name_spec()
        },
        !supports_access_token ==> r == (TokenAction::Finish {
            result: AddAccessTokenResult::not_needed(),
        }),
{
    if supports_access_token {
        TokenAction::ReadCache {
            merchant_id: merchant_account.merchant_id.clone(),
            connector_id: connector.connector_name.name(),
        }
    } else {
        TokenAction::Finish {
            result: AddAccessTokenResult {
                access_token_result: Ok(None),
                connector_supports_access_token: false,
            },
        }
    }
}

/// The refresh request for a merchant's credentials: the key, and the second
/// key where the credentials have one. Credentials without a key cannot ask
/// for a token.
pub open spec fn access_token_request(auth: ConnectorAuthType) -> Option<AccessTokenRequestData> {
    match auth {
        ConnectorAuthType::HeaderKey { api_key } => Some(
            AccessTokenRequestData { app_id: api_key, id: None },
        ),
        ConnectorAuthType::BodyKey { api_key, key1 } => Some(
            AccessTokenRequestData { app_id: api_key, id: Some(key1) },
        ),
        ConnectorAuthType::SignatureKey { api_key, key1, api_secret } => Some(
            AccessTokenRequestData { app_id: api_key, id: Some(key1) },
        ),
        ConnectorAuthType::NoKey => None,
    }
}

impl AccessTokenRequestData {
    /// Derives the refresh request from a merchant's credentials.
    pub fn try_from(connector_auth: ConnectorAuthType) -> (r: Result<Self, ApiErrorResponse>)
        ensures
            match access_token_request(connector_auth) {
                Some(request) => r == Ok::<Self, ApiErrorResponse>(request),
                None => r matches Err(e) && e.is_invalid_value("connector_account_details"@),
            },
    {
        match connector_auth {
            ConnectorAuthType::HeaderKey { api_key } => Ok(
                AccessTokenRequestData { app_id: api_key, id: None },
            ),
            ConnectorAuthType::BodyKey { api_key, key1 } => Ok(
                AccessTokenRequestData { app_id: api_key, id: Some(key1) },
            ),
            ConnectorAuthType::SignatureKey { api_key, key1, api_secret: _ } => Ok(
                AccessTokenRequestData { app_id: api_key, id: Some(key1) },
            ),
            ConnectorAuthType::NoKey => Err(
                ApiErrorResponse::invalid_data_value("connector_account_details"),
            ),
        }
    }
}

/// The envelope of a call with its request and its answer slot replaced and
/// everything else kept.
pub fn router_data_type_conversion<Req1, Res1, Req2, Res2>(
    router_data: &RouterData<Req1, Res1>,
    request: Req2,
    response: Result<Res2, ErrorResponse>,
) -> (r: RouterData<Req2, Res2>)
    ensures
        r.without_request() == router_data.without_request(),
        r.request == request,
        r.response == response,
{
    RouterData {
        merchant_id: router_data.merchant_id.clone(),
        connector: router_data.connector.clone(),
        payment_id: router_data.payment_id.clone(),
        attempt_id: router_data.attempt_id.clone(),
        status: router_data.status,
        payment_method: router_data.payment_method,
        connector_auth_type: router_data.connector_auth_type.clone(),
        description: router_data.description.clone(),
        return_url: router_data.return_url.clone(),
        payment_method_id: router_data.payment_method_id.clone(),
        address: router_data.address.clone(),
        auth_type: router_data.auth_type,
        connector_meta_data: router_data.connector_meta_data.clone(),
        amount_captured: router_data.amount_captured,
        access_token: router_data.access_token.clone(),
        session_token: router_data.session_token.clone(),
        reference_id: router_data.reference_id.clone(),
        payment_method_token: router_data.payment_method_token.clone(),
        request,
        response,
    }
}

/// The step after the cache was read. A failing store is the internal error.
/// A cached token ends the policy. Without one the connector is asked, unless
/// the credentials cannot ask for a token.
pub open spec fn plan_after_cache(
    cached: Result<Option<AccessToken>, StorageError>,
    auth: ConnectorAuthType,
) -> TokenPlan {
    match cached {
        Err(_) => TokenPlan::Fail(TokenFailure::CacheUnreadable),
        Ok(Some(token)) => TokenPlan::Finish(AddAccessTokenResult::token(token)),
        Ok(None) => match access_token_request(auth) {
            Some(_) => TokenPlan::Refresh,
            None => TokenPlan::Fail(TokenFailure::CredentialsUnusable),
        },
    }
}

/// Continues the policy with what the cache held for the merchant and the
/// connector of `router_data`.
///
/// A cached token is the result. Where none is cached, the connector is to be
/// asked with an envelope that is `router_data` with the refresh request
/// derived from its credentials and an empty answer slot.
pub fn access_token_from_cache<Req, Res>(
    cached: Result<Option<AccessToken>, StorageError>,
    router_data: &RouterData<Req, Res>,
) -> (r: Result<TokenAction, ApiErrorResponse>)
    ensures
        match r {
            Ok(action) => action.plan() == plan_after_cache(cached, router_data.connector_auth_type),
            Err(_) => plan_after_cache(cached, router_data.connector_auth_type) is Fail,
        },
        match plan_after_cache(cached, router_data.connector_auth_type) {
            TokenPlan::Fail(TokenFailure::CredentialsUnusable) => r matches Err(e)
                && e.is_invalid_value("connector_account_details"@),
            TokenPlan::Fail(_) => r == Err::<TokenAction, ApiErrorResponse>(
                ApiErrorResponse::InternalServerError,
            ),
            TokenPlan::Finish(result) => r == Ok::<TokenAction, ApiErrorResponse>(
                TokenAction::Finish { result },
            ),
            _ => {
                &&& r matches Ok(TokenAction::Refresh { router_data: refresh })
                &&& refresh.without_request() == router_data.without_request()
                &&& Some(refresh.request) == access_token_request(router_data.connector_auth_type)
                &&& refresh.response matches Err(e)
                &&& e.is_placeholder()
            },
        },
{
    match cached {
        Err(_) => Err(ApiErrorResponse::InternalServerError),
        Ok(Some(access_token)) => Ok(
            TokenAction::Finish {
                result: AddAccessTokenResult {
                    access_token_result: Ok(Some(access_token)),
                    connector_supports_access_token: true,
                },
            },
        ),
        Ok(None) => {
            let request = match AccessTokenRequestData::try_from(
                router_data.connector_auth_type.clone(),
            ) {
                Ok(request) => request,
                Err(e) => {
                    return Err(e);
                },
            };
            let response: Result<AccessToken, ErrorResponse> = Err(ErrorResponse::placeholder());
            Ok(
                TokenAction::Refresh {
                    router_data: router_data_type_conversion(router_data, request, response),
                },
            )
        },
    }
}

/// What a refresh call brought: the connector's answer, or the internal error
/// where the call itself could not be made.
pub fn refresh_connector_auth(
    processed: Result<RouterData<AccessTokenRequestData, AccessToken>, ConnectorError>,
) -> (r: Result<Result<AccessToken, ErrorResponse>, ApiErrorResponse>)
    ensures
        match processed {
            Ok(router_data) => r == Ok::<Result<AccessToken, ErrorResponse>, ApiErrorResponse>(
                router_data.response,
            ),
            Err(_) => r == Err::<Result<AccessToken, ErrorResponse>, ApiErrorResponse>(
                ApiErrorResponse::InternalServerError,
            ),
        },
{
    match processed {
        Ok(router_data) => Ok(router_data.response),
        Err(_) => Err(ApiErrorResponse::InternalServerError),
    }
}

/// The step a refresh takes: the request for a fresh token is always sent to
/// the connector, whatever action the payment itself is dispatched under.
pub fn refresh_step(router_data: RouterData<AccessTokenRequestData, AccessToken>) -> (r:
    ConnectorStep<RouterData<AccessTokenRequestData, AccessToken>>)
    ensures
        r == ConnectorStep::Send(router_data),
{
    ConnectorStep::Send(router_data)
}

/// The step after the connector answered a refresh: a fresh token is stored
/// and used, a refusal is the result.
pub open spec fn plan_after_refresh(refreshed: Result<AccessToken, ErrorResponse>) -> TokenPlan {
    match refreshed {
        Ok(token) => TokenPlan::StoreAndFinish(token, AddAccessTokenResult::token(token)),
        Err(e) => TokenPlan::Finish(AddAccessTokenResult::refused(e)),
    }
}

/// Ends the policy with the connector's answer to a refresh.
pub fn access_token_refreshed(
    connector: &ConnectorData,
    merchant_account: &MerchantAccount,
    refreshed: Result<AccessToken, ErrorResponse>,
) -> (r: TokenAction)
    ensures
        r.plan() == plan_after_refresh(refreshed),
        match refreshed {
            Ok(fresh) => {
                &&& r matches TokenAction::StoreAndFinish { merchant_id, connector_id, token, result }
                &&& merchant_id == merchant_account.merchant_id
                &&& connector_id@ == connector.connector_name.name_spec()
                &&& token == fresh
                &&& result == AddAccessTokenResult {
                    access_token_result: Ok(Some(fresh)),
                    connector_supports_access_token: true,
                }
            },
            Err(e) => r == (TokenAction::Finish {
                result: AddAccessTokenResult {
                    access_token_result: Err(e),
                    connector_supports_access_token: true,
                },
            }),
        },
{
    match refreshed {
        Ok(access_token) => TokenAction::StoreAndFinish {
            merchant_id: merchant_account.merchant_id.clone(),
            connector_id: connector.connector_name.name(),
            token: access_token.clone(),
            result: AddAccessTokenResult {
                access_token_result: Ok(Some(access_token)),
                connector_supports_access_token: true,
            },
        },
        Err(e) => TokenAction::Finish {
            result: AddAccessTokenResult {
                access_token_result: Err(e),
                connector_supports_access_token: true,
            },
        },
    }
}

/// Whether the policy is run ahead of a step: a credential is needed only
/// for a call that goes out to the connector.
pub fn needs_access_token<D>(step: &ConnectorStep<D>) -> (r: bool)
    ensures
        r == step.calls_connector(),
{
    matches!(step, ConnectorStep::Send(_))
}

/// A step after the policy has run for it.
///
/// Only a call that goes out is touched. Where the connector works without
/// tokens the call goes out as it is. A token is put into the envelope and
/// the call goes out with it. Where the connector refused to issue a token,
/// nothing is sent: the call settles, and the connector's refusal is the
/// answer in its envelope, as it came.
pub open spec fn step_with_token<Req, Res>(
    step: ConnectorStep<RouterData<Req, Res>>,
    result: AddAccessTokenResult,
) -> ConnectorStep<RouterData<Req, Res>> {
    match step {
        ConnectorStep::Send(envelope) => if !result.connector_supports_access_token {
            step
        } else {
            match result.access_token_result {
                Ok(access_token) => ConnectorStep::Send(RouterData { access_token, ..envelope }),
                Err(refusal) => ConnectorStep::Settled(
                    RouterData { response: Err(refusal), ..envelope },
                ),
            }
        },
        _ => step,
    }
}

/// Applies the result of the policy to the step it was run for.
pub fn update_router_data_with_access_token_result<Req, Res>(
    step: ConnectorStep<RouterData<Req, Res>>,
    add_access_token_result: AddAccessTokenResult,
) -> (r: ConnectorStep<RouterData<Req, Res>>)
    ensures
        r == step_with_token(step, add_access_token_result),
{
    match step {
        ConnectorStep::Send(envelope) => {
            if !add_access_token_result.connector_supports_access_token {
                ConnectorStep::Send(envelope)
            } else {
                let mut router_data = envelope;
                match add_access_token_result.access_token_result {
                    Ok(access_token) => {
                        router_data.access_token = access_token;
                        ConnectorStep::Send(router_data)
                    },
                    Err(refusal) => {
                        router_data.response = Err(refusal);
                        ConnectorStep::Settled(router_data)
                    },
                }
            }
        },
        other => other,
    }
}

/// A step that does not go out to the connector stays as it is whatever the
/// policy would say, and no step comes to go out through the policy.
pub proof fn lemma_token_never_causes_a_call<Req, Res>(
    step: ConnectorStep<RouterData<Req, Res>>,
    result: AddAccessTokenResult,
)
    ensures
        !step.calls_connector() ==> step_with_token(step, result) == step,
        step_with_token(step, result).calls_connector() ==> step.calls_connector(),
        result == AddAccessTokenResult::not_needed() ==> step_with_token(step, result) == step,
{
}

/// What a run of the policy meets outside: the token the cache holds, the
/// connector's answer to a refresh (nothing where it cannot be reached), and
/// whether the cache takes a write.
pub struct TokenWorld {
    pub cache: Option<AccessToken>,
    pub refresh: Option<Result<AccessToken, ErrorResponse>>,
    pub store_works: bool,
}

/// What a run of the policy comes to: its result, how often the cache was
/// read, the connector asked for a token and the cache written, and what the
/// cache holds afterwards.
pub struct TokenRun {
    pub outcome: Result<AddAccessTokenResult, TokenFailure>,
    pub cache_reads: nat,
    pub refresh_calls: nat,
    pub cache_writes: nat,
    pub cache: Option<AccessToken>,
}

/// A run of the policy from its first step to its last, each step taken as
/// the policy plans it and answered by the world. The cache is readable.
pub open spec fn run_policy(
    supports_access_token: bool,
    auth: ConnectorAuthType,
    world: TokenWorld,
) -> TokenRun {
    match plan_start(supports_access_token) {
        TokenPlan::ReadCache => match plan_after_cache(Ok(world.cache), auth) {
            TokenPlan::Refresh => match world.refresh {
                None => TokenRun {
                    outcome: Err(TokenFailure::ConnectorUnreachable),
                    cache_reads: 1,
                    refresh_calls: 1,
                    cache_writes: 0,
                    cache: world.cache,
                },
                Some(answer) => match plan_after_refresh(answer) {
                    TokenPlan::StoreAndFinish(token, result) => TokenRun {
                        outcome: Ok(result),
                        cache_reads: 1,
                        refresh_calls: 1,
                        cache_writes: 1,
                        cache: if world.store_works {
                            Some(token)
                        } else {
                            world.cache
                        },
                    },
                    TokenPlan::Finish(result) => TokenRun {
                        outcome: Ok(result),
                        cache_reads: 1,
                        refresh_calls: 1,
                        cache_writes: 0,
                        cache: world.cache,
                    },
                    _ => TokenRun {
                        outcome: Err(TokenFailure::ConnectorUnreachable),
                        cache_reads: 1,
                        refresh_calls: 1,
                        cache_writes: 0,
                        cache: world.cache,
                    },
                },
            },
            TokenPlan::Finish(result) => TokenRun {
                outcome: Ok(result),
                cache_reads: 1,
                refresh_calls: 0,
                cache_writes: 0,
                cache: world.cache,
            },
            TokenPlan::Fail(failure) => TokenRun {
                outcome: Err(failure),
                cache_reads: 1,
                refresh_calls: 0,
                cache_writes: 0,
                cache: world.cache,
            },
            _ => TokenRun {
                outcome: Err(TokenFailure::CacheUnreadable),
                cache_reads: 1,
                refresh_calls: 0,
                cache_writes: 0,
                cache: world.cache,
            },
        },
        TokenPlan::Finish(result) => TokenRun {
            outcome: Ok(result),
            cache_reads: 0,
            refresh_calls: 0,
            cache_writes: 0,
            cache: world.cache,
        },
        _ => TokenRun {
            outcome: Err(TokenFailure::CacheUnreadable),
            cache_reads: 0,
            refresh_calls: 0,
            cache_writes: 0,
            cache: world.cache,
        },
    }
}

/// With a token in the cache, the policy hands out that token without asking
/// the connector, and leaves the cache as it is: however many runs follow one
/// another, none of them refreshes.
pub proof fn lemma_cached_token_is_reused(
    auth: ConnectorAuthType,
    world: TokenWorld,
    token: AccessToken,
)
    requires
        world.cache == Some(token),
    ensures
        run_policy(true, auth, world).refresh_calls == 0,
        run_policy(true, auth, world).cache_writes == 0,
        run_policy(true, auth, world).outcome == Ok::<AddAccessTokenResult, TokenFailure>(
            AddAccessTokenResult::token(token),
        ),
        run_policy(true, auth, world).cache == world.cache,
        run_policy(
            true,
            auth,
            TokenWorld { cache: run_policy(true, auth, world).cache, ..world },
        ).refresh_calls == 0,
{
}

/// Without a token in the cache, the policy asks the connector exactly once.
/// A token the connector issues is the result whether or not the cache takes
/// it; where the cache does, the token is what the cache holds afterwards,
/// and the next run hands it out without a refresh. A refusal of the
/// connector is the result as it came, and nothing is written.
pub proof fn lemma_missing_token_is_refreshed_once(auth: ConnectorAuthType, world: TokenWorld)
    requires
        world.cache is None,
        access_token_request(auth) is Some,
    ensures
        run_policy(true, auth, world).refresh_calls == 1,
        world.refresh matches Some(Ok(token)) ==> {
            &&& run_policy(true, auth, world).outcome == Ok::<AddAccessTokenResult, TokenFailure>(
                AddAccessTokenResult::token(token),
            )
            &&& run_policy(true, auth, world).cache_writes == 1
            &&& world.store_works ==> {
                let next = TokenWorld { cache: run_policy(true, auth, world).cache, ..world };
                &&& next.cache == Some(token)
                &&& run_policy(true, auth, next).refresh_calls == 0
                &&& run_policy(true, auth, next).outcome == Ok::<
                    AddAccessTokenResult,
                    TokenFailure,
                >(AddAccessTokenResult::token(token))
            }
        },
        world.refresh matches Some(Err(refusal)) ==> {
            &&& run_policy(true, auth, world).outcome == Ok::<AddAccessTokenResult, TokenFailure>(
                AddAccessTokenResult::refused(refusal),
            )
            &&& run_policy(true, auth, world).cache_writes == 0
            &&& run_policy(true, auth, world).cache is None
        },
{
}

/// A connector without token support is never asked for a token, and the
/// cache is neither read nor written; the result carries no token and no
/// error.
pub proof fn lemma_unsupported_connector_needs_no_token(auth: ConnectorAuthType, world: TokenWorld)
    ensures
        run_policy(false, auth, world).cache_reads == 0,
        run_policy(false, auth, world).refresh_calls == 0,
        run_policy(false, auth, world).cache_writes == 0,
        run_policy(false, auth, world).outcome == Ok::<AddAccessTokenResult, TokenFailure>(
            AddAccessTokenResult {
                access_token_result: Ok(None),
                connector_supports_access_token: false,
            },
        ),
        run_policy(false, auth, world).cache == world.cache,
{
}

} // verus!
