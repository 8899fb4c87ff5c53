//! Dispatch: which connectors an operation goes out to, and how their
//! answers come back into the aggregate.

use vstd::prelude::*;
use crate::api::{ConnectorCallType, ConnectorData, SessionToken};
use crate::enums::{Connector, GetToken, MerchantStorageScheme, Operation};
use crate::errors::{ApiErrorResponse, ConnectorError};
use crate::flows::{decide_step, step_under, ConnectorStep};
use crate::payments::{
    should_call_connector, should_call_connector_spec, CallConnectorAction, PaymentData,
};
use crate::requests::initial_response;
use crate::storage::MerchantAccount;
use crate::types::{PaymentsResponseData, RouterData};

verus! {

/// The connectors an operation goes out to.
#[derive(Clone, Debug, PartialEq)]
pub enum DispatchPlan {
    /// One call, whose answer is folded into the aggregate and persisted.
    Single(ConnectorData),
    /// One call to each, all at once and each on its own; the session tokens
    /// of those that answer are gathered.
    Multiple(Vec<ConnectorData>),
}

/// The connectors a call type stands for. Deferred routing stands for the
/// connector recorded on the attempt, and for nothing where none is recorded
/// or the recorded name is no connector's.
pub open spec fn dispatch_plan(
    payment_data: PaymentData,
    connector_details: ConnectorCallType,
) -> Option<DispatchPlan> {
    match connector_details {
        ConnectorCallType::Single(connector) => Some(DispatchPlan::Single(connector)),
        ConnectorCallType::Multiple(connectors) => Some(DispatchPlan::Multiple(connectors)),
        ConnectorCallType::Routing => match payment_data.payment_attempt.connector {
            Some(name) => match ConnectorData::by_name_spec(name@, GetToken::Connector) {
                Some(connector) => Some(DispatchPlan::Single(connector)),
                None => None,
            },
            None => None,
        },
    }
}

/// The connector the router recorded on the attempt is the connector that
/// deferred routing stands for afterwards: a run that is taken up again
/// after the routing decision was persisted dispatches to the same
/// connector.
pub proof fn lemma_recorded_connector_is_dispatched_to(
    payment_data: PaymentData,
    name: String,
    connector: Connector,
)
    requires
        payment_data.payment_attempt.connector == Some(name),
        name@ == connector.name_spec(),
    ensures
        dispatch_plan(payment_data, ConnectorCallType::Routing) == Some(
            DispatchPlan::Single(
                ConnectorData { connector_name: connector, get_token: GetToken::Connector },
            ),
        ),
{
    Connector::lemma_name_round_trip(connector);
}

/// Decides which connectors the aggregate is dispatched to. A call type that
/// stands for nothing is the internal error.
pub fn connector_specific_call_connector(
    payment_data: &PaymentData,
    connector_details: ConnectorCallType,
) -> (r: Result<DispatchPlan, ApiErrorResponse>)
    ensures
        match dispatch_plan(*payment_data, connector_details) {
            Some(plan) => r == Ok::<DispatchPlan, ApiErrorResponse>(plan),
            None => r == Err::<DispatchPlan, ApiErrorResponse>(ApiErrorResponse::InternalServerError),
        },
{
    match connector_details {
        ConnectorCallType::Single(connector) => Ok(DispatchPlan::Single(connector)),
        ConnectorCallType::Multiple(connectors) => Ok(DispatchPlan::Multiple(connectors)),
        ConnectorCallType::Routing => {
            let connector = match &payment_data.payment_attempt.connector {
                Some(name) => name,
                None => {
                    return Err(ApiErrorResponse::InternalServerError);
                },
            };
            match ConnectorData::get_connector_by_name(connector.as_str(), GetToken::Connector) {
                Ok(connector_data) => Ok(DispatchPlan::Single(connector_data)),
                Err(_) => Err(ApiErrorResponse::InternalServerError),
            }
        },
    }
}

/// The last stage of the pipeline. An operation whose policy says so is
/// dispatched; every other leaves the aggregate as it is, which `None` says.
pub fn call_connector(
    operation: &Operation,
    payment_data: &PaymentData,
    connector_details: ConnectorCallType,
) -> (r: Result<Option<DispatchPlan>, ApiErrorResponse>)
    ensures
        !should_call_connector_spec(*operation, *payment_data) ==> r == Ok::<
            Option<DispatchPlan>,
            ApiErrorResponse,
        >(None),
        should_call_connector_spec(*operation, *payment_data) ==> match dispatch_plan(
            *payment_data,
            connector_details,
        ) {
            Some(plan) => r == Ok::<Option<DispatchPlan>, ApiErrorResponse>(Some(plan)),
            None => r == Err::<Option<DispatchPlan>, ApiErrorResponse>(
                ApiErrorResponse::InternalServerError,
            ),
        },
{
    if should_call_connector(operation, payment_data) {
        match connector_specific_call_connector(payment_data, connector_details) {
            Ok(plan) => Ok(Some(plan)),
            Err(e) => Err(e),
        }
    } else {
        Ok(None)
    }
}

/// How the call to one connector went: the envelope as it came back, or the
/// error the call failed with before any answer.
pub type CallOutcome<Req> = Result<RouterData<Req, PaymentsResponseData>, ApiErrorResponse>;

/// An answered envelope on its way back into the aggregate.
#[derive(Debug, PartialEq)]
pub struct FoldResponse<Req> {
    pub router_data: RouterData<Req, PaymentsResponseData>,
    pub storage_scheme: MerchantStorageScheme,
}

/// The outcome of the call to one connector, from what the connector step
/// brought: the envelope as it came back, and the internal error for a step
/// that could not be carried out.
pub fn connector_step_result<Req>(
    processed: Result<RouterData<Req, PaymentsResponseData>, ConnectorError>,
) -> (r: CallOutcome<Req>)
    ensures
        match processed {
            Ok(router_data) => r == Ok::<
                RouterData<Req, PaymentsResponseData>,
                ApiErrorResponse,
            >(router_data),
            Err(_) => r == Err::<RouterData<Req, PaymentsResponseData>, ApiErrorResponse>(
                ApiErrorResponse::InternalServerError,
            ),
        },
{
    match processed {
        Ok(router_data) => Ok(router_data),
        Err(_) => Err(ApiErrorResponse::InternalServerError),
    }
}

/// What follows the connector step of a single call. A step that failed ends
/// the operation with its error and nothing is folded. An envelope that came
/// back, whatever the connector answered in it, is folded into the aggregate
/// and persisted under the merchant's storage scheme.
pub fn call_connector_service<Req>(
    merchant_account: &MerchantAccount,
    decided: CallOutcome<Req>,
) -> (r: Result<FoldResponse<Req>, ApiErrorResponse>)
    ensures
        match decided {
            Ok(router_data) => r == Ok::<FoldResponse<Req>, ApiErrorResponse>(
                FoldResponse { router_data, storage_scheme: merchant_account.storage_scheme },
            ),
            Err(e) => r == Err::<FoldResponse<Req>, ApiErrorResponse>(e),
        },
{
    match decided {
        Ok(router_data) => Ok(
            FoldResponse { router_data, storage_scheme: merchant_account.storage_scheme },
        ),
        Err(e) => Err(e),
    }
}

/// The first failure among the envelopes built for a fan-out, if any failed.
pub open spec fn first_failure<Req>(
    constructed: Seq<CallOutcome<Req>>,
) -> Option<ApiErrorResponse>
    decreases constructed.len(),
{
    if constructed.len() == 0 {
        None
    } else {
        match first_failure(constructed.drop_last()) {
            Some(e) => Some(e),
            None => match constructed.last() {
                Err(e) => Some(e),
                Ok(_) => None,
            },
        }
    }
}

/// Prepares the calls of a fan-out from the envelopes built for its
/// connectors, in order.
///
/// Where every envelope could be built, each call takes the step that the
/// action of the run decides for it: all are sent when the run triggers the
/// call, and none is when the run avoids it. Where an envelope could not be
/// built, the first such failure is the failure of the operation and nothing
/// is sent to any connector.
pub fn prepare_multiple_connector_calls<Req>(
    constructed: Vec<CallOutcome<Req>>,
    call_connector_action: &CallConnectorAction,
) -> (r: Result<Vec<ConnectorStep<RouterData<Req, PaymentsResponseData>>>, ApiErrorResponse>)
    ensures
        match first_failure(constructed@) {
            Some(e) => r == Err::<
                Vec<ConnectorStep<RouterData<Req, PaymentsResponseData>>>,
                ApiErrorResponse,
            >(e),
            None => {
                &&& r matches Ok(steps)
                &&& steps@.len() == constructed@.len()
                &&& forall|i: int|
                    0 <= i < steps@.len() ==> constructed@[i] is Ok && (#[trigger] steps@[i]).shape()
                        == step_under(constructed@[i]->Ok_0, *call_connector_action).shape()
            },
        },
{
    let ghost all = constructed@;
    let mut steps: Vec<ConnectorStep<RouterData<Req, PaymentsResponseData>>> = Vec::new();
    for item in it: constructed.into_iter()
        invariant
            it.seq() == all,
            steps@.len() == it.index(),
            first_failure(all.take(it.index())) is None,
            forall|i: int|
                0 <= i < steps@.len() ==> all[i] is Ok && (#[trigger] steps@[i]).shape()
                    == step_under(all[i]->Ok_0, *call_connector_action).shape(),
    {
        proof {
            assert(all.take(it.index() + 1).drop_last() == all.take(it.index()));
        }
        match item {
            Ok(envelope) => {
                steps.push(decide_step(envelope, call_connector_action));
            },
            Err(e) => {
                proof {
                    lemma_first_failure_stays(all, it.index() + 1);
                }
                return Err(e);
            },
        }
    }
    proof {
        assert(all.take(all.len() as int) == all);
    }
    Ok(steps)
}

/// A fan-out prepared under the action that avoids the call sends nothing:
/// every one of its steps is the envelope as it was built, and none goes out
/// to a connector. Under any action only a triggered fan-out goes out.
pub proof fn lemma_avoided_fan_out_calls_no_connector<Req>(
    steps: Seq<ConnectorStep<RouterData<Req, PaymentsResponseData>>>,
    envelopes: Seq<RouterData<Req, PaymentsResponseData>>,
    call_connector_action: CallConnectorAction,
)
    requires
        steps.len() == envelopes.len(),
        forall|i: int|
            0 <= i < steps.len() ==> (#[trigger] steps[i]).shape() == step_under(
                envelopes[i],
                call_connector_action,
            ).shape(),
    ensures
        call_connector_action == CallConnectorAction::Avoid ==> forall|i: int|
            0 <= i < steps.len() ==> #[trigger] steps[i] == ConnectorStep::Settled(envelopes[i]),
        call_connector_action != CallConnectorAction::Trigger ==> forall|i: int|
            0 <= i < steps.len() ==> !(#[trigger] steps[i]).calls_connector(),
{
}

/// A failure among the first envelopes is the first failure of them all.
proof fn lemma_first_failure_stays<Req>(
    constructed: Seq<CallOutcome<Req>>,
    n: int,
)
    requires
        0 <= n <= constructed.len(),
        first_failure(constructed.take(n)) is Some,
    ensures
        first_failure(constructed) == first_failure(constructed.take(n)),
    decreases constructed.len() - n,
{
    if n < constructed.len() {
        assert(constructed.take(n + 1).drop_last() == constructed.take(n));
        lemma_first_failure_stays(constructed, n + 1);
    } else {
        assert(constructed.take(n) == constructed);
    }
}

/// The session token an outcome of the fan-out carries: the one of a call
/// that came back with a session answer. A call that failed, or came back
/// with a refusal or any other answer, carries none.
pub open spec fn session_token_of<Req>(
    outcome: CallOutcome<Req>,
) -> Option<SessionToken> {
    match outcome {
        Ok(router_data) => match router_data.response {
            Ok(PaymentsResponseData::SessionResponse { session_token }) => Some(session_token),
            _ => None,
        },
        Err(_) => None,
    }
}

/// The session tokens a list of outcomes carries, in the order of the list.
pub open spec fn session_tokens_of<Req>(
    outcomes: Seq<CallOutcome<Req>>,
) -> Seq<SessionToken> {
    outcomes.filter_map(|outcome: CallOutcome<Req>| session_token_of(outcome))
}

/// The aggregate with its session tokens replaced and nothing else touched.
pub open spec fn with_sessions_token(
    payment_data: PaymentData,
    sessions_token: Vec<SessionToken>,
) -> PaymentData {
    PaymentData { sessions_token, ..payment_data }
}

/// Gathers the answers of a fan-out into the aggregate.
///
/// Every outcome is looked at, in the order given. The token of each call
/// that came back with a session answer is appended to the aggregate's
/// session tokens; a call that failed is dropped and fails nothing. The
/// operation as a whole succeeds whatever the outcomes are.
pub fn call_multiple_connectors_service<Req>(
    payment_data: PaymentData,
    outcomes: &Vec<CallOutcome<Req>>,
) -> (r: Result<PaymentData, ApiErrorResponse>)
    ensures
        r matches Ok(folded) && folded == with_sessions_token(payment_data, folded.sessions_token)
            && folded.sessions_token@ == payment_data.sessions_token@ + session_tokens_of(outcomes@),
        payment_data.same_payment() ==> r->Ok_0.same_payment(),
{
    let mut payment_data = payment_data;
    let ghost before = payment_data;
    let ghost token_of = |outcome: CallOutcome<Req>| session_token_of(outcome);
    let mut i: usize = 0;
    while i < outcomes.len()
        invariant
            i <= outcomes.len(),
            token_of == |outcome: CallOutcome<Req>| session_token_of(outcome),
            payment_data == with_sessions_token(before, payment_data.sessions_token),
            payment_data.sessions_token@ == before.sessions_token@ + outcomes@.take(
                i as int,
            ).filter_map(token_of),
        decreases outcomes.len() - i,
    {
        proof {
            outcomes@.lemma_filter_map_take_succ(token_of, i as int);
        }
        match &outcomes[i] {
            Ok(connector_response) => {
                match &connector_response.response {
                    Ok(PaymentsResponseData::SessionResponse { session_token }) => {
                        payment_data.sessions_token.push(session_token.clone());
                    },
                    _ => {},
                }
            },
            Err(_) => {},
        }
        i += 1;
    }
    proof {
        assert(outcomes@.take(outcomes.len() as int) == outcomes@);
    }
    Ok(payment_data)
}

/// A fan-out none of whose calls came back with a session answer gathers
/// nothing.
pub proof fn lemma_fan_out_without_answers_gathers_nothing<Req>(outcomes: Seq<CallOutcome<Req>>)
    requires
        forall|i: int| 0 <= i < outcomes.len() ==> session_token_of(#[trigger] outcomes[i]) is None,
    ensures
        session_tokens_of(outcomes) == Seq::<SessionToken>::empty(),
    decreases outcomes.len(),
{
    if outcomes.len() > 0 {
        let earlier = outcomes.drop_last();
        assert forall|i: int| 0 <= i < earlier.len() implies session_token_of(
            #[trigger] earlier[i],
        ) is None by {
            assert(earlier[i] == outcomes[i]);
        }
        lemma_fan_out_without_answers_gathers_nothing(earlier);
    }
}

/// An avoided fan-out leaves the aggregate as it is. Its calls settle as
/// their envelopes were built, a freshly built envelope holds no session
/// answer, and so no token is gathered: the aggregate that comes out of the
/// fan-out has the session tokens it went in with.
pub proof fn lemma_avoided_fan_out_gathers_nothing<Req>(
    outcomes: Seq<CallOutcome<Req>>,
    steps: Seq<ConnectorStep<RouterData<Req, PaymentsResponseData>>>,
    envelopes: Seq<RouterData<Req, PaymentsResponseData>>,
    payment_data: PaymentData,
)
    requires
        steps.len() == envelopes.len(),
        outcomes.len() == envelopes.len(),
        forall|i: int|
            0 <= i < envelopes.len() ==> initial_response(
                (#[trigger] envelopes[i]).response,
                payment_data.payment_attempt,
            ),
        forall|i: int|
            0 <= i < steps.len() ==> (#[trigger] steps[i]).shape() == step_under(
                envelopes[i],
                CallConnectorAction::Avoid,
            ).shape(),
        forall|i: int|
            0 <= i < outcomes.len() ==> steps[i] is Settled && #[trigger] outcomes[i] == Ok::<
                RouterData<Req, PaymentsResponseData>,
                ApiErrorResponse,
            >(steps[i]->Settled_0),
    ensures
        session_tokens_of(outcomes) == Seq::<SessionToken>::empty(),
        payment_data.sessions_token@ + session_tokens_of(outcomes) == payment_data.sessions_token@,
{
    assert forall|i: int| 0 <= i < outcomes.len() implies session_token_of(
        #[trigger] outcomes[i],
    ) is None by {
        assert(steps[i] == ConnectorStep::Settled(envelopes[i]));
        assert(initial_response(envelopes[i].response, payment_data.payment_attempt));
    }
    lemma_fan_out_without_answers_gathers_nothing(outcomes);
}

/// A call that failed, or came back without a session answer, adds nothing
/// to what the fan-out gathers, and takes nothing away from it.
pub proof fn lemma_call_without_token_adds_nothing<Req>(
    outcomes: Seq<CallOutcome<Req>>,
    outcome: CallOutcome<Req>,
)
    requires
        session_token_of(outcome) is None,
    ensures
        session_tokens_of(outcomes.push(outcome)) == session_tokens_of(outcomes),
{
    assert(outcomes.push(outcome).drop_last() == outcomes);
}

/// A call that came back with a session answer adds its token behind the
/// tokens gathered before it.
pub proof fn lemma_session_answer_adds_its_token<Req>(
    outcomes: Seq<CallOutcome<Req>>,
    outcome: CallOutcome<Req>,
)
    requires
        session_token_of(outcome) is Some,
    ensures
        session_tokens_of(outcomes.push(outcome)) == session_tokens_of(outcomes).push(
            session_token_of(outcome)->0,
        ),
{
    assert(outcomes.push(outcome).drop_last() == outcomes);
}

/// Of three calls of which one failed and two came back with a session
/// answer, exactly the two tokens are gathered, wherever the failure stands.
pub proof fn lemma_one_failure_out_of_three<Req>(
    outcomes: Seq<CallOutcome<Req>>,
    failed: int,
)
    requires
        outcomes.len() == 3,
        0 <= failed < 3,
        forall|i: int|
            0 <= i < 3 ==> (session_token_of(#[trigger] outcomes[i]) is Some <==> i != failed),
    ensures
        session_tokens_of(outcomes).len() == 2,
{
    let first = Seq::empty().push(outcomes[0]);
    let second = first.push(outcomes[1]);
    assert(second.push(outcomes[2]) == outcomes);
    if failed == 0 {
        lemma_call_without_token_adds_nothing(Seq::empty(), outcomes[0]);
    } else {
        lemma_session_answer_adds_its_token(Seq::empty(), outcomes[0]);
    }
    if failed == 1 {
        lemma_call_without_token_adds_nothing(first, outcomes[1]);
    } else {
        lemma_session_answer_adds_its_token(first, outcomes[1]);
    }
    if failed == 2 {
        lemma_call_without_token_adds_nothing(second, outcomes[2]);
    } else {
        lemma_session_answer_adds_its_token(second, outcomes[2]);
    }
}

} // verus!
