//! What stands in a record is what the laws say of it: each part of a model is the field of that
//! name, and an answer is the one that is given.

use crate::api_error::ApiError;
use crate::claim_triage::{ClaimTriageRequest, ClaimTriageResponse};
use crate::customer_profile::AppState as CustomerDirectory;
use crate::customer_records::{
    Coverage, CustomerPreferences, CustomerProfile, CustomerRecord, Policy, PolicyResponse,
    PreferencesResponse, PriorClaim, PriorClaimsResponse, Vehicle,
};
use crate::headers::all_values;
use crate::mcp_error::McpError;
use crate::mcp_server::{
    AppState as ClaimServer, JsonRpcError, JsonRpcRequest, JsonRpcResponse, McpReply, McpSession,
};
use crate::model::result_model;
use crate::offer_decision::{
    AppState as DecisionService, OfferDecisionRequest, OfferDecisionResponse,
    SettlementRecommendationRequest, SettlementRecommendationResponse,
};
use crate::offers::{Offer, OfferQuery};
use vstd::prelude::*;

verus! {

/// A result is a success with what its value says, or a refusal with what its error says.
pub proof fn law_results_keep_their_side<T: DeepView, E: DeepView>(result: Result<T, E>)
    ensures
        match result {
            Ok(value) => result_model(result) == Ok::<T::V, E::V>(value.deep_view()),
            Err(error) => result_model(result) == Err::<T::V, E::V>(error.deep_view()),
        },
{
}

/// Refusals.
pub proof fn law_refusals_are_shown(refusal: ApiError, error: McpError)
    ensures
        refusal.deep_view().code == refusal.code@,
        refusal.deep_view().message == refusal.message@,
        refusal.deep_view().status == refusal.status,
        error.deep_view().message == error.message@,
        error.deep_view().code == error.code,
{
}

/// Offers and queries.
pub proof fn law_offers_are_shown(offer: Offer, query: OfferQuery)
    ensures
        offer.deep_view().offer_id == offer.offer_id@,
        offer.deep_view().title == offer.title@,
        offer.deep_view().segment == offer.segment@,
        offer.deep_view().state == offer.state@,
        offer.deep_view().category == offer.category@,
        offer.deep_view().priority == offer.priority,
        offer.deep_view().active == offer.active,
        query.deep_view().segment == (match query.segment {
            Some(text) => Some(text@),
            None => None,
        }),
        query.deep_view().state == (match query.state {
            Some(text) => Some(text@),
            None => None,
        }),
        query.deep_view().category == (match query.category {
            Some(text) => Some(text@),
            None => None,
        }),
{
}

/// Decisions and what asks for them.
pub proof fn law_decisions_are_shown(request: OfferDecisionRequest, response: OfferDecisionResponse)
    ensures
        request.deep_view().customer_id == request.customer_id@,
        request.deep_view().offer_id == request.offer_id@,
        request.deep_view().channel == request.channel@,
        request.deep_view().source == request.source@,
        request.deep_view().reason == request.reason@,
        request.deep_view().idempotency_key == (match request.idempotency_key {
            Some(text) => Some(text@),
            None => None,
        }),
        response.deep_view().decision_id == response.decision_id@,
        response.deep_view().customer_id == response.customer_id@,
        response.deep_view().offer_id == response.offer_id@,
        response.deep_view().decision == response.decision@,
        response.deep_view().created_at == response.created_at@,
        response.deep_view().audit_ref == response.audit_ref@,
{
}

/// Recommendations and what asks for them.
pub proof fn law_settlements_are_shown(
    request: SettlementRecommendationRequest,
    response: SettlementRecommendationResponse,
)
    ensures
        request.deep_view().claim == request.claim.model(),
        request.deep_view().coverage_review == request.coverage_review.model(),
        request.deep_view().triage == request.triage.model(),
        request.deep_view().approval == request.approval.model(),
        request.deep_view().idempotency_key == (match request.idempotency_key {
            Some(text) => Some(text@),
            None => None,
        }),
        response.deep_view().decision_id == response.decision_id@,
        response.deep_view().recommended_path == response.recommended_path@,
        response.deep_view().customer_summary == response.customer_summary@,
        response.deep_view().settlement_amount == response.settlement_amount,
        response.deep_view().deductible == response.deductible,
        response.deep_view().next_actions.len() == response.next_actions@.len(),
        forall|i: int|
            0 <= i < response.next_actions@.len() ==> #[trigger] response.deep_view().next_actions[i] == response.next_actions@[i]@,
{
}

/// Triage and what asks for it.
pub proof fn law_triage_is_shown(request: ClaimTriageRequest, response: ClaimTriageResponse)
    ensures
        request.deep_view().claim == request.claim.model(),
        request.deep_view().customer == request.customer.model(),
        request.deep_view().policies == request.policies.model(),
        request.deep_view().vehicle == request.vehicle.model(),
        request.deep_view().prior_claims == request.prior_claims.model(),
        response.deep_view().severity == response.severity@,
        response.deep_view().risk_level == response.risk_level@,
        response.deep_view().recommended_path == response.recommended_path@,
        response.deep_view().requires_adjuster_review == response.requires_adjuster_review,
        response.deep_view().requires_siu_review == response.requires_siu_review,
        response.deep_view().estimated_loss == response.estimated_loss,
        response.deep_view().reason_codes.len() == response.reason_codes@.len(),
        forall|i: int|
            0 <= i < response.reason_codes@.len() ==> #[trigger] response.deep_view().reason_codes[i] == response.reason_codes@[i]@,
{
}

/// Profiles and preferences.
pub proof fn law_profiles_are_shown(
    profile: CustomerProfile,
    preferences: CustomerPreferences,
    response: PreferencesResponse,
)
    ensures
        profile.deep_view().customer_id == profile.customer_id@,
        profile.deep_view().display_name == profile.display_name@,
        profile.deep_view().segment == profile.segment@,
        profile.deep_view().state == profile.state@,
        profile.deep_view().account_status == profile.account_status@,
        preferences.deep_view().customer_id == preferences.customer_id@,
        preferences.deep_view().preferred_contact_channel == preferences.preferred_contact_channel@,
        preferences.deep_view().consent == preferences.consent,
        preferences.deep_view().preferred_categories.len() == preferences.preferred_categories@.len(),
        forall|i: int|
            0 <= i < preferences.preferred_categories@.len() ==> #[trigger] preferences.deep_view().preferred_categories[i] == preferences.preferred_categories@[i]@,
        response.deep_view().channel == response.channel@,
        response.deep_view().preferences.customer_id == response.customer_id@,
        response.deep_view().preferences.consent == response.consent,
        response.deep_view().preferences.preferred_contact_channel
            == response.preferred_contact_channel@,
        response.deep_view().preferences.preferred_categories.len()
            == response.preferred_categories@.len(),
        forall|i: int|
            0 <= i < response.preferred_categories@.len()
                ==> #[trigger] response.deep_view().preferences.preferred_categories[i]
                == response.preferred_categories@[i]@,
{
}

/// Policies, vehicles and prior claims.
pub proof fn law_insurance_is_shown(
    coverage: Coverage,
    policy: Policy,
    policies: PolicyResponse,
    vehicle: Vehicle,
    claim: PriorClaim,
    claims: PriorClaimsResponse,
)
    ensures
        coverage.deep_view().coverage_type == coverage.coverage_type@,
        coverage.deep_view().deductible == coverage.deductible,
        coverage.deep_view().limit == coverage.limit,
        policy.deep_view().policy_id == policy.policy_id@,
        policy.deep_view().status == policy.status@,
        policy.deep_view().effective_date == policy.effective_date@,
        policy.deep_view().expiry_date == policy.expiry_date@,
        policy.deep_view().province == policy.province@,
        policy.deep_view().coverages.len() == policy.coverages@.len(),
        forall|i: int|
            0 <= i < policy.coverages@.len() ==> #[trigger] policy.deep_view().coverages[i]
                == policy.coverages@[i].deep_view(),
        policies.deep_view().customer_id == policies.customer_id@,
        policies.deep_view().policies.len() == policies.policies@.len(),
        forall|i: int|
            0 <= i < policies.policies@.len() ==> #[trigger] policies.deep_view().policies[i]
                == policies.policies@[i].deep_view(),
        vehicle.deep_view().customer_id == vehicle.customer_id@,
        vehicle.deep_view().vehicle_id == vehicle.vehicle_id@,
        vehicle.deep_view().vin == vehicle.vin@,
        vehicle.deep_view().make == vehicle.make@,
        vehicle.deep_view().model == vehicle.model@,
        vehicle.deep_view().year == vehicle.year,
        vehicle.deep_view().covered == vehicle.covered,
        claim.deep_view().claim_id == claim.claim_id@,
        claim.deep_view().incident_date == claim.incident_date@,
        claim.deep_view().status == claim.status@,
        claim.deep_view().paid_amount == claim.paid_amount,
        claims.deep_view().customer_id == claims.customer_id@,
        claims.deep_view().prior_claim_count == claims.prior_claim_count,
        claims.deep_view().recent_claim_count == claims.recent_claim_count,
        claims.deep_view().claims.len() == claims.claims@.len(),
        forall|i: int|
            0 <= i < claims.claims@.len() ==> #[trigger] claims.deep_view().claims[i]
                == claims.claims@[i].deep_view(),
{
}

/// The record of a customer, and the customers by their names.
pub proof fn law_customers_are_shown(record: CustomerRecord, directory: CustomerDirectory, id: Seq<char>)
    ensures
        record.deep_view().profile == record.profile.deep_view(),
        record.deep_view().preferences == record.preferences.deep_view(),
        record.deep_view().policies == record.policies.deep_view(),
        record.deep_view().prior_claims == record.prior_claims.deep_view(),
        record.deep_view().vehicles.dom() == record.vehicles@.dom(),
        record.vehicles@.contains_key(id) ==> record.deep_view().vehicles[id]
            == record.vehicles@[id].deep_view(),
        directory.deep_view().dom() == directory.customers@.dom(),
        directory.customers@.contains_key(id) ==> directory.deep_view()[id]
            == directory.customers@[id].deep_view(),
{
}

/// The state of the decision service.
pub proof fn law_the_decision_service_is_shown(service: DecisionService, key: Seq<char>, i: int)
    ensures
        service.deep_view().next_decision_number == service.next_decision_number,
        service.deep_view().next_settlement_number == service.next_settlement_number,
        service.deep_view().offers.len() == service.offers@.len(),
        0 <= i < service.offers@.len() ==> service.deep_view().offers[i]
            == service.offers@[i].deep_view(),
        service.deep_view().decisions.dom() == service.decisions@.dom(),
        service.decisions@.contains_key(key) ==> service.deep_view().decisions[key]
            == service.decisions@[key].deep_view(),
        service.deep_view().settlements.dom() == service.settlement_recommendations@.dom(),
        service.settlement_recommendations@.contains_key(key)
            ==> service.deep_view().settlements[key]
            == service.settlement_recommendations@[key].deep_view(),
{
}

/// The state of the claim server.
pub proof fn law_the_claim_server_is_shown(server: ClaimServer, session: McpSession, id: Seq<char>)
    ensures
        server.deep_view().next_session == server.next_session,
        server.deep_view().server_version == server.server_version@,
        server.deep_view().sessions.dom() == server.sessions@.dom(),
        server.sessions@.contains_key(id) ==> server.deep_view().sessions[id]
            == server.sessions@[id].protocol_version@,
        session.deep_view() == session.protocol_version@,
{
}

/// Requests to the claim server and its replies.
pub proof fn law_messages_are_shown<I>(
    request: JsonRpcRequest<I>,
    error: JsonRpcError,
    response: JsonRpcResponse<I>,
    reply: McpReply<I>,
)
    ensures
        request.deep_view().jsonrpc == (match request.jsonrpc {
            Some(text) => Some(text@),
            None => None,
        }),
        request.deep_view().method == request.method@,
        request.deep_view().params == request.params.model(),
        request.deep_view().id == request.id,
        error.deep_view().code == error.code,
        error.deep_view().message == error.message@,
        error.deep_view().data is Some <==> error.data is Some,
        error.data is Some ==> error.deep_view().data->0 == error.data->0.model(),
        response.deep_view().jsonrpc == response.jsonrpc@,
        response.deep_view().id == response.id,
        response.deep_view().result is Some <==> response.result is Some,
        response.result is Some ==> response.deep_view().result->0 == response.result->0.model(),
        response.deep_view().error is Some <==> response.error is Some,
        response.error is Some ==> response.deep_view().error->0
            == response.error->0.deep_view(),
        reply.deep_view().status == reply.status,
        reply.deep_view().headers == all_values(reply.headers),
        reply.deep_view().body is Some <==> reply.body is Some,
        reply.body is Some ==> reply.deep_view().body->0 == reply.body->0.deep_view(),
{
}

} // verus!
