//! The offer decision service: offers, decisions on them, and settlement recommendations. A
//! request that is repeated under its key gets the answer it got first.

use crate::api_error::{bad_request, ApiError, ApiErrorModel};
use crate::claim_triage::{
    claim_string, string_or_default, text_in, text_in_or, u32_in_or, u32_or_default,
};
use crate::headers::{
    all_values, header_text, header_value, lower_name, short_name, text_found,
};
use crate::json::{Json, JsonModel};
use crate::model::result_model;
use crate::offers::{
    answering, is_open, offer_open, ranks, search, Offer, OfferModel, OfferQuery,
};
use crate::text::{
    ascii_alphanumeric, ascii_upper, chars_of, clone_texts, concat2, concat3, decimal,
    decimal_text, eq_ignore_ascii_case, is_ascii_alphanumeric, nonempty_trimmed,
    same_ignoring_case, same_text, to_ascii_upper, views,
};
use axum::http::HeaderMap;
use vstd::hash_map::StringHashMap;
use vstd::prelude::*;
use vstd::string::StringExecFns;
use vstd::utf8::is_ascii_chars_encode_utf8;

verus! {

/// The header that names the key of a request.
pub const IDEMPOTENCY_KEY_HEADER: &'static str = "idempotency-key";

// ---------------------------------------------------------------------------------------
// Requests and answers
// ---------------------------------------------------------------------------------------

/// A request to record a decision on an offer.
#[derive(Debug)]
pub struct OfferDecisionRequest {
    pub customer_id: String,
    pub offer_id: String,
    pub channel: String,
    pub source: String,
    pub reason: String,
    pub idempotency_key: Option<String>,
}

pub struct DecisionRequestModel {
    pub customer_id: Seq<char>,
    pub offer_id: Seq<char>,
    pub channel: Seq<char>,
    pub source: Seq<char>,
    pub reason: Seq<char>,
    pub idempotency_key: Option<Seq<char>>,
}

impl DeepView for OfferDecisionRequest {
    type V = DecisionRequestModel;

    open spec fn deep_view(&self) -> DecisionRequestModel {
        DecisionRequestModel {
            customer_id: self.customer_id@,
            offer_id: self.offer_id@,
            channel: self.channel@,
            source: self.source@,
            reason: self.reason@,
            idempotency_key: self.idempotency_key.deep_view(),
        }
    }
}

/// A recorded decision.
#[derive(Debug, PartialEq, Eq)]
pub struct OfferDecisionResponse {
    pub decision_id: String,
    pub customer_id: String,
    pub offer_id: String,
    pub decision: String,
    pub created_at: String,
    pub audit_ref: String,
}

pub struct DecisionModel {
    pub decision_id: Seq<char>,
    pub customer_id: Seq<char>,
    pub offer_id: Seq<char>,
    pub decision: Seq<char>,
    pub created_at: Seq<char>,
    pub audit_ref: Seq<char>,
}

impl DeepView for OfferDecisionResponse {
    type V = DecisionModel;

    open spec fn deep_view(&self) -> DecisionModel {
        DecisionModel {
            decision_id: self.decision_id@,
            customer_id: self.customer_id@,
            offer_id: self.offer_id@,
            decision: self.decision@,
            created_at: self.created_at@,
            audit_ref: self.audit_ref@,
        }
    }
}

impl Clone for OfferDecisionResponse {
    fn clone(&self) -> (response: OfferDecisionResponse)
        ensures
            response.deep_view() == self.deep_view(),
    {
        OfferDecisionResponse {
            decision_id: self.decision_id.clone(),
            customer_id: self.customer_id.clone(),
            offer_id: self.offer_id.clone(),
            decision: self.decision.clone(),
            created_at: self.created_at.clone(),
            audit_ref: self.audit_ref.clone(),
        }
    }
}

/// A request for a settlement recommendation.
pub struct SettlementRecommendationRequest {
    pub claim: Json,
    pub coverage_review: Json,
    pub triage: Json,
    pub approval: Json,
    pub idempotency_key: Option<String>,
}

pub struct SettlementRequestModel {
    pub claim: JsonModel,
    pub coverage_review: JsonModel,
    pub triage: JsonModel,
    pub approval: JsonModel,
    pub idempotency_key: Option<Seq<char>>,
}

impl DeepView for SettlementRecommendationRequest {
    type V = SettlementRequestModel;

    open spec fn deep_view(&self) -> SettlementRequestModel {
        SettlementRequestModel {
            claim: self.claim.model(),
            coverage_review: self.coverage_review.model(),
            triage: self.triage.model(),
            approval: self.approval.model(),
            idempotency_key: self.idempotency_key.deep_view(),
        }
    }
}

/// A settlement recommendation.
#[derive(Debug, PartialEq, Eq)]
pub struct SettlementRecommendationResponse {
    pub decision_id: String,
    pub recommended_path: String,
    pub settlement_amount: u32,
    pub deductible: u32,
    pub customer_summary: String,
    pub next_actions: Vec<String>,
}

#[verifier::ext_equal]
pub struct SettlementModel {
    pub decision_id: Seq<char>,
    pub recommended_path: Seq<char>,
    pub settlement_amount: u32,
    pub deductible: u32,
    pub customer_summary: Seq<char>,
    pub next_actions: Seq<Seq<char>>,
}

impl DeepView for SettlementRecommendationResponse {
    type V = SettlementModel;

    open spec fn deep_view(&self) -> SettlementModel {
        SettlementModel {
            decision_id: self.decision_id@,
            recommended_path: self.recommended_path@,
            settlement_amount: self.settlement_amount,
            deductible: self.deductible,
            customer_summary: self.customer_summary@,
            next_actions: views(self.next_actions@),
        }
    }
}

impl Clone for SettlementRecommendationResponse {
    fn clone(&self) -> (response: SettlementRecommendationResponse)
        ensures
            response.deep_view() == self.deep_view(),
    {
        SettlementRecommendationResponse {
            decision_id: self.decision_id.clone(),
            recommended_path: self.recommended_path.clone(),
            settlement_amount: self.settlement_amount,
            deductible: self.deductible,
            customer_summary: self.customer_summary.clone(),
            next_actions: clone_texts(&self.next_actions),
        }
    }
}

// ---------------------------------------------------------------------------------------
// The service
// ---------------------------------------------------------------------------------------

/// The service: its offers, and what it has answered, by key.
pub struct AppState {
    pub offers: Vec<Offer>,
    pub decisions: StringHashMap<OfferDecisionResponse>,
    pub settlement_recommendations: StringHashMap<SettlementRecommendationResponse>,
    pub next_decision_number: usize,
    pub next_settlement_number: usize,
}

#[verifier::ext_equal]
pub struct ServiceModel {
    pub offers: Seq<OfferModel>,
    pub decisions: Map<Seq<char>, DecisionModel>,
    pub settlements: Map<Seq<char>, SettlementModel>,
    pub next_decision_number: usize,
    pub next_settlement_number: usize,
}

impl DeepView for AppState {
    type V = ServiceModel;

    open spec fn deep_view(&self) -> ServiceModel {
        ServiceModel {
            offers: self.offers.deep_view(),
            decisions: self.decisions@.map_values(|d: OfferDecisionResponse| d.deep_view()),
            settlements: self.settlement_recommendations@.map_values(
                |s: SettlementRecommendationResponse| s.deep_view(),
            ),
            next_decision_number: self.next_decision_number,
            next_settlement_number: self.next_settlement_number,
        }
    }
}

/// The offers the service starts with.
pub open spec fn seeded_offers() -> Seq<OfferModel> {
    seq![
        OfferModel {
            offer_id: "OFFER-TRAVEL-01"@,
            title: "Premium travel credit"@,
            segment: "premium"@,
            state: "ON"@,
            category: "travel"@,
            priority: 1,
            active: true,
        },
        OfferModel {
            offer_id: "OFFER-CASHBACK-01"@,
            title: "Premium shopping cashback"@,
            segment: "premium"@,
            state: "BC"@,
            category: "shopping"@,
            priority: 2,
            active: true,
        },
        OfferModel {
            offer_id: "OFFER-EXPIRED-01"@,
            title: "Expired welcome credit"@,
            segment: "premium"@,
            state: "ON"@,
            category: "travel"@,
            priority: 9,
            active: false,
        },
    ]
}

/// The service as it starts.
pub open spec fn seeded_service() -> ServiceModel {
    ServiceModel {
        offers: seeded_offers(),
        decisions: Map::empty(),
        settlements: Map::empty(),
        next_decision_number: 2000,
        next_settlement_number: 3000,
    }
}

/// The number behind `number`; behind the greatest comes zero.
pub open spec fn next_number(number: usize) -> usize {
    if number == usize::MAX {
        0
    } else {
        (number + 1) as usize
    }
}

/// The name of the decision with the given number.
pub open spec fn decision_name(number: usize) -> Seq<char> {
    "DEC-"@ + decimal(number as nat)
}

/// The first eight letters and digits of the source and the reason, as capitals.
pub open spec fn audit_code(source: Seq<char>, reason: Seq<char>) -> Seq<char> {
    let kept = (source + reason).filter(|c: char| ascii_alphanumeric(c));
    kept.take(if kept.len() < 8 { kept.len() as int } else { 8 }).map_values(
        |c: char| ascii_upper(c),
    )
}

impl DecisionRequestModel {
    /// The request of the demonstration, whose decision has a name of its own.
    pub open spec fn is_demo(self) -> bool {
        self.customer_id == "CUST-1001"@ && self.offer_id == "OFFER-TRAVEL-01"@
    }

    /// The key of the request: its own, or else that of its headers, or else one made of
    /// customer, offer and channel.
    pub open spec fn key(self, headers: Map<Seq<char>, Seq<Seq<u8>>>) -> Seq<char> {
        match self.idempotency_key {
            Some(key) => key,
            None => match nonempty_trimmed(header_text(headers, IDEMPOTENCY_KEY_HEADER@)) {
                Some(key) => key,
                None => self.customer_id + ":"@ + self.offer_id + ":"@ + self.channel,
            },
        }
    }
}

impl SettlementRequestModel {
    /// The customer the claim is about.
    pub open spec fn customer_id(self) -> Option<Seq<char>> {
        text_in(self.claim, "customerId"@)
    }

    /// Whether the customer is that of the demonstration.
    pub open spec fn is_demo(self) -> bool {
        self.customer_id() == Some("CUST-1001"@)
    }

    /// The key of the request: its own, or else that of its headers, or else the claim's name,
    /// or else one made of customer and path.
    pub open spec fn key(self, headers: Map<Seq<char>, Seq<Seq<u8>>>) -> Seq<char> {
        match self.idempotency_key {
            Some(key) => key,
            None => match nonempty_trimmed(header_text(headers, IDEMPOTENCY_KEY_HEADER@)) {
                Some(key) => key,
                None => match text_in(self.claim, "claimId"@) {
                    Some(key) => key,
                    None => text_in_or(self.claim, "customerId"@, "UNKNOWN"@) + ":"@ + text_in_or(
                        self.triage,
                        "recommendedPath"@,
                        "review"@,
                    ),
                },
            },
        }
    }

    pub open spec fn rejected(self) -> bool {
        same_ignoring_case(text_in_or(self.approval, "decision"@, Seq::empty()), "REJECTED"@)
    }

    pub open spec fn estimated_loss(self) -> u32 {
        u32_in_or(self.triage, "estimatedLoss"@, 3200)
    }

    pub open spec fn deductible(self) -> u32 {
        u32_in_or(self.coverage_review, "deductible"@, 500)
    }

    /// What is paid: the loss beyond the deductible.
    pub open spec fn payment(self) -> u32 {
        if self.estimated_loss() > self.deductible() {
            (self.estimated_loss() - self.deductible()) as u32
        } else {
            0
        }
    }

    /// The recommendation under a given name.
    pub open spec fn recommendation(self, decision_id: Seq<char>) -> SettlementModel {
        if self.rejected() {
            SettlementModel {
                decision_id,
                recommended_path: "deny"@,
                settlement_amount: 0,
                deductible: self.deductible(),
                customer_summary: "The claim requires denial or additional review before settlement."@,
                next_actions: seq!["notify_customer"@],
            }
        } else {
            SettlementModel {
                decision_id,
                recommended_path: text_in_or(self.triage, "recommendedPath"@, "repair"@),
                settlement_amount: self.payment(),
                deductible: self.deductible(),
                customer_summary: "Repair is recommended after the deductible."@,
                next_actions: seq!["schedule_repair"@, "send_photos"@],
            }
        }
    }
}

impl ServiceModel {
    /// The decision that a new request gets.
    pub open spec fn new_decision(self, request: DecisionRequestModel) -> DecisionModel {
        DecisionModel {
            decision_id: if request.is_demo() {
                "DEC-1001"@
            } else {
                decision_name(self.next_decision_number)
            },
            customer_id: request.customer_id,
            offer_id: request.offer_id,
            decision: "approved"@,
            created_at: "2026-05-25T14:12:00Z"@,
            audit_ref: "AUD-"@ + audit_code(request.source, request.reason),
        }
    }

    /// The number of the decision after that one.
    pub open spec fn decision_number_after(self, request: DecisionRequestModel) -> usize {
        if request.is_demo() {
            self.next_decision_number
        } else {
            next_number(self.next_decision_number)
        }
    }

    /// The decision on a request: the one recorded under its key, or else a new one.
    pub open spec fn decision(
        self,
        request: DecisionRequestModel,
        key: Seq<char>,
    ) -> DecisionModel {
        if self.decisions.contains_key(key) {
            self.decisions[key]
        } else {
            self.new_decision(request)
        }
    }

    /// The service after a request for a decision.
    pub open spec fn decided(self, request: DecisionRequestModel, key: Seq<char>) -> ServiceModel {
        if self.decisions.contains_key(key) {
            self
        } else {
            ServiceModel {
                decisions: self.decisions.insert(key, self.new_decision(request)),
                next_decision_number: self.decision_number_after(request),
                ..self
            }
        }
    }

    /// The recommendation that a new request gets.
    pub open spec fn new_settlement(self, request: SettlementRequestModel) -> SettlementModel {
        request.recommendation(
            if request.is_demo() {
                "DEC-1001"@
            } else {
                decision_name(self.next_settlement_number)
            },
        )
    }

    /// The number of the recommendation after that one.
    pub open spec fn settlement_number_after(self, request: SettlementRequestModel) -> usize {
        if request.is_demo() {
            self.next_settlement_number
        } else {
            next_number(self.next_settlement_number)
        }
    }

    /// The recommendation on a request: the one recorded under its key, or else a new one.
    pub open spec fn settlement(
        self,
        request: SettlementRequestModel,
        key: Seq<char>,
    ) -> SettlementModel {
        if self.settlements.contains_key(key) {
            self.settlements[key]
        } else {
            self.new_settlement(request)
        }
    }

    /// The service after a request for a recommendation.
    pub open spec fn settled(
        self,
        request: SettlementRequestModel,
        key: Seq<char>,
    ) -> ServiceModel {
        if self.settlements.contains_key(key) {
            self
        } else {
            ServiceModel {
                settlements: self.settlements.insert(key, self.new_settlement(request)),
                next_settlement_number: self.settlement_number_after(request),
                ..self
            }
        }
    }
}

/// The name of the decision with the given number.
fn numbered_decision(number: usize) -> (name: String)
    ensures
        name@ == decision_name(number),
{
    concat2("DEC-", decimal_text(number as u64).as_str())
}

/// The first eight letters and digits of the source and the reason, as capitals.
fn audit_text(source: &str, reason: &str) -> (code: String)
    ensures
        code@ == audit_code(source@, reason@),
{
    let chars = chars_of(concat2(source, reason).as_str());
    let ghost keep = |c: char| ascii_alphanumeric(c);
    let ghost upper = |c: char| ascii_upper(c);
    let ghost all = chars@.filter(keep);
    let mut code = String::new();
    let mut count: usize = 0;
    let mut i: usize = 0;
    proof {
        reveal(Seq::filter);
        assert(chars@.take(0) =~= Seq::empty());
        assert(code@ =~= chars@.take(0).filter(keep).map_values(upper));
    }
    while i < chars.len() && count < 8
        invariant
            i <= chars@.len(),
            count <= 8,
            count == chars@.take(i as int).filter(keep).len(),
            keep == (|c: char| ascii_alphanumeric(c)),
            upper == (|c: char| ascii_upper(c)),
            code@ == chars@.take(i as int).filter(keep).map_values(upper),
        decreases chars@.len() - i,
    {
        proof {
            reveal(Seq::filter);
            assert(chars@.take(i + 1).drop_last() =~= chars@.take(i as int));
            assert(chars@.take(i + 1).last() == chars@[i as int]);
        }
        if is_ascii_alphanumeric(chars[i]) {
            code.push(to_ascii_upper(chars[i]));
            count = count + 1;
            proof {
                assert(code@ =~= chars@.take(i + 1).filter(keep).map_values(upper));
            }
        }
        i = i + 1;
    }
    proof {
        let front = chars@.take(i as int).filter(keep);
        let back = chars@.skip(i as int).filter(keep);
        assert(chars@ =~= chars@.take(i as int) + chars@.skip(i as int));
        Seq::filter_distributes_over_add(chars@.take(i as int), chars@.skip(i as int), keep);
        assert(all == front + back);
        if i == chars@.len() {
            assert(chars@.skip(i as int) =~= Seq::empty());
            assert(back =~= Seq::empty()) by {
                reveal(Seq::filter);
            }
        }
        assert(all.take(if all.len() < 8 { all.len() as int } else { 8 }) =~= front);
    }
    code
}

impl AppState {
    /// The service as it starts.
    pub fn seeded() -> (state: AppState)
        ensures
            state.deep_view() == seeded_service(),
    {
        let mut offers: Vec<Offer> = Vec::new();
        offers.push(
            Offer::new(
                "OFFER-TRAVEL-01",
                "Premium travel credit",
                "premium",
                "ON",
                "travel",
                1,
                true,
            ),
        );
        offers.push(
            Offer::new(
                "OFFER-CASHBACK-01",
                "Premium shopping cashback",
                "premium",
                "BC",
                "shopping",
                2,
                true,
            ),
        );
        offers.push(
            Offer::new(
                "OFFER-EXPIRED-01",
                "Expired welcome credit",
                "premium",
                "ON",
                "travel",
                9,
                false,
            ),
        );
        let state = AppState {
            offers,
            decisions: StringHashMap::new(),
            settlement_recommendations: StringHashMap::new(),
            next_decision_number: 2000,
            next_settlement_number: 3000,
        };
        proof {
            assert(state.deep_view().offers =~= seeded_offers());
            assert(state.deep_view().decisions =~= Map::empty());
            assert(state.deep_view().settlements =~= Map::empty());
        }
        state
    }

    /// The open offers that answer a query, by rising priority.
    pub fn search_offers(&self, query: &OfferQuery) -> (found: Vec<Offer>)
        ensures
            ranks(found.deep_view(), answering(self.deep_view().offers, query.deep_view())),
    {
        search(&self.offers, query)
    }

    /// Whether an offer with that name is open.
    pub fn offer_exists(&self, offer_id: &str) -> (exists_open: bool)
        ensures
            exists_open == is_open(self.deep_view().offers, offer_id@),
    {
        offer_open(&self.offers, offer_id)
    }

    /// The decision that a new request gets; its number is used up.
    pub fn new_decision_response(
        &mut self,
        request: &OfferDecisionRequest,
    ) -> (response: OfferDecisionResponse)
        ensures
            response.deep_view() == old(self).deep_view().new_decision(request.deep_view()),
            final(self).deep_view() == (ServiceModel {
                next_decision_number: old(self).deep_view().decision_number_after(
                    request.deep_view(),
                ),
                ..old(self).deep_view()
            }),
    {
        let decision_id = if same_text(request.customer_id.as_str(), "CUST-1001") && same_text(
            request.offer_id.as_str(),
            "OFFER-TRAVEL-01",
        ) {
            "DEC-1001".to_string()
        } else {
            let next: usize = self.next_decision_number;
            self.next_decision_number = next.wrapping_add(1);
            numbered_decision(next)
        };
        OfferDecisionResponse {
            decision_id,
            customer_id: request.customer_id.clone(),
            offer_id: request.offer_id.clone(),
            decision: "approved".to_string(),
            created_at: "2026-05-25T14:12:00Z".to_string(),
            audit_ref: concat2(
                "AUD-",
                audit_text(request.source.as_str(), request.reason.as_str()).as_str(),
            ),
        }
    }

    /// The decision on a request: the one recorded under its key, or else a new one, recorded.
    pub fn record_decision(
        &mut self,
        request: OfferDecisionRequest,
        idempotency_key: String,
    ) -> (response: OfferDecisionResponse)
        ensures
            response.deep_view() == old(self).deep_view().decision(
                request.deep_view(),
                idempotency_key@,
            ),
            final(self).deep_view() == old(self).deep_view().decided(
                request.deep_view(),
                idempotency_key@,
            ),
    {
        if let Some(existing) = self.decisions.get(idempotency_key.as_str()) {
            return existing.clone();
        }
        let response = self.new_decision_response(&request);
        let ghost between = *self;
        self.decisions.insert(idempotency_key, response.clone());
        proof {
            assert(self.deep_view().decisions =~= between.deep_view().decisions.insert(
                idempotency_key@,
                response.deep_view(),
            ));
        }
        response
    }

    /// The recommendation that a new request gets; its number is used up.
    pub fn new_settlement_recommendation(
        &mut self,
        request: &SettlementRecommendationRequest,
    ) -> (response: SettlementRecommendationResponse)
        ensures
            response.deep_view() == old(self).deep_view().new_settlement(request.deep_view()),
            final(self).deep_view() == (ServiceModel {
                next_settlement_number: old(self).deep_view().settlement_number_after(
                    request.deep_view(),
                ),
                ..old(self).deep_view()
            }),
    {
        let approval = string_or_default(&request.approval, "decision", "");
        let triage_path = string_or_default(&request.triage, "recommendedPath", "repair");
        let estimated_loss: u32 = u32_or_default(&request.triage, "estimatedLoss", 3200);
        let deductible: u32 = u32_or_default(&request.coverage_review, "deductible", 500);
        let rejected: bool = eq_ignore_ascii_case(approval.as_str(), "REJECTED");
        let demo: bool = match claim_string(&request.claim, "customerId") {
            Some(customer_id) => same_text(customer_id.as_str(), "CUST-1001"),
            None => false,
        };
        proof {
            reveal_strlit("");
            assert(""@ =~= Seq::empty());
        }

        let decision_id = if demo {
            "DEC-1001".to_string()
        } else {
            let next: usize = self.next_settlement_number;
            self.next_settlement_number = next.wrapping_add(1);
            numbered_decision(next)
        };
        let mut next_actions: Vec<String> = Vec::new();
        if rejected {
            next_actions.push("notify_customer".to_string());
            proof {
                assert(views(next_actions@) =~= seq!["notify_customer"@]);
            }
            return SettlementRecommendationResponse {
                decision_id,
                recommended_path: "deny".to_string(),
                settlement_amount: 0,
                deductible,
                customer_summary:
                    "The claim requires denial or additional review before settlement.".to_string(),
                next_actions,
            };
        }
        next_actions.push("schedule_repair".to_string());
        next_actions.push("send_photos".to_string());
        proof {
            assert(views(next_actions@) =~= seq!["schedule_repair"@, "send_photos"@]);
        }
        SettlementRecommendationResponse {
            decision_id,
            recommended_path: triage_path,
            settlement_amount: estimated_loss.saturating_sub(deductible),
            deductible,
            customer_summary: "Repair is recommended after the deductible.".to_string(),
            next_actions,
        }
    }

    /// The recommendation on a request: the one recorded under its key, or else a new one,
    /// recorded.
    pub fn record_settlement_recommendation(
        &mut self,
        request: SettlementRecommendationRequest,
        idempotency_key: String,
    ) -> (response: SettlementRecommendationResponse)
        ensures
            response.deep_view() == old(self).deep_view().settlement(
                request.deep_view(),
                idempotency_key@,
            ),
            final(self).deep_view() == old(self).deep_view().settled(
                request.deep_view(),
                idempotency_key@,
            ),
    {
        if let Some(existing) = self.settlement_recommendations.get(idempotency_key.as_str()) {
            return existing.clone();
        }
        let response = self.new_settlement_recommendation(&request);
        let ghost between = *self;
        self.settlement_recommendations.insert(idempotency_key, response.clone());
        proof {
            assert(self.deep_view().settlements =~= between.deep_view().settlements.insert(
                idempotency_key@,
                response.deep_view(),
            ));
        }
        response
    }
}

// ---------------------------------------------------------------------------------------
// The endpoints
// ---------------------------------------------------------------------------------------

impl ServiceModel {
    /// What the decision endpoint answers: it refuses an offer that is not open.
    pub open spec fn decision_outcome(
        self,
        request: DecisionRequestModel,
        headers: Map<Seq<char>, Seq<Seq<u8>>>,
    ) -> Result<DecisionModel, ApiErrorModel> {
        if is_open(self.offers, request.offer_id) {
            Ok(self.decision(request, request.key(headers)))
        } else {
            Err(
                bad_request(
                    "offer "@ + request.offer_id + " is not active or does not exist"@,
                ),
            )
        }
    }

    /// The service after a call of the decision endpoint.
    pub open spec fn after_decision_call(
        self,
        request: DecisionRequestModel,
        headers: Map<Seq<char>, Seq<Seq<u8>>>,
    ) -> ServiceModel {
        if is_open(self.offers, request.offer_id) {
            self.decided(request, request.key(headers))
        } else {
            self
        }
    }

    /// What the settlement endpoint answers: it refuses a claim about nobody.
    pub open spec fn settlement_outcome(
        self,
        request: SettlementRequestModel,
        headers: Map<Seq<char>, Seq<Seq<u8>>>,
    ) -> Result<SettlementModel, ApiErrorModel> {
        if request.customer_id() is None {
            Err(bad_request("claim.customerId is required"@))
        } else {
            Ok(self.settlement(request, request.key(headers)))
        }
    }

    /// The service after a call of the settlement endpoint.
    pub open spec fn after_settlement_call(
        self,
        request: SettlementRequestModel,
        headers: Map<Seq<char>, Seq<Seq<u8>>>,
    ) -> ServiceModel {
        if request.customer_id() is None {
            self
        } else {
            self.settled(request, request.key(headers))
        }
    }
}

/// Looked up as a text, the header is found under its name.
proof fn lemma_key_header(values: Map<Seq<char>, Seq<Seq<u8>>>)
    ensures
        short_name(IDEMPOTENCY_KEY_HEADER@),
        text_found(values, IDEMPOTENCY_KEY_HEADER@) == header_text(
            values,
            IDEMPOTENCY_KEY_HEADER@,
        ),
{
    reveal_strlit("idempotency-key");
    is_ascii_chars_encode_utf8(IDEMPOTENCY_KEY_HEADER@);
    assert(lower_name(IDEMPOTENCY_KEY_HEADER@) =~= IDEMPOTENCY_KEY_HEADER@);
}

/// The offers endpoint.
pub fn search_offers(state: &AppState, query: &OfferQuery) -> (found: Vec<Offer>)
    ensures
        ranks(found.deep_view(), answering(state.deep_view().offers, query.deep_view())),
{
    state.search_offers(query)
}

/// The decision endpoint.
pub fn record_offer_decision(
    state: &mut AppState,
    headers: &HeaderMap,
    request: OfferDecisionRequest,
) -> (outcome: Result<OfferDecisionResponse, ApiError>)
    ensures
        result_model(outcome) == old(state).deep_view().decision_outcome(
            request.deep_view(),
            all_values(*headers),
        ),
        final(state).deep_view() == old(state).deep_view().after_decision_call(
            request.deep_view(),
            all_values(*headers),
        ),
{
    if !state.offer_exists(request.offer_id.as_str()) {
        let message = concat3(
            "offer ",
            request.offer_id.as_str(),
            " is not active or does not exist",
        );
        return Err(ApiError::bad_request(message.as_str()));
    }
    proof {
        lemma_key_header(all_values(*headers));
    }
    let idempotency_key = match &request.idempotency_key {
        Some(key) => key.clone(),
        None => match header_value(headers, IDEMPOTENCY_KEY_HEADER) {
            Some(key) => key,
            None => {
                let mut key = concat3(request.customer_id.as_str(), ":", request.offer_id.as_str());
                key.append(":");
                key.append(request.channel.as_str());
                key
            },
        },
    };
    Ok(state.record_decision(request, idempotency_key))
}

/// The settlement endpoint.
pub fn recommend_settlement(
    state: &mut AppState,
    headers: &HeaderMap,
    request: SettlementRecommendationRequest,
) -> (outcome: Result<SettlementRecommendationResponse, ApiError>)
    ensures
        result_model(outcome) == old(state).deep_view().settlement_outcome(
            request.deep_view(),
            all_values(*headers),
        ),
        final(state).deep_view() == old(state).deep_view().after_settlement_call(
            request.deep_view(),
            all_values(*headers),
        ),
{
    if claim_string(&request.claim, "customerId").is_none() {
        return Err(ApiError::bad_request("claim.customerId is required"));
    }
    proof {
        lemma_key_header(all_values(*headers));
    }
    let idempotency_key = match &request.idempotency_key {
        Some(key) => key.clone(),
        None => match header_value(headers, IDEMPOTENCY_KEY_HEADER) {
            Some(key) => key,
            None => match claim_string(&request.claim, "claimId") {
                Some(key) => key,
                None => concat3(
                    string_or_default(&request.claim, "customerId", "UNKNOWN").as_str(),
                    ":",
                    string_or_default(&request.triage, "recommendedPath", "review").as_str(),
                ),
            },
        },
    };
    Ok(state.record_settlement_recommendation(request, idempotency_key))
}

/// The answer of a health probe.
#[derive(Debug)]
pub struct HealthResponse {
    pub status: &'static str,
    pub service: &'static str,
}

/// The service is up.
pub fn health() -> (response: HealthResponse)
    ensures
        response.status@ == "UP"@,
        response.service@ == "demo-offer-decision-api"@,
{
    HealthResponse { status: "UP", service: "demo-offer-decision-api" }
}

} // verus!
