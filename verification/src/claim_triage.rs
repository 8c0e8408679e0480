//! Claim triage: how serious a claim is and which way it goes.

use crate::api_error::{bad_request, ApiError, ApiErrorModel};
use crate::claim_fields::{code_if, note_if};
use crate::coverage::in_force;
use crate::json::{items_model, lemma_items_model, Json, JsonModel};
use crate::model::result_model;
use crate::text::{eq_ignore_ascii_case, nonempty, nonempty_trimmed, same_text, views};
use vstd::prelude::*;

verus! {

// ---------------------------------------------------------------------------------------
// Fields of a document
// ---------------------------------------------------------------------------------------

/// The member `field`, where it is a text, without the white space around it, if anything is
/// left of it.
pub open spec fn text_in(value: JsonModel, field: Seq<char>) -> Option<Seq<char>> {
    nonempty_trimmed(value.text_at(field))
}

/// That text, or `default`.
pub open spec fn text_in_or(value: JsonModel, field: Seq<char>, default: Seq<char>) -> Seq<char> {
    match text_in(value, field) {
        Some(t) => t,
        None => default,
    }
}

/// The member `field`, where it is a truth value, or `default`.
pub open spec fn bool_in_or(value: JsonModel, field: Seq<char>, default: bool) -> bool {
    match value.bool_at(field) {
        Some(b) => b,
        None => default,
    }
}

/// The member `field`, where it is a whole number of 32 bits, or `default`.
pub open spec fn u32_in_or(value: JsonModel, field: Seq<char>, default: u32) -> u32 {
    match value.u64_at(field) {
        Some(n) => if n <= u32::MAX {
            n as u32
        } else {
            default
        },
        None => default,
    }
}

/// Where a document lists policies: its member `policies`, or else the document itself.
pub open spec fn policy_list(value: JsonModel) -> JsonModel {
    match value.get("policies"@) {
        Some(policies) => policies,
        None => value,
    }
}

/// Whether a document lists a policy that is in force.
pub open spec fn lists_active_policy(value: JsonModel) -> bool {
    match policy_list(value).as_array() {
        Some(policies) => exists|i: int|
            0 <= i < policies.len() && in_force(#[trigger] policies[i]),
        None => false,
    }
}

/// The field `field` without the white space around it, if anything is left of it.
pub fn claim_string(value: &Json, field: &str) -> (found: Option<String>)
    ensures
        found.deep_view() == text_in(value.model(), field@),
{
    match value.text_at(field) {
        Some(t) => nonempty(t),
        None => None,
    }
}

/// The field `field` without the white space around it, or `default`.
pub fn string_or_default(value: &Json, field: &str, default: &str) -> (found: String)
    ensures
        found@ == text_in_or(value.model(), field@, default@),
{
    match claim_string(value, field) {
        Some(t) => t,
        None => default.to_string(),
    }
}

/// The field `field`, or `default`.
pub fn bool_or_default(value: &Json, field: &str, default: bool) -> (found: bool)
    ensures
        found == bool_in_or(value.model(), field@, default),
{
    match value.bool_at(field) {
        Some(b) => b,
        None => default,
    }
}

/// The field `field`, or `default`.
pub fn u32_or_default(value: &Json, field: &str, default: u32) -> (found: u32)
    ensures
        found == u32_in_or(value.model(), field@, default),
{
    match value.u64_at(field) {
        Some(n) => if n <= u32::MAX as u64 {
            n as u32
        } else {
            default
        },
        None => default,
    }
}

/// Whether a document lists a policy that is in force.
pub fn policies_include_active_policy(value: &Json) -> (found: bool)
    ensures
        found == lists_active_policy(value.model()),
{
    let policies = match value.get("policies") {
        Some(policies) => policies,
        None => value,
    };
    let items = match policies.as_array() {
        Some(items) => items,
        None => return false,
    };
    proof {
        lemma_items_model(items@);
    }
    let mut i: usize = 0;
    while i < items.len()
        invariant
            i <= items@.len(),
            items_model(items@).len() == items@.len(),
            forall|j: int|
                0 <= j < items@.len() ==> #[trigger] items_model(items@)[j] == items@[j].model(),
            policy_list(value.model()).as_array() == Some(items_model(items@)),
            forall|j: int| 0 <= j < i ==> !in_force(#[trigger] items_model(items@)[j]),
        decreases items@.len() - i,
    {
        proof {
            assert(items_model(items@)[i as int] == items@[i as int].model());
            reveal_strlit("active");
        }
        if let Some(status) = items[i].text_at("status") {
            if eq_ignore_ascii_case(status, "active") {
                proof {
                    let listed = policy_list(value.model()).as_array()->0;
                    assert(in_force(listed[i as int]));
                }
                return true;
            }
        }
        i = i + 1;
    }
    false
}

// ---------------------------------------------------------------------------------------
// The rules
// ---------------------------------------------------------------------------------------

/// What is known of a claim.
pub struct ClaimTriageRequest {
    pub claim: Json,
    pub customer: Json,
    pub policies: Json,
    pub vehicle: Json,
    pub prior_claims: Json,
}

pub struct TriageRequestModel {
    pub claim: JsonModel,
    pub customer: JsonModel,
    pub policies: JsonModel,
    pub vehicle: JsonModel,
    pub prior_claims: JsonModel,
}

impl DeepView for ClaimTriageRequest {
    type V = TriageRequestModel;

    open spec fn deep_view(&self) -> TriageRequestModel {
        TriageRequestModel {
            claim: self.claim.model(),
            customer: self.customer.model(),
            policies: self.policies.model(),
            vehicle: self.vehicle.model(),
            prior_claims: self.prior_claims.model(),
        }
    }
}

/// How serious a claim is and which way it goes.
#[derive(Debug, PartialEq, Eq)]
pub struct ClaimTriageResponse {
    pub severity: String,
    pub risk_level: String,
    pub recommended_path: String,
    pub requires_adjuster_review: bool,
    pub requires_siu_review: bool,
    pub estimated_loss: u32,
    pub reason_codes: Vec<String>,
}

#[verifier::ext_equal]
pub struct TriageModel {
    pub severity: Seq<char>,
    pub risk_level: Seq<char>,
    pub recommended_path: Seq<char>,
    pub requires_adjuster_review: bool,
    pub requires_siu_review: bool,
    pub estimated_loss: u32,
    pub reason_codes: Seq<Seq<char>>,
}

impl DeepView for ClaimTriageResponse {
    type V = TriageModel;

    open spec fn deep_view(&self) -> TriageModel {
        TriageModel {
            severity: self.severity@,
            risk_level: self.risk_level@,
            recommended_path: self.recommended_path@,
            requires_adjuster_review: self.requires_adjuster_review,
            requires_siu_review: self.requires_siu_review,
            estimated_loss: self.estimated_loss,
            reason_codes: views(self.reason_codes@),
        }
    }
}

/// The facts that triage rests on.
pub struct TriageFacts {
    pub customer_id: Seq<char>,
    pub injury_reported: bool,
    pub vehicle_drivable: bool,
    pub recent_claim_count: u32,
    pub policy_active: bool,
    pub vehicle_covered: bool,
    pub consent: bool,
}

impl TriageRequestModel {
    /// The customer the claim is about: the claim says so, or else the customer record.
    pub open spec fn customer_id(self) -> Option<Seq<char>> {
        match text_in(self.claim, "customerId"@) {
            Some(id) => Some(id),
            None => text_in(self.customer, "customerId"@),
        }
    }

    pub open spec fn facts(self) -> TriageFacts {
        TriageFacts {
            customer_id: match self.customer_id() {
                Some(id) => id,
                None => Seq::empty(),
            },
            injury_reported: bool_in_or(self.claim, "injuryReported"@, false),
            vehicle_drivable: bool_in_or(self.claim, "vehicleDrivable"@, true),
            recent_claim_count: u32_in_or(self.prior_claims, "recentClaimCount"@, 0),
            policy_active: lists_active_policy(self.policies),
            vehicle_covered: bool_in_or(self.vehicle, "covered"@, false),
            consent: bool_in_or(self.customer, "consent"@, true),
        }
    }
}

impl TriageFacts {
    pub open spec fn reason_codes(self) -> Seq<Seq<char>> {
        code_if(!self.policy_active, "POLICY_NOT_ACTIVE"@)
            + code_if(!self.vehicle_covered, "VEHICLE_NOT_COVERED"@)
            + code_if(self.injury_reported, "INJURY_REPORTED"@)
            + code_if(!self.vehicle_drivable, "VEHICLE_NOT_DRIVABLE"@)
            + code_if(self.recent_claim_count > 1, "RECENT_PRIOR_CLAIMS"@)
            + code_if(
            !self.consent || self.customer_id == "CUST-3003"@,
            "CUSTOMER_CONSENT_REQUIRED"@,
        )
    }

    /// Whether the special investigation unit has to look at the claim.
    pub open spec fn requires_siu_review(self) -> bool {
        self.recent_claim_count > 1 || self.customer_id == "CUST-2002"@
    }

    pub open spec fn requires_adjuster_review(self) -> bool {
        self.injury_reported || !self.vehicle_drivable || !self.policy_active
            || !self.vehicle_covered || !self.consent
    }

    /// Whether there is insurance for the damage at all.
    pub open spec fn insured(self) -> bool {
        self.policy_active && self.vehicle_covered
    }

    pub open spec fn triage(self) -> TriageModel {
        TriageModel {
            severity: if self.injury_reported {
                "high"@
            } else if !self.vehicle_drivable {
                "medium"@
            } else {
                "low"@
            },
            risk_level: if self.requires_siu_review() {
                "high"@
            } else if self.requires_adjuster_review() {
                "medium"@
            } else {
                "low"@
            },
            recommended_path: if self.requires_siu_review() {
                "siu_review"@
            } else if !self.insured() {
                "manual_review"@
            } else {
                "repair"@
            },
            requires_adjuster_review: self.requires_adjuster_review(),
            requires_siu_review: self.requires_siu_review(),
            estimated_loss: if !self.insured() {
                0
            } else if self.injury_reported {
                12000
            } else if !self.vehicle_drivable {
                3200
            } else {
                1800
            },
            reason_codes: self.reason_codes(),
        }
    }
}

impl ClaimTriageResponse {
    /// Triage of a claim.
    pub fn from_request(request: &ClaimTriageRequest) -> (response: ClaimTriageResponse)
        ensures
            response.deep_view() == request.deep_view().facts().triage(),
    {
        let ghost facts = request.deep_view().facts();
        let customer_id = match claim_string(&request.claim, "customerId") {
            Some(customer_id) => customer_id,
            None => match claim_string(&request.customer, "customerId") {
                Some(customer_id) => customer_id,
                None => String::new(),
            },
        };
        let injury_reported: bool = bool_or_default(&request.claim, "injuryReported", false);
        let vehicle_drivable: bool = bool_or_default(&request.claim, "vehicleDrivable", true);
        let recent_claim_count: u32 = u32_or_default(&request.prior_claims, "recentClaimCount", 0);
        let policy_active: bool = policies_include_active_policy(&request.policies);
        let vehicle_covered: bool = bool_or_default(&request.vehicle, "covered", false);
        let consent: bool = bool_or_default(&request.customer, "consent", true);

        let consent_required: bool = !consent || same_text(customer_id.as_str(), "CUST-3003");
        let mut reason_codes: Vec<String> = Vec::new();
        note_if(&mut reason_codes, !policy_active, "POLICY_NOT_ACTIVE");
        note_if(&mut reason_codes, !vehicle_covered, "VEHICLE_NOT_COVERED");
        note_if(&mut reason_codes, injury_reported, "INJURY_REPORTED");
        note_if(&mut reason_codes, !vehicle_drivable, "VEHICLE_NOT_DRIVABLE");
        note_if(&mut reason_codes, recent_claim_count > 1, "RECENT_PRIOR_CLAIMS");
        note_if(&mut reason_codes, consent_required, "CUSTOMER_CONSENT_REQUIRED");
        proof {
            assert(views(reason_codes@) =~= facts.reason_codes());
        }

        let requires_siu_review: bool = recent_claim_count > 1 || same_text(
            customer_id.as_str(),
            "CUST-2002",
        );
        let requires_adjuster_review: bool = injury_reported || !vehicle_drivable || !policy_active
            || !vehicle_covered || !consent;
        let risk_level = if requires_siu_review {
            "high"
        } else if requires_adjuster_review {
            "medium"
        } else {
            "low"
        };
        let severity = if injury_reported {
            "high"
        } else if !vehicle_drivable {
            "medium"
        } else {
            "low"
        };
        let recommended_path = if requires_siu_review {
            "siu_review"
        } else if !policy_active || !vehicle_covered {
            "manual_review"
        } else {
            "repair"
        };
        let estimated_loss: u32 = if !policy_active || !vehicle_covered {
            0
        } else if injury_reported {
            12000
        } else if !vehicle_drivable {
            3200
        } else {
            1800
        };
        ClaimTriageResponse {
            severity: severity.to_string(),
            risk_level: risk_level.to_string(),
            recommended_path: recommended_path.to_string(),
            requires_adjuster_review,
            requires_siu_review,
            estimated_loss,
            reason_codes,
        }
    }
}

/// What the triage service answers: it refuses a claim about nobody.
pub open spec fn triage_outcome(request: TriageRequestModel) -> Result<
    TriageModel,
    ApiErrorModel,
> {
    if request.customer_id() is None {
        Err(bad_request("claim.customerId or customer.customerId is required"@))
    } else {
        Ok(request.facts().triage())
    }
}

/// The triage service.
pub fn triage_claim(request: &ClaimTriageRequest) -> (outcome: Result<
    ClaimTriageResponse,
    ApiError,
>)
    ensures
        result_model(outcome) == triage_outcome(request.deep_view()),
{
    if claim_string(&request.claim, "customerId").is_none() && claim_string(
        &request.customer,
        "customerId",
    ).is_none() {
        return Err(
            ApiError::bad_request("claim.customerId or customer.customerId is required"),
        );
    }
    Ok(ClaimTriageResponse::from_request(request))
}

} // verus!
