//! `scoreClaimRisk`: the risk of a claim and the reviews it calls for.

use crate::claim_fields::{
    code_if, get_or_null, missing_argument, missing_field, note_if, required_arg,
    required_bool_field, required_u64_field, string_field, text_or,
};
use crate::json::{number, put, text, text_array, texts, Json, JsonModel, Member};
use crate::mcp_error::{McpError, McpErrorModel};
use crate::model::result_model;
use crate::text::{concat3, same_text, views};
use vstd::prelude::*;

verus! {

/// How risky a claim is.
#[derive(Debug, Clone, Copy, PartialEq, Eq, Structural)]
pub enum RiskLevel {
    Low,
    Medium,
    High,
}

impl RiskLevel {
    pub open spec fn text(self) -> Seq<char> {
        match self {
            RiskLevel::Low => "low"@,
            RiskLevel::Medium => "medium"@,
            RiskLevel::High => "high"@,
        }
    }

    /// The level as answers write it.
    pub fn as_str(self) -> (text: &'static str)
        ensures
            text@ == self.text(),
    {
        match self {
            RiskLevel::Low => "low",
            RiskLevel::Medium => "medium",
            RiskLevel::High => "high",
        }
    }
}

/// The facts that a claim's risk rests on.
#[derive(Debug, Clone, Copy)]
pub struct RiskFacts {
    pub injury_reported: bool,
    pub vehicle_drivable: bool,
    pub prior_claim_count: u64,
    pub recent_claim_count: u64,
    /// Whether the coverage review found the claim covered.
    pub covered: bool,
    /// Whether the liability review left open who is at fault.
    pub liability_unclear: bool,
}

pub open spec fn risk_of(facts: RiskFacts) -> RiskLevel {
    if facts.injury_reported || facts.recent_claim_count >= 2 || !facts.covered {
        RiskLevel::High
    } else if !facts.vehicle_drivable || facts.recent_claim_count == 1 || facts.liability_unclear {
        RiskLevel::Medium
    } else {
        RiskLevel::Low
    }
}

/// The reasons that raise the risk, in the order in which they are listed.
pub open spec fn risk_codes(facts: RiskFacts) -> Seq<Seq<char>> {
    code_if(facts.injury_reported, "INJURY_REPORTED"@)
        + code_if(!facts.vehicle_drivable, "VEHICLE_NOT_DRIVABLE"@)
        + code_if(facts.recent_claim_count > 0, "RECENT_PRIOR_CLAIM"@)
        + code_if(!facts.covered, "COVERAGE_REVIEW_REQUIRED"@)
        + code_if(facts.liability_unclear, "UNCLEAR_LIABILITY"@)
}

pub open spec fn estimated_loss_of(facts: RiskFacts) -> u64 {
    if facts.injury_reported {
        12_500
    } else if !facts.vehicle_drivable {
        3_200
    } else {
        900
    }
}

/// The answer of `scoreClaimRisk`.
pub open spec fn risk_document(facts: RiskFacts) -> JsonModel {
    let level = risk_of(facts);
    JsonModel::Object(
        map![
            "riskLevel"@ => JsonModel::Text(level.text()),
            "estimatedLoss"@ => JsonModel::Number(estimated_loss_of(facts)),
            "requiresSiuReview"@ => JsonModel::Bool(
                level == RiskLevel::High || facts.prior_claim_count >= 3,
            ),
            "requiresAdjusterReview"@ => JsonModel::Bool(level != RiskLevel::Low),
            "reasonCodes"@ => texts(risk_codes(facts)),
            "reason"@ => JsonModel::Text(
                "risk scored "@ + level.text() + " from deterministic demo claim rules"@,
            ),
        ],
    )
}

/// What `scoreClaimRisk` answers.
pub open spec fn risk_outcome(arguments: JsonModel) -> Result<JsonModel, McpErrorModel> {
    let claim = arguments.get_or_null("claim"@);
    let prior_claims = arguments.get_or_null("priorClaims"@);
    let coverage = arguments.get_or_null("coverage"@);
    let liability = arguments.get_or_null("liability"@);
    if arguments.get("claim"@) is None {
        Err(missing_argument("claim"@))
    } else if arguments.get("priorClaims"@) is None {
        Err(missing_argument("priorClaims"@))
    } else if claim.bool_at("injuryReported"@) is None {
        Err(missing_field("injuryReported"@))
    } else if claim.bool_at("vehicleDrivable"@) is None {
        Err(missing_field("vehicleDrivable"@))
    } else if prior_claims.u64_at("priorClaimCount"@) is None {
        Err(missing_field("priorClaimCount"@))
    } else if prior_claims.u64_at("recentClaimCount"@) is None {
        Err(missing_field("recentClaimCount"@))
    } else {
        Ok(
            risk_document(
                RiskFacts {
                    injury_reported: claim.bool_at("injuryReported"@)->0,
                    vehicle_drivable: claim.bool_at("vehicleDrivable"@)->0,
                    prior_claim_count: prior_claims.u64_at("priorClaimCount"@)->0,
                    recent_claim_count: prior_claims.u64_at("recentClaimCount"@)->0,
                    covered: text_or(coverage, "coverageStatus"@, Seq::empty()) == "covered"@,
                    liability_unclear: text_or(liability, "liabilityStatus"@, Seq::empty())
                        == "unclear"@,
                },
            ),
        )
    }
}

/// The answer of `scoreClaimRisk` to the facts of a claim.
pub fn risk_from_facts(facts: RiskFacts) -> (answer: Json)
    ensures
        answer.model() == risk_document(facts),
{
    let mut reason_codes: Vec<String> = Vec::new();
    note_if(&mut reason_codes, facts.injury_reported, "INJURY_REPORTED");
    note_if(&mut reason_codes, !facts.vehicle_drivable, "VEHICLE_NOT_DRIVABLE");
    note_if(&mut reason_codes, facts.recent_claim_count > 0, "RECENT_PRIOR_CLAIM");
    note_if(&mut reason_codes, !facts.covered, "COVERAGE_REVIEW_REQUIRED");
    note_if(&mut reason_codes, facts.liability_unclear, "UNCLEAR_LIABILITY");
    proof {
        assert(views(reason_codes@) =~= risk_codes(facts));
    }

    let risk_level = if facts.injury_reported || facts.recent_claim_count >= 2 || !facts.covered {
        RiskLevel::High
    } else if !facts.vehicle_drivable || facts.recent_claim_count == 1 || facts.liability_unclear {
        RiskLevel::Medium
    } else {
        RiskLevel::Low
    };
    let estimated_loss: u64 = if facts.injury_reported {
        12_500
    } else if !facts.vehicle_drivable {
        3_200
    } else {
        900
    };
    let requires_siu_review: bool = risk_level == RiskLevel::High || facts.prior_claim_count >= 3;
    let reason = concat3(
        "risk scored ",
        risk_level.as_str(),
        " from deterministic demo claim rules",
    );

    let mut members: Vec<Member> = Vec::new();
    put(&mut members, "riskLevel", text(risk_level.as_str()));
    put(&mut members, "estimatedLoss", number(estimated_loss));
    put(&mut members, "requiresSiuReview", Json::Bool(requires_siu_review));
    put(&mut members, "requiresAdjusterReview", Json::Bool(risk_level != RiskLevel::Low));
    put(&mut members, "reasonCodes", text_array(&reason_codes));
    put(&mut members, "reason", Json::Text(reason));
    Json::Object(members)
}

/// `scoreClaimRisk`: the risk level and the reviews it calls for.
pub fn score_claim_risk(arguments: &Json) -> (outcome: Result<Json, McpError>)
    ensures
        result_model(outcome) == risk_outcome(arguments.model()),
{
    let null = Json::Null;
    let claim = match required_arg(arguments, "claim") {
        Ok(claim) => claim,
        Err(error) => return Err(error),
    };
    let prior_claims = match required_arg(arguments, "priorClaims") {
        Ok(prior_claims) => prior_claims,
        Err(error) => return Err(error),
    };
    let coverage = get_or_null(arguments, "coverage", &null);
    let liability = get_or_null(arguments, "liability", &null);

    let injury_reported: bool = match required_bool_field(claim, "injuryReported") {
        Ok(injury_reported) => injury_reported,
        Err(error) => return Err(error),
    };
    let vehicle_drivable: bool = match required_bool_field(claim, "vehicleDrivable") {
        Ok(vehicle_drivable) => vehicle_drivable,
        Err(error) => return Err(error),
    };
    let prior_claim_count: u64 = match required_u64_field(prior_claims, "priorClaimCount") {
        Ok(count) => count,
        Err(error) => return Err(error),
    };
    let recent_claim_count: u64 = match required_u64_field(prior_claims, "recentClaimCount") {
        Ok(count) => count,
        Err(error) => return Err(error),
    };
    let coverage_status = string_field(coverage, "coverageStatus");
    let liability_status = string_field(liability, "liabilityStatus");
    Ok(
        risk_from_facts(
            RiskFacts {
                injury_reported,
                vehicle_drivable,
                prior_claim_count,
                recent_claim_count,
                covered: same_text(coverage_status.as_str(), "covered"),
                liability_unclear: same_text(liability_status.as_str(), "unclear"),
            },
        ),
    )
}

} // verus!
