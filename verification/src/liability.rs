//! `classifyLiability`: who is likely at fault.

use crate::claim_fields::{
    filled_text, missing_argument, missing_field, required_arg, required_bool_field,
    required_string_field,
};
use crate::json::{put, text, Json, JsonModel, Member};
use crate::mcp_error::{McpError, McpErrorModel};
use crate::model::result_model;
use crate::text::{
    ascii_lower, contains, contains_text, is_ascii_text, to_lowercase, unicode_lowercase,
};
use vstd::prelude::*;

verus! {

/// The answer of `classifyLiability`.
pub open spec fn liability_document(
    status: Seq<char>,
    requires_adjuster_review: bool,
    reason: Seq<char>,
) -> JsonModel {
    JsonModel::Object(
        map![
            "liabilityStatus"@ => JsonModel::Text(status),
            "requiresAdjusterReview"@ => JsonModel::Bool(requires_adjuster_review),
            "reason"@ => JsonModel::Text(reason),
        ],
    )
}

/// Liability from the facts of a claim, its description in small letters.
pub open spec fn liability_finding(
    description: Seq<char>,
    vehicle_drivable: bool,
    injury_reported: bool,
) -> JsonModel {
    if injury_reported {
        liability_document(
            "unclear"@,
            true,
            "injury was reported, so liability requires adjuster review"@,
        )
    } else if contains_text(description, "rear-ended"@) || contains_text(
        description,
        "rear ended"@,
    ) {
        liability_document(
            "likely-not-at-fault"@,
            !vehicle_drivable,
            "rear-end collision suggests the claimant is likely not at fault"@,
        )
    } else if contains_text(description, "single vehicle"@) {
        liability_document(
            "unclear"@,
            true,
            "single vehicle incident requires liability review"@,
        )
    } else {
        liability_document(
            "clear"@,
            false,
            "claim facts are sufficient for standard liability handling"@,
        )
    }
}

/// What `classifyLiability` answers.
pub open spec fn liability_outcome(arguments: JsonModel) -> Result<JsonModel, McpErrorModel> {
    let claim = arguments.get_or_null("claim"@);
    if arguments.get("claim"@) is None {
        Err(missing_argument("claim"@))
    } else if filled_text(claim, "accidentDescription"@) is None {
        Err(missing_field("accidentDescription"@))
    } else if claim.bool_at("vehicleDrivable"@) is None {
        Err(missing_field("vehicleDrivable"@))
    } else if claim.bool_at("injuryReported"@) is None {
        Err(missing_field("injuryReported"@))
    } else {
        Ok(
            liability_finding(
                unicode_lowercase(filled_text(claim, "accidentDescription"@)->0),
                claim.bool_at("vehicleDrivable"@)->0,
                claim.bool_at("injuryReported"@)->0,
            ),
        )
    }
}

fn liability_answer(status: &str, requires_adjuster_review: bool, reason: &str) -> (answer: Json)
    ensures
        answer.model() == liability_document(status@, requires_adjuster_review, reason@),
{
    let mut members: Vec<Member> = Vec::new();
    put(&mut members, "liabilityStatus", text(status));
    put(&mut members, "requiresAdjusterReview", Json::Bool(requires_adjuster_review));
    put(&mut members, "reason", text(reason));
    Json::Object(members)
}

/// Liability from the facts of a claim, its description in small letters.
pub fn liability_from_facts(
    description: &str,
    vehicle_drivable: bool,
    injury_reported: bool,
) -> (answer: Json)
    ensures
        answer.model() == liability_finding(description@, vehicle_drivable, injury_reported),
{
    if injury_reported {
        liability_answer(
            "unclear",
            true,
            "injury was reported, so liability requires adjuster review",
        )
    } else if contains(description, "rear-ended") || contains(description, "rear ended") {
        liability_answer(
            "likely-not-at-fault",
            !vehicle_drivable,
            "rear-end collision suggests the claimant is likely not at fault",
        )
    } else if contains(description, "single vehicle") {
        liability_answer("unclear", true, "single vehicle incident requires liability review")
    } else {
        liability_answer(
            "clear",
            false,
            "claim facts are sufficient for standard liability handling",
        )
    }
}

/// `classifyLiability`: who is likely at fault. The case of the letters in the description does
/// not matter.
pub fn classify_liability(arguments: &Json) -> (outcome: Result<Json, McpError>)
    ensures
        result_model(outcome) == liability_outcome(arguments.model()),
        ({
            let claim = arguments.model().get_or_null("claim"@);
            let description = filled_text(claim, "accidentDescription"@)->0;
            outcome is Ok && is_ascii_text(description) ==> outcome->Ok_0.model()
                == liability_finding(
                description.map_values(|c: char| ascii_lower(c)),
                claim.bool_at("vehicleDrivable"@)->0,
                claim.bool_at("injuryReported"@)->0,
            )
        }),
{
    let claim = match required_arg(arguments, "claim") {
        Ok(claim) => claim,
        Err(error) => return Err(error),
    };
    let description = match required_string_field(claim, "accidentDescription") {
        Ok(description) => to_lowercase(description.as_str()),
        Err(error) => return Err(error),
    };
    let vehicle_drivable: bool = match required_bool_field(claim, "vehicleDrivable") {
        Ok(vehicle_drivable) => vehicle_drivable,
        Err(error) => return Err(error),
    };
    let injury_reported: bool = match required_bool_field(claim, "injuryReported") {
        Ok(injury_reported) => injury_reported,
        Err(error) => return Err(error),
    };
    Ok(liability_from_facts(description.as_str(), vehicle_drivable, injury_reported))
}

} // verus!
