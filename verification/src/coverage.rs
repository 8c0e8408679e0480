//! `evaluateCoverage`: whether policy and vehicle cover a claim.

use crate::claim_fields::{
    bool_field, bool_or, filled_text, missing_argument, missing_field, required_arg,
    required_string_field, string_field, text_or,
};
use crate::json::{items_model, lemma_items_model, number, put, text, Json, JsonModel, Member};
use crate::mcp_error::{McpError, McpErrorModel};
use crate::model::result_model;
use crate::text::{concat2, concat3, eq_ignore_ascii_case, same_ignoring_case};
use vstd::prelude::*;

verus! {

/// The policies in a document: the document itself where it is an array, or else its member
/// `policies` where that is one.
pub open spec fn policies_in(value: JsonModel) -> Seq<JsonModel> {
    match value.as_array() {
        Some(items) => items,
        None => match value.array_at("policies"@) {
            Some(items) => items,
            None => Seq::empty(),
        },
    }
}

/// Whether a policy is in force.
pub open spec fn in_force(policy: JsonModel) -> bool {
    same_ignoring_case(text_or(policy, "status"@, Seq::empty()), "active"@)
}

/// The first policy that is in force.
pub open spec fn first_in_force(policies: Seq<JsonModel>) -> Option<JsonModel>
    decreases policies.len(),
{
    if policies.len() == 0 {
        None
    } else if in_force(policies[0]) {
        Some(policies[0])
    } else {
        first_in_force(policies.drop_first())
    }
}

/// The first coverage of a policy.
pub open spec fn first_coverage(policy: JsonModel) -> Option<JsonModel> {
    match policy.array_at("coverages"@) {
        Some(items) => if items.len() > 0 {
            Some(items[0])
        } else {
            None
        },
        None => None,
    }
}

pub open spec fn deductible_of(policy: JsonModel) -> Option<u64> {
    match first_coverage(policy) {
        Some(coverage) => coverage.u64_at("deductible"@),
        None => None,
    }
}

pub open spec fn coverage_type_of(policy: JsonModel) -> Option<Seq<char>> {
    match first_coverage(policy) {
        Some(coverage) => coverage.text_at("coverageType"@),
        None => None,
    }
}

/// The policies in a document.
pub fn policy_items(value: &Json) -> (policies: Vec<&Json>)
    ensures
        policies.deep_view() == policies_in(value.model()),
{
    let mut policies: Vec<&Json> = Vec::new();
    let items = match value.as_array() {
        Some(items) => Some(items),
        None => value.array_at("policies"),
    };
    match items {
        Some(items) => {
            proof {
                lemma_items_model(items@);
            }
            let mut i: usize = 0;
            while i < items.len()
                invariant
                    i <= items@.len(),
                    policies@.len() == i,
                    forall|j: int| 0 <= j < i ==> *#[trigger] policies@[j] == items@[j],
                decreases items@.len() - i,
            {
                policies.push(&items[i]);
                i = i + 1;
            }
            proof {
                assert(policies.deep_view() =~= items_model(items@));
            }
        },
        None => {
            proof {
                assert(policies.deep_view() =~= Seq::empty());
            }
        },
    }
    policies
}

/// The first coverage of a policy.
fn coverage_of(policy: &Json) -> (coverage: Option<&Json>)
    ensures
        coverage.deep_view() == first_coverage(policy.model()),
{
    match policy.array_at("coverages") {
        Some(items) => {
            proof {
                lemma_items_model(items@);
            }
            if items.len() > 0 {
                Some(&items[0])
            } else {
                None
            }
        },
        None => None,
    }
}

/// The deductible of the first coverage of a policy.
pub fn first_deductible(policy: &Json) -> (deductible: Option<u64>)
    ensures
        deductible == deductible_of(policy.model()),
{
    match coverage_of(policy) {
        Some(coverage) => coverage.u64_at("deductible"),
        None => None,
    }
}

/// The type of the first coverage of a policy.
pub fn first_coverage_type(policy: &Json) -> (coverage_type: Option<String>)
    ensures
        coverage_type.deep_view() == coverage_type_of(policy.model()),
{
    match coverage_of(policy) {
        Some(coverage) => match coverage.text_at("coverageType") {
            Some(t) => Some(t.to_string()),
            None => None,
        },
        None => None,
    }
}

/// The answer of `evaluateCoverage`.
pub open spec fn coverage_document(
    covered: bool,
    status: Seq<char>,
    policy_id: Seq<char>,
    coverage_type: Seq<char>,
    deductible: u64,
    reason: Seq<char>,
) -> JsonModel {
    JsonModel::Object(
        map![
            "coverageStatus"@ => JsonModel::Text(status),
            "policyId"@ => JsonModel::Text(policy_id),
            "coverageType"@ => JsonModel::Text(coverage_type),
            "deductible"@ => JsonModel::Number(deductible),
            "requiresAdjusterReview"@ => JsonModel::Bool(!covered),
            "reason"@ => JsonModel::Text(reason),
        ],
    )
}

/// A claim is covered where the vehicle is and a policy is in force; the terms are those of the
/// first policy in force.
pub open spec fn coverage_finding(
    vehicle_covered: bool,
    policies: Seq<JsonModel>,
    incident_date: Seq<char>,
    vehicle_id: Seq<char>,
) -> JsonModel {
    if !vehicle_covered {
        coverage_document(
            false,
            "not-covered"@,
            Seq::empty(),
            Seq::empty(),
            0,
            "vehicle "@ + vehicle_id + " is not covered by an active policy"@,
        )
    } else {
        match first_in_force(policies) {
            Some(policy) => coverage_document(
                true,
                "covered"@,
                text_or(policy, "policyId"@, Seq::empty()),
                match coverage_type_of(policy) {
                    Some(coverage_type) => coverage_type,
                    None => "collision"@,
                },
                match deductible_of(policy) {
                    Some(deductible) => deductible,
                    None => 500,
                },
                "active policy covers incident date "@ + incident_date,
            ),
            None => coverage_document(
                false,
                "policy-inactive"@,
                Seq::empty(),
                Seq::empty(),
                0,
                "no active policy was found for the claim"@,
            ),
        }
    }
}

/// What `evaluateCoverage` answers: the refusal names the first thing that is missing.
pub open spec fn coverage_outcome(arguments: JsonModel) -> Result<JsonModel, McpErrorModel> {
    let claim = arguments.get_or_null("claim"@);
    if arguments.get("claim"@) is None {
        Err(missing_argument("claim"@))
    } else if arguments.get("policies"@) is None {
        Err(missing_argument("policies"@))
    } else if arguments.get("vehicle"@) is None {
        Err(missing_argument("vehicle"@))
    } else if filled_text(claim, "incidentDate"@) is None {
        Err(missing_field("incidentDate"@))
    } else if filled_text(claim, "vehicleId"@) is None {
        Err(missing_field("vehicleId"@))
    } else {
        Ok(
            coverage_finding(
                bool_or(arguments.get_or_null("vehicle"@), "covered"@, false),
                policies_in(arguments.get_or_null("policies"@)),
                filled_text(claim, "incidentDate"@)->0,
                filled_text(claim, "vehicleId"@)->0,
            ),
        )
    }
}

fn coverage_answer(
    covered: bool,
    status: &str,
    policy_id: &str,
    coverage_type: &str,
    deductible: u64,
    reason: &str,
) -> (answer: Json)
    ensures
        answer.model() == coverage_document(
            covered,
            status@,
            policy_id@,
            coverage_type@,
            deductible,
            reason@,
        ),
{
    let mut members: Vec<Member> = Vec::new();
    put(&mut members, "coverageStatus", text(status));
    put(&mut members, "policyId", text(policy_id));
    put(&mut members, "coverageType", text(coverage_type));
    put(&mut members, "deductible", number(deductible));
    put(&mut members, "requiresAdjusterReview", Json::Bool(!covered));
    put(&mut members, "reason", text(reason));
    Json::Object(members)
}

/// The first policy that is in force.
fn find_in_force<'a>(policies: &Vec<&'a Json>) -> (found: Option<&'a Json>)
    ensures
        found.deep_view() == first_in_force(policies.deep_view()),
{
    let ghost all = policies.deep_view();
    let mut i: usize = 0;
    proof {
        assert(all.skip(0) == all);
    }
    while i < policies.len()
        invariant
            i <= policies@.len(),
            all == policies.deep_view(),
            first_in_force(all) == first_in_force(all.skip(i as int)),
        decreases policies@.len() - i,
    {
        let policy: &'a Json = policies[i];
        let status = string_field(policy, "status");
        proof {
            assert(all.skip(i as int)[0] == policy.model());
            assert(all.skip(i as int).drop_first() == all.skip(i + 1));
        }
        if eq_ignore_ascii_case(status.as_str(), "active") {
            return Some(policy);
        }
        i = i + 1;
    }
    None
}

/// `evaluateCoverage`: whether policy and vehicle cover the claim.
pub fn evaluate_coverage(arguments: &Json) -> (outcome: Result<Json, McpError>)
    ensures
        result_model(outcome) == coverage_outcome(arguments.model()),
{
    let claim = match required_arg(arguments, "claim") {
        Ok(claim) => claim,
        Err(error) => return Err(error),
    };
    let policies = match required_arg(arguments, "policies") {
        Ok(policies) => policies,
        Err(error) => return Err(error),
    };
    let vehicle = match required_arg(arguments, "vehicle") {
        Ok(vehicle) => vehicle,
        Err(error) => return Err(error),
    };
    let incident_date = match required_string_field(claim, "incidentDate") {
        Ok(incident_date) => incident_date,
        Err(error) => return Err(error),
    };
    let vehicle_id = match required_string_field(claim, "vehicleId") {
        Ok(vehicle_id) => vehicle_id,
        Err(error) => return Err(error),
    };

    let items = policy_items(policies);
    let active_policy = find_in_force(&items);
    let vehicle_covered: bool = bool_field(vehicle, "covered", false);

    proof {
        reveal_strlit("");
        assert(""@ =~= Seq::empty());
    }
    if !vehicle_covered {
        let reason = concat3(
            "vehicle ",
            vehicle_id.as_str(),
            " is not covered by an active policy",
        );
        return Ok(coverage_answer(false, "not-covered", "", "", 0, reason.as_str()));
    }
    match active_policy {
        Some(policy) => {
            let policy_id = string_field(policy, "policyId");
            let deductible: u64 = match first_deductible(policy) {
                Some(deductible) => deductible,
                None => 500,
            };
            let coverage_type = match first_coverage_type(policy) {
                Some(coverage_type) => coverage_type,
                None => "collision".to_string(),
            };
            let reason = concat2("active policy covers incident date ", incident_date.as_str());
            Ok(
                coverage_answer(
                    true,
                    "covered",
                    policy_id.as_str(),
                    coverage_type.as_str(),
                    deductible,
                    reason.as_str(),
                ),
            )
        },
        None => Ok(
            coverage_answer(
                false,
                "policy-inactive",
                "",
                "",
                0,
                "no active policy was found for the claim",
            ),
        ),
    }
}

} // verus!
