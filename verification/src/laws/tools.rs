//! Laws of the claim tools.

use crate::claim_documents::{documents_document, documents_for, requested_path};
use crate::claim_fields::{bool_or, code_if, filled_text, missing_argument};
use crate::claim_risk::{risk_document, risk_of, risk_outcome, RiskFacts, RiskLevel};
use crate::claim_summary::{document_list, summary_outcome, texts_among};
use crate::claim_tools::{
    call_arguments, call_outcome, required_arguments, tool_catalogue, tool_names, tool_outcome,
};
use crate::coverage::{coverage_outcome, first_in_force, in_force, policies_in};
use crate::json::{json_text, texts, JsonModel};
use crate::laws::documents::{says, says_active};
use crate::liability::{liability_finding, liability_outcome};
use crate::mcp_error::{tool_not_found, McpErrorModel};
use crate::text::{contains_text, decimal, joined, trimmed, unicode_lowercase, white_space};
use vstd::prelude::*;

verus! {

// ---------------------------------------------------------------------------------------
// The list and the calls
// ---------------------------------------------------------------------------------------

/// No two tools have the same name.
pub proof fn law_tool_names_are_distinct(i: int, j: int)
    requires
        0 <= i < j < tool_names().len(),
    ensures
        tool_names()[i] != tool_names()[j],
{
    reveal_strlit("evaluateCoverage");
    reveal_strlit("classifyLiability");
    reveal_strlit("scoreClaimRisk");
    reveal_strlit("listRequiredDocuments");
    reveal_strlit("generateCustomerSummary");
    assert("evaluateCoverage"@.len() == 16);
    assert("classifyLiability"@.len() == 17);
    assert("scoreClaimRisk"@.len() == 14);
    assert("listRequiredDocuments"@.len() == 21);
    assert("generateCustomerSummary"@.len() == 23);
}

/// A tool that is not on the list is not found, whatever it is called with.
pub proof fn law_unlisted_tools_are_not_found(name: Seq<char>, arguments: JsonModel)
    requires
        !tool_names().contains(name),
    ensures
        tool_outcome(name, arguments) == Err::<JsonModel, McpErrorModel>(tool_not_found(name)),
{
    assert(tool_names()[0] == "evaluateCoverage"@);
    assert(tool_names()[1] == "classifyLiability"@);
    assert(tool_names()[2] == "scoreClaimRisk"@);
    assert(tool_names()[3] == "listRequiredDocuments"@);
    assert(tool_names()[4] == "generateCustomerSummary"@);
}

/// The first of some arguments that is missing.
pub open spec fn first_missing(required: Seq<Seq<char>>, arguments: JsonModel) -> Option<Seq<char>>
    decreases required.len(),
{
    if required.len() == 0 {
        None
    } else if arguments.get(required[0]) is None {
        Some(required[0])
    } else {
        first_missing(required.drop_first(), arguments)
    }
}

/// Each tool asks for the arguments that the list says it requires: a call without them is
/// refused, and the refusal names the first that is missing.
pub proof fn law_required_arguments_are_asked_for(i: int, arguments: JsonModel)
    requires
        0 <= i < tool_names().len(),
        first_missing(required_arguments()[i], arguments) is Some,
    ensures
        tool_outcome(tool_names()[i], arguments) == Err::<JsonModel, McpErrorModel>(
            missing_argument(first_missing(required_arguments()[i], arguments)->0),
        ),
{
    let required = required_arguments()[i];
    reveal_with_fuel(first_missing, 4);
    assert(required_arguments()[0].drop_first() =~= seq!["policies"@, "vehicle"@]);
    assert(seq!["policies"@, "vehicle"@].drop_first() =~= seq!["vehicle"@]);
    assert(seq!["vehicle"@].drop_first() =~= Seq::empty());
    assert(required_arguments()[1].drop_first() =~= Seq::empty());
    assert(required_arguments()[2].drop_first() =~= seq!["priorClaims"@]);
    assert(seq!["priorClaims"@].drop_first() =~= Seq::empty());
    lemma_dispatch(i, arguments);
}

/// Which rules stand behind the names on the list.
proof fn lemma_dispatch(i: int, arguments: JsonModel)
    requires
        0 <= i < tool_names().len(),
    ensures
        tool_outcome(tool_names()[i], arguments) == (if i == 0 {
            coverage_outcome(arguments)
        } else if i == 1 {
            liability_outcome(arguments)
        } else if i == 2 {
            risk_outcome(arguments)
        } else if i == 3 {
            Ok(documents_document(arguments))
        } else {
            summary_outcome(arguments)
        }),
{
    assert forall|k: int| 0 <= k < i implies tool_names()[k] != tool_names()[i] by {
        law_tool_names_are_distinct(k, i);
    }
    assert(tool_names()[0] == "evaluateCoverage"@);
    assert(tool_names()[1] == "classifyLiability"@);
    assert(tool_names()[2] == "scoreClaimRisk"@);
    assert(tool_names()[3] == "listRequiredDocuments"@);
    assert(tool_names()[4] == "generateCustomerSummary"@);
}

/// A text of one letter is filled.
proof fn lemma_one_letter()
    ensures
        trimmed("x"@).len() == 1,
{
    reveal_strlit("x");
    assert("x"@.len() == 1);
    assert(!white_space("x"@[0]));
}

/// Arguments that every tool accepts.
pub open spec fn plain_arguments() -> JsonModel {
    JsonModel::Object(
        map![
            "claim"@ => JsonModel::Object(
                map![
                    "incidentDate"@ => JsonModel::Text("x"@),
                    "vehicleId"@ => JsonModel::Text("x"@),
                    "customerId"@ => JsonModel::Text("x"@),
                    "accidentDescription"@ => JsonModel::Text("x"@),
                    "vehicleDrivable"@ => JsonModel::Bool(true),
                    "injuryReported"@ => JsonModel::Bool(false),
                ],
            ),
            "policies"@ => JsonModel::Null,
            "vehicle"@ => JsonModel::Null,
            "priorClaims"@ => JsonModel::Object(
                map![
                    "priorClaimCount"@ => JsonModel::Number(0),
                    "recentClaimCount"@ => JsonModel::Number(0),
                ],
            ),
        ],
    )
}

proof fn lemma_plain_arguments()
    ensures
        ({
            let arguments = plain_arguments();
            let claim = arguments.get_or_null("claim"@);
            let prior = arguments.get_or_null("priorClaims"@);
            &&& arguments.get("claim"@) is Some
            &&& arguments.get("policies"@) is Some
            &&& arguments.get("vehicle"@) is Some
            &&& arguments.get("priorClaims"@) is Some
            &&& filled_text(claim, "incidentDate"@) is Some
            &&& filled_text(claim, "vehicleId"@) is Some
            &&& filled_text(claim, "customerId"@) is Some
            &&& filled_text(claim, "accidentDescription"@) is Some
            &&& claim.bool_at("vehicleDrivable"@) is Some
            &&& claim.bool_at("injuryReported"@) is Some
            &&& prior.u64_at("priorClaimCount"@) is Some
            &&& prior.u64_at("recentClaimCount"@) is Some
        }),
{
    lemma_one_letter();
    reveal_strlit("claim");
    reveal_strlit("policies");
    reveal_strlit("vehicle");
    reveal_strlit("priorClaims");
    reveal_strlit("incidentDate");
    reveal_strlit("vehicleId");
    reveal_strlit("customerId");
    reveal_strlit("accidentDescription");
    reveal_strlit("vehicleDrivable");
    reveal_strlit("injuryReported");
    reveal_strlit("priorClaimCount");
    reveal_strlit("recentClaimCount");
    assert("claim"@.len() == 5);
    assert("policies"@.len() == 8);
    assert("vehicle"@.len() == 7);
    assert("priorClaims"@.len() == 11);
    assert("incidentDate"@.len() == 12);
    assert("vehicleId"@.len() == 9);
    assert("customerId"@.len() == 10);
    assert("accidentDescription"@.len() == 19);
    assert("vehicleDrivable"@.len() == 15);
    assert("injuryReported"@.len() == 14);
    assert("priorClaimCount"@.len() == 15);
    assert("recentClaimCount"@.len() == 16);
}

/// Every tool on the list can be called with success.
pub proof fn law_listed_tools_can_be_called(i: int)
    requires
        0 <= i < tool_names().len(),
    ensures
        tool_outcome(tool_names()[i], plain_arguments()) is Ok,
{
    lemma_plain_arguments();
    lemma_dispatch(i, plain_arguments());
}

/// The list describes each tool under its name, with the arguments it requires, and each of them
/// among its properties.
pub proof fn law_the_list_describes_the_tools(i: int)
    requires
        0 <= i < tool_names().len(),
    ensures
        tool_catalogue().len() == tool_names().len(),
        tool_catalogue()[i].text_at("name"@) == Some(tool_names()[i]),
        ({
            let schema = tool_catalogue()[i].get_or_null("inputSchema"@);
            let required = required_arguments()[i];
            &&& schema.get("required"@) == (if required.len() > 0 {
                Some(texts(required))
            } else {
                None
            })
            &&& forall|j: int|
                0 <= j < required.len() ==> schema.get_or_null("properties"@).get(
                    #[trigger] required[j],
                ) is Some
        }),
{
    reveal_strlit("name");
    reveal_strlit("description");
    reveal_strlit("inputSchema");
    reveal_strlit("type");
    reveal_strlit("required");
    reveal_strlit("properties");
    assert("name"@.len() == 4);
    assert("type"@.len() == 4);
    assert("description"@[0] != "inputSchema"@[0]);
    assert("description"@.len() == 11);
    assert("inputSchema"@.len() == 11);
    assert("required"@.len() == 8);
    assert("properties"@.len() == 10);
}

/// The result of a call holds the tool's answer, the same answer as text, and no error.
pub proof fn law_results_hold_the_answer(params: JsonModel, name: Seq<char>, answer: JsonModel)
    requires
        params.text_at("name"@) == Some(name),
        tool_outcome(name, call_arguments(params)) == Ok::<JsonModel, McpErrorModel>(answer),
    ensures
        call_outcome(params) matches Ok(result) && {
            &&& result.get("structuredContent"@) == Some(answer)
            &&& result.bool_at("isError"@) == Some(false)
            &&& result.array_at("content"@) matches Some(content)
            &&& content.len() == 1
            &&& content[0].text_at("text"@) == Some(json_text(answer))
            &&& content[0].text_at("type"@) == Some("text"@)
        },
{
    reveal_strlit("content");
    reveal_strlit("structuredContent");
    reveal_strlit("isError");
    reveal_strlit("type");
    reveal_strlit("text");
    assert("content"@[0] != "isError"@[0]);
    assert("content"@.len() == 7);
    assert("isError"@.len() == 7);
    assert("structuredContent"@.len() == 17);
    assert("type"@[1] != "text"@[1]);
}

// ---------------------------------------------------------------------------------------
// Coverage
// ---------------------------------------------------------------------------------------

/// The first policy in force is found where there is one, and none before it is in force.
pub proof fn law_the_first_policy_in_force_counts(policies: Seq<JsonModel>)
    ensures
        match first_in_force(policies) {
            Some(policy) => exists|i: int|
                {
                    &&& 0 <= i < policies.len()
                    &&& #[trigger] policies[i] == policy
                    &&& in_force(policy)
                    &&& forall|j: int| 0 <= j < i ==> !in_force(#[trigger] policies[j])
                },
            None => forall|j: int| 0 <= j < policies.len() ==> !in_force(#[trigger] policies[j]),
        },
    decreases policies.len(),
{
    if policies.len() > 0 && !in_force(policies[0]) {
        let rest = policies.drop_first();
        law_the_first_policy_in_force_counts(rest);
        match first_in_force(rest) {
            Some(policy) => {
                let i = choose|i: int|
                    {
                        &&& 0 <= i < rest.len()
                        &&& #[trigger] rest[i] == policy
                        &&& in_force(policy)
                        &&& forall|j: int| 0 <= j < i ==> !in_force(#[trigger] rest[j])
                    };
                assert(policies[i + 1] == policy);
                assert forall|j: int| 0 <= j < i + 1 implies !in_force(#[trigger] policies[j]) by {
                    if j > 0 {
                        assert(rest[j - 1] == policies[j]);
                    }
                }
            },
            None => {
                assert forall|j: int| 0 <= j < policies.len() implies !in_force(
                    #[trigger] policies[j],
                ) by {
                    if j > 0 {
                        assert(rest[j - 1] == policies[j]);
                    }
                }
            },
        }
    }
}

proof fn lemma_coverage_keys()
    ensures
        "coverageStatus"@.len() == 14,
        "policyId"@.len() == 8,
        "coverageType"@.len() == 12,
        "deductible"@.len() == 10,
        "requiresAdjusterReview"@.len() == 22,
        "reason"@.len() == 6,
        "not-covered"@.len() == 11,
        "covered"@.len() == 7,
        "policy-inactive"@.len() == 15,
{
    reveal_strlit("coverageStatus");
    reveal_strlit("policyId");
    reveal_strlit("coverageType");
    reveal_strlit("deductible");
    reveal_strlit("requiresAdjusterReview");
    reveal_strlit("reason");
    reveal_strlit("not-covered");
    reveal_strlit("covered");
    reveal_strlit("policy-inactive");
}

/// A claim is found covered exactly where the vehicle is covered and some policy is in force. An
/// adjuster has to look at every other claim, and no other claim has a deductible.
pub proof fn law_coverage_takes_a_vehicle_and_a_policy(arguments: JsonModel)
    requires
        coverage_outcome(arguments) is Ok,
    ensures
        ({
            let answer = coverage_outcome(arguments)->Ok_0;
            let policies = policies_in(arguments.get_or_null("policies"@));
            let covered = bool_or(arguments.get_or_null("vehicle"@), "covered"@, false)
                && exists|i: int| 0 <= i < policies.len() && in_force(#[trigger] policies[i]);
            &&& answer.text_at("coverageStatus"@) == Some("covered"@) <==> covered
            &&& answer.bool_at("requiresAdjusterReview"@) == Some(!covered)
            &&& !covered ==> answer.u64_at("deductible"@) == Some(0u64)
        }),
{
    lemma_coverage_keys();
    law_the_first_policy_in_force_counts(policies_in(arguments.get_or_null("policies"@)));
}

// ---------------------------------------------------------------------------------------
// Risk
// ---------------------------------------------------------------------------------------

proof fn lemma_risk_keys()
    ensures
        "riskLevel"@.len() == 9,
        "estimatedLoss"@.len() == 13,
        "requiresSiuReview"@.len() == 17,
        "requiresAdjusterReview"@.len() == 22,
        "reasonCodes"@.len() == 11,
        "reason"@.len() == 6,
        "high"@.len() == 4,
        "medium"@.len() == 6,
        "low"@.len() == 3,
{
    reveal_strlit("riskLevel");
    reveal_strlit("estimatedLoss");
    reveal_strlit("requiresSiuReview");
    reveal_strlit("requiresAdjusterReview");
    reveal_strlit("reasonCodes");
    reveal_strlit("reason");
    reveal_strlit("high");
    reveal_strlit("medium");
    reveal_strlit("low");
}

/// A claim goes to the investigation unit exactly where its risk is high or the customer has
/// three prior claims or more, and to an adjuster exactly where its risk is not low.
pub proof fn law_risk_calls_for_reviews(facts: RiskFacts)
    ensures
        ({
            let answer = risk_document(facts);
            &&& answer.bool_at("requiresSiuReview"@) == Some(
                answer.text_at("riskLevel"@) == Some("high"@) || facts.prior_claim_count >= 3,
            )
            &&& answer.bool_at("requiresAdjusterReview"@) == Some(
                answer.text_at("riskLevel"@) != Some("low"@),
            )
        }),
{
    lemma_risk_keys();
}

/// How high a level is.
pub open spec fn height(level: RiskLevel) -> int {
    match level {
        RiskLevel::Low => 0,
        RiskLevel::Medium => 1,
        RiskLevel::High => 2,
    }
}

/// More trouble never lowers the risk.
pub proof fn law_trouble_never_lowers_the_risk(one: RiskFacts, other: RiskFacts)
    requires
        one.injury_reported ==> other.injury_reported,
        !one.vehicle_drivable ==> !other.vehicle_drivable,
        one.recent_claim_count <= other.recent_claim_count,
        !one.covered ==> !other.covered,
        one.liability_unclear ==> other.liability_unclear,
    ensures
        height(risk_of(one)) <= height(risk_of(other)),
{
}

/// A claim that the coverage review finds not covered scores a high risk when the review's
/// answer is handed on.
pub proof fn law_uncovered_claims_score_high(
    arguments: JsonModel,
    review: JsonModel,
)
    requires
        coverage_outcome(review) is Ok,
        arguments.get("coverage"@) == Some(coverage_outcome(review)->Ok_0),
        coverage_outcome(review)->Ok_0.bool_at("requiresAdjusterReview"@) == Some(true),
        risk_outcome(arguments) is Ok,
    ensures
        risk_outcome(arguments)->Ok_0.text_at("riskLevel"@) == Some("high"@),
        risk_outcome(arguments)->Ok_0.bool_at("requiresSiuReview"@) == Some(true),
{
    lemma_risk_keys();
    lemma_coverage_keys();
    law_coverage_takes_a_vehicle_and_a_policy(review);
}

proof fn lemma_liability_keys()
    ensures
        "liabilityStatus"@.len() == 15,
        "requiresAdjusterReview"@.len() == 22,
        "reason"@.len() == 6,
        "unclear"@.len() == 7,
        "likely-not-at-fault"@.len() == 19,
        "clear"@.len() == 5,
{
    reveal_strlit("liabilityStatus");
    reveal_strlit("requiresAdjusterReview");
    reveal_strlit("reason");
    reveal_strlit("unclear");
    reveal_strlit("likely-not-at-fault");
    reveal_strlit("clear");
}

/// Where liability is unclear an adjuster has to look at the claim, and always does where an
/// injury was reported.
pub proof fn law_unclear_liability_goes_to_an_adjuster(
    description: Seq<char>,
    vehicle_drivable: bool,
    injury_reported: bool,
)
    ensures
        ({
            let answer = liability_finding(description, vehicle_drivable, injury_reported);
            &&& answer.text_at("liabilityStatus"@) == Some("unclear"@) ==> answer.bool_at(
                "requiresAdjusterReview"@,
            ) == Some(true)
            &&& injury_reported ==> answer.text_at("liabilityStatus"@) == Some("unclear"@)
        }),
{
    lemma_liability_keys();
}

/// A claim whose liability is unclear scores no low risk when that answer is handed on.
pub proof fn law_unclear_liability_raises_the_risk(
    arguments: JsonModel,
    description: Seq<char>,
    vehicle_drivable: bool,
    injury_reported: bool,
)
    requires
        arguments.get("liability"@) == Some(
            liability_finding(description, vehicle_drivable, injury_reported),
        ),
        liability_finding(description, vehicle_drivable, injury_reported).text_at(
            "liabilityStatus"@,
        ) == Some("unclear"@),
        risk_outcome(arguments) is Ok,
    ensures
        risk_outcome(arguments)->Ok_0.text_at("riskLevel"@) != Some("low"@),
        risk_outcome(arguments)->Ok_0.bool_at("requiresAdjusterReview"@) == Some(true),
{
    lemma_risk_keys();
    lemma_liability_keys();
}

// ---------------------------------------------------------------------------------------
// Documents and summary
// ---------------------------------------------------------------------------------------

/// An array of texts has those texts among its items.
proof fn lemma_texts_among(parts: Seq<Seq<char>>)
    ensures
        texts_among(texts(parts)->Array_0) == parts,
    decreases parts.len(),
{
    reveal(Seq::filter);
    let as_text = |part: Seq<char>| JsonModel::Text(part);
    let items = parts.map_values(as_text);
    let is_text = |item: JsonModel| item is Text;
    let text_in = |item: JsonModel| item->Text_0;
    if parts.len() == 0 {
        assert(items.filter(is_text) =~= Seq::empty());
        assert(texts_among(items) =~= parts);
    } else {
        let front = parts.drop_last();
        lemma_texts_among(front);
        assert(items.drop_last() =~= front.map_values(as_text));
        assert(items.last() == JsonModel::Text(parts.last()));
        assert(items.filter(is_text) =~= items.drop_last().filter(is_text).push(items.last()));
        assert(items.filter(is_text).map_values(text_in) =~= items.drop_last().filter(
            is_text,
        ).map_values(text_in).push(parts.last()));
        assert(texts_among(items) =~= front.push(parts.last()));
        assert(front.push(parts.last()) =~= parts);
    }
}

/// The summary names to the customer exactly the documents that the list of documents holds, in
/// its order, when that list is handed on.
pub proof fn law_the_summary_names_the_listed_documents(arguments: JsonModel)
    ensures
        ({
            let claim = arguments.get_or_null("claim"@);
            let listed = documents_for(requested_path(arguments)) + code_if(
                bool_or(claim, "policeReportFiled"@, false),
                "police_report"@,
            );
            &&& documents_document(arguments).array_at("documents"@) == Some(texts(listed)->Array_0)
            &&& document_list(documents_document(arguments)) == joined(listed, ", "@)
        }),
{
    reveal_strlit("recommendedPath");
    reveal_strlit("documents");
    reveal_strlit("reason");
    assert("recommendedPath"@.len() == 15);
    assert("documents"@.len() == 9);
    assert("reason"@.len() == 6);
    lemma_texts_among(
        documents_for(requested_path(arguments)) + code_if(
            bool_or(arguments.get_or_null("claim"@), "policeReportFiled"@, false),
            "police_report"@,
        ),
    );
}

// ---------------------------------------------------------------------------------------
// From the documents of a claim
// ---------------------------------------------------------------------------------------

/// Whether the member `field` of a document is that text, and it is not blank.
pub open spec fn tells(document: JsonModel, field: Seq<char>, text: Seq<char>) -> bool {
    document.get(field) == Some(JsonModel::Text(text)) && trimmed(text).len() > 0
}

/// Whether the member `field` of a document is no text, or a blank one.
pub open spec fn tells_nothing(document: JsonModel, field: Seq<char>) -> bool {
    !(document.get(field) matches Some(JsonModel::Text(text)) && trimmed(text).len() > 0)
}

/// The refusal of a call without the argument `name`.
pub open spec fn without_argument(name: Seq<char>) -> Result<JsonModel, McpErrorModel> {
    Err(McpErrorModel { code: -32602int as i32, message: "missing required argument `"@ + name + "`"@ })
}

/// The refusal of a document without the field `name`.
pub open spec fn without_field(name: Seq<char>) -> Result<JsonModel, McpErrorModel> {
    Err(McpErrorModel { code: -32602int as i32, message: "missing required field `"@ + name + "`"@ })
}

/// A policy is in force exactly where its status says that it is active.
pub proof fn law_active_policies_are_in_force(policy: JsonModel)
    ensures
        in_force(policy) <==> says_active(policy),
{
    reveal_strlit("active");
    assert("active"@.len() == 6);
}

/// The policies of a document are its items, where it is an array, or else those under
/// `policies`, where that is one, and none otherwise.
pub proof fn law_policies_stand_in_an_array(document: JsonModel, listed: Seq<JsonModel>)
    ensures
        document == JsonModel::Array(listed) ==> policies_in(document) == listed,
        document !is Array && document.get("policies"@) == Some(JsonModel::Array(listed))
            ==> policies_in(document) == listed,
        document !is Array && !(document.get("policies"@) matches Some(JsonModel::Array(_)))
            ==> policies_in(document).len() == 0,
{
}

/// A claim that is covered is covered on the terms of the first policy in force: its name, the
/// deductible and the type of its first coverage, whatever they are. Where they are not stated,
/// the deductible is 500 and the type collision.
pub proof fn law_coverage_has_the_terms_of_the_policy(
    arguments: JsonModel,
    at: int,
    date: Seq<char>,
    number: u64,
    text: Seq<char>,
)
    requires
        coverage_outcome(arguments) is Ok,
        says(arguments.get_or_null("vehicle"@), "covered"@, true),
        0 <= at < policies_in(arguments.get_or_null("policies"@)).len(),
        says_active(policies_in(arguments.get_or_null("policies"@))[at]),
        forall|j: int|
            0 <= j < at ==> !says_active(
                #[trigger] policies_in(arguments.get_or_null("policies"@))[j],
            ),
        arguments.get_or_null("claim"@).get("incidentDate"@) == Some(JsonModel::Text(date)),
    ensures
        ({
            let answer = coverage_outcome(arguments)->Ok_0;
            let policy = policies_in(arguments.get_or_null("policies"@))[at];
            let coverages = match policy.get("coverages"@) {
                Some(JsonModel::Array(items)) => items,
                _ => Seq::empty(),
            };
            let terms = if coverages.len() > 0 {
                coverages[0]
            } else {
                JsonModel::Null
            };
            &&& answer.get("coverageStatus"@) == Some(JsonModel::Text("covered"@))
            &&& answer.get("requiresAdjusterReview"@) == Some(JsonModel::Bool(false))
            &&& terms.get("deductible"@) == Some(JsonModel::Number(number)) ==> answer.get(
                "deductible"@,
            ) == Some(JsonModel::Number(number))
            &&& !(terms.get("deductible"@) matches Some(JsonModel::Number(_))) ==> answer.get(
                "deductible"@,
            ) == Some(JsonModel::Number(500))
            &&& terms.get("coverageType"@) == Some(JsonModel::Text(text)) ==> answer.get(
                "coverageType"@,
            ) == Some(JsonModel::Text(text))
            &&& !(terms.get("coverageType"@) matches Some(JsonModel::Text(_))) ==> answer.get(
                "coverageType"@,
            ) == Some(JsonModel::Text("collision"@))
            &&& policy.get("policyId"@) == Some(JsonModel::Text(text)) ==> answer.get("policyId"@)
                == Some(JsonModel::Text(text))
            &&& !(policy.get("policyId"@) matches Some(JsonModel::Text(_))) ==> answer.get(
                "policyId"@,
            ) == Some(JsonModel::Text(Seq::empty()))
            &&& answer.get("reason"@) == Some(
                JsonModel::Text("active policy covers incident date "@ + date),
            )
        }),
{
    lemma_coverage_keys();
    let policies = policies_in(arguments.get_or_null("policies"@));
    law_the_first_policy_in_force_counts(policies);
    assert forall|j: int| 0 <= j < policies.len() implies in_force(#[trigger] policies[j])
        == says_active(policies[j]) by {
        law_active_policies_are_in_force(policies[j]);
    }
    assert(in_force(policies[at]));
    assert(first_in_force(policies) is Some);
    let i = choose|i: int|
        {
            &&& 0 <= i < policies.len()
            &&& #[trigger] policies[i] == first_in_force(policies)->0
            &&& in_force(first_in_force(policies)->0)
            &&& forall|j: int| 0 <= j < i ==> !in_force(#[trigger] policies[j])
        };
    assert(i == at) by {
        if i < at {
            assert(!says_active(policies[i]));
        }
        if at < i {
            assert(!in_force(policies[at]));
        }
    }
}

/// A claim is not covered where the vehicle is not, and its policy is inactive where the vehicle
/// is covered and no policy is active. Such an answer names no terms.
pub proof fn law_uncovered_claims_have_no_terms(
    arguments: JsonModel,
    vehicle_id: Seq<char>,
)
    requires
        coverage_outcome(arguments) is Ok,
        arguments.get_or_null("claim"@).get("vehicleId"@) == Some(JsonModel::Text(vehicle_id)),
        !says(arguments.get_or_null("vehicle"@), "covered"@, true) || forall|j: int|
            0 <= j < policies_in(arguments.get_or_null("policies"@)).len() ==> !says_active(
                #[trigger] policies_in(arguments.get_or_null("policies"@))[j],
            ),
    ensures
        ({
            let answer = coverage_outcome(arguments)->Ok_0;
            let covered = says(arguments.get_or_null("vehicle"@), "covered"@, true);
            &&& answer.get("coverageStatus"@) == Some(
                JsonModel::Text(
                    if covered {
                        "policy-inactive"@
                    } else {
                        "not-covered"@
                    },
                ),
            )
            &&& answer.get("requiresAdjusterReview"@) == Some(JsonModel::Bool(true))
            &&& answer.get("deductible"@) == Some(JsonModel::Number(0))
            &&& answer.get("policyId"@) == Some(JsonModel::Text(Seq::empty()))
            &&& answer.get("coverageType"@) == Some(JsonModel::Text(Seq::empty()))
            &&& answer.get("reason"@) == Some(
                JsonModel::Text(
                    if covered {
                        "no active policy was found for the claim"@
                    } else {
                        "vehicle "@ + vehicle_id + " is not covered by an active policy"@
                    },
                ),
            )
        }),
{
    lemma_coverage_keys();
    let policies = policies_in(arguments.get_or_null("policies"@));
    law_the_first_policy_in_force_counts(policies);
    assert forall|j: int| 0 <= j < policies.len() implies in_force(#[trigger] policies[j])
        == says_active(policies[j]) by {
        law_active_policies_are_in_force(policies[j]);
    }
}

/// The coverage of a claim is evaluated exactly where claim, policies and vehicle are given and
/// the claim tells date and vehicle; else the refusal names the first of these that is missing.
pub proof fn law_coverage_asks_for_its_documents(arguments: JsonModel)
    ensures
        ({
            let claim = arguments.get_or_null("claim"@);
            let outcome = coverage_outcome(arguments);
            let has_claim = arguments.get("claim"@) is Some;
            let has_policies = has_claim && arguments.get("policies"@) is Some;
            let has_all = has_policies && arguments.get("vehicle"@) is Some;
            let dated = has_all && !tells_nothing(claim, "incidentDate"@);
            &&& outcome is Ok <==> dated && !tells_nothing(claim, "vehicleId"@)
            &&& !has_claim ==> outcome == without_argument("claim"@)
            &&& has_claim && !has_policies ==> outcome == without_argument("policies"@)
            &&& has_policies && !has_all ==> outcome == without_argument("vehicle"@)
            &&& has_all && !dated ==> outcome == without_field("incidentDate"@)
            &&& dated && tells_nothing(claim, "vehicleId"@) ==> outcome == without_field(
                "vehicleId"@,
            )
        }),
{
}

/// Liability follows the description of the accident. An injury leaves it unclear. Without one,
/// a claimant who was rear-ended is likely not at fault, and an adjuster has to look only where
/// the vehicle cannot be driven; of the rest, a single vehicle accident is unclear and goes to an
/// adjuster, drivable or not; and anything else is clear and goes to nobody.
pub proof fn law_liability_follows_the_description(
    description: Seq<char>,
    vehicle_drivable: bool,
    injury_reported: bool,
)
    ensures
        ({
            let answer = liability_finding(description, vehicle_drivable, injury_reported);
            let status = answer.get("liabilityStatus"@);
            let reviewed = answer.get("requiresAdjusterReview"@);
            let reason = answer.get("reason"@);
            let rear_ended = contains_text(description, "rear-ended"@) || contains_text(
                description,
                "rear ended"@,
            );
            let alone = contains_text(description, "single vehicle"@);
            &&& injury_reported ==> {
                &&& status == Some(JsonModel::Text("unclear"@))
                &&& reviewed == Some(JsonModel::Bool(true))
                &&& reason == Some(
                    JsonModel::Text("injury was reported, so liability requires adjuster review"@),
                )
            }
            &&& !injury_reported && rear_ended ==> {
                &&& status == Some(JsonModel::Text("likely-not-at-fault"@))
                &&& reviewed == Some(JsonModel::Bool(!vehicle_drivable))
                &&& reason == Some(
                    JsonModel::Text(
                        "rear-end collision suggests the claimant is likely not at fault"@,
                    ),
                )
            }
            &&& !injury_reported && !rear_ended ==> {
                &&& status == Some(JsonModel::Text("unclear"@)) <==> alone
                &&& status == Some(JsonModel::Text("clear"@)) <==> !alone
                &&& reviewed == Some(JsonModel::Bool(alone))
                &&& alone ==> reason == Some(
                    JsonModel::Text("single vehicle incident requires liability review"@),
                )
                &&& !alone ==> reason == Some(
                    JsonModel::Text("claim facts are sufficient for standard liability handling"@),
                )
            }
        }),
{
    lemma_liability_keys();
}

/// Whether a vehicle can be driven matters to liability only where the claimant was rear-ended
/// without an injury, and there only to the review.
pub proof fn law_only_rear_ended_vehicles_are_asked_after(
    description: Seq<char>,
    injury_reported: bool,
)
    ensures
        ({
            let drivable = liability_finding(description, true, injury_reported);
            let undrivable = liability_finding(description, false, injury_reported);
            &&& drivable.get("liabilityStatus"@) == undrivable.get("liabilityStatus"@)
            &&& drivable.get("reason"@) == undrivable.get("reason"@)
            &&& drivable.get("requiresAdjusterReview"@) != undrivable.get(
                "requiresAdjusterReview"@,
            ) <==> !injury_reported && (contains_text(description, "rear-ended"@) || contains_text(
                description,
                "rear ended"@,
            ))
        }),
{
    lemma_liability_keys();
}

/// Liability is classified exactly where the claim tells the accident and says whether the
/// vehicle can be driven and whether anybody was injured; it is found from the description in
/// small letters. Else the refusal names the first of these that is missing.
pub proof fn law_liability_asks_for_the_claim(
    arguments: JsonModel,
    description: Seq<char>,
    vehicle_drivable: bool,
    injury_reported: bool,
)
    ensures
        ({
            let claim = arguments.get_or_null("claim"@);
            let outcome = liability_outcome(arguments);
            let has_claim = arguments.get("claim"@) is Some;
            let told = has_claim && !tells_nothing(claim, "accidentDescription"@);
            let drives = told && (claim.get("vehicleDrivable"@) matches Some(JsonModel::Bool(_)));
            let hurts = drives && (claim.get("injuryReported"@) matches Some(JsonModel::Bool(_)));
            &&& !has_claim ==> outcome == without_argument("claim"@)
            &&& has_claim && !told ==> outcome == without_field("accidentDescription"@)
            &&& told && !drives ==> outcome == without_field("vehicleDrivable"@)
            &&& drives && !hurts ==> outcome == without_field("injuryReported"@)
            &&& hurts && tells(claim, "accidentDescription"@, description) && says(
                claim,
                "vehicleDrivable"@,
                vehicle_drivable,
            ) && says(claim, "injuryReported"@, injury_reported) ==> (outcome matches Ok(answer)
                && answer == liability_finding(
                unicode_lowercase(description),
                vehicle_drivable,
                injury_reported,
            ))
        }),
{
}

/// What the facts of a claim make of its risk. It is high after an injury, after two recent
/// claims or more, or without coverage; else medium where the vehicle cannot be driven, after one
/// recent claim, or where liability is unclear; else low. The investigation unit looks at a claim
/// exactly where its risk is high or the customer has three prior claims or more, and an adjuster
/// exactly where the risk is not low.
pub proof fn law_risk_follows_the_facts(facts: RiskFacts)
    ensures
        ({
            let answer = risk_document(facts);
            let level = answer.get("riskLevel"@);
            let high = facts.injury_reported || facts.recent_claim_count >= 2 || !facts.covered;
            let trouble = !facts.vehicle_drivable || facts.recent_claim_count >= 1
                || facts.liability_unclear;
            &&& level == Some(JsonModel::Text("high"@)) <==> high
            &&& level == Some(JsonModel::Text("medium"@)) <==> !high && trouble
            &&& level == Some(JsonModel::Text("low"@)) <==> !high && !trouble
            &&& answer.get("requiresSiuReview"@) == Some(
                JsonModel::Bool(high || facts.prior_claim_count >= 3),
            )
            &&& answer.get("requiresAdjusterReview"@) == Some(JsonModel::Bool(high || trouble))
            &&& facts.injury_reported ==> answer.get("estimatedLoss"@) == Some(
                JsonModel::Number(12500),
            )
            &&& !facts.injury_reported && !facts.vehicle_drivable ==> answer.get("estimatedLoss"@)
                == Some(JsonModel::Number(3200))
            &&& !facts.injury_reported && facts.vehicle_drivable ==> answer.get("estimatedLoss"@)
                == Some(JsonModel::Number(900))
            &&& high ==> answer.get("reason"@) == Some(
                JsonModel::Text(
                    "risk scored "@ + "high"@ + " from deterministic demo claim rules"@,
                ),
            )
            &&& !high && trouble ==> answer.get("reason"@) == Some(
                JsonModel::Text(
                    "risk scored "@ + "medium"@ + " from deterministic demo claim rules"@,
                ),
            )
            &&& !high && !trouble ==> answer.get("reason"@) == Some(
                JsonModel::Text("risk scored "@ + "low"@ + " from deterministic demo claim rules"@),
            )
        }),
{
    lemma_risk_keys();
}

/// The reasons that raise the risk of a claim, each listed where it applies, in this order.
pub proof fn law_risk_lists_its_reasons(facts: RiskFacts)
    ensures
        ({
            let none = Seq::<Seq<char>>::empty();
            risk_document(facts).get("reasonCodes"@) == Some(
                texts(
                    (if facts.injury_reported {
                        seq!["INJURY_REPORTED"@]
                    } else {
                        none
                    }) + (if facts.vehicle_drivable {
                        none
                    } else {
                        seq!["VEHICLE_NOT_DRIVABLE"@]
                    }) + (if facts.recent_claim_count == 0 {
                        none
                    } else {
                        seq!["RECENT_PRIOR_CLAIM"@]
                    }) + (if facts.covered {
                        none
                    } else {
                        seq!["COVERAGE_REVIEW_REQUIRED"@]
                    }) + (if facts.liability_unclear {
                        seq!["UNCLEAR_LIABILITY"@]
                    } else {
                        none
                    }),
                ),
            )
        }),
{
    lemma_risk_keys();
    assert(facts.recent_claim_count > 0 <==> facts.recent_claim_count != 0);
}

/// The facts of a claim are those of the documents: risk is scored exactly where the claim says
/// whether anybody was injured and whether the vehicle can be driven, and the prior claims are
/// counted. The claim counts as covered where the coverage review found it covered, and its
/// liability as unclear where the liability review found it so. Else the refusal names the first
/// thing that is missing.
pub proof fn law_risk_is_scored_from_the_documents(
    arguments: JsonModel,
    injury_reported: bool,
    vehicle_drivable: bool,
    prior: u64,
    recent: u64,
)
    ensures
        ({
            let claim = arguments.get_or_null("claim"@);
            let counted = arguments.get_or_null("priorClaims"@);
            let coverage = arguments.get_or_null("coverage"@);
            let liability = arguments.get_or_null("liability"@);
            let outcome = risk_outcome(arguments);
            let has_claim = arguments.get("claim"@) is Some;
            let has_both = has_claim && arguments.get("priorClaims"@) is Some;
            let hurts = has_both && (claim.get("injuryReported"@) matches Some(JsonModel::Bool(_)));
            let drives = hurts && (claim.get("vehicleDrivable"@) matches Some(JsonModel::Bool(_)));
            let all = drives && (counted.get("priorClaimCount"@) matches Some(JsonModel::Number(_)));
            let late = all && (counted.get("recentClaimCount"@) matches Some(JsonModel::Number(_)));
            &&& !has_claim ==> outcome == without_argument("claim"@)
            &&& has_claim && !has_both ==> outcome == without_argument("priorClaims"@)
            &&& has_both && !hurts ==> outcome == without_field("injuryReported"@)
            &&& hurts && !drives ==> outcome == without_field("vehicleDrivable"@)
            &&& drives && !all ==> outcome == without_field("priorClaimCount"@)
            &&& all && !late ==> outcome == without_field("recentClaimCount"@)
            &&& late && says(claim, "injuryReported"@, injury_reported) && says(
                claim,
                "vehicleDrivable"@,
                vehicle_drivable,
            ) && counted.get("priorClaimCount"@) == Some(JsonModel::Number(prior)) && counted.get(
                "recentClaimCount"@,
            ) == Some(JsonModel::Number(recent)) ==> (outcome matches Ok(answer) && answer
                == risk_document(
                RiskFacts {
                    injury_reported,
                    vehicle_drivable,
                    prior_claim_count: prior,
                    recent_claim_count: recent,
                    covered: coverage.get("coverageStatus"@) == Some(JsonModel::Text("covered"@)),
                    liability_unclear: liability.get("liabilityStatus"@) == Some(
                        JsonModel::Text("unclear"@),
                    ),
                },
            ))
        }),
{
    lemma_coverage_keys();
    lemma_liability_keys();
}

/// The documents of a claim are those that its path asks for, and the police report where one
/// was filed. The path is the one that the call names, or else its triage, or else repair.
pub proof fn law_documents_follow_the_path(arguments: JsonModel, path: Seq<char>)
    requires
        ({
            let named = arguments.get("recommendedPath"@);
            let triaged = arguments.get_or_null("triage"@).get("recommendedPath"@);
            ||| named == Some(JsonModel::Text(path))
            ||| !(named matches Some(JsonModel::Text(_))) && triaged == Some(JsonModel::Text(path))
            ||| !(named matches Some(JsonModel::Text(_))) && !(triaged matches Some(
                JsonModel::Text(_),
            )) && path == "repair"@
        }),
    ensures
        ({
            let answer = documents_document(arguments);
            let asked = if path == "total-loss-review"@ {
                seq!["damage_photos"@, "tow_report"@, "vehicle_valuation"@]
            } else if path == "denial-draft"@ {
                seq!["denial_reason"@, "policy_review_notes"@]
            } else if path == "more-information"@ {
                seq!["claimant_statement"@, "damage_photos"@]
            } else {
                seq!["repair_estimate"@, "damage_photos"@]
            };
            &&& answer.get("recommendedPath"@) == Some(JsonModel::Text(path))
            &&& answer.get("reason"@) == Some(
                JsonModel::Text("documents selected from deterministic demo claim rules"@),
            )
            &&& says(arguments.get_or_null("claim"@), "policeReportFiled"@, true) ==> answer.get(
                "documents"@,
            ) == Some(texts(asked.push("police_report"@)))
            &&& !says(arguments.get_or_null("claim"@), "policeReportFiled"@, true) ==> answer.get(
                "documents"@,
            ) == Some(texts(asked))
        }),
{
    reveal_strlit("recommendedPath");
    reveal_strlit("documents");
    reveal_strlit("reason");
    assert("recommendedPath"@.len() == 15);
    assert("documents"@.len() == 9);
    assert("reason"@.len() == 6);
    let asked = documents_for(path);
    assert(asked + seq!["police_report"@] =~= asked.push("police_report"@));
    assert(asked + Seq::empty() =~= asked);
}

/// What the customer is told: the path of the settlement, or else of the triage, or else none;
/// the loss that triage estimates and the deductible of the coverage review, or else zero; and
/// the texts among the documents, or else the two that every repair asks for. The summary is made
/// exactly where the claim tells the customer.
pub proof fn law_the_summary_tells_path_amounts_and_documents(
    arguments: JsonModel,
    customer_id: Seq<char>,
    path: Seq<char>,
    loss: u64,
    deductible: u64,
    documents: Seq<char>,
)
    requires
        ({
            let settled = arguments.get_or_null("settlement"@).get("recommendedPath"@);
            let triaged = arguments.get_or_null("triage"@).get("recommendedPath"@);
            ||| settled == Some(JsonModel::Text(path))
            ||| !(settled matches Some(JsonModel::Text(_))) && triaged == Some(
                JsonModel::Text(path),
            )
            ||| !(settled matches Some(JsonModel::Text(_))) && !(triaged matches Some(
                JsonModel::Text(_),
            )) && path.len() == 0
        }),
        ({
            let estimated = arguments.get_or_null("triage"@).get("estimatedLoss"@);
            ||| estimated == Some(JsonModel::Number(loss))
            ||| !(estimated matches Some(JsonModel::Number(_))) && loss == 0
        }),
        ({
            let reviewed = arguments.get_or_null("coverageReview"@).get("deductible"@);
            ||| reviewed == Some(JsonModel::Number(deductible))
            ||| !(reviewed matches Some(JsonModel::Number(_))) && deductible == 0
        }),
        ({
            let listed = arguments.get_or_null("documents"@).get("documents"@);
            ||| listed matches Some(JsonModel::Array(items)) && documents == joined(
                texts_among(items),
                ", "@,
            )
            ||| !(listed matches Some(JsonModel::Array(_))) && documents
                == "repair_estimate, damage_photos"@
        }),
    ensures
        ({
            let claim = arguments.get_or_null("claim"@);
            let outcome = summary_outcome(arguments);
            let has_claim = arguments.get("claim"@) is Some;
            &&& !has_claim ==> outcome == without_argument("claim"@)
            &&& has_claim && tells_nothing(claim, "customerId"@) ==> outcome == without_field(
                "customerId"@,
            )
            &&& has_claim && tells(claim, "customerId"@, customer_id) ==> (outcome matches Ok(
                answer,
            ) && {
                &&& answer.get("customerId"@) == Some(JsonModel::Text(customer_id))
                &&& answer.get("recommendedPath"@) == Some(JsonModel::Text(path))
                &&& answer.get("customerSummary"@) == Some(
                    JsonModel::Text(
                        "Your claim is recommended for "@ + path + ". The estimated loss is $"@
                            + decimal(loss as nat) + ", and the applicable deductible is $"@
                            + decimal(deductible as nat) + "."@,
                    ),
                )
                &&& answer.get("nextActions"@) == Some(
                    texts(
                        seq![
                            "Provide required documents: "@ + documents,
                            "A claims representative will review the submitted materials."@,
                        ],
                    ),
                )
            })
        }),
{
    reveal_strlit("customerId");
    reveal_strlit("recommendedPath");
    reveal_strlit("customerSummary");
    reveal_strlit("nextActions");
    assert("customerId"@.len() == 10);
    assert("recommendedPath"@.len() == 15);
    assert("customerSummary"@.len() == 15);
    assert("nextActions"@.len() == 11);
    assert("recommendedPath"@[0] != "customerSummary"@[0]);
    assert(path.len() == 0 ==> path =~= Seq::empty());
}

/// The texts among some items are found one after the other: a text is added behind those before
/// it, and anything else is passed over.
pub proof fn law_texts_are_picked_in_order(items: Seq<JsonModel>, item: JsonModel)
    ensures
        texts_among(Seq::empty()) == Seq::<Seq<char>>::empty(),
        item matches JsonModel::Text(text) ==> texts_among(items.push(item)) == texts_among(
            items,
        ).push(text),
        item !is Text ==> texts_among(items.push(item)) == texts_among(items),
{
    reveal(Seq::filter);
    let is_text = |i: JsonModel| i is Text;
    let text_in = |i: JsonModel| i->Text_0;
    assert(items.push(item).drop_last() =~= items);
    assert(texts_among(Seq::empty()) =~= Seq::<Seq<char>>::empty());
    if item is Text {
        assert(items.filter(is_text).push(item).map_values(text_in) =~= items.filter(
            is_text,
        ).map_values(text_in).push(item->Text_0));
    }
}

/// A call is refused where it names no tool, and otherwise goes to the tool that it names, with
/// its arguments where they are an object, and with none where they are not. A refusal of the
/// tool is the refusal of the call.
pub proof fn law_calls_go_to_the_tool_they_name(params: JsonModel, name: Seq<char>)
    ensures
        !(params.get("name"@) matches Some(JsonModel::Text(_))) ==> call_outcome(params) == Err::<
            JsonModel,
            McpErrorModel,
        >(McpErrorModel { code: -32602int as i32, message: "tools/call requires params.name"@ }),
        params.get("arguments"@) matches Some(arguments) ==> call_arguments(params) == (
        if arguments is Object {
            arguments
        } else {
            JsonModel::Null
        }),
        params.get("arguments"@) is None ==> call_arguments(params) == JsonModel::Null,
        params.get("name"@) == Some(JsonModel::Text(name)) ==> (call_outcome(params) is Ok
            <==> tool_outcome(name, call_arguments(params)) is Ok),
        params.get("name"@) == Some(JsonModel::Text(name)) && call_outcome(params) is Err
            ==> call_outcome(params) == tool_outcome(name, call_arguments(params)),
{
}

/// Each name on the list stands for its rules.
pub proof fn law_names_stand_for_their_rules(name: Seq<char>, arguments: JsonModel)
    ensures
        tool_outcome("evaluateCoverage"@, arguments) == coverage_outcome(arguments),
        tool_outcome("classifyLiability"@, arguments) == liability_outcome(arguments),
        tool_outcome("scoreClaimRisk"@, arguments) == risk_outcome(arguments),
        tool_outcome("listRequiredDocuments"@, arguments) == Ok::<JsonModel, McpErrorModel>(
            documents_document(arguments),
        ),
        tool_outcome("generateCustomerSummary"@, arguments) == summary_outcome(arguments),
        name != "evaluateCoverage"@ && name != "classifyLiability"@ && name != "scoreClaimRisk"@
            && name != "listRequiredDocuments"@ && name != "generateCustomerSummary"@
            ==> tool_outcome(name, arguments) == Err::<JsonModel, McpErrorModel>(
            McpErrorModel { code: -32602int as i32, message: "tool `"@ + name + "` not found"@ },
        ),
{
    lemma_dispatch(0, arguments);
    lemma_dispatch(1, arguments);
    lemma_dispatch(2, arguments);
    lemma_dispatch(3, arguments);
    lemma_dispatch(4, arguments);
}

/// Whether a tool is listed with that name and description, and takes an object with those
/// properties, of which it requires those.
pub open spec fn listed_as(
    tool: JsonModel,
    name: Seq<char>,
    description: Seq<char>,
    required: Seq<Seq<char>>,
    objects: Set<Seq<char>>,
    strings: Set<Seq<char>>,
) -> bool {
    let schema = tool.get_or_null("inputSchema"@);
    &&& tool.get("name"@) == Some(JsonModel::Text(name))
    &&& tool.get("description"@) == Some(JsonModel::Text(description))
    &&& schema.get("type"@) == Some(JsonModel::Text("object"@))
    &&& required.len() > 0 ==> schema.get("required"@) == Some(texts(required))
    &&& required.len() == 0 ==> schema.get("required"@) is None
    &&& schema.get("properties"@) matches Some(JsonModel::Object(properties))
    &&& forall|property: Seq<char>|
        {
            &&& #[trigger] properties.contains_key(property) <==> objects.contains(property)
                || strings.contains(property)
            &&& objects.contains(property) ==> properties[property].get("type"@) == Some(
                JsonModel::Text("object"@),
            )
            &&& strings.contains(property) ==> properties[property].get("type"@) == Some(
                JsonModel::Text("string"@),
            )
        }
}

/// The tools on the list, in its order.
pub proof fn law_the_list_of_tools()
    ensures
        tool_catalogue().len() == 5,
        listed_as(
            tool_catalogue()[0],
            "evaluateCoverage"@,
            "Evaluate policy and vehicle coverage for an insurance claim."@,
            seq!["claim"@, "policies"@, "vehicle"@],
            set!["claim"@, "policies"@, "vehicle"@],
            Set::empty(),
        ),
        listed_as(
            tool_catalogue()[1],
            "classifyLiability"@,
            "Classify liability from first-notice-of-loss claim facts."@,
            seq!["claim"@],
            set!["claim"@],
            Set::empty(),
        ),
        listed_as(
            tool_catalogue()[2],
            "scoreClaimRisk"@,
            "Score claim risk and determine adjuster or SIU review needs."@,
            seq!["claim"@, "priorClaims"@],
            set!["claim"@, "priorClaims"@, "coverage"@, "liability"@],
            Set::empty(),
        ),
        listed_as(
            tool_catalogue()[3],
            "listRequiredDocuments"@,
            "List documents needed for the recommended claim path."@,
            Seq::empty(),
            set!["claim"@, "triage"@],
            set!["recommendedPath"@],
        ),
        listed_as(
            tool_catalogue()[4],
            "generateCustomerSummary"@,
            "Generate a deterministic customer-facing claim summary."@,
            seq!["claim"@],
            set!["claim"@, "coverageReview"@, "triage"@, "documents"@, "settlement"@],
            Set::empty(),
        ),
{
    reveal_strlit("name");
    reveal_strlit("description");
    reveal_strlit("inputSchema");
    reveal_strlit("type");
    reveal_strlit("required");
    reveal_strlit("properties");
    reveal_strlit("claim");
    reveal_strlit("recommendedPath");
    reveal_strlit("triage");
    assert("name"@.len() == 4);
    assert("type"@.len() == 4);
    assert("description"@[0] != "inputSchema"@[0]);
    assert("description"@.len() == 11);
    assert("inputSchema"@.len() == 11);
    assert("required"@.len() == 8);
    assert("properties"@.len() == 10);
    assert("claim"@.len() == 5);
    assert("recommendedPath"@.len() == 15);
    assert("triage"@.len() == 6);
}

/// The answers of the tools have these members and no others.
pub proof fn law_answers_have_these_members(
    arguments: JsonModel,
    description: Seq<char>,
    drivable: bool,
    injured: bool,
    facts: RiskFacts,
)
    ensures
        coverage_outcome(arguments) matches Ok(answer) ==> answer->Object_0.dom() == set![
            "coverageStatus"@,
            "policyId"@,
            "coverageType"@,
            "deductible"@,
            "requiresAdjusterReview"@,
            "reason"@,
        ],
        liability_finding(description, drivable, injured)->Object_0.dom() == set![
            "liabilityStatus"@,
            "requiresAdjusterReview"@,
            "reason"@,
        ],
        risk_document(facts)->Object_0.dom() == set![
            "riskLevel"@,
            "estimatedLoss"@,
            "requiresSiuReview"@,
            "requiresAdjusterReview"@,
            "reasonCodes"@,
            "reason"@,
        ],
        documents_document(arguments)->Object_0.dom() == set![
            "recommendedPath"@,
            "documents"@,
            "reason"@,
        ],
        summary_outcome(arguments) matches Ok(answer) ==> answer->Object_0.dom() == set![
            "customerId"@,
            "recommendedPath"@,
            "customerSummary"@,
            "nextActions"@,
        ],
        call_outcome(arguments) matches Ok(answer) ==> answer->Object_0.dom() == set![
            "content"@,
            "structuredContent"@,
            "isError"@,
        ],
{
}

} // verus!
