use light_example::claim_documents::list_required_documents;
use light_example::claim_fields::{
    bool_field, required_arg, required_bool_field, required_string_field, required_u64_field,
    string_field, string_field_with_fallback, u64_field,
};
use light_example::claim_risk::{risk_from_facts, score_claim_risk, RiskFacts, RiskLevel};
use light_example::claim_summary::generate_customer_summary;
use light_example::claim_tools::{execute_tool_call, tool_definitions, tool_result};
use light_example::coverage::{
    evaluate_coverage, first_coverage_type, first_deductible, policy_items,
};
use light_example::json::{Json, Member};
use light_example::liability::{classify_liability, liability_from_facts};
use light_example::mcp_error::{INVALID_PARAMS, METHOD_NOT_FOUND};
use serde_json::Value;

fn document(value: Value) -> Json {
    match value {
        Value::Null => Json::Null,
        Value::Bool(b) => Json::Bool(b),
        Value::Number(n) => Json::Number(n),
        Value::String(s) => Json::Text(s),
        Value::Array(items) => Json::Array(items.into_iter().map(document).collect()),
        Value::Object(members) => Json::Object(
            members
                .into_iter()
                .map(|(name, value)| Member {
                    name,
                    value: document(value),
                })
                .collect(),
        ),
    }
}

fn parse(text: &str) -> Json {
    document(serde_json::from_str(text).expect("valid JSON"))
}

fn reparse(answer: &Json) -> Value {
    serde_json::from_str(&answer.to_text()).expect("valid JSON")
}

const SAMPLE_CLAIM: &str = r#"{
    "claimId": "CLM-CUST-1001",
    "customerId": "CUST-1001",
    "vehicleId": "VEH-1001",
    "incidentDate": "2026-05-30",
    "accidentDescription": "Rear-ended at an intersection. No injuries reported.",
    "injuryReported": false,
    "vehicleDrivable": false,
    "policeReportFiled": true
}"#;

const SAMPLE_POLICIES: &str = r#"{
    "policies": [
        {
            "policyId": "POL-AUTO-1001",
            "status": "active",
            "coverages": [
                { "coverageType": "collision", "deductible": 500, "limit": 50000 }
            ]
        }
    ]
}"#;

const COVERED_VEHICLE: &str = r#"{ "vehicleId": "VEH-1001", "covered": true }"#;

fn arguments(members: &[(&str, &str)]) -> Json {
    Json::Object(
        members
            .iter()
            .map(|(name, value)| Member {
                name: name.to_string(),
                value: parse(value),
            })
            .collect(),
    )
}

#[test]
fn coverage_tool_returns_covered_for_active_policy_and_vehicle() {
    let result = evaluate_coverage(&arguments(&[
        ("claim", SAMPLE_CLAIM),
        ("policies", SAMPLE_POLICIES),
        ("vehicle", COVERED_VEHICLE),
    ]))
    .expect("coverage result");
    let result = reparse(&result);

    assert_eq!(result["coverageStatus"], "covered");
    assert_eq!(result["deductible"], 500);
    assert_eq!(result["requiresAdjusterReview"], false);
}

#[test]
fn risk_tool_flags_medium_review_for_not_drivable_vehicle() {
    let result = score_claim_risk(&arguments(&[
        ("claim", SAMPLE_CLAIM),
        (
            "priorClaims",
            r#"{ "priorClaimCount": 1, "recentClaimCount": 0 }"#,
        ),
        ("coverage", r#"{ "coverageStatus": "covered" }"#),
        (
            "liability",
            r#"{ "liabilityStatus": "likely-not-at-fault" }"#,
        ),
    ]))
    .expect("risk result");
    let result = reparse(&result);

    assert_eq!(result["riskLevel"], "medium");
    assert_eq!(result["requiresAdjusterReview"], true);
    assert_eq!(result["estimatedLoss"], 3200);
}

#[test]
fn coverage_tool_rejects_missing_required_claim_fields() {
    let error = evaluate_coverage(&arguments(&[
        ("claim", r#"{ "customerId": "CUST-1001" }"#),
        ("policies", SAMPLE_POLICIES),
        ("vehicle", COVERED_VEHICLE),
    ]))
    .expect_err("missing incident date should fail");

    assert_eq!(error.code, -32602);
    assert_eq!(error.message, "missing required field `incidentDate`");
}

#[test]
fn coverage_answer_holds_the_terms_of_the_first_policy_in_force() {
    let policies = r#"[
        { "policyId": "OLD", "status": "expired", "coverages": [{ "deductible": 1 }] },
        { "policyId": "NEW", "status": "ACTIVE",
          "coverages": [{ "coverageType": "fire", "deductible": 250 }] },
        { "policyId": "NEWER", "status": "active" }
    ]"#;
    let result = evaluate_coverage(&arguments(&[
        ("claim", SAMPLE_CLAIM),
        ("policies", policies),
        ("vehicle", COVERED_VEHICLE),
    ]))
    .expect("coverage result");
    assert_eq!(
        reparse(&result),
        serde_json::from_str::<Value>(
            r#"{
                "coverageStatus": "covered",
                "policyId": "NEW",
                "coverageType": "fire",
                "deductible": 250,
                "requiresAdjusterReview": false,
                "reason": "active policy covers incident date 2026-05-30"
            }"#
        )
        .expect("valid JSON")
    );
}

#[test]
fn coverage_terms_have_defaults() {
    let result = evaluate_coverage(&arguments(&[
        ("claim", SAMPLE_CLAIM),
        ("policies", r#"[{ "status": "active" }]"#),
        ("vehicle", COVERED_VEHICLE),
    ]))
    .expect("coverage result");
    let result = reparse(&result);
    assert_eq!(result["policyId"], "");
    assert_eq!(result["coverageType"], "collision");
    assert_eq!(result["deductible"], 500);
}

#[test]
fn uncovered_vehicle_and_inactive_policy_are_told_apart() {
    let uncovered = evaluate_coverage(&arguments(&[
        ("claim", SAMPLE_CLAIM),
        ("policies", SAMPLE_POLICIES),
        ("vehicle", r#"{ "covered": false }"#),
    ]))
    .expect("coverage result");
    let uncovered = reparse(&uncovered);
    assert_eq!(uncovered["coverageStatus"], "not-covered");
    assert_eq!(uncovered["deductible"], 0);
    assert_eq!(uncovered["requiresAdjusterReview"], true);
    assert_eq!(
        uncovered["reason"],
        "vehicle VEH-1001 is not covered by an active policy"
    );

    let inactive = evaluate_coverage(&arguments(&[
        ("claim", SAMPLE_CLAIM),
        ("policies", r#"{ "policies": [{ "status": "expired" }] }"#),
        ("vehicle", COVERED_VEHICLE),
    ]))
    .expect("coverage result");
    let inactive = reparse(&inactive);
    assert_eq!(inactive["coverageStatus"], "policy-inactive");
    assert_eq!(inactive["policyId"], "");
    assert_eq!(inactive["requiresAdjusterReview"], true);
    assert_eq!(inactive["reason"], "no active policy was found for the claim");
}

#[test]
fn coverage_refusals_name_the_first_missing_thing() {
    let cases: [(&[(&str, &str)], &str); 5] = [
        (&[], "missing required argument `claim`"),
        (&[("claim", "{}")], "missing required argument `policies`"),
        (
            &[("claim", "{}"), ("policies", "[]")],
            "missing required argument `vehicle`",
        ),
        (
            &[
                ("claim", r#"{ "incidentDate": "  \t" }"#),
                ("policies", "[]"),
                ("vehicle", "{}"),
            ],
            "missing required field `incidentDate`",
        ),
        (
            &[
                ("claim", r#"{ "incidentDate": "x", "vehicleId": 7 }"#),
                ("policies", "[]"),
                ("vehicle", "{}"),
            ],
            "missing required field `vehicleId`",
        ),
    ];
    for (given, message) in cases {
        let error = evaluate_coverage(&arguments(given)).expect_err("refused");
        assert_eq!(error.code, INVALID_PARAMS);
        assert_eq!(error.message, message);
    }
}

#[test]
fn policies_stand_in_an_array_or_under_their_name() {
    assert_eq!(policy_items(&parse("[1, 2]")).len(), 2);
    assert_eq!(policy_items(&parse(r#"{ "policies": [1] }"#)).len(), 1);
    assert_eq!(policy_items(&parse(r#"{ "policies": {} }"#)).len(), 0);
    assert_eq!(policy_items(&parse("null")).len(), 0);
    let policy = parse(r#"{ "coverages": [{ "coverageType": "a", "deductible": 9 }, {}] }"#);
    assert_eq!(first_deductible(&policy), Some(9));
    assert_eq!(first_coverage_type(&policy), Some("a".to_string()));
    let bare = parse(r#"{ "coverages": [] }"#);
    assert_eq!(first_deductible(&bare), None);
    assert_eq!(first_coverage_type(&bare), None);
}

fn liability(description: &str, drivable: bool, injury: bool) -> Value {
    let answer = classify_liability(&arguments(&[(
        "claim",
        &format!(
            r#"{{ "accidentDescription": "{description}", "vehicleDrivable": {drivable},
                 "injuryReported": {injury} }}"#
        ),
    )]))
    .expect("liability result");
    reparse(&answer)
}

#[test]
fn liability_follows_the_description() {
    let rear = liability("REAR-ENDED at a light", false, false);
    assert_eq!(rear["liabilityStatus"], "likely-not-at-fault");
    assert_eq!(rear["requiresAdjusterReview"], true);
    assert_eq!(
        rear["reason"],
        "rear-end collision suggests the claimant is likely not at fault"
    );
    let spaced = liability("was Rear Ended", true, false);
    assert_eq!(spaced["liabilityStatus"], "likely-not-at-fault");
    assert_eq!(spaced["requiresAdjusterReview"], false);
    let single = liability("Single Vehicle, ice", true, false);
    assert_eq!(single["liabilityStatus"], "unclear");
    assert_eq!(single["requiresAdjusterReview"], true);
    let clear = liability("parked", true, false);
    assert_eq!(clear["liabilityStatus"], "clear");
    assert_eq!(clear["requiresAdjusterReview"], false);
    assert_eq!(
        clear["reason"],
        "claim facts are sufficient for standard liability handling"
    );
}

#[test]
fn an_injury_leaves_liability_unclear() {
    let injured = liability("rear-ended", true, true);
    assert_eq!(injured["liabilityStatus"], "unclear");
    assert_eq!(injured["requiresAdjusterReview"], true);
    assert_eq!(
        injured["reason"],
        "injury was reported, so liability requires adjuster review"
    );
}

#[test]
fn liability_reads_a_description_in_small_letters() {
    let exact = reparse(&liability_from_facts("a rear-ended car", true, false));
    assert_eq!(exact["liabilityStatus"], "likely-not-at-fault");
    let capitals = reparse(&liability_from_facts("A REAR-ENDED CAR", true, false));
    assert_eq!(capitals["liabilityStatus"], "clear");
}

#[test]
fn liability_copes_with_descriptions_beyond_ascii() {
    let beyond = liability("REAR-ENDED \u{212a} \u{c4}", true, false);
    assert_eq!(beyond["liabilityStatus"], "likely-not-at-fault");
}

#[test]
fn liability_refusals_name_the_first_missing_thing() {
    let cases = [
        ("{}", "missing required field `accidentDescription`"),
        (
            r#"{ "accidentDescription": "x", "vehicleDrivable": "yes" }"#,
            "missing required field `vehicleDrivable`",
        ),
        (
            r#"{ "accidentDescription": "x", "vehicleDrivable": true }"#,
            "missing required field `injuryReported`",
        ),
    ];
    for (claim, message) in cases {
        let error = classify_liability(&arguments(&[("claim", claim)])).expect_err("refused");
        assert_eq!(error.message, message);
    }
    let error = classify_liability(&parse("null")).expect_err("refused");
    assert_eq!(error.message, "missing required argument `claim`");
}

fn facts() -> RiskFacts {
    RiskFacts {
        injury_reported: false,
        vehicle_drivable: true,
        prior_claim_count: 0,
        recent_claim_count: 0,
        covered: true,
        liability_unclear: false,
    }
}

#[test]
fn risk_levels_follow_the_facts() {
    let low = reparse(&risk_from_facts(facts()));
    assert_eq!(
        low,
        serde_json::from_str::<Value>(
            r#"{
                "riskLevel": "low",
                "estimatedLoss": 900,
                "requiresSiuReview": false,
                "requiresAdjusterReview": false,
                "reasonCodes": [],
                "reason": "risk scored low from deterministic demo claim rules"
            }"#
        )
        .expect("valid JSON")
    );
    let medium = [
        RiskFacts {
            vehicle_drivable: false,
            ..facts()
        },
        RiskFacts {
            recent_claim_count: 1,
            ..facts()
        },
        RiskFacts {
            liability_unclear: true,
            ..facts()
        },
    ];
    for case in medium {
        let answer = reparse(&risk_from_facts(case));
        assert_eq!(answer["riskLevel"], "medium");
        assert_eq!(answer["requiresSiuReview"], false);
        assert_eq!(answer["requiresAdjusterReview"], true);
    }
    let high = [
        RiskFacts {
            injury_reported: true,
            ..facts()
        },
        RiskFacts {
            recent_claim_count: 2,
            ..facts()
        },
        RiskFacts {
            covered: false,
            ..facts()
        },
    ];
    for case in high {
        let answer = reparse(&risk_from_facts(case));
        assert_eq!(answer["riskLevel"], "high");
        assert_eq!(answer["requiresSiuReview"], true);
        assert_eq!(answer["requiresAdjusterReview"], true);
    }
    let frequent = reparse(&risk_from_facts(RiskFacts {
        prior_claim_count: 3,
        ..facts()
    }));
    assert_eq!(frequent["riskLevel"], "low");
    assert_eq!(frequent["requiresSiuReview"], true);
    assert_eq!(RiskLevel::Medium.as_str(), "medium");
}

#[test]
fn risk_codes_are_listed_in_order() {
    let answer = reparse(&risk_from_facts(RiskFacts {
        injury_reported: true,
        vehicle_drivable: false,
        prior_claim_count: 9,
        recent_claim_count: 1,
        covered: false,
        liability_unclear: true,
    }));
    let codes: Vec<&str> = answer["reasonCodes"]
        .as_array()
        .expect("codes")
        .iter()
        .map(|code| code.as_str().expect("text"))
        .collect();
    assert_eq!(
        codes,
        vec![
            "INJURY_REPORTED",
            "VEHICLE_NOT_DRIVABLE",
            "RECENT_PRIOR_CLAIM",
            "COVERAGE_REVIEW_REQUIRED",
            "UNCLEAR_LIABILITY",
        ]
    );
    assert_eq!(answer["estimatedLoss"], 12500);
}

#[test]
fn risk_refusals_name_the_first_missing_thing() {
    let cases: [(&[(&str, &str)], &str); 6] = [
        (&[], "missing required argument `claim`"),
        (&[("claim", "{}")], "missing required argument `priorClaims`"),
        (
            &[("claim", "{}"), ("priorClaims", "{}")],
            "missing required field `injuryReported`",
        ),
        (
            &[("claim", r#"{ "injuryReported": true }"#), ("priorClaims", "{}")],
            "missing required field `vehicleDrivable`",
        ),
        (
            &[
                ("claim", SAMPLE_CLAIM),
                ("priorClaims", r#"{ "priorClaimCount": -1 }"#),
            ],
            "missing required field `priorClaimCount`",
        ),
        (
            &[
                ("claim", SAMPLE_CLAIM),
                (
                    "priorClaims",
                    r#"{ "priorClaimCount": 1, "recentClaimCount": 1.5 }"#,
                ),
            ],
            "missing required field `recentClaimCount`",
        ),
    ];
    for (given, message) in cases {
        let error = score_claim_risk(&arguments(given)).expect_err("refused");
        assert_eq!(error.code, -32602);
        assert_eq!(error.message, message);
    }
}

#[test]
fn an_uncovered_claim_scores_high_when_the_review_is_handed_on() {
    let review = evaluate_coverage(&arguments(&[
        ("claim", SAMPLE_CLAIM),
        ("policies", "[]"),
        ("vehicle", COVERED_VEHICLE),
    ]))
    .expect("coverage result")
    .to_text();
    let answer = score_claim_risk(&arguments(&[
        ("claim", SAMPLE_CLAIM),
        (
            "priorClaims",
            r#"{ "priorClaimCount": 0, "recentClaimCount": 0 }"#,
        ),
        ("coverage", &review),
    ]))
    .expect("risk result");
    assert_eq!(reparse(&answer)["riskLevel"], "high");
}

#[test]
fn documents_depend_on_the_path() {
    let cases = [
        (
            "total-loss-review",
            vec!["damage_photos", "tow_report", "vehicle_valuation"],
        ),
        ("denial-draft", vec!["denial_reason", "policy_review_notes"]),
        ("more-information", vec!["claimant_statement", "damage_photos"]),
        ("repair", vec!["repair_estimate", "damage_photos"]),
        ("anything", vec!["repair_estimate", "damage_photos"]),
    ];
    for (path, documents) in cases {
        let answer = list_required_documents(&arguments(&[(
            "recommendedPath",
            &format!("\"{path}\""),
        )]))
        .expect("documents");
        let answer = reparse(&answer);
        assert_eq!(answer["recommendedPath"], path);
        assert_eq!(answer["documents"], Value::from(documents));
        assert_eq!(
            answer["reason"],
            "documents selected from deterministic demo claim rules"
        );
    }
}

#[test]
fn documents_take_the_path_from_the_triage_or_repair() {
    let from_triage = list_required_documents(&arguments(&[
        ("triage", r#"{ "recommendedPath": "denial-draft" }"#),
        ("claim", SAMPLE_CLAIM),
    ]))
    .expect("documents");
    assert_eq!(
        reparse(&from_triage)["documents"],
        Value::from(vec!["denial_reason", "policy_review_notes", "police_report"])
    );
    let bare = list_required_documents(&Json::Null).expect("documents");
    assert_eq!(reparse(&bare)["recommendedPath"], "repair");
}

#[test]
fn the_summary_names_amounts_and_documents() {
    let answer = generate_customer_summary(&arguments(&[
        ("claim", SAMPLE_CLAIM),
        ("coverageReview", r#"{ "deductible": 500 }"#),
        (
            "triage",
            r#"{ "recommendedPath": "repair", "estimatedLoss": 3200 }"#,
        ),
        (
            "documents",
            r#"{ "documents": ["a", 1, "b", null, "c"] }"#,
        ),
    ]))
    .expect("summary");
    assert_eq!(
        reparse(&answer),
        serde_json::from_str::<Value>(
            r#"{
                "customerId": "CUST-1001",
                "recommendedPath": "repair",
                "customerSummary": "Your claim is recommended for repair. The estimated loss is $3200, and the applicable deductible is $500.",
                "nextActions": [
                    "Provide required documents: a, b, c",
                    "A claims representative will review the submitted materials."
                ]
            }"#
        )
        .expect("valid JSON")
    );
}

#[test]
fn the_summary_prefers_the_settlement_and_has_defaults() {
    let answer = generate_customer_summary(&arguments(&[
        ("claim", r#"{ "customerId": " C " }"#),
        ("settlement", r#"{ "recommendedPath": "deny" }"#),
        ("triage", r#"{ "recommendedPath": "repair" }"#),
    ]))
    .expect("summary");
    let answer = reparse(&answer);
    assert_eq!(answer["customerId"], " C ");
    assert_eq!(answer["recommendedPath"], "deny");
    assert_eq!(
        answer["customerSummary"],
        "Your claim is recommended for deny. The estimated loss is $0, and the applicable deductible is $0."
    );
    assert_eq!(
        answer["nextActions"][0],
        "Provide required documents: repair_estimate, damage_photos"
    );
    let error = generate_customer_summary(&arguments(&[("claim", "{}")])).expect_err("refused");
    assert_eq!(error.message, "missing required field `customerId`");
    let error = generate_customer_summary(&Json::Null).expect_err("refused");
    assert_eq!(error.message, "missing required argument `claim`");
}

#[test]
fn the_summary_names_the_documents_that_were_listed() {
    let listed = list_required_documents(&arguments(&[("claim", SAMPLE_CLAIM)]))
        .expect("documents")
        .to_text();
    let answer = generate_customer_summary(&arguments(&[
        ("claim", SAMPLE_CLAIM),
        ("documents", &listed),
    ]))
    .expect("summary");
    assert_eq!(
        reparse(&answer)["nextActions"][0],
        "Provide required documents: repair_estimate, damage_photos, police_report"
    );
}

#[test]
fn a_call_returns_the_answer_and_its_text() {
    let params = format!(
        r#"{{ "name": "classifyLiability", "arguments": {{ "claim": {SAMPLE_CLAIM} }} }}"#
    );
    let result = reparse(&execute_tool_call(&parse(&params)).expect("result"));
    assert_eq!(result["isError"], false);
    assert_eq!(
        result["structuredContent"]["liabilityStatus"],
        "likely-not-at-fault"
    );
    assert_eq!(result["content"][0]["type"], "text");
    let text = result["content"][0]["text"].as_str().expect("text");
    assert_eq!(
        serde_json::from_str::<Value>(text).expect("valid JSON"),
        result["structuredContent"]
    );
    assert_eq!(result["content"].as_array().expect("content").len(), 1);
}

#[test]
fn a_tool_result_writes_the_answer_as_text() {
    let result = reparse(&tool_result(parse(r#"{ "b": [1, "x"], "a": null }"#)));
    assert_eq!(result["content"][0]["text"], r#"{"a":null,"b":[1,"x"]}"#);
    assert_eq!(result["structuredContent"]["b"][0], 1);
}

#[test]
fn calls_without_a_name_or_with_an_unknown_one_are_refused() {
    let nameless = execute_tool_call(&parse(r#"{ "name": 3 }"#)).expect_err("refused");
    assert_eq!(nameless.code, INVALID_PARAMS);
    assert_eq!(nameless.message, "tools/call requires params.name");
    let unknown = execute_tool_call(&parse(r#"{ "name": "nothing" }"#)).expect_err("refused");
    assert_eq!(unknown.code, INVALID_PARAMS);
    assert_eq!(unknown.message, "tool `nothing` not found");
    assert_ne!(INVALID_PARAMS, METHOD_NOT_FOUND);
}

#[test]
fn arguments_that_are_no_object_count_as_none() {
    let error = execute_tool_call(&parse(
        r#"{ "name": "evaluateCoverage", "arguments": ["claim"] }"#,
    ))
    .expect_err("refused");
    assert_eq!(error.message, "missing required argument `claim`");
    let result = execute_tool_call(&parse(
        r#"{ "name": "listRequiredDocuments", "arguments": 5 }"#,
    ))
    .expect("result");
    assert_eq!(
        reparse(&result)["structuredContent"]["recommendedPath"],
        "repair"
    );
}

#[test]
fn every_listed_tool_can_be_called_and_asks_for_what_it_requires() {
    let full = format!(
        r#"{{ "claim": {SAMPLE_CLAIM}, "policies": {SAMPLE_POLICIES},
             "vehicle": {COVERED_VEHICLE},
             "priorClaims": {{ "priorClaimCount": 0, "recentClaimCount": 0 }} }}"#
    );
    let mut names: Vec<String> = Vec::new();
    for tool in tool_definitions() {
        let tool = reparse(&tool);
        let name = tool["name"].as_str().expect("name").to_string();
        let params = format!(r#"{{ "name": "{name}", "arguments": {full} }}"#);
        assert!(execute_tool_call(&parse(&params)).is_ok());
        assert_eq!(tool["inputSchema"]["type"], "object");
        let bare = format!(r#"{{ "name": "{name}" }}"#);
        match tool["inputSchema"]["required"].as_array() {
            Some(required) => {
                let first = required[0].as_str().expect("text");
                let error = execute_tool_call(&parse(&bare)).expect_err("refused");
                assert_eq!(
                    error.message,
                    format!("missing required argument `{first}`")
                );
                for argument in required {
                    let argument = argument.as_str().expect("text");
                    assert_eq!(
                        tool["inputSchema"]["properties"][argument]["type"],
                        "object"
                    );
                }
            }
            None => assert!(execute_tool_call(&parse(&bare)).is_ok()),
        }
        names.push(name);
    }
    assert_eq!(
        names,
        vec![
            "evaluateCoverage",
            "classifyLiability",
            "scoreClaimRisk",
            "listRequiredDocuments",
            "generateCustomerSummary",
        ]
    );
}

#[test]
fn the_list_of_tools_is_complete() {
    let tools = tool_definitions();
    let documents = reparse(&tools[3]);
    assert_eq!(
        documents,
        serde_json::from_str::<Value>(
            r#"{
                "name": "listRequiredDocuments",
                "description": "List documents needed for the recommended claim path.",
                "inputSchema": {
                    "type": "object",
                    "properties": {
                        "claim": { "type": "object" },
                        "recommendedPath": { "type": "string" },
                        "triage": { "type": "object" }
                    }
                }
            }"#
        )
        .expect("valid JSON")
    );
    let risk = reparse(&tools[2]);
    assert_eq!(
        risk["inputSchema"]["required"],
        Value::from(vec!["claim", "priorClaims"])
    );
    assert_eq!(
        risk["inputSchema"]["properties"]
            .as_object()
            .expect("properties")
            .len(),
        4
    );
}

#[test]
fn fields_are_read_by_their_type() {
    let value = parse(r#"{ "t": "x", "b": true, "n": 7, "m": -7, "f": 1.5, "e": " " }"#);
    assert_eq!(string_field(&value, "t"), "x");
    assert_eq!(string_field(&value, "b"), "");
    assert_eq!(string_field_with_fallback(&value, "b", "y"), "y");
    assert_eq!(string_field_with_fallback(&value, "e", "y"), " ");
    assert!(bool_field(&value, "b", false));
    assert!(bool_field(&value, "t", true));
    assert_eq!(u64_field(&value, "n", 1), 7);
    assert_eq!(u64_field(&value, "m", 1), 1);
    assert_eq!(u64_field(&value, "f", 1), 1);
    assert!(required_arg(&value, "f").is_ok());
    assert!(required_arg(&value, "g").is_err());
    assert_eq!(required_string_field(&value, "t").expect("text"), "x");
    assert!(required_string_field(&value, "e").is_err());
    assert!(required_bool_field(&value, "b").expect("truth value"));
    assert!(required_bool_field(&value, "n").is_err());
    assert_eq!(required_u64_field(&value, "n").expect("number"), 7);
    assert!(required_u64_field(&value, "m").is_err());
}

#[test]
fn more_trouble_never_lowers_the_risk() {
    fn height(facts: RiskFacts) -> usize {
        let answer = reparse(&risk_from_facts(facts));
        ["low", "medium", "high"]
            .iter()
            .position(|level| answer["riskLevel"] == *level)
            .expect("level")
    }
    for bits in 0..16u32 {
        for recent_claim_count in 0..3 {
            let base = RiskFacts {
                injury_reported: bits & 1 != 0,
                vehicle_drivable: bits & 2 == 0,
                prior_claim_count: 0,
                recent_claim_count,
                covered: bits & 4 == 0,
                liability_unclear: bits & 8 != 0,
            };
            let worse = [
                RiskFacts {
                    injury_reported: true,
                    ..base
                },
                RiskFacts {
                    vehicle_drivable: false,
                    ..base
                },
                RiskFacts {
                    recent_claim_count: recent_claim_count + 1,
                    ..base
                },
                RiskFacts {
                    covered: false,
                    ..base
                },
                RiskFacts {
                    liability_unclear: true,
                    ..base
                },
            ];
            for case in worse {
                assert!(height(base) <= height(case));
            }
        }
    }
}
