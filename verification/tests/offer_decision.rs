use axum::http::{HeaderMap, HeaderName, HeaderValue};
use light_example::claim_triage::{
    bool_or_default, claim_string, policies_include_active_policy, string_or_default, triage_claim,
    u32_or_default, ClaimTriageRequest, ClaimTriageResponse,
};
use light_example::headers::header_value;
use light_example::json::{Json, Member};
use light_example::offer_decision::{
    health, recommend_settlement, record_offer_decision, search_offers, AppState,
    OfferDecisionRequest, SettlementRecommendationRequest, IDEMPOTENCY_KEY_HEADER,
};
use light_example::offers::{optional_match, search, Offer, OfferQuery};
use serde_json::Value;

fn document(value: Value) -> Json {
    match value {
        Value::Null => Json::Null,
        Value::Bool(b) => Json::Bool(b),
        Value::Number(n) => Json::Number(n),
        Value::String(s) => Json::Text(s),
        Value::Array(items) => Json::Array(items.into_iter().map(document).collect()),
        Value::Object(members) => Json::Object(
            members
                .into_iter()
                .map(|(name, value)| Member {
                    name,
                    value: document(value),
                })
                .collect(),
        ),
    }
}

fn parse(text: &str) -> Json {
    document(serde_json::from_str(text).expect("valid JSON"))
}

fn decision_request(customer_id: &str, offer_id: &str) -> OfferDecisionRequest {
    OfferDecisionRequest {
        customer_id: customer_id.to_string(),
        offer_id: offer_id.to_string(),
        channel: "portal".to_string(),
        source: "workflow".to_string(),
        reason: "retry safety".to_string(),
        idempotency_key: None,
    }
}

fn keyed(key: &str) -> HeaderMap {
    let mut headers = HeaderMap::new();
    headers.insert(
        IDEMPOTENCY_KEY_HEADER,
        HeaderValue::from_str(key).expect("header value"),
    );
    headers
}

#[test]
fn search_returns_active_matching_offer_only() {
    let state = AppState::seeded();
    let query = OfferQuery {
        segment: Some("premium".to_string()),
        state: Some("ON".to_string()),
        category: Some("travel".to_string()),
    };

    let offers = state.search_offers(&query);

    assert_eq!(offers.len(), 1);
    assert_eq!(offers[0].offer_id, "OFFER-TRAVEL-01");
}

#[test]
fn idempotency_key_returns_same_decision() {
    let mut state = AppState::seeded();

    let first = state.record_decision(
        decision_request("CUST-2002", "OFFER-TRAVEL-01"),
        "wf-123:OFFER-TRAVEL-01".to_string(),
    );
    let second = state.record_decision(
        decision_request("CUST-2002", "OFFER-TRAVEL-01"),
        "wf-123:OFFER-TRAVEL-01".to_string(),
    );

    assert_eq!(first, second);
}

#[test]
fn offers_route_returns_matching_offer_array() {
    let offers = search_offers(
        &AppState::seeded(),
        &OfferQuery {
            segment: Some("premium".to_string()),
            state: Some("ON".to_string()),
            category: Some("travel".to_string()),
        },
    );

    assert_eq!(offers.len(), 1);
    assert_eq!(offers[0].offer_id, "OFFER-TRAVEL-01");
}

#[test]
fn offer_decision_route_records_expected_demo_decision() {
    let mut state = AppState::seeded();
    let decision = record_offer_decision(
        &mut state,
        &keyed("wf-demo-1001"),
        OfferDecisionRequest {
            customer_id: "CUST-1001".to_string(),
            offer_id: "OFFER-TRAVEL-01".to_string(),
            channel: "portal".to_string(),
            source: "workflow".to_string(),
            reason: "demo".to_string(),
            idempotency_key: None,
        },
    )
    .expect("response");

    assert_eq!(decision.decision_id, "DEC-1001");
    assert_eq!(decision.offer_id, "OFFER-TRAVEL-01");
}

#[test]
fn claim_triage_route_returns_deterministic_review_result() {
    let triage = triage_claim(&ClaimTriageRequest {
        claim: parse(
            r#"{
                "claimId": "CLM-1001",
                "customerId": "CUST-1001",
                "vehicleId": "VEH-1001",
                "injuryReported": false,
                "vehicleDrivable": false
            }"#,
        ),
        customer: parse(
            r#"{ "customerId": "CUST-1001", "segment": "premium", "state": "ON" }"#,
        ),
        policies: parse(
            r#"{ "policies": [{ "policyId": "POL-AUTO-1001", "status": "active" }] }"#,
        ),
        vehicle: parse(r#"{ "vehicleId": "VEH-1001", "covered": true }"#),
        prior_claims: parse(r#"{ "priorClaimCount": 1, "recentClaimCount": 0 }"#),
    })
    .expect("response");

    assert_eq!(triage.risk_level, "medium");
    assert!(triage.requires_adjuster_review);
    assert!(!triage.requires_siu_review);
    assert_eq!(triage.estimated_loss, 3200);
    assert_eq!(triage.reason_codes, vec!["VEHICLE_NOT_DRIVABLE"]);
}

fn settlement_request(claim: &str, approval: &str) -> SettlementRecommendationRequest {
    SettlementRecommendationRequest {
        claim: parse(claim),
        coverage_review: parse(r#"{ "deductible": 500 }"#),
        triage: parse(r#"{ "recommendedPath": "repair", "estimatedLoss": 3200 }"#),
        approval: parse(approval),
        idempotency_key: None,
    }
}

const DEMO_CLAIM: &str = r#"{ "claimId": "CLM-1001", "customerId": "CUST-1001" }"#;

#[test]
fn settlement_route_returns_idempotent_recommendation() {
    let mut state = AppState::seeded();
    let headers = keyed("claim-demo-1001");
    let first = recommend_settlement(
        &mut state,
        &headers,
        settlement_request(DEMO_CLAIM, r#"{ "decision": "APPROVED" }"#),
    )
    .expect("response");
    let second = recommend_settlement(
        &mut state,
        &headers,
        settlement_request(DEMO_CLAIM, r#"{ "decision": "APPROVED" }"#),
    )
    .expect("response");

    assert_eq!(first, second);
    assert_eq!(first.decision_id, "DEC-1001");
    assert_eq!(first.settlement_amount, 2700);
    assert_eq!(first.next_actions, vec!["schedule_repair", "send_photos"]);
}

#[test]
fn a_decision_holds_what_was_asked_and_an_audit_reference() {
    let mut state = AppState::seeded();
    let decision = record_offer_decision(
        &mut state,
        &HeaderMap::new(),
        OfferDecisionRequest {
            source: "wf-\u{e4}9 ".to_string(),
            reason: "retry safety".to_string(),
            ..decision_request("CUST-7", "OFFER-CASHBACK-01")
        },
    )
    .expect("response");
    assert_eq!(decision.decision_id, "DEC-2000");
    assert_eq!(decision.customer_id, "CUST-7");
    assert_eq!(decision.offer_id, "OFFER-CASHBACK-01");
    assert_eq!(decision.decision, "approved");
    assert_eq!(decision.created_at, "2026-05-25T14:12:00Z");
    assert_eq!(decision.audit_ref, "AUD-WF9RETRY");
    let short = state.record_decision(
        OfferDecisionRequest {
            source: "-".to_string(),
            reason: "ab".to_string(),
            ..decision_request("CUST-8", "OFFER-CASHBACK-01")
        },
        "k".to_string(),
    );
    assert_eq!(short.audit_ref, "AUD-AB");
    assert_eq!(short.decision_id, "DEC-2001");
}

#[test]
fn offers_that_are_not_open_are_refused_and_nothing_is_recorded() {
    let mut state = AppState::seeded();
    for offer in ["OFFER-EXPIRED-01", "OFFER-NONE", "offer-travel-01", ""] {
        let refusal = record_offer_decision(
            &mut state,
            &HeaderMap::new(),
            decision_request("CUST-2002", offer),
        )
        .expect_err("refused");
        assert_eq!(refusal.status, 400);
        assert_eq!(refusal.code, "INVALID_DECISION_REQUEST");
        assert_eq!(
            refusal.message,
            format!("offer {offer} is not active or does not exist")
        );
    }
    let first = record_offer_decision(
        &mut state,
        &HeaderMap::new(),
        decision_request("CUST-2002", "OFFER-TRAVEL-01"),
    )
    .expect("response");
    assert_eq!(first.decision_id, "DEC-2000");
    assert!(state.offer_exists("OFFER-TRAVEL-01"));
    assert!(!state.offer_exists("OFFER-EXPIRED-01"));
}

#[test]
fn the_key_is_that_of_the_request_then_that_of_the_headers_then_made_up() {
    let mut state = AppState::seeded();
    let own = record_offer_decision(
        &mut state,
        &keyed("from-header"),
        OfferDecisionRequest {
            idempotency_key: Some("own".to_string()),
            ..decision_request("CUST-2", "OFFER-TRAVEL-01")
        },
    )
    .expect("response");
    assert_eq!(own.decision_id, "DEC-2000");
    let from_header = record_offer_decision(
        &mut state,
        &keyed("  from-header  "),
        decision_request("CUST-2", "OFFER-TRAVEL-01"),
    )
    .expect("response");
    assert_eq!(from_header.decision_id, "DEC-2001");
    let made_up = record_offer_decision(
        &mut state,
        &keyed("   "),
        decision_request("CUST-2", "OFFER-TRAVEL-01"),
    )
    .expect("response");
    assert_eq!(made_up.decision_id, "DEC-2002");
    let recorded = state.record_decision(
        decision_request("CUST-9", "OFFER-TRAVEL-01"),
        "CUST-2:OFFER-TRAVEL-01:portal".to_string(),
    );
    assert_eq!(recorded, made_up);
    let again = state.record_decision(
        decision_request("CUST-9", "OFFER-CASHBACK-01"),
        "from-header".to_string(),
    );
    assert_eq!(again, from_header);
}

#[test]
fn other_calls_in_between_do_not_change_a_recorded_answer() {
    let mut state = AppState::seeded();
    let first = record_offer_decision(
        &mut state,
        &keyed("a"),
        decision_request("CUST-2", "OFFER-TRAVEL-01"),
    )
    .expect("response");
    for key in ["b", "c"] {
        record_offer_decision(
            &mut state,
            &keyed(key),
            decision_request("CUST-2", "OFFER-TRAVEL-01"),
        )
        .expect("response");
        recommend_settlement(
            &mut state,
            &keyed("a"),
            settlement_request(r#"{ "customerId": "CUST-2" }"#, "{}"),
        )
        .expect("response");
    }
    let again = record_offer_decision(
        &mut state,
        &keyed("a"),
        decision_request("CUST-3", "OFFER-CASHBACK-01"),
    )
    .expect("response");
    assert_eq!(again, first);
    let fresh = record_offer_decision(
        &mut state,
        &keyed("d"),
        decision_request("CUST-2", "OFFER-TRAVEL-01"),
    )
    .expect("response");
    assert_eq!(fresh.decision_id, "DEC-2003");
}

#[test]
fn only_the_demonstration_gets_its_own_name() {
    let mut state = AppState::seeded();
    let other_offer = state.record_decision(
        decision_request("CUST-1001", "OFFER-CASHBACK-01"),
        "k1".to_string(),
    );
    assert_eq!(other_offer.decision_id, "DEC-2000");
    let demo = state.new_decision_response(&decision_request("CUST-1001", "OFFER-TRAVEL-01"));
    assert_eq!(demo.decision_id, "DEC-1001");
    let next = state.new_decision_response(&decision_request("CUST-2", "OFFER-TRAVEL-01"));
    assert_eq!(next.decision_id, "DEC-2001");
}

#[test]
fn decision_numbers_wrap_around() {
    let mut state = AppState::seeded();
    state.next_decision_number = usize::MAX;
    let last = state.new_decision_response(&decision_request("C", "O"));
    assert_eq!(last.decision_id, format!("DEC-{}", usize::MAX));
    let next = state.new_decision_response(&decision_request("C", "O"));
    assert_eq!(next.decision_id, "DEC-0");
}

fn plain_offer(offer_id: &str, priority: u8, active: bool) -> Offer {
    Offer::new(
        offer_id, "Title", "Premium", "ON", "travel", priority, active,
    )
}

#[test]
fn offers_are_found_by_rising_priority_and_in_their_order() {
    let offers = vec![
        plain_offer("a", 5, true),
        plain_offer("b", 1, true),
        plain_offer("c", 5, true),
        plain_offer("d", 0, false),
        plain_offer("e", 3, true),
        plain_offer("f", 1, true),
    ];
    let everything = OfferQuery {
        segment: None,
        state: None,
        category: None,
    };
    let found: Vec<String> = search(&offers, &everything)
        .into_iter()
        .map(|offer| offer.offer_id)
        .collect();
    assert_eq!(found, vec!["b", "f", "e", "a", "c"]);
    let by_segment = OfferQuery {
        segment: Some("pREMIUM".to_string()),
        state: Some("on".to_string()),
        category: None,
    };
    assert_eq!(search(&offers, &by_segment).len(), 5);
    let nothing = OfferQuery {
        segment: None,
        state: Some("BC".to_string()),
        category: None,
    };
    assert!(search(&offers, &nothing).is_empty());
    assert!(optional_match(None, "x"));
    assert!(optional_match(Some("X"), "x"));
    assert!(!optional_match(Some(""), "x"));
}

#[test]
fn the_seeded_offers_without_a_query() {
    let offers = AppState::seeded().search_offers(&OfferQuery {
        segment: None,
        state: None,
        category: None,
    });
    assert_eq!(offers.len(), 2);
    assert_eq!(offers[0].title, "Premium travel credit");
    assert_eq!(offers[1].offer_id, "OFFER-CASHBACK-01");
    assert_eq!(offers[1].state, "BC");
    assert_eq!(offers[1].priority, 2);
}

#[test]
fn a_rejected_claim_is_denied_and_paid_nothing() {
    let mut state = AppState::seeded();
    let denied = recommend_settlement(
        &mut state,
        &HeaderMap::new(),
        settlement_request(
            r#"{ "customerId": " CUST-2 " }"#,
            r#"{ "decision": " Rejected " }"#,
        ),
    )
    .expect("response");
    assert_eq!(denied.decision_id, "DEC-3000");
    assert_eq!(denied.recommended_path, "deny");
    assert_eq!(denied.settlement_amount, 0);
    assert_eq!(denied.deductible, 500);
    assert_eq!(
        denied.customer_summary,
        "The claim requires denial or additional review before settlement."
    );
    assert_eq!(denied.next_actions, vec!["notify_customer"]);
}

#[test]
fn settlements_have_defaults_and_never_go_below_zero() {
    let mut state = AppState::seeded();
    let plain = recommend_settlement(
        &mut state,
        &HeaderMap::new(),
        SettlementRecommendationRequest {
            claim: parse(r#"{ "customerId": "CUST-2" }"#),
            coverage_review: parse("null"),
            triage: parse("null"),
            approval: parse("null"),
            idempotency_key: None,
        },
    )
    .expect("response");
    assert_eq!(plain.settlement_amount, 2700);
    assert_eq!(plain.deductible, 500);
    assert_eq!(plain.recommended_path, "repair");
    assert_eq!(
        plain.customer_summary,
        "Repair is recommended after the deductible."
    );
    let small = recommend_settlement(
        &mut state,
        &HeaderMap::new(),
        SettlementRecommendationRequest {
            claim: parse(r#"{ "customerId": "CUST-2", "claimId": "K" }"#),
            coverage_review: parse(r#"{ "deductible": 4294967295 }"#),
            triage: parse(r#"{ "estimatedLoss": 4294967296, "recommendedPath": " tow " }"#),
            approval: parse("{}"),
            idempotency_key: None,
        },
    )
    .expect("response");
    assert_eq!(small.settlement_amount, 0);
    assert_eq!(small.deductible, u32::MAX);
    assert_eq!(small.recommended_path, "tow");
    assert_eq!(small.decision_id, "DEC-3001");
}

#[test]
fn settlement_keys_fall_back_to_the_claim_and_then_to_customer_and_path() {
    let mut state = AppState::seeded();
    let by_claim = recommend_settlement(
        &mut state,
        &HeaderMap::new(),
        settlement_request(r#"{ "customerId": "CUST-2", "claimId": " K " }"#, "{}"),
    )
    .expect("response");
    let recorded = state.record_settlement_recommendation(
        settlement_request(r#"{ "customerId": "CUST-3" }"#, "{}"),
        "K".to_string(),
    );
    assert_eq!(recorded, by_claim);
    let by_path = recommend_settlement(
        &mut state,
        &HeaderMap::new(),
        settlement_request(r#"{ "customerId": "CUST-2" }"#, "{}"),
    )
    .expect("response");
    let recorded = state.record_settlement_recommendation(
        settlement_request(r#"{ "customerId": "CUST-3" }"#, "{}"),
        "CUST-2:repair".to_string(),
    );
    assert_eq!(recorded, by_path);
    let pathless = recommend_settlement(
        &mut state,
        &HeaderMap::new(),
        SettlementRecommendationRequest {
            triage: parse("{}"),
            ..settlement_request(r#"{ "customerId": "CUST-2" }"#, "{}")
        },
    )
    .expect("response");
    let recorded = state.record_settlement_recommendation(
        settlement_request(r#"{ "customerId": "CUST-3" }"#, "{}"),
        "CUST-2:review".to_string(),
    );
    assert_eq!(recorded, pathless);
    let own = recommend_settlement(
        &mut state,
        &keyed("header"),
        SettlementRecommendationRequest {
            idempotency_key: Some("own".to_string()),
            ..settlement_request(r#"{ "customerId": "CUST-2", "claimId": "K" }"#, "{}")
        },
    )
    .expect("response");
    assert_ne!(own.decision_id, by_claim.decision_id);
}

#[test]
fn a_settlement_about_nobody_is_refused_and_nothing_is_recorded() {
    let mut state = AppState::seeded();
    for claim in ["null", "{}", r#"{ "customerId": "  " }"#, r#"{ "customerId": 1 }"#] {
        let refusal = recommend_settlement(
            &mut state,
            &HeaderMap::new(),
            settlement_request(claim, "{}"),
        )
        .expect_err("refused");
        assert_eq!(refusal.status, 400);
        assert_eq!(refusal.code, "INVALID_DECISION_REQUEST");
        assert_eq!(refusal.message, "claim.customerId is required");
    }
    let next = state.new_settlement_recommendation(&settlement_request(
        r#"{ "customerId": "CUST-2" }"#,
        "{}",
    ));
    assert_eq!(next.decision_id, "DEC-3000");
}

fn triage_request(claim: &str, customer: &str) -> ClaimTriageRequest {
    ClaimTriageRequest {
        claim: parse(claim),
        customer: parse(customer),
        policies: parse(r#"[{ "status": "Active" }]"#),
        vehicle: parse(r#"{ "covered": true }"#),
        prior_claims: parse("{}"),
    }
}

#[test]
fn a_plain_insured_claim_goes_to_repair_at_low_risk() {
    let triage = triage_claim(&triage_request(r#"{ "customerId": "CUST-1001" }"#, "{}"))
        .expect("response");
    assert_eq!(
        triage,
        ClaimTriageResponse {
            severity: "low".to_string(),
            risk_level: "low".to_string(),
            recommended_path: "repair".to_string(),
            requires_adjuster_review: false,
            requires_siu_review: false,
            estimated_loss: 1800,
            reason_codes: vec![],
        }
    );
}

#[test]
fn the_customers_of_the_demonstration_take_their_paths() {
    let siu = triage_claim(&triage_request("{}", r#"{ "customerId": "CUST-2002" }"#))
        .expect("response");
    assert!(siu.requires_siu_review);
    assert_eq!(siu.risk_level, "high");
    assert_eq!(siu.recommended_path, "siu_review");
    let consent = triage_claim(&triage_request(r#"{ "customerId": "CUST-3003" }"#, "{}"))
        .expect("response");
    assert_eq!(consent.reason_codes, vec!["CUSTOMER_CONSENT_REQUIRED"]);
    assert_eq!(consent.risk_level, "low");
}

#[test]
fn every_reason_is_listed_in_order() {
    let request = ClaimTriageRequest {
        claim: parse(
            r#"{ "customerId": "CUST-1", "injuryReported": true, "vehicleDrivable": false }"#,
        ),
        customer: parse(r#"{ "consent": false }"#),
        policies: parse(r#"{ "policies": [{ "status": "expired" }] }"#),
        vehicle: parse("{}"),
        prior_claims: parse(r#"{ "recentClaimCount": 2 }"#),
    };
    let triage = ClaimTriageResponse::from_request(&request);
    assert_eq!(
        triage.reason_codes,
        vec![
            "POLICY_NOT_ACTIVE",
            "VEHICLE_NOT_COVERED",
            "INJURY_REPORTED",
            "VEHICLE_NOT_DRIVABLE",
            "RECENT_PRIOR_CLAIMS",
            "CUSTOMER_CONSENT_REQUIRED",
        ]
    );
    assert_eq!(triage.severity, "high");
    assert_eq!(triage.estimated_loss, 0);
    assert!(triage.requires_siu_review);
    assert!(triage.requires_adjuster_review);
}

#[test]
fn losses_rise_with_severity() {
    let injured = triage_claim(&triage_request(
        r#"{ "customerId": "C", "injuryReported": true }"#,
        "{}",
    ))
    .expect("response");
    assert_eq!(injured.estimated_loss, 12000);
    assert_eq!(injured.severity, "high");
    assert_eq!(injured.risk_level, "medium");
    let uninsured = triage_claim(&ClaimTriageRequest {
        vehicle: parse(r#"{ "covered": "yes" }"#),
        ..triage_request(r#"{ "customerId": "C" }"#, "{}")
    })
    .expect("response");
    assert_eq!(uninsured.estimated_loss, 0);
    assert_eq!(uninsured.recommended_path, "manual_review");
}

#[test]
fn triage_of_a_claim_about_nobody_is_refused() {
    let refusal = triage_claim(&triage_request(
        r#"{ "customerId": "\t" }"#,
        r#"{ "customerId": null }"#,
    ))
    .expect_err("refused");
    assert_eq!(refusal.status, 400);
    assert_eq!(
        refusal.message,
        "claim.customerId or customer.customerId is required"
    );
}

#[test]
fn fields_have_defaults() {
    let value = parse(r#"{ "t": " x ", "e": "  ", "b": false, "n": 7, "big": 4294967296 }"#);
    assert_eq!(claim_string(&value, "t"), Some("x".to_string()));
    assert_eq!(claim_string(&value, "e"), None);
    assert_eq!(claim_string(&value, "n"), None);
    assert_eq!(string_or_default(&value, "e", "d"), "d");
    assert!(!bool_or_default(&value, "b", true));
    assert!(bool_or_default(&value, "t", true));
    assert_eq!(u32_or_default(&value, "n", 1), 7);
    assert_eq!(u32_or_default(&value, "big", 1), 1);
    assert!(policies_include_active_policy(&parse(
        r#"[{ "status": "no" }, { "status": "aCtIvE" }]"#
    )));
    assert!(!policies_include_active_policy(&parse(
        r#"{ "policies": { "status": "active" } }"#
    )));
    assert!(!policies_include_active_policy(&parse(
        r#"[{ "status": " active " }]"#
    )));
}

#[test]
fn header_values_are_trimmed_and_visible() {
    let mut headers = HeaderMap::new();
    headers.append("X-Key", HeaderValue::from_static("  first  "));
    headers.append("x-key", HeaderValue::from_static("second"));
    headers.insert("x-blank", HeaderValue::from_static("   "));
    headers.insert(
        "x-bytes",
        HeaderValue::from_bytes(&[0xe4, 0x62]).expect("header value"),
    );
    assert_eq!(header_value(&headers, "x-KEY"), Some("first".to_string()));
    assert_eq!(header_value(&headers, "x-blank"), None);
    assert_eq!(header_value(&headers, "x-bytes"), None);
    assert_eq!(header_value(&headers, "x-none"), None);
    assert_eq!(header_value(&headers, "not a name"), None);
    assert_eq!(header_value(&headers, ""), None);
    headers.insert(
        HeaderName::from_static("x\"y"),
        HeaderValue::from_static("v"),
    );
    assert_eq!(header_value(&headers, "x\"y"), None);
    assert_eq!(header_value(&headers, "\u{e4}-key"), None);
    assert_eq!(header_value(&headers, &"\u{e4}".repeat(33)), None);
    assert_eq!(header_value(&headers, &"x".repeat(70_000)), None);
}

#[test]
fn the_decision_service_is_up() {
    let response = health();
    assert_eq!(response.status, "UP");
    assert_eq!(response.service, "demo-offer-decision-api");
}

#[test]
fn decisions_under_different_keys_have_different_names() {
    let mut state = AppState::seeded();
    let mut names: Vec<String> = Vec::new();
    for key in 0..50 {
        let decision = state.record_decision(
            decision_request("CUST-2", "OFFER-TRAVEL-01"),
            format!("key-{key}"),
        );
        assert!(!names.contains(&decision.decision_id));
        names.push(decision.decision_id);
    }
    assert_eq!(names[49], "DEC-2049");
}
