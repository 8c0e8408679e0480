use light_example::api_error::{BAD_REQUEST, NOT_FOUND};
use light_example::customer_profile::{
    get_covered_vehicle, get_customer, get_customer_policies, get_customer_preferences,
    get_prior_claims, health, AppState,
};
use light_example::customer_records::{
    default_channel, Coverage, CustomerPreferences, CustomerRecord, Policy, PriorClaim,
    PriorClaimsResponse, Vehicle,
};

#[test]
fn seeded_state_returns_premium_customer_profile() {
    let state = AppState::seeded();

    let profile = state.find_profile("CUST-1001").expect("profile");

    assert_eq!(profile.segment, "premium");
    assert_eq!(profile.state, "ON");
}

#[test]
fn preferences_include_requested_channel() {
    let state = AppState::seeded();

    let preferences = state
        .find_preferences("CUST-3003", "portal")
        .expect("preferences");

    assert!(!preferences.consent);
    assert_eq!(preferences.channel, "portal");
}

#[test]
fn seeded_state_returns_insurance_context() {
    let state = AppState::seeded();

    let policies = state.find_policies("CUST-1001").expect("policies");
    let vehicle = state
        .find_vehicle("CUST-1001", "VEH-1001")
        .expect("vehicle");
    let prior_claims = state.find_prior_claims("CUST-1001").expect("prior claims");

    assert_eq!(policies.policies[0].status, "active");
    assert_eq!(policies.policies[0].coverages[0].deductible, 500);
    assert!(vehicle.covered);
    assert_eq!(prior_claims.prior_claim_count, 1);
    assert_eq!(prior_claims.recent_claim_count, 0);
}

#[test]
fn customer_route_returns_profile_json() {
    let profile = get_customer(&AppState::seeded(), "CUST-1001").expect("response");

    assert_eq!(profile.customer_id, "CUST-1001");
    assert_eq!(profile.segment, "premium");
}

#[test]
fn preferences_route_returns_channel_specific_json() {
    let preferences =
        get_customer_preferences(&AppState::seeded(), "CUST-1001", "portal").expect("response");

    assert!(preferences.consent);
    assert_eq!(preferences.preferred_categories, vec!["travel"]);
}

#[test]
fn insurance_routes_return_policy_vehicle_and_claims() {
    let state = AppState::seeded();

    let policies = get_customer_policies(&state, "CUST-1001").expect("response");
    assert_eq!(policies.policies[0].policy_id, "POL-AUTO-1001");

    let vehicle = get_covered_vehicle(&state, "CUST-2002", "VEH-2002").expect("response");
    assert!(!vehicle.covered);

    let prior_claims = get_prior_claims(&state, "CUST-2002").expect("response");
    assert_eq!(prior_claims.recent_claim_count, 1);
}

#[test]
fn unknown_customers_are_not_found_anywhere() {
    let state = AppState::seeded();
    let refusals = vec![
        get_customer(&state, "CUST-9").expect_err("profile"),
        get_customer_preferences(&state, "CUST-9", "portal").expect_err("preferences"),
        get_customer_policies(&state, "CUST-9").expect_err("policies"),
        get_covered_vehicle(&state, "CUST-9", "VEH-1001").expect_err("vehicle"),
        get_prior_claims(&state, "CUST-9").expect_err("prior claims"),
    ];
    for refusal in refusals {
        assert_eq!(refusal.status, NOT_FOUND);
        assert_eq!(refusal.code, "CUSTOMER_NOT_FOUND");
        assert_eq!(refusal.message, "customer CUST-9 was not found");
    }
    assert!(!state.customer_exists("CUST-9"));
    assert!(!state.customer_exists("cust-1001"));
    assert!(state.customer_exists("CUST-1001"));
    assert_ne!(NOT_FOUND, BAD_REQUEST);
}

#[test]
fn a_vehicle_of_another_customer_is_not_found() {
    let refusal = get_covered_vehicle(&AppState::seeded(), "CUST-1001", "VEH-2002")
        .expect_err("vehicle of another customer");
    assert_eq!(refusal.status, 404);
    assert_eq!(refusal.code, "VEHICLE_NOT_FOUND");
    assert_eq!(
        refusal.message,
        "vehicle VEH-2002 was not found for customer CUST-1001"
    );
}

#[test]
fn every_answer_names_the_customer_it_is_about() {
    let state = AppState::seeded();
    for (id, vehicle_id) in [
        ("CUST-1001", "VEH-1001"),
        ("CUST-2002", "VEH-2002"),
        ("CUST-3003", "VEH-3003"),
    ] {
        assert_eq!(get_customer(&state, id).expect("profile").customer_id, id);
        let preferences = get_customer_preferences(&state, id, "phone").expect("preferences");
        assert_eq!(preferences.customer_id, id);
        assert_eq!(preferences.channel, "phone");
        assert_eq!(preferences.preferred_contact_channel, "portal");
        assert_eq!(
            get_customer_policies(&state, id)
                .expect("policies")
                .customer_id,
            id
        );
        let vehicle = get_covered_vehicle(&state, id, vehicle_id).expect("vehicle");
        assert_eq!(vehicle.customer_id, id);
        assert_eq!(vehicle.vehicle_id, vehicle_id);
        let claims = get_prior_claims(&state, id).expect("prior claims");
        assert_eq!(claims.customer_id, id);
        assert_eq!(claims.prior_claim_count as usize, claims.claims.len());
    }
}

#[test]
fn the_seeded_customers_are_those_of_the_demonstration() {
    let state = AppState::seeded();
    let casey = state.find_profile("CUST-3003").expect("profile");
    assert_eq!(casey.display_name, "Casey Patel");
    assert_eq!(casey.account_status, "active");
    let blake = state.find_policies("CUST-2002").expect("policies");
    assert_eq!(blake.policies.len(), 1);
    assert_eq!(blake.policies[0].status, "expired");
    assert_eq!(blake.policies[0].expiry_date, "2025-01-01");
    assert_eq!(blake.policies[0].coverages[0].limit, 25000);
    let claims = state.find_prior_claims("CUST-2002").expect("prior claims");
    assert_eq!(claims.prior_claim_count, 2);
    assert_eq!(claims.claims[1].claim_id, "CLM-RECENT-2002");
    assert_eq!(claims.claims[1].paid_amount, 1250);
    let outback = state
        .find_vehicle("CUST-3003", "VEH-3003")
        .expect("vehicle");
    assert_eq!(outback.model, "Outback");
    assert_eq!(outback.year, 2020);
    assert!(outback.covered);
}

#[test]
fn of_two_vehicles_with_one_name_the_last_counts() {
    let record = CustomerRecord::new(
        "C",
        "Name",
        "standard",
        "BC",
        "active",
        true,
        ["home"],
        "phone",
        vec![Policy::new(
            "P",
            "active",
            "2025-01-01",
            "2026-01-01",
            "BC",
            vec![Coverage::new("collision", 1, 2)],
        )],
        vec![
            Vehicle::new("C", "V", "FIRST", 2001, "A", "B", false),
            Vehicle::new("C", "W", "OTHER", 2002, "A", "B", false),
            Vehicle::new("C", "V", "SECOND", 2003, "A", "B", true),
        ],
        PriorClaimsResponse::new("C", 0, vec![PriorClaim::new("K", "2020-01-01", "open", 7)]),
    );
    let found = record.vehicles.get("V").expect("vehicle");
    assert_eq!(found.vin, "SECOND");
    assert!(found.covered);
    assert_eq!(record.vehicles.get("W").expect("vehicle").vin, "OTHER");
    assert_eq!(record.preferences.preferred_categories, vec!["home"]);
    assert_eq!(record.policies.customer_id, "C");
    assert_eq!(record.prior_claims.prior_claim_count, 1);
}

#[test]
fn preferences_differ_in_the_channel_only() {
    let preferences = CustomerPreferences {
        customer_id: "C".to_string(),
        consent: true,
        preferred_categories: vec!["a".to_string(), "b".to_string()],
        preferred_contact_channel: "mail".to_string(),
    };
    let response = preferences.for_channel("phone");
    assert_eq!(response.channel, "phone");
    assert_eq!(response.customer_id, "C");
    assert!(response.consent);
    assert_eq!(response.preferred_categories, vec!["a", "b"]);
    assert_eq!(response.preferred_contact_channel, "mail");
    assert_eq!(default_channel(), "portal");
}

#[test]
fn the_profile_service_is_up() {
    let response = health();
    assert_eq!(response.status, "UP");
    assert_eq!(response.service, "demo-customer-profile-api");
}
