//! Laws of the customer profile service.

use crate::api_error::{customer_not_found, ApiErrorModel, NOT_FOUND};
use crate::customer_profile::{
    avery_record, blake_record, casey_record, policies_outcome, preferences_outcome,
    prior_claims_outcome, profile_outcome, seeded_customers, vehicle_outcome,
};
use crate::customer_records::{
    by_vehicle_id, prior_claims_of, record_of, ChannelPreferencesModel, PoliciesModel,
    PolicyModel, PriorClaimModel, PriorClaimsModel, ProfileModel, RecordModel, VehicleModel,
};
use vstd::prelude::*;

verus! {

/// Whether every part of a record is about the customer `id`: each vehicle stands under its own
/// name, and the prior claims are counted right.
pub open spec fn about_customer(record: RecordModel, id: Seq<char>) -> bool {
    &&& record.profile.customer_id == id
    &&& record.preferences.customer_id == id
    &&& record.policies.customer_id == id
    &&& record.prior_claims.customer_id == id
    &&& record.prior_claims.prior_claim_count == record.prior_claims.claims.len()
    &&& forall|vehicle_id: Seq<char>| #[trigger]
        record.vehicles.contains_key(vehicle_id) ==> record.vehicles[vehicle_id].vehicle_id
            == vehicle_id && record.vehicles[vehicle_id].customer_id == id
}

/// Whether each customer's record is kept under that customer's name.
pub open spec fn well_kept(customers: Map<Seq<char>, RecordModel>) -> bool {
    forall|id: Seq<char>| #[trigger]
        customers.contains_key(id) ==> about_customer(customers[id], id)
}

/// Every endpoint answers a question about an unknown customer with the same refusal: not
/// found.
pub proof fn law_unknown_customers_are_not_found(
    customers: Map<Seq<char>, RecordModel>,
    id: Seq<char>,
    channel: Seq<char>,
    vehicle_id: Seq<char>,
)
    requires
        !customers.contains_key(id),
    ensures
        customer_not_found(id).status == NOT_FOUND,
        profile_outcome(customers, id) == Err::<ProfileModel, ApiErrorModel>(
            customer_not_found(id),
        ),
        preferences_outcome(customers, id, channel) == Err::<ChannelPreferencesModel, ApiErrorModel>(
            customer_not_found(id),
        ),
        policies_outcome(customers, id) == Err::<PoliciesModel, ApiErrorModel>(
            customer_not_found(id),
        ),
        vehicle_outcome(customers, id, vehicle_id) == Err::<VehicleModel, ApiErrorModel>(
            customer_not_found(id),
        ),
        prior_claims_outcome(customers, id) == Err::<PriorClaimsModel, ApiErrorModel>(
            customer_not_found(id),
        ),
{
}

/// Every endpoint answers a question about a known customer, and the answer names that customer;
/// a vehicle is found exactly where the customer has it, and is refused as not found otherwise.
pub proof fn law_answers_name_the_customer(
    customers: Map<Seq<char>, RecordModel>,
    id: Seq<char>,
    channel: Seq<char>,
    vehicle_id: Seq<char>,
)
    requires
        well_kept(customers),
        customers.contains_key(id),
    ensures
        profile_outcome(customers, id) matches Ok(profile) && profile.customer_id == id,
        preferences_outcome(customers, id, channel) matches Ok(answer)
            && answer.preferences.customer_id == id && answer.channel == channel,
        policies_outcome(customers, id) matches Ok(policies) && policies.customer_id == id,
        prior_claims_outcome(customers, id) matches Ok(claims) && claims.customer_id == id
            && claims.prior_claim_count == claims.claims.len(),
        match vehicle_outcome(customers, id, vehicle_id) {
            Ok(vehicle) => customers[id].vehicles.contains_key(vehicle_id) && vehicle.vehicle_id
                == vehicle_id && vehicle.customer_id == id,
            Err(refusal) => !customers[id].vehicles.contains_key(vehicle_id) && refusal.status
                == NOT_FOUND,
        },
{
    assert(about_customer(customers[id], id));
}

/// The channel through which preferences are asked for changes nothing else of the answer.
pub proof fn law_the_channel_is_only_echoed(
    customers: Map<Seq<char>, RecordModel>,
    id: Seq<char>,
    one: Seq<char>,
    other: Seq<char>,
)
    requires
        customers.contains_key(id),
    ensures
        preferences_outcome(customers, id, one)->Ok_0.preferences == preferences_outcome(
            customers,
            id,
            other,
        )->Ok_0.preferences,
{
}

/// A vehicle is found under a name exactly where one of that name was put in, and it is the last
/// of them.
pub proof fn law_vehicles_are_found_by_name(vehicles: Seq<VehicleModel>, id: Seq<char>)
    ensures
        by_vehicle_id(vehicles).contains_key(id) <==> exists|i: int|
            0 <= i < vehicles.len() && (#[trigger] vehicles[i]).vehicle_id == id,
        by_vehicle_id(vehicles).contains_key(id) ==> exists|i: int|
            {
                &&& 0 <= i < vehicles.len()
                &&& (#[trigger] vehicles[i]).vehicle_id == id
                &&& by_vehicle_id(vehicles)[id] == vehicles[i]
                &&& forall|j: int|
                    i < j < vehicles.len() ==> (#[trigger] vehicles[j]).vehicle_id != id
            },
    decreases vehicles.len(),
{
    if vehicles.len() > 0 {
        let front = vehicles.drop_last();
        let last = vehicles.len() - 1;
        law_vehicles_are_found_by_name(front, id);
        if vehicles[last].vehicle_id == id {
            assert(by_vehicle_id(vehicles)[id] == vehicles[last]);
        } else if by_vehicle_id(vehicles).contains_key(id) {
            let i = choose|i: int|
                {
                    &&& 0 <= i < front.len()
                    &&& (#[trigger] front[i]).vehicle_id == id
                    &&& by_vehicle_id(front)[id] == front[i]
                    &&& forall|j: int|
                        i < j < front.len() ==> (#[trigger] front[j]).vehicle_id != id
                };
            assert(vehicles[i] == front[i]);
            assert forall|j: int| i < j < vehicles.len() implies (
            #[trigger] vehicles[j]).vehicle_id != id by {
                if j < last {
                    assert(front[j] == vehicles[j]);
                }
            }
        } else {
            assert forall|i: int| 0 <= i < vehicles.len() implies (
            #[trigger] vehicles[i]).vehicle_id != id by {
                if i < last {
                    assert(front[i] == vehicles[i]);
                }
            }
        }
    }
}

/// The service starts with well-kept records.
pub proof fn law_the_service_starts_well_kept()
    ensures
        well_kept(seeded_customers()),
{
    assert forall|id: Seq<char>| #[trigger] seeded_customers().contains_key(id) implies
        about_customer(seeded_customers()[id], id) by {
        reveal_with_fuel(by_vehicle_id, 2);
        lemma_customer_names_differ();
        if id == "CUST-1001"@ {
            assert(about_customer(avery_record(), id));
        } else if id == "CUST-2002"@ {
            assert(about_customer(blake_record(), id));
        } else {
            assert(about_customer(casey_record(), id));
        }
    }
}

proof fn lemma_customer_names_differ()
    ensures
        "CUST-1001"@ != "CUST-2002"@,
        "CUST-1001"@ != "CUST-3003"@,
        "CUST-2002"@ != "CUST-3003"@,
{
    reveal_strlit("CUST-1001");
    reveal_strlit("CUST-2002");
    reveal_strlit("CUST-3003");
    assert("CUST-1001"@[5] != "CUST-2002"@[5]);
    assert("CUST-1001"@[5] != "CUST-3003"@[5]);
    assert("CUST-2002"@[5] != "CUST-3003"@[5]);
}

/// The service starts with three customers and knows nobody else.
pub proof fn law_the_service_starts_with_three_customers(id: Seq<char>)
    ensures
        seeded_customers().contains_key(id) <==> id == "CUST-1001"@ || id == "CUST-2002"@ || id
            == "CUST-3003"@,
{
}

/// Avery Chen, a premium customer in Ontario with an active policy and a covered vehicle.
pub proof fn law_the_record_of_avery()
    ensures
        ({
            let record = seeded_customers()["CUST-1001"@];
            let policy = record.policies.policies[0];
            let vehicle = record.vehicles["VEH-1001"@];
            let claims = record.prior_claims;
            &&& record.profile.display_name == "Avery Chen"@ && record.profile.segment == "premium"@
            &&& record.profile.state == "ON"@ && record.profile.account_status == "active"@
            &&& record.preferences.consent == true
            &&& record.preferences.preferred_categories == seq!["travel"@]
            &&& record.preferences.preferred_contact_channel == "portal"@
            &&& record.policies.policies.len() == 1
            &&& policy.policy_id == "POL-AUTO-1001"@ && policy.status == "active"@
            &&& policy.effective_date == "2025-01-01"@ && policy.expiry_date == "2027-01-01"@
            &&& policy.province == "ON"@ && policy.coverages.len() == 1
            &&& policy.coverages[0].coverage_type == "collision"@
            &&& policy.coverages[0].deductible == 500 && policy.coverages[0].limit == 50000
            &&& record.vehicles.dom() == set!["VEH-1001"@]
            &&& vehicle.vin == "DEMO-VIN-1001"@ && vehicle.year == 2022
            &&& vehicle.make == "Toyota"@ && vehicle.model == "RAV4"@
            &&& vehicle.covered == true
            &&& claims.recent_claim_count == 0 && claims.claims.len() == 1
            &&& claims.claims[0].claim_id == "CLM-OLD-1001"@ && claims.claims[0].incident_date == "2024-08-12"@
            &&& claims.claims[0].status == "closed"@ && claims.claims[0].paid_amount == 1800
        }),
{
    lemma_customer_names_differ();
    reveal_with_fuel(by_vehicle_id, 2);
    assert(seeded_customers()["CUST-1001"@] == avery_record());
}

/// Blake Morgan, a standard customer in Ontario whose policy has expired and whose vehicle is not
/// covered.
pub proof fn law_the_record_of_blake()
    ensures
        ({
            let record = seeded_customers()["CUST-2002"@];
            let policy = record.policies.policies[0];
            let vehicle = record.vehicles["VEH-2002"@];
            let claims = record.prior_claims;
            &&& record.profile.display_name == "Blake Morgan"@ && record.profile.segment == "standard"@
            &&& record.profile.state == "ON"@ && record.profile.account_status == "active"@
            &&& record.preferences.consent == true
            &&& record.preferences.preferred_categories == seq!["travel"@]
            &&& record.preferences.preferred_contact_channel == "portal"@
            &&& record.policies.policies.len() == 1
            &&& policy.policy_id == "POL-AUTO-2002"@ && policy.status == "expired"@
            &&& policy.effective_date == "2023-01-01"@ && policy.expiry_date == "2025-01-01"@
            &&& policy.province == "ON"@ && policy.coverages.len() == 1
            &&& policy.coverages[0].coverage_type == "collision"@
            &&& policy.coverages[0].deductible == 1000 && policy.coverages[0].limit == 25000
            &&& record.vehicles.dom() == set!["VEH-2002"@]
            &&& vehicle.vin == "DEMO-VIN-2002"@ && vehicle.year == 2017
            &&& vehicle.make == "Honda"@ && vehicle.model == "Civic"@
            &&& vehicle.covered == false
            &&& claims.recent_claim_count == 1 && claims.claims.len() == 2
            &&& claims.claims[0].claim_id == "CLM-OLD-2002"@ && claims.claims[0].incident_date == "2023-11-03"@
            &&& claims.claims[0].status == "closed"@ && claims.claims[0].paid_amount == 2400
            &&& claims.claims[1].claim_id == "CLM-RECENT-2002"@ && claims.claims[1].incident_date == "2026-02-18"@
            &&& claims.claims[1].status == "closed"@ && claims.claims[1].paid_amount == 1250
        }),
{
    lemma_customer_names_differ();
    reveal_with_fuel(by_vehicle_id, 2);
    assert(seeded_customers()["CUST-2002"@] == blake_record());
}

/// Casey Patel, a premium customer in Ontario with an active policy and a covered vehicle, who
/// has not consented.
pub proof fn law_the_record_of_casey()
    ensures
        ({
            let record = seeded_customers()["CUST-3003"@];
            let policy = record.policies.policies[0];
            let vehicle = record.vehicles["VEH-3003"@];
            let claims = record.prior_claims;
            &&& record.profile.display_name == "Casey Patel"@ && record.profile.segment == "premium"@
            &&& record.profile.state == "ON"@ && record.profile.account_status == "active"@
            &&& record.preferences.consent == false
            &&& record.preferences.preferred_categories == seq!["travel"@]
            &&& record.preferences.preferred_contact_channel == "portal"@
            &&& record.policies.policies.len() == 1
            &&& policy.policy_id == "POL-AUTO-3003"@ && policy.status == "active"@
            &&& policy.effective_date == "2025-06-01"@ && policy.expiry_date == "2027-06-01"@
            &&& policy.province == "ON"@ && policy.coverages.len() == 1
            &&& policy.coverages[0].coverage_type == "collision"@
            &&& policy.coverages[0].deductible == 500 && policy.coverages[0].limit == 50000
            &&& record.vehicles.dom() == set!["VEH-3003"@]
            &&& vehicle.vin == "DEMO-VIN-3003"@ && vehicle.year == 2020
            &&& vehicle.make == "Subaru"@ && vehicle.model == "Outback"@
            &&& vehicle.covered == true
            &&& claims.recent_claim_count == 0 && claims.claims.len() == 0
        }),
{
    lemma_customer_names_differ();
    reveal_with_fuel(by_vehicle_id, 2);
    assert(seeded_customers()["CUST-3003"@] == casey_record());
}

/// Every endpoint answers with the part of the customer's record that it is about, as it is
/// kept, and refuses a vehicle that the record does not hold.
pub proof fn law_answers_are_parts_of_the_record(
    customers: Map<Seq<char>, RecordModel>,
    id: Seq<char>,
    channel: Seq<char>,
    vehicle_id: Seq<char>,
)
    requires
        customers.contains_key(id),
    ensures
        ({
            let record = customers[id];
            &&& profile_outcome(customers, id) matches Ok(profile) && profile == record.profile
            &&& preferences_outcome(customers, id, channel) matches Ok(answer)
                && answer.preferences == record.preferences && answer.channel == channel
            &&& policies_outcome(customers, id) matches Ok(policies) && policies
                == record.policies
            &&& prior_claims_outcome(customers, id) matches Ok(claims) && claims
                == record.prior_claims
            &&& record.vehicles.contains_key(vehicle_id) ==> (vehicle_outcome(
                customers,
                id,
                vehicle_id,
            ) matches Ok(vehicle) && vehicle == record.vehicles[vehicle_id])
            &&& !record.vehicles.contains_key(vehicle_id) ==> (vehicle_outcome(
                customers,
                id,
                vehicle_id,
            ) matches Err(refusal) && refusal == (ApiErrorModel {
                status: 404,
                code: "VEHICLE_NOT_FOUND"@,
                message: "vehicle "@ + vehicle_id + " was not found for customer "@ + id,
            }))
        }),
{
}

/// A refusal for want of the customer names the customer.
pub proof fn law_refusals_name_the_customer(id: Seq<char>)
    ensures
        customer_not_found(id) == (ApiErrorModel {
            status: 404,
            code: "CUSTOMER_NOT_FOUND"@,
            message: "customer "@ + id + " was not found"@,
        }),
{
}

/// A record holds what it was made of, all of it about the customer of the profile.
pub proof fn law_records_hold_what_they_are_made_of(
    profile: ProfileModel,
    consent: bool,
    categories: Seq<Seq<char>>,
    contact: Seq<char>,
    policies: Seq<PolicyModel>,
    vehicles: Seq<VehicleModel>,
    claims: PriorClaimsModel,
)
    ensures
        ({
            let record = record_of(
                profile,
                consent,
                categories,
                contact,
                policies,
                vehicles,
                claims,
            );
            &&& record.profile == profile
            &&& record.preferences.customer_id == profile.customer_id
            &&& record.preferences.consent == consent
            &&& record.preferences.preferred_categories == categories
            &&& record.preferences.preferred_contact_channel == contact
            &&& record.policies.customer_id == profile.customer_id
            &&& record.policies.policies == policies
            &&& record.vehicles == by_vehicle_id(vehicles)
            &&& record.prior_claims == claims
        }),
{
}

/// Prior claims are counted, as far as 32 bits go.
pub proof fn law_prior_claims_are_counted(
    customer_id: Seq<char>,
    recent: u32,
    claims: Seq<PriorClaimModel>,
)
    ensures
        ({
            let answer = prior_claims_of(customer_id, recent, claims);
            &&& answer.customer_id == customer_id
            &&& answer.recent_claim_count == recent
            &&& answer.claims == claims
            &&& claims.len() <= u32::MAX ==> answer.prior_claim_count == claims.len()
            &&& claims.len() > u32::MAX ==> exists|wraps: nat|
                answer.prior_claim_count + #[trigger] (wraps * 0x1_0000_0000) == claims.len()
        }),
{
    let size: int = 0x1_0000_0000;
    let wraps = (claims.len() as int / size) as nat;
    assert(claims.len() == wraps * 0x1_0000_0000 + claims.len() % 0x1_0000_0000);
}

} // verus!
