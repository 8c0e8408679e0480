//! The customer profile service.

use crate::api_error::{customer_not_found, not_found, ApiError, ApiErrorModel};
use crate::customer_records::{
    prior_claims_of, record_of, ChannelPreferencesModel, Coverage, CoverageModel, CustomerProfile,
    CustomerRecord, PoliciesModel, Policy, PolicyModel, PolicyResponse, PreferencesResponse,
    PriorClaim, PriorClaimModel, PriorClaimsModel, PriorClaimsResponse, ProfileModel, RecordModel,
    Vehicle, VehicleModel,
};
use crate::model::result_model;
use crate::text::concat3;
use vstd::hash_map::StringHashMap;
use vstd::prelude::*;
use vstd::string::StringExecFns;

verus! {

/// The customers, by their names.
pub struct AppState {
    pub customers: StringHashMap<CustomerRecord>,
}

impl DeepView for AppState {
    type V = Map<Seq<char>, RecordModel>;

    open spec fn deep_view(&self) -> Map<Seq<char>, RecordModel> {
        self.customers@.map_values(|record: CustomerRecord| record.deep_view())
    }
}

// ---------------------------------------------------------------------------------------
// The customers of the demonstration
// ---------------------------------------------------------------------------------------

/// The record of Avery Chen.
pub open spec fn avery_record() -> RecordModel {
    record_of(
        ProfileModel {
            customer_id: "CUST-1001"@,
            display_name: "Avery Chen"@,
            segment: "premium"@,
            state: "ON"@,
            account_status: "active"@,
        },
        true,
        seq!["travel"@],
        "portal"@,
        seq![
            PolicyModel {
                policy_id: "POL-AUTO-1001"@,
                status: "active"@,
                effective_date: "2025-01-01"@,
                expiry_date: "2027-01-01"@,
                province: "ON"@,
                coverages: seq![
                    CoverageModel {
                        coverage_type: "collision"@,
                        deductible: 500,
                        limit: 50000,
                    },
                ],
            },
        ],
        seq![
            VehicleModel {
                customer_id: "CUST-1001"@,
                vehicle_id: "VEH-1001"@,
                vin: "DEMO-VIN-1001"@,
                year: 2022,
                make: "Toyota"@,
                model: "RAV4"@,
                covered: true,
            },
        ],
        prior_claims_of("CUST-1001"@, 0, seq![
            PriorClaimModel {
                claim_id: "CLM-OLD-1001"@,
                incident_date: "2024-08-12"@,
                status: "closed"@,
                paid_amount: 1800,
            },
        ]),
    )
}

/// The record of Blake Morgan.
pub open spec fn blake_record() -> RecordModel {
    record_of(
        ProfileModel {
            customer_id: "CUST-2002"@,
            display_name: "Blake Morgan"@,
            segment: "standard"@,
            state: "ON"@,
            account_status: "active"@,
        },
        true,
        seq!["travel"@],
        "portal"@,
        seq![
            PolicyModel {
                policy_id: "POL-AUTO-2002"@,
                status: "expired"@,
                effective_date: "2023-01-01"@,
                expiry_date: "2025-01-01"@,
                province: "ON"@,
                coverages: seq![
                    CoverageModel {
                        coverage_type: "collision"@,
                        deductible: 1000,
                        limit: 25000,
                    },
                ],
            },
        ],
        seq![
            VehicleModel {
                customer_id: "CUST-2002"@,
                vehicle_id: "VEH-2002"@,
                vin: "DEMO-VIN-2002"@,
                year: 2017,
                make: "Honda"@,
                model: "Civic"@,
                covered: false,
            },
        ],
        prior_claims_of("CUST-2002"@, 1, seq![
            PriorClaimModel {
                claim_id: "CLM-OLD-2002"@,
                incident_date: "2023-11-03"@,
                status: "closed"@,
                paid_amount: 2400,
            },
            PriorClaimModel {
                claim_id: "CLM-RECENT-2002"@,
                incident_date: "2026-02-18"@,
                status: "closed"@,
                paid_amount: 1250,
            },
        ]),
    )
}

/// The record of Casey Patel.
pub open spec fn casey_record() -> RecordModel {
    record_of(
        ProfileModel {
            customer_id: "CUST-3003"@,
            display_name: "Casey Patel"@,
            segment: "premium"@,
            state: "ON"@,
            account_status: "active"@,
        },
        false,
        seq!["travel"@],
        "portal"@,
        seq![
            PolicyModel {
                policy_id: "POL-AUTO-3003"@,
                status: "active"@,
                effective_date: "2025-06-01"@,
                expiry_date: "2027-06-01"@,
                province: "ON"@,
                coverages: seq![
                    CoverageModel {
                        coverage_type: "collision"@,
                        deductible: 500,
                        limit: 50000,
                    },
                ],
            },
        ],
        seq![
            VehicleModel {
                customer_id: "CUST-3003"@,
                vehicle_id: "VEH-3003"@,
                vin: "DEMO-VIN-3003"@,
                year: 2020,
                make: "Subaru"@,
                model: "Outback"@,
                covered: true,
            },
        ],
        prior_claims_of("CUST-3003"@, 0, Seq::empty()),
    )
}

/// The customers the service starts with.
pub open spec fn seeded_customers() -> Map<Seq<char>, RecordModel> {
    map![
        "CUST-1001"@ => avery_record(),
        "CUST-2002"@ => blake_record(),
        "CUST-3003"@ => casey_record(),
    ]
}

fn avery() -> (record: CustomerRecord)
    ensures
        record.deep_view() == avery_record(),
{
    let mut coverages: Vec<Coverage> = Vec::new();
    coverages.push(Coverage::new("collision", 500, 50000));
    proof {
        assert(coverages.deep_view() =~= seq![coverages@[0].deep_view()]);
    }
    let mut policies: Vec<Policy> = Vec::new();
    policies.push(
        Policy::new("POL-AUTO-1001", "active", "2025-01-01", "2027-01-01", "ON", coverages),
    );
    let mut vehicles: Vec<Vehicle> = Vec::new();
    vehicles.push(
        Vehicle::new(
            "CUST-1001",
            "VEH-1001",
            "DEMO-VIN-1001",
            2022,
            "Toyota",
            "RAV4",
            true,
        ),
    );
    let mut claims: Vec<PriorClaim> = Vec::new();
    claims.push(PriorClaim::new("CLM-OLD-1001", "2024-08-12", "closed", 1800));
    proof {
        assert(policies.deep_view() =~= seq![policies@[0].deep_view()]);
        assert(vehicles.deep_view() =~= seq![vehicles@[0].deep_view()]);
        assert(claims.deep_view() =~= seq![claims@[0].deep_view()]);
    }
    CustomerRecord::new(
        "CUST-1001",
        "Avery Chen",
        "premium",
        "ON",
        "active",
        true,
        ["travel"],
        "portal",
        policies,
        vehicles,
        PriorClaimsResponse::new("CUST-1001", 0, claims),
    )
}

fn blake() -> (record: CustomerRecord)
    ensures
        record.deep_view() == blake_record(),
{
    let mut coverages: Vec<Coverage> = Vec::new();
    coverages.push(Coverage::new("collision", 1000, 25000));
    proof {
        assert(coverages.deep_view() =~= seq![coverages@[0].deep_view()]);
    }
    let mut policies: Vec<Policy> = Vec::new();
    policies.push(
        Policy::new("POL-AUTO-2002", "expired", "2023-01-01", "2025-01-01", "ON", coverages),
    );
    let mut vehicles: Vec<Vehicle> = Vec::new();
    vehicles.push(
        Vehicle::new(
            "CUST-2002",
            "VEH-2002",
            "DEMO-VIN-2002",
            2017,
            "Honda",
            "Civic",
            false,
        ),
    );
    let mut claims: Vec<PriorClaim> = Vec::new();
    claims.push(PriorClaim::new("CLM-OLD-2002", "2023-11-03", "closed", 2400));
    claims.push(PriorClaim::new("CLM-RECENT-2002", "2026-02-18", "closed", 1250));
    proof {
        assert(policies.deep_view() =~= seq![policies@[0].deep_view()]);
        assert(vehicles.deep_view() =~= seq![vehicles@[0].deep_view()]);
        assert(claims.deep_view() =~= seq![claims@[0].deep_view(), claims@[1].deep_view()]);
    }
    CustomerRecord::new(
        "CUST-2002",
        "Blake Morgan",
        "standard",
        "ON",
        "active",
        true,
        ["travel"],
        "portal",
        policies,
        vehicles,
        PriorClaimsResponse::new("CUST-2002", 1, claims),
    )
}

fn casey() -> (record: CustomerRecord)
    ensures
        record.deep_view() == casey_record(),
{
    let mut coverages: Vec<Coverage> = Vec::new();
    coverages.push(Coverage::new("collision", 500, 50000));
    proof {
        assert(coverages.deep_view() =~= seq![coverages@[0].deep_view()]);
    }
    let mut policies: Vec<Policy> = Vec::new();
    policies.push(
        Policy::new("POL-AUTO-3003", "active", "2025-06-01", "2027-06-01", "ON", coverages),
    );
    let mut vehicles: Vec<Vehicle> = Vec::new();
    vehicles.push(
        Vehicle::new(
            "CUST-3003",
            "VEH-3003",
            "DEMO-VIN-3003",
            2020,
            "Subaru",
            "Outback",
            true,
        ),
    );
    let claims: Vec<PriorClaim> = Vec::new();
    proof {
        assert(policies.deep_view() =~= seq![policies@[0].deep_view()]);
        assert(vehicles.deep_view() =~= seq![vehicles@[0].deep_view()]);
        assert(claims.deep_view() =~= Seq::empty());
    }
    CustomerRecord::new(
        "CUST-3003",
        "Casey Patel",
        "premium",
        "ON",
        "active",
        false,
        ["travel"],
        "portal",
        policies,
        vehicles,
        PriorClaimsResponse::new("CUST-3003", 0, claims),
    )
}

/// Adds a record under the customer's name.
fn enroll(customers: &mut StringHashMap<CustomerRecord>, record: CustomerRecord)
    ensures
        final(customers)@.map_values(|r: CustomerRecord| r.deep_view()) == old(
            customers,
        )@.map_values(|r: CustomerRecord| r.deep_view()).insert(
            record.deep_view().profile.customer_id,
            record.deep_view(),
        ),
{
    let ghost before = customers@;
    let ghost meaning = |r: CustomerRecord| r.deep_view();
    let ghost added = record;
    customers.insert(record.profile.customer_id.clone(), record);
    proof {
        assert(customers@.map_values(meaning) =~= before.map_values(meaning).insert(
            added.deep_view().profile.customer_id,
            added.deep_view(),
        ));
    }
}

// ---------------------------------------------------------------------------------------
// Looking things up
// ---------------------------------------------------------------------------------------

impl AppState {
    /// The service as it starts.
    pub fn seeded() -> (state: AppState)
        ensures
            state.deep_view() == seeded_customers(),
    {
        let mut customers: StringHashMap<CustomerRecord> = StringHashMap::new();
        proof {
            assert(customers@.map_values(|r: CustomerRecord| r.deep_view()) =~= Map::empty());
        }
        enroll(&mut customers, avery());
        enroll(&mut customers, blake());
        enroll(&mut customers, casey());
        AppState { customers }
    }

    /// The profile of a customer.
    pub fn find_profile(&self, customer_id: &str) -> (found: Option<CustomerProfile>)
        ensures
            found.deep_view() == (if self.deep_view().contains_key(customer_id@) {
                Some(self.deep_view()[customer_id@].profile)
            } else {
                None
            }),
    {
        match self.customers.get(customer_id) {
            Some(record) => Some(record.profile.clone()),
            None => None,
        }
    }

    /// The preferences of a customer, asked for through a channel.
    pub fn find_preferences(
        &self,
        customer_id: &str,
        channel: &str,
    ) -> (found: Option<PreferencesResponse>)
        ensures
            found.deep_view() == (if self.deep_view().contains_key(customer_id@) {
                Some(
                    ChannelPreferencesModel {
                        channel: channel@,
                        preferences: self.deep_view()[customer_id@].preferences,
                    },
                )
            } else {
                None
            }),
    {
        match self.customers.get(customer_id) {
            Some(record) => Some(record.preferences.for_channel(channel)),
            None => None,
        }
    }

    /// The policies of a customer.
    pub fn find_policies(&self, customer_id: &str) -> (found: Option<PolicyResponse>)
        ensures
            found.deep_view() == (if self.deep_view().contains_key(customer_id@) {
                Some(self.deep_view()[customer_id@].policies)
            } else {
                None
            }),
    {
        match self.customers.get(customer_id) {
            Some(record) => Some(record.policies.clone()),
            None => None,
        }
    }

    /// A vehicle of a customer.
    pub fn find_vehicle(&self, customer_id: &str, vehicle_id: &str) -> (found: Option<Vehicle>)
        ensures
            found.deep_view() == (if self.deep_view().contains_key(customer_id@)
                && self.deep_view()[customer_id@].vehicles.contains_key(vehicle_id@) {
                Some(self.deep_view()[customer_id@].vehicles[vehicle_id@])
            } else {
                None
            }),
    {
        match self.customers.get(customer_id) {
            Some(record) => match record.vehicles.get(vehicle_id) {
                Some(vehicle) => Some(vehicle.clone()),
                None => None,
            },
            None => None,
        }
    }

    /// The prior claims of a customer.
    pub fn find_prior_claims(&self, customer_id: &str) -> (found: Option<PriorClaimsResponse>)
        ensures
            found.deep_view() == (if self.deep_view().contains_key(customer_id@) {
                Some(self.deep_view()[customer_id@].prior_claims)
            } else {
                None
            }),
    {
        match self.customers.get(customer_id) {
            Some(record) => Some(record.prior_claims.clone()),
            None => None,
        }
    }

    /// Whether there is such a customer.
    pub fn customer_exists(&self, customer_id: &str) -> (found: bool)
        ensures
            found == self.deep_view().contains_key(customer_id@),
    {
        self.customers.contains_key(customer_id)
    }
}

// ---------------------------------------------------------------------------------------
// The endpoints
// ---------------------------------------------------------------------------------------

pub open spec fn vehicle_not_found(customer_id: Seq<char>, vehicle_id: Seq<char>) -> ApiErrorModel {
    not_found(
        "VEHICLE_NOT_FOUND"@,
        "vehicle "@ + vehicle_id + " was not found for customer "@ + customer_id,
    )
}

pub open spec fn profile_outcome(
    customers: Map<Seq<char>, RecordModel>,
    customer_id: Seq<char>,
) -> Result<ProfileModel, ApiErrorModel> {
    if customers.contains_key(customer_id) {
        Ok(customers[customer_id].profile)
    } else {
        Err(customer_not_found(customer_id))
    }
}

pub open spec fn preferences_outcome(
    customers: Map<Seq<char>, RecordModel>,
    customer_id: Seq<char>,
    channel: Seq<char>,
) -> Result<ChannelPreferencesModel, ApiErrorModel> {
    if customers.contains_key(customer_id) {
        Ok(
            ChannelPreferencesModel {
                channel,
                preferences: customers[customer_id].preferences,
            },
        )
    } else {
        Err(customer_not_found(customer_id))
    }
}

pub open spec fn policies_outcome(
    customers: Map<Seq<char>, RecordModel>,
    customer_id: Seq<char>,
) -> Result<PoliciesModel, ApiErrorModel> {
    if customers.contains_key(customer_id) {
        Ok(customers[customer_id].policies)
    } else {
        Err(customer_not_found(customer_id))
    }
}

pub open spec fn vehicle_outcome(
    customers: Map<Seq<char>, RecordModel>,
    customer_id: Seq<char>,
    vehicle_id: Seq<char>,
) -> Result<VehicleModel, ApiErrorModel> {
    if !customers.contains_key(customer_id) {
        Err(customer_not_found(customer_id))
    } else if !customers[customer_id].vehicles.contains_key(vehicle_id) {
        Err(vehicle_not_found(customer_id, vehicle_id))
    } else {
        Ok(customers[customer_id].vehicles[vehicle_id])
    }
}

pub open spec fn prior_claims_outcome(
    customers: Map<Seq<char>, RecordModel>,
    customer_id: Seq<char>,
) -> Result<PriorClaimsModel, ApiErrorModel> {
    if customers.contains_key(customer_id) {
        Ok(customers[customer_id].prior_claims)
    } else {
        Err(customer_not_found(customer_id))
    }
}

/// The profile endpoint.
pub fn get_customer(state: &AppState, customer_id: &str) -> (outcome: Result<
    CustomerProfile,
    ApiError,
>)
    ensures
        result_model(outcome) == profile_outcome(state.deep_view(), customer_id@),
{
    match state.find_profile(customer_id) {
        Some(profile) => Ok(profile),
        None => Err(ApiError::customer_not_found(customer_id)),
    }
}

/// The preferences endpoint.
pub fn get_customer_preferences(state: &AppState, customer_id: &str, channel: &str) -> (outcome:
    Result<PreferencesResponse, ApiError>)
    ensures
        result_model(outcome) == preferences_outcome(state.deep_view(), customer_id@, channel@),
{
    match state.find_preferences(customer_id, channel) {
        Some(preferences) => Ok(preferences),
        None => Err(ApiError::customer_not_found(customer_id)),
    }
}

/// The policies endpoint.
pub fn get_customer_policies(state: &AppState, customer_id: &str) -> (outcome: Result<
    PolicyResponse,
    ApiError,
>)
    ensures
        result_model(outcome) == policies_outcome(state.deep_view(), customer_id@),
{
    match state.find_policies(customer_id) {
        Some(policies) => Ok(policies),
        None => Err(ApiError::customer_not_found(customer_id)),
    }
}

/// The vehicle endpoint.
pub fn get_covered_vehicle(state: &AppState, customer_id: &str, vehicle_id: &str) -> (outcome:
    Result<Vehicle, ApiError>)
    ensures
        result_model(outcome) == vehicle_outcome(state.deep_view(), customer_id@, vehicle_id@),
{
    if !state.customer_exists(customer_id) {
        return Err(ApiError::customer_not_found(customer_id));
    }
    match state.find_vehicle(customer_id, vehicle_id) {
        Some(vehicle) => Ok(vehicle),
        None => {
            let mut message = concat3("vehicle ", vehicle_id, " was not found for customer ");
            message.append(customer_id);
            Err(ApiError::not_found("VEHICLE_NOT_FOUND", message.as_str()))
        },
    }
}

/// The prior claims endpoint.
pub fn get_prior_claims(state: &AppState, customer_id: &str) -> (outcome: Result<
    PriorClaimsResponse,
    ApiError,
>)
    ensures
        result_model(outcome) == prior_claims_outcome(state.deep_view(), customer_id@),
{
    match state.find_prior_claims(customer_id) {
        Some(prior_claims) => Ok(prior_claims),
        None => Err(ApiError::customer_not_found(customer_id)),
    }
}

/// The answer of a health probe.
#[derive(Debug)]
pub struct HealthResponse {
    pub status: &'static str,
    pub service: &'static str,
}

/// The service is up.
pub fn health() -> (response: HealthResponse)
    ensures
        response.status@ == "UP"@,
        response.service@ == "demo-customer-profile-api"@,
{
    HealthResponse { status: "UP", service: "demo-customer-profile-api" }
}

} // verus!
