//! What is known of a customer: profile, preferences, policies, vehicles and prior claims.

use crate::text::{clone_texts, views};
use vstd::hash_map::StringHashMap;
use vstd::prelude::*;

verus! {

/// Who a customer is.
#[derive(Debug, PartialEq, Eq)]
pub struct CustomerProfile {
    pub customer_id: String,
    pub display_name: String,
    pub segment: String,
    pub state: String,
    pub account_status: String,
}

pub struct ProfileModel {
    pub customer_id: Seq<char>,
    pub display_name: Seq<char>,
    pub segment: Seq<char>,
    pub state: Seq<char>,
    pub account_status: Seq<char>,
}

impl DeepView for CustomerProfile {
    type V = ProfileModel;

    open spec fn deep_view(&self) -> ProfileModel {
        ProfileModel {
            customer_id: self.customer_id@,
            display_name: self.display_name@,
            segment: self.segment@,
            state: self.state@,
            account_status: self.account_status@,
        }
    }
}

impl Clone for CustomerProfile {
    fn clone(&self) -> (profile: CustomerProfile)
        ensures
            profile.deep_view() == self.deep_view(),
    {
        CustomerProfile {
            customer_id: self.customer_id.clone(),
            display_name: self.display_name.clone(),
            segment: self.segment.clone(),
            state: self.state.clone(),
            account_status: self.account_status.clone(),
        }
    }
}

/// How a customer wants to be contacted, and about what.
#[derive(Debug, PartialEq, Eq)]
pub struct CustomerPreferences {
    pub customer_id: String,
    pub consent: bool,
    pub preferred_categories: Vec<String>,
    pub preferred_contact_channel: String,
}

#[verifier::ext_equal]
pub struct PreferencesModel {
    pub customer_id: Seq<char>,
    pub consent: bool,
    pub preferred_categories: Seq<Seq<char>>,
    pub preferred_contact_channel: Seq<char>,
}

impl DeepView for CustomerPreferences {
    type V = PreferencesModel;

    open spec fn deep_view(&self) -> PreferencesModel {
        PreferencesModel {
            customer_id: self.customer_id@,
            consent: self.consent,
            preferred_categories: views(self.preferred_categories@),
            preferred_contact_channel: self.preferred_contact_channel@,
        }
    }
}

/// The preferences of a customer, asked for through a channel.
#[derive(Debug)]
pub struct PreferencesResponse {
    pub customer_id: String,
    pub channel: String,
    pub consent: bool,
    pub preferred_categories: Vec<String>,
    pub preferred_contact_channel: String,
}

#[verifier::ext_equal]
pub struct ChannelPreferencesModel {
    pub channel: Seq<char>,
    pub preferences: PreferencesModel,
}

impl DeepView for PreferencesResponse {
    type V = ChannelPreferencesModel;

    open spec fn deep_view(&self) -> ChannelPreferencesModel {
        ChannelPreferencesModel {
            channel: self.channel@,
            preferences: PreferencesModel {
                customer_id: self.customer_id@,
                consent: self.consent,
                preferred_categories: views(self.preferred_categories@),
                preferred_contact_channel: self.preferred_contact_channel@,
            },
        }
    }
}

impl CustomerPreferences {
    /// The preferences, with the channel through which they were asked for.
    pub fn for_channel(&self, channel: &str) -> (response: PreferencesResponse)
        ensures
            response.deep_view() == (ChannelPreferencesModel {
                channel: channel@,
                preferences: self.deep_view(),
            }),
    {
        PreferencesResponse {
            customer_id: self.customer_id.clone(),
            channel: channel.to_string(),
            consent: self.consent,
            preferred_categories: clone_texts(&self.preferred_categories),
            preferred_contact_channel: self.preferred_contact_channel.clone(),
        }
    }
}

/// The channel of a request that names none.
pub fn default_channel() -> (channel: String)
    ensures
        channel@ == "portal"@,
{
    "portal".to_string()
}

/// What a policy covers, and on which terms.
#[derive(Debug, PartialEq, Eq)]
pub struct Coverage {
    pub coverage_type: String,
    pub deductible: u32,
    pub limit: u32,
}

pub struct CoverageModel {
    pub coverage_type: Seq<char>,
    pub deductible: u32,
    pub limit: u32,
}

impl DeepView for Coverage {
    type V = CoverageModel;

    open spec fn deep_view(&self) -> CoverageModel {
        CoverageModel {
            coverage_type: self.coverage_type@,
            deductible: self.deductible,
            limit: self.limit,
        }
    }
}

impl Clone for Coverage {
    fn clone(&self) -> (coverage: Coverage)
        ensures
            coverage.deep_view() == self.deep_view(),
    {
        Coverage {
            coverage_type: self.coverage_type.clone(),
            deductible: self.deductible,
            limit: self.limit,
        }
    }
}

impl Coverage {
    pub fn new(coverage_type: &str, deductible: u32, limit: u32) -> (coverage: Coverage)
        ensures
            coverage.deep_view() == (CoverageModel {
                coverage_type: coverage_type@,
                deductible,
                limit,
            }),
    {
        Coverage { coverage_type: coverage_type.to_string(), deductible, limit }
    }
}

/// An insurance policy.
#[derive(Debug, PartialEq, Eq)]
pub struct Policy {
    pub policy_id: String,
    pub status: String,
    pub effective_date: String,
    pub expiry_date: String,
    pub province: String,
    pub coverages: Vec<Coverage>,
}

#[verifier::ext_equal]
pub struct PolicyModel {
    pub policy_id: Seq<char>,
    pub status: Seq<char>,
    pub effective_date: Seq<char>,
    pub expiry_date: Seq<char>,
    pub province: Seq<char>,
    pub coverages: Seq<CoverageModel>,
}

impl DeepView for Policy {
    type V = PolicyModel;

    open spec fn deep_view(&self) -> PolicyModel {
        PolicyModel {
            policy_id: self.policy_id@,
            status: self.status@,
            effective_date: self.effective_date@,
            expiry_date: self.expiry_date@,
            province: self.province@,
            coverages: self.coverages.deep_view(),
        }
    }
}

impl Clone for Policy {
    fn clone(&self) -> (policy: Policy)
        ensures
            policy.deep_view() == self.deep_view(),
    {
        let coverages = self.coverages.clone();
        proof {
            assert(coverages.deep_view() =~= self.coverages.deep_view());
        }
        Policy {
            policy_id: self.policy_id.clone(),
            status: self.status.clone(),
            effective_date: self.effective_date.clone(),
            expiry_date: self.expiry_date.clone(),
            province: self.province.clone(),
            coverages,
        }
    }
}

impl Policy {
    pub fn new(
        policy_id: &str,
        status: &str,
        effective_date: &str,
        expiry_date: &str,
        province: &str,
        coverages: Vec<Coverage>,
    ) -> (policy: Policy)
        ensures
            policy.deep_view() == (PolicyModel {
                policy_id: policy_id@,
                status: status@,
                effective_date: effective_date@,
                expiry_date: expiry_date@,
                province: province@,
                coverages: coverages.deep_view(),
            }),
    {
        Policy {
            policy_id: policy_id.to_string(),
            status: status.to_string(),
            effective_date: effective_date.to_string(),
            expiry_date: expiry_date.to_string(),
            province: province.to_string(),
            coverages,
        }
    }
}

/// The policies of a customer.
#[derive(Debug, PartialEq, Eq)]
pub struct PolicyResponse {
    pub customer_id: String,
    pub policies: Vec<Policy>,
}

#[verifier::ext_equal]
pub struct PoliciesModel {
    pub customer_id: Seq<char>,
    pub policies: Seq<PolicyModel>,
}

impl DeepView for PolicyResponse {
    type V = PoliciesModel;

    open spec fn deep_view(&self) -> PoliciesModel {
        PoliciesModel { customer_id: self.customer_id@, policies: self.policies.deep_view() }
    }
}

impl Clone for PolicyResponse {
    fn clone(&self) -> (response: PolicyResponse)
        ensures
            response.deep_view() == self.deep_view(),
    {
        let policies = self.policies.clone();
        proof {
            assert(policies.deep_view() =~= self.policies.deep_view());
        }
        PolicyResponse { customer_id: self.customer_id.clone(), policies }
    }
}

/// A vehicle of a customer.
#[derive(Debug, PartialEq, Eq)]
pub struct Vehicle {
    pub customer_id: String,
    pub vehicle_id: String,
    pub vin: String,
    pub year: u16,
    pub make: String,
    pub model: String,
    pub covered: bool,
}

pub struct VehicleModel {
    pub customer_id: Seq<char>,
    pub vehicle_id: Seq<char>,
    pub vin: Seq<char>,
    pub year: u16,
    pub make: Seq<char>,
    pub model: Seq<char>,
    pub covered: bool,
}

impl DeepView for Vehicle {
    type V = VehicleModel;

    open spec fn deep_view(&self) -> VehicleModel {
        VehicleModel {
            customer_id: self.customer_id@,
            vehicle_id: self.vehicle_id@,
            vin: self.vin@,
            year: self.year,
            make: self.make@,
            model: self.model@,
            covered: self.covered,
        }
    }
}

impl Clone for Vehicle {
    fn clone(&self) -> (vehicle: Vehicle)
        ensures
            vehicle.deep_view() == self.deep_view(),
    {
        Vehicle {
            customer_id: self.customer_id.clone(),
            vehicle_id: self.vehicle_id.clone(),
            vin: self.vin.clone(),
            year: self.year,
            make: self.make.clone(),
            model: self.model.clone(),
            covered: self.covered,
        }
    }
}

impl Vehicle {
    pub fn new(
        customer_id: &str,
        vehicle_id: &str,
        vin: &str,
        year: u16,
        make: &str,
        model: &str,
        covered: bool,
    ) -> (vehicle: Vehicle)
        ensures
            vehicle.deep_view() == (VehicleModel {
                customer_id: customer_id@,
                vehicle_id: vehicle_id@,
                vin: vin@,
                year,
                make: make@,
                model: model@,
                covered,
            }),
    {
        Vehicle {
            customer_id: customer_id.to_string(),
            vehicle_id: vehicle_id.to_string(),
            vin: vin.to_string(),
            year,
            make: make.to_string(),
            model: model.to_string(),
            covered,
        }
    }
}

/// A claim of the past.
#[derive(Debug, PartialEq, Eq)]
pub struct PriorClaim {
    pub claim_id: String,
    pub incident_date: String,
    pub status: String,
    pub paid_amount: u32,
}

pub struct PriorClaimModel {
    pub claim_id: Seq<char>,
    pub incident_date: Seq<char>,
    pub status: Seq<char>,
    pub paid_amount: u32,
}

impl DeepView for PriorClaim {
    type V = PriorClaimModel;

    open spec fn deep_view(&self) -> PriorClaimModel {
        PriorClaimModel {
            claim_id: self.claim_id@,
            incident_date: self.incident_date@,
            status: self.status@,
            paid_amount: self.paid_amount,
        }
    }
}

impl Clone for PriorClaim {
    fn clone(&self) -> (claim: PriorClaim)
        ensures
            claim.deep_view() == self.deep_view(),
    {
        PriorClaim {
            claim_id: self.claim_id.clone(),
            incident_date: self.incident_date.clone(),
            status: self.status.clone(),
            paid_amount: self.paid_amount,
        }
    }
}

impl PriorClaim {
    pub fn new(
        claim_id: &str,
        incident_date: &str,
        status: &str,
        paid_amount: u32,
    ) -> (claim: PriorClaim)
        ensures
            claim.deep_view() == (PriorClaimModel {
                claim_id: claim_id@,
                incident_date: incident_date@,
                status: status@,
                paid_amount,
            }),
    {
        PriorClaim {
            claim_id: claim_id.to_string(),
            incident_date: incident_date.to_string(),
            status: status.to_string(),
            paid_amount,
        }
    }
}

/// The claims of a customer's past.
#[derive(Debug, PartialEq, Eq)]
pub struct PriorClaimsResponse {
    pub customer_id: String,
    pub prior_claim_count: u32,
    pub recent_claim_count: u32,
    pub claims: Vec<PriorClaim>,
}

#[verifier::ext_equal]
pub struct PriorClaimsModel {
    pub customer_id: Seq<char>,
    pub prior_claim_count: u32,
    pub recent_claim_count: u32,
    pub claims: Seq<PriorClaimModel>,
}

impl DeepView for PriorClaimsResponse {
    type V = PriorClaimsModel;

    open spec fn deep_view(&self) -> PriorClaimsModel {
        PriorClaimsModel {
            customer_id: self.customer_id@,
            prior_claim_count: self.prior_claim_count,
            recent_claim_count: self.recent_claim_count,
            claims: self.claims.deep_view(),
        }
    }
}

impl Clone for PriorClaimsResponse {
    fn clone(&self) -> (response: PriorClaimsResponse)
        ensures
            response.deep_view() == self.deep_view(),
    {
        let claims = self.claims.clone();
        proof {
            assert(claims.deep_view() =~= self.claims.deep_view());
        }
        PriorClaimsResponse {
            customer_id: self.customer_id.clone(),
            prior_claim_count: self.prior_claim_count,
            recent_claim_count: self.recent_claim_count,
            claims,
        }
    }
}

/// The claims of a customer's past. They are counted in 32 bits.
pub open spec fn prior_claims_of(
    customer_id: Seq<char>,
    recent_claim_count: u32,
    claims: Seq<PriorClaimModel>,
) -> PriorClaimsModel {
    PriorClaimsModel {
        customer_id,
        prior_claim_count: (claims.len() % 0x1_0000_0000) as u32,
        recent_claim_count,
        claims,
    }
}

impl PriorClaimsResponse {
    pub fn new(
        customer_id: &str,
        recent_claim_count: u32,
        claims: Vec<PriorClaim>,
    ) -> (response: PriorClaimsResponse)
        ensures
            response.deep_view() == prior_claims_of(
                customer_id@,
                recent_claim_count,
                claims.deep_view(),
            ),
    {
        let count: u64 = claims.len() as u64 % 0x1_0000_0000;
        PriorClaimsResponse {
            customer_id: customer_id.to_string(),
            prior_claim_count: count as u32,
            recent_claim_count,
            claims,
        }
    }
}

/// All that is known of a customer.
pub struct CustomerRecord {
    pub profile: CustomerProfile,
    pub preferences: CustomerPreferences,
    pub policies: PolicyResponse,
    pub vehicles: StringHashMap<Vehicle>,
    pub prior_claims: PriorClaimsResponse,
}

#[verifier::ext_equal]
pub struct RecordModel {
    pub profile: ProfileModel,
    pub preferences: PreferencesModel,
    pub policies: PoliciesModel,
    pub vehicles: Map<Seq<char>, VehicleModel>,
    pub prior_claims: PriorClaimsModel,
}

impl DeepView for CustomerRecord {
    type V = RecordModel;

    open spec fn deep_view(&self) -> RecordModel {
        RecordModel {
            profile: self.profile.deep_view(),
            preferences: self.preferences.deep_view(),
            policies: self.policies.deep_view(),
            vehicles: self.vehicles@.map_values(|vehicle: Vehicle| vehicle.deep_view()),
            prior_claims: self.prior_claims.deep_view(),
        }
    }
}

/// Vehicles by their names. Of several with one name, the last counts.
pub open spec fn by_vehicle_id(vehicles: Seq<VehicleModel>) -> Map<Seq<char>, VehicleModel>
    decreases vehicles.len(),
{
    if vehicles.len() == 0 {
        Map::empty()
    } else {
        by_vehicle_id(vehicles.drop_last()).insert(vehicles.last().vehicle_id, vehicles.last())
    }
}

/// The record of a customer.
pub open spec fn record_of(
    profile: ProfileModel,
    consent: bool,
    preferred_categories: Seq<Seq<char>>,
    preferred_contact_channel: Seq<char>,
    policies: Seq<PolicyModel>,
    vehicles: Seq<VehicleModel>,
    prior_claims: PriorClaimsModel,
) -> RecordModel {
    RecordModel {
        profile,
        preferences: PreferencesModel {
            customer_id: profile.customer_id,
            consent,
            preferred_categories,
            preferred_contact_channel,
        },
        policies: PoliciesModel { customer_id: profile.customer_id, policies },
        vehicles: by_vehicle_id(vehicles),
        prior_claims,
    }
}

/// Vehicles by their names.
fn index_vehicles(vehicles: &Vec<Vehicle>) -> (by_id: StringHashMap<Vehicle>)
    ensures
        by_id@.map_values(|vehicle: Vehicle| vehicle.deep_view()) == by_vehicle_id(
            vehicles.deep_view(),
        ),
{
    let ghost all = vehicles.deep_view();
    let ghost meaning = |vehicle: Vehicle| vehicle.deep_view();
    let mut by_id: StringHashMap<Vehicle> = StringHashMap::new();
    let mut i: usize = 0;
    proof {
        assert(by_id@.map_values(meaning) =~= by_vehicle_id(all.take(0)));
    }
    while i < vehicles.len()
        invariant
            i <= vehicles@.len(),
            all == vehicles.deep_view(),
            meaning == (|vehicle: Vehicle| vehicle.deep_view()),
            by_id@.map_values(meaning) == by_vehicle_id(all.take(i as int)),
        decreases vehicles@.len() - i,
    {
        let ghost before = by_id@;
        let vehicle = vehicles[i].clone();
        let ghost added = vehicle;
        by_id.insert(vehicle.vehicle_id.clone(), vehicle);
        proof {
            assert(all.take(i + 1).drop_last() =~= all.take(i as int));
            assert(all.take(i + 1).last() == added.deep_view());
            assert(by_id@.map_values(meaning) =~= before.map_values(meaning).insert(
                added.vehicle_id@,
                added.deep_view(),
            ));
        }
        i = i + 1;
    }
    proof {
        assert(all.take(all.len() as int) =~= all);
    }
    by_id
}

impl CustomerRecord {
    pub fn new(
        customer_id: &str,
        display_name: &str,
        segment: &str,
        state: &str,
        account_status: &str,
        consent: bool,
        preferred_categories: [&str; 1],
        preferred_contact_channel: &str,
        policies: Vec<Policy>,
        vehicles: Vec<Vehicle>,
        prior_claims: PriorClaimsResponse,
    ) -> (record: CustomerRecord)
        ensures
            record.deep_view() == record_of(
                ProfileModel {
                    customer_id: customer_id@,
                    display_name: display_name@,
                    segment: segment@,
                    state: state@,
                    account_status: account_status@,
                },
                consent,
                seq![preferred_categories@[0]@],
                preferred_contact_channel@,
                policies.deep_view(),
                vehicles.deep_view(),
                prior_claims.deep_view(),
            ),
    {
        let mut categories: Vec<String> = Vec::new();
        categories.push(preferred_categories[0].to_string());
        proof {
            assert(views(categories@) =~= seq![preferred_categories@[0]@]);
        }
        CustomerRecord {
            profile: CustomerProfile {
                customer_id: customer_id.to_string(),
                display_name: display_name.to_string(),
                segment: segment.to_string(),
                state: state.to_string(),
                account_status: account_status.to_string(),
            },
            preferences: CustomerPreferences {
                customer_id: customer_id.to_string(),
                consent,
                preferred_categories: categories,
                preferred_contact_channel: preferred_contact_channel.to_string(),
            },
            policies: PolicyResponse { customer_id: customer_id.to_string(), policies },
            vehicles: index_vehicles(&vehicles),
            prior_claims,
        }
    }
}

} // verus!
