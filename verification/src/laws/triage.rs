//! Laws of claim triage.

use crate::api_error::ApiErrorModel;
use crate::claim_fields::code_if;
use crate::claim_triage::{
    lists_active_policy, triage_outcome, TriageFacts, TriageModel, TriageRequestModel,
};
use crate::coverage::in_force;
use crate::json::JsonModel;
use crate::laws::documents::{names, says, says_active};
use crate::text::trimmed;
use vstd::prelude::*;

verus! {

proof fn lemma_levels_differ()
    ensures
        "high"@ != "medium"@,
        "high"@ != "low"@,
        "medium"@ != "low"@,
        "siu_review"@ != "manual_review"@,
        "siu_review"@ != "repair"@,
        "manual_review"@ != "repair"@,
{
    reveal_strlit("high");
    reveal_strlit("medium");
    reveal_strlit("low");
    reveal_strlit("siu_review");
    reveal_strlit("manual_review");
    reveal_strlit("repair");
    assert("high"@.len() == 4);
    assert("medium"@.len() == 6);
    assert("low"@.len() == 3);
    assert("siu_review"@.len() == 10);
    assert("manual_review"@.len() == 13);
    assert("repair"@.len() == 6);
}

/// The parts of a triage fit together: the risk is high exactly where the investigation unit has
/// to look at the claim, and low exactly where nobody has to; a loss is estimated exactly where
/// there is insurance for it; and repair is recommended exactly for insured claims that the unit
/// need not see.
pub proof fn law_triage_is_consistent(facts: TriageFacts)
    ensures
        ({
            let triage = facts.triage();
            &&& triage.requires_siu_review <==> triage.risk_level == "high"@
            &&& triage.requires_siu_review <==> triage.recommended_path == "siu_review"@
            &&& triage.risk_level == "low"@ <==> !triage.requires_siu_review
                && !triage.requires_adjuster_review
            &&& triage.estimated_loss > 0 <==> facts.insured()
            &&& triage.recommended_path == "repair"@ <==> facts.insured()
                && !triage.requires_siu_review
            &&& !facts.insured() ==> triage.requires_adjuster_review
            &&& triage.severity == "high"@ <==> facts.injury_reported
            &&& triage.severity == "low"@ <==> !facts.injury_reported && facts.vehicle_drivable
        }),
{
    lemma_levels_differ();
}

/// The more serious a claim, the higher the loss estimated for it.
pub proof fn law_losses_rise_with_severity(one: TriageFacts, other: TriageFacts)
    requires
        one.insured(),
        other.insured(),
        one.injury_reported ==> other.injury_reported,
        !one.vehicle_drivable ==> !other.vehicle_drivable,
    ensures
        one.triage().estimated_loss <= other.triage().estimated_loss,
{
}

proof fn lemma_codes_differ()
    ensures
        "POLICY_NOT_ACTIVE"@ != "VEHICLE_NOT_COVERED"@,
        "POLICY_NOT_ACTIVE"@ != "INJURY_REPORTED"@,
        "POLICY_NOT_ACTIVE"@ != "VEHICLE_NOT_DRIVABLE"@,
        "POLICY_NOT_ACTIVE"@ != "RECENT_PRIOR_CLAIMS"@,
        "POLICY_NOT_ACTIVE"@ != "CUSTOMER_CONSENT_REQUIRED"@,
        "VEHICLE_NOT_COVERED"@ != "INJURY_REPORTED"@,
        "VEHICLE_NOT_COVERED"@ != "VEHICLE_NOT_DRIVABLE"@,
        "VEHICLE_NOT_COVERED"@ != "RECENT_PRIOR_CLAIMS"@,
        "VEHICLE_NOT_COVERED"@ != "CUSTOMER_CONSENT_REQUIRED"@,
        "INJURY_REPORTED"@ != "VEHICLE_NOT_DRIVABLE"@,
        "INJURY_REPORTED"@ != "RECENT_PRIOR_CLAIMS"@,
        "INJURY_REPORTED"@ != "CUSTOMER_CONSENT_REQUIRED"@,
        "VEHICLE_NOT_DRIVABLE"@ != "RECENT_PRIOR_CLAIMS"@,
        "VEHICLE_NOT_DRIVABLE"@ != "CUSTOMER_CONSENT_REQUIRED"@,
        "RECENT_PRIOR_CLAIMS"@ != "CUSTOMER_CONSENT_REQUIRED"@,
{
    reveal_strlit("POLICY_NOT_ACTIVE");
    reveal_strlit("VEHICLE_NOT_COVERED");
    reveal_strlit("INJURY_REPORTED");
    reveal_strlit("VEHICLE_NOT_DRIVABLE");
    reveal_strlit("RECENT_PRIOR_CLAIMS");
    reveal_strlit("CUSTOMER_CONSENT_REQUIRED");
    assert("POLICY_NOT_ACTIVE"@.len() == 17);
    assert("VEHICLE_NOT_COVERED"@.len() == 19);
    assert("INJURY_REPORTED"@.len() == 15);
    assert("VEHICLE_NOT_DRIVABLE"@.len() == 20);
    assert("RECENT_PRIOR_CLAIMS"@.len() == 19);
    assert("CUSTOMER_CONSENT_REQUIRED"@.len() == 25);
    assert("VEHICLE_NOT_COVERED"@[0] != "RECENT_PRIOR_CLAIMS"@[0]);
}

/// A list of six codes holds what one of its parts holds.
proof fn lemma_six_parts(
    a: Seq<Seq<char>>,
    b: Seq<Seq<char>>,
    c: Seq<Seq<char>>,
    d: Seq<Seq<char>>,
    e: Seq<Seq<char>>,
    f: Seq<Seq<char>>,
    code: Seq<char>,
)
    ensures
        (a + b + c + d + e + f).contains(code) <==> a.contains(code) || b.contains(code)
            || c.contains(code) || d.contains(code) || e.contains(code) || f.contains(code),
{
    lemma_two_parts(a, b, code);
    lemma_two_parts(a + b, c, code);
    lemma_two_parts(a + b + c, d, code);
    lemma_two_parts(a + b + c + d, e, code);
    lemma_two_parts(a + b + c + d + e, f, code);
}

proof fn lemma_two_parts(a: Seq<Seq<char>>, b: Seq<Seq<char>>, code: Seq<char>)
    ensures
        (a + b).contains(code) <==> a.contains(code) || b.contains(code),
{
    if a.contains(code) {
        let i = choose|i: int| 0 <= i < a.len() && a[i] == code;
        assert((a + b)[i] == code);
    }
    if b.contains(code) {
        let i = choose|i: int| 0 <= i < b.len() && b[i] == code;
        assert((a + b)[a.len() + i] == code);
    }
    if (a + b).contains(code) {
        let i = choose|i: int| 0 <= i < (a + b).len() && (a + b)[i] == code;
        if i < a.len() {
            assert(a[i] == code);
        } else {
            assert(b[i - a.len()] == code);
        }
    }
}

proof fn lemma_code_if(applies: bool, listed: Seq<char>, code: Seq<char>)
    ensures
        code_if(applies, listed).contains(code) <==> applies && listed == code,
{
    if applies {
        assert(code_if(applies, listed)[0] == listed);
    }
}

/// Which codes a triage lists.
proof fn lemma_codes_listed(facts: TriageFacts, code: Seq<char>)
    ensures
        facts.reason_codes().contains(code) <==> {
            ||| !facts.policy_active && code == "POLICY_NOT_ACTIVE"@
            ||| !facts.vehicle_covered && code == "VEHICLE_NOT_COVERED"@
            ||| facts.injury_reported && code == "INJURY_REPORTED"@
            ||| !facts.vehicle_drivable && code == "VEHICLE_NOT_DRIVABLE"@
            ||| facts.recent_claim_count > 1 && code == "RECENT_PRIOR_CLAIMS"@
            ||| (!facts.consent || facts.customer_id == "CUST-3003"@) && code
                == "CUSTOMER_CONSENT_REQUIRED"@
        },
{
    let consent_required = !facts.consent || facts.customer_id == "CUST-3003"@;
    lemma_six_parts(
        code_if(!facts.policy_active, "POLICY_NOT_ACTIVE"@),
        code_if(!facts.vehicle_covered, "VEHICLE_NOT_COVERED"@),
        code_if(facts.injury_reported, "INJURY_REPORTED"@),
        code_if(!facts.vehicle_drivable, "VEHICLE_NOT_DRIVABLE"@),
        code_if(facts.recent_claim_count > 1, "RECENT_PRIOR_CLAIMS"@),
        code_if(consent_required, "CUSTOMER_CONSENT_REQUIRED"@),
        code,
    );
    lemma_code_if(!facts.policy_active, "POLICY_NOT_ACTIVE"@, code);
    lemma_code_if(!facts.vehicle_covered, "VEHICLE_NOT_COVERED"@, code);
    lemma_code_if(facts.injury_reported, "INJURY_REPORTED"@, code);
    lemma_code_if(!facts.vehicle_drivable, "VEHICLE_NOT_DRIVABLE"@, code);
    lemma_code_if(facts.recent_claim_count > 1, "RECENT_PRIOR_CLAIMS"@, code);
    lemma_code_if(consent_required, "CUSTOMER_CONSENT_REQUIRED"@, code);
}

/// Each reason is listed exactly where it applies, and nothing else is listed.
pub proof fn law_reasons_are_listed_where_they_apply(facts: TriageFacts, code: Seq<char>)
    ensures
        ({
            let codes = facts.triage().reason_codes;
            &&& codes.contains("POLICY_NOT_ACTIVE"@) <==> !facts.policy_active
            &&& codes.contains("VEHICLE_NOT_COVERED"@) <==> !facts.vehicle_covered
            &&& codes.contains("INJURY_REPORTED"@) <==> facts.injury_reported
            &&& codes.contains("VEHICLE_NOT_DRIVABLE"@) <==> !facts.vehicle_drivable
            &&& codes.contains("RECENT_PRIOR_CLAIMS"@) <==> facts.recent_claim_count > 1
            &&& codes.contains("CUSTOMER_CONSENT_REQUIRED"@) <==> !facts.consent
                || facts.customer_id == "CUST-3003"@
            &&& codes.contains(code) ==> code == "POLICY_NOT_ACTIVE"@ || code
                == "VEHICLE_NOT_COVERED"@ || code == "INJURY_REPORTED"@ || code
                == "VEHICLE_NOT_DRIVABLE"@ || code == "RECENT_PRIOR_CLAIMS"@ || code
                == "CUSTOMER_CONSENT_REQUIRED"@
        }),
{
    lemma_codes_differ();
    lemma_codes_listed(facts, "POLICY_NOT_ACTIVE"@);
    lemma_codes_listed(facts, "VEHICLE_NOT_COVERED"@);
    lemma_codes_listed(facts, "INJURY_REPORTED"@);
    lemma_codes_listed(facts, "VEHICLE_NOT_DRIVABLE"@);
    lemma_codes_listed(facts, "RECENT_PRIOR_CLAIMS"@);
    lemma_codes_listed(facts, "CUSTOMER_CONSENT_REQUIRED"@);
    lemma_codes_listed(facts, code);
}

/// A claim that an adjuster has to look at, or the investigation unit for its recent claims, has
/// a reason listed.
pub proof fn law_reviews_have_reasons(facts: TriageFacts)
    requires
        facts.triage().requires_adjuster_review || facts.recent_claim_count > 1,
    ensures
        facts.triage().reason_codes.len() > 0,
{
    let c = facts.triage().reason_codes;
    law_reasons_are_listed_where_they_apply(facts, "INJURY_REPORTED"@);
    if c.len() == 0 {
        assert(!c.contains("POLICY_NOT_ACTIVE"@));
        assert(!c.contains("VEHICLE_NOT_COVERED"@));
        assert(!c.contains("INJURY_REPORTED"@));
        assert(!c.contains("VEHICLE_NOT_DRIVABLE"@));
        assert(!c.contains("RECENT_PRIOR_CLAIMS"@));
        assert(!c.contains("CUSTOMER_CONSENT_REQUIRED"@));
    }
}

/// The two customers of the demonstration that take a path of their own: every claim of the one
/// goes to the investigation unit, and every claim of the other asks for consent.
pub proof fn law_demonstration_customers(request: TriageRequestModel)
    ensures
        request.customer_id() == Some("CUST-2002"@) ==> {
            &&& triage_outcome(request) matches Ok(triage)
            &&& triage.requires_siu_review
            &&& triage.risk_level == "high"@
            &&& triage.recommended_path == "siu_review"@
        },
        request.customer_id() == Some("CUST-3003"@) ==> {
            &&& triage_outcome(request) matches Ok(triage)
            &&& triage.reason_codes.contains("CUSTOMER_CONSENT_REQUIRED"@)
        },
{
    lemma_codes_listed(request.facts(), "CUSTOMER_CONSENT_REQUIRED"@);
}

/// An insured claim of any other customer without repeated recent claims is never at high risk,
/// and goes to repair.
pub proof fn law_insured_claims_go_to_repair(request: TriageRequestModel)
    requires
        request.customer_id() is Some,
        request.customer_id() != Some("CUST-2002"@),
        request.facts().insured(),
        request.facts().recent_claim_count <= 1,
    ensures
        triage_outcome(request) matches Ok(triage) && triage.recommended_path == "repair"@ && (
        triage.risk_level == "low"@ || triage.risk_level == "medium"@),
{
}

// ---------------------------------------------------------------------------------------
// From the documents of a claim
// ---------------------------------------------------------------------------------------

/// Whether the prior claims of a customer count more than one of late.
pub open spec fn repeated_of_late(prior_claims: JsonModel) -> bool {
    prior_claims.get("recentClaimCount"@) matches Some(JsonModel::Number(count)) && 1 < count
        <= u32::MAX
}

/// A policy is active where one on the list says so in its status. The list stands under
/// `policies`, or else is the document itself.
pub proof fn law_a_policy_on_the_list_is_active(document: JsonModel, list: JsonModel)
    requires
        document.get("policies"@) == Some(list) || (document.get("policies"@) is None && list
            == document),
    ensures
        lists_active_policy(document) <==> (list matches JsonModel::Array(policies) && exists|i: int|
            0 <= i < policies.len() && says_active(#[trigger] policies[i])),
{
    reveal_strlit("active");
    assert("active"@.len() == 6);
    if let JsonModel::Array(policies) = list {
        assert forall|i: int| 0 <= i < policies.len() implies says_active(#[trigger] policies[i])
            == in_force(policies[i]) by {}
        if lists_active_policy(document) {
            let i = choose|i: int| 0 <= i < policies.len() && in_force(#[trigger] policies[i]);
            assert(says_active(policies[i]));
        }
        if exists|i: int| 0 <= i < policies.len() && says_active(#[trigger] policies[i]) {
            let i = choose|i: int| 0 <= i < policies.len() && says_active(#[trigger] policies[i]);
            assert(in_force(policies[i]));
        }
    }
}

/// Triage refuses a claim exactly where neither the claim nor the customer record names a
/// customer; otherwise the claim counts as that of the customer the claim names, or else of the
/// one the record names.
pub proof fn law_triage_takes_a_customer(request: TriageRequestModel, id: Seq<char>)
    ensures
        triage_outcome(request) is Err <==> forall|name: Seq<char>|
            !(#[trigger] names(request.claim, "customerId"@, name)) && !names(
                request.customer,
                "customerId"@,
                name,
            ),
        triage_outcome(request) matches Err(refusal) ==> refusal == (ApiErrorModel {
            status: 400,
            code: "INVALID_DECISION_REQUEST"@,
            message: "claim.customerId or customer.customerId is required"@,
        }),
        names(request.claim, "customerId"@, id) ==> request.customer_id() == Some(id),
        names(request.customer, "customerId"@, id) && (forall|name: Seq<char>|
            !#[trigger] names(request.claim, "customerId"@, name)) ==> request.customer_id()
            == Some(id),
{
    if let Some(JsonModel::Text(text)) = request.claim.get("customerId"@) {
        assert(names(request.claim, "customerId"@, trimmed(text)) <==> trimmed(text).len() > 0);
    }
    if let Some(JsonModel::Text(text)) = request.customer.get("customerId"@) {
        assert(names(request.customer, "customerId"@, trimmed(text)) <==> trimmed(text).len() > 0);
        assert(names(request.claim, "customerId"@, trimmed(text)) ==> request.claim.get(
            "customerId"@,
        ) is Some);
    }
}

/// What the documents of a claim call for. An adjuster looks at a claim with an injury, with a
/// vehicle that cannot be driven, without an active policy or a covered vehicle, or without
/// consent. The investigation unit looks at every claim after more than one of late, insured or
/// not, and at every claim of the one customer; and the unit's claims, and they alone, are at
/// high risk and on its path.
pub proof fn law_triage_calls_for_reviews(request: TriageRequestModel, triage: TriageModel)
    requires
        triage_outcome(request) == Ok::<TriageModel, ApiErrorModel>(triage),
    ensures
        ({
            let injured = says(request.claim, "injuryReported"@, true);
            let undrivable = says(request.claim, "vehicleDrivable"@, false);
            let insured = lists_active_policy(request.policies) && says(
                request.vehicle,
                "covered"@,
                true,
            );
            let unwilling = says(request.customer, "consent"@, false);
            let suspect = repeated_of_late(request.prior_claims) || request.customer_id() == Some(
                "CUST-2002"@,
            );
            let troubled = injured || undrivable || !insured || unwilling;
            &&& triage.requires_siu_review <==> suspect
            &&& triage.requires_adjuster_review <==> troubled
            &&& triage.risk_level == (if suspect {
                "high"@
            } else if troubled {
                "medium"@
            } else {
                "low"@
            })
            &&& suspect ==> triage.recommended_path == "siu_review"@
            &&& !suspect && insured ==> triage.recommended_path == "repair"@
            &&& !suspect && !insured ==> triage.recommended_path == "manual_review"@
            &&& injured ==> triage.severity == "high"@
            &&& !injured && undrivable ==> triage.severity == "medium"@
            &&& !injured && !undrivable ==> triage.severity == "low"@
            &&& !insured ==> triage.estimated_loss == 0
            &&& insured && injured ==> triage.estimated_loss == 12000
            &&& insured && !injured && undrivable ==> triage.estimated_loss == 3200
            &&& insured && !injured && !undrivable ==> triage.estimated_loss == 1800
        }),
{
}

/// The reasons that the documents of a claim give, and the order in which they are listed.
pub proof fn law_triage_lists_the_reasons(request: TriageRequestModel, triage: TriageModel)
    requires
        triage_outcome(request) == Ok::<TriageModel, ApiErrorModel>(triage),
    ensures
        ({
            let codes = triage.reason_codes;
            let none = Seq::<Seq<char>>::empty();
            let inactive = !lists_active_policy(request.policies);
            let uncovered = !says(request.vehicle, "covered"@, true);
            let injured = says(request.claim, "injuryReported"@, true);
            let undrivable = says(request.claim, "vehicleDrivable"@, false);
            let repeated = repeated_of_late(request.prior_claims);
            let unwilling = says(request.customer, "consent"@, false) || request.customer_id()
                == Some("CUST-3003"@);
            &&& codes.contains("POLICY_NOT_ACTIVE"@) <==> inactive
            &&& codes.contains("VEHICLE_NOT_COVERED"@) <==> uncovered
            &&& codes.contains("INJURY_REPORTED"@) <==> injured
            &&& codes.contains("VEHICLE_NOT_DRIVABLE"@) <==> undrivable
            &&& codes.contains("RECENT_PRIOR_CLAIMS"@) <==> repeated
            &&& codes.contains("CUSTOMER_CONSENT_REQUIRED"@) <==> unwilling
            &&& codes == (if inactive { seq!["POLICY_NOT_ACTIVE"@] } else { none }) + (if uncovered {
                seq!["VEHICLE_NOT_COVERED"@]
            } else {
                none
            }) + (if injured { seq!["INJURY_REPORTED"@] } else { none }) + (if undrivable {
                seq!["VEHICLE_NOT_DRIVABLE"@]
            } else {
                none
            }) + (if repeated { seq!["RECENT_PRIOR_CLAIMS"@] } else { none }) + (if unwilling {
                seq!["CUSTOMER_CONSENT_REQUIRED"@]
            } else {
                none
            })
        }),
{
    reveal_strlit("CUST-3003");
    assert("CUST-3003"@.len() == 9);
    law_reasons_are_listed_where_they_apply(request.facts(), "INJURY_REPORTED"@);
}

/// One more recent claim never takes a claim away from the investigation unit, and what does not
/// touch the recent claims or the customer never sends one there.
pub proof fn law_only_recent_claims_and_the_customer_call_the_unit(
    one: TriageFacts,
    other: TriageFacts,
)
    requires
        one.customer_id == other.customer_id,
    ensures
        one.recent_claim_count <= other.recent_claim_count && one.triage().requires_siu_review
            ==> other.triage().requires_siu_review,
        one.recent_claim_count == other.recent_claim_count ==> one.triage().requires_siu_review
            == other.triage().requires_siu_review,
        one.recent_claim_count > 1 ==> one.triage().requires_siu_review
            && one.triage().risk_level == "high"@ && one.triage().recommended_path
            == "siu_review"@,
        one.recent_claim_count <= 1 && one.customer_id != "CUST-2002"@
            ==> !one.triage().requires_siu_review,
{
}

} // verus!
