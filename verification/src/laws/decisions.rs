//! Laws of the offer decision service.

use crate::api_error::ApiErrorModel;
use crate::headers::header_text;
use crate::json::JsonModel;
use crate::laws::documents::{counts, counts_nothing, names};
use crate::laws::texts::law_decimal_is_injective;
use crate::offer_decision::{
    audit_code, decision_name, next_number, seeded_service, DecisionModel, DecisionRequestModel, ServiceModel,
    SettlementModel, SettlementRequestModel,
};
use crate::offers::is_open;
use crate::text::{ascii_alphanumeric, ascii_upper, decimal, same_ignoring_case, trimmed};
use vstd::prelude::*;

verus! {

/// A call of one of the endpoints that record something, with the headers it came with.
pub enum Call {
    Decision(DecisionRequestModel, Map<Seq<char>, Seq<Seq<u8>>>),
    Settlement(SettlementRequestModel, Map<Seq<char>, Seq<Seq<u8>>>),
}

/// The service after a call.
pub open spec fn after_call(service: ServiceModel, call: Call) -> ServiceModel {
    match call {
        Call::Decision(request, headers) => service.after_decision_call(request, headers),
        Call::Settlement(request, headers) => service.after_settlement_call(request, headers),
    }
}

/// The service after some calls, one after the other.
pub open spec fn after_calls(service: ServiceModel, calls: Seq<Call>) -> ServiceModel
    decreases calls.len(),
{
    if calls.len() == 0 {
        service
    } else {
        after_call(after_calls(service, calls.drop_last()), calls.last())
    }
}

/// Whether all that was answered before is still answered so.
pub open spec fn keeps_answers(before: ServiceModel, after: ServiceModel) -> bool {
    &&& after.offers == before.offers
    &&& forall|key: Seq<char>| #[trigger]
        before.decisions.contains_key(key) ==> after.decisions.contains_key(key)
            && after.decisions[key] == before.decisions[key]
    &&& forall|key: Seq<char>| #[trigger]
        before.settlements.contains_key(key) ==> after.settlements.contains_key(key)
            && after.settlements[key] == before.settlements[key]
}

/// Whatever calls come, they take no answer back that was recorded before.
pub proof fn law_answers_are_kept(service: ServiceModel, calls: Seq<Call>)
    ensures
        keeps_answers(service, after_calls(service, calls)),
    decreases calls.len(),
{
    if calls.len() > 0 {
        law_answers_are_kept(service, calls.drop_last());
    }
}

/// A decision that was recorded under a key is the decision on every later request under that
/// key, and the later request records nothing.
pub proof fn law_recording_a_decision_is_idempotent(
    service: ServiceModel,
    first: DecisionRequestModel,
    second: DecisionRequestModel,
    key: Seq<char>,
)
    ensures
        service.decided(first, key).decision(second, key) == service.decision(first, key),
        service.decided(first, key).decided(second, key) == service.decided(first, key),
{
}

/// A recommendation that was recorded under a key is the recommendation on every later request
/// under that key, and the later request records nothing.
pub proof fn law_recording_a_recommendation_is_idempotent(
    service: ServiceModel,
    first: SettlementRequestModel,
    second: SettlementRequestModel,
    key: Seq<char>,
)
    ensures
        service.settled(first, key).settlement(second, key) == service.settlement(first, key),
        service.settled(first, key).settled(second, key) == service.settled(first, key),
{
}

/// The decision endpoint answers a repeated key as it answered it first, whatever was called in
/// between, and the repetition records nothing.
pub proof fn law_a_repeated_decision_gets_the_first_answer(
    service: ServiceModel,
    first: DecisionRequestModel,
    first_headers: Map<Seq<char>, Seq<Seq<u8>>>,
    between: Seq<Call>,
    second: DecisionRequestModel,
    second_headers: Map<Seq<char>, Seq<Seq<u8>>>,
)
    requires
        is_open(service.offers, first.offer_id),
        is_open(service.offers, second.offer_id),
        first.key(first_headers) == second.key(second_headers),
    ensures
        ({
            let later = after_calls(service.after_decision_call(first, first_headers), between);
            &&& later.decision_outcome(second, second_headers) == service.decision_outcome(
                first,
                first_headers,
            )
            &&& later.after_decision_call(second, second_headers) == later
        }),
{
    let recorded = service.after_decision_call(first, first_headers);
    law_answers_are_kept(recorded, between);
    assert(recorded.decisions.contains_key(first.key(first_headers)));
}

/// The settlement endpoint answers a repeated key as it answered it first, whatever was called
/// in between, and the repetition records nothing.
pub proof fn law_a_repeated_settlement_gets_the_first_answer(
    service: ServiceModel,
    first: SettlementRequestModel,
    first_headers: Map<Seq<char>, Seq<Seq<u8>>>,
    between: Seq<Call>,
    second: SettlementRequestModel,
    second_headers: Map<Seq<char>, Seq<Seq<u8>>>,
)
    requires
        first.customer_id() is Some,
        second.customer_id() is Some,
        first.key(first_headers) == second.key(second_headers),
    ensures
        ({
            let later = after_calls(service.after_settlement_call(first, first_headers), between);
            &&& later.settlement_outcome(second, second_headers) == service.settlement_outcome(
                first,
                first_headers,
            )
            &&& later.after_settlement_call(second, second_headers) == later
        }),
{
    let recorded = service.after_settlement_call(first, first_headers);
    law_answers_are_kept(recorded, between);
    assert(recorded.settlements.contains_key(first.key(first_headers)));
}

/// A refused request changes nothing; a request is refused exactly where its offer is not open.
pub proof fn law_refused_decisions_change_nothing(
    service: ServiceModel,
    request: DecisionRequestModel,
    headers: Map<Seq<char>, Seq<Seq<u8>>>,
)
    ensures
        service.decision_outcome(request, headers) is Err <==> !is_open(
            service.offers,
            request.offer_id,
        ),
        service.decision_outcome(request, headers) is Err ==> service.after_decision_call(
            request,
            headers,
        ) == service,
{
}

/// A refused request changes nothing; a request is refused exactly where it names no customer.
pub proof fn law_refused_settlements_change_nothing(
    service: ServiceModel,
    request: SettlementRequestModel,
    headers: Map<Seq<char>, Seq<Seq<u8>>>,
)
    ensures
        service.settlement_outcome(request, headers) is Err <==> request.customer_id() is None,
        service.settlement_outcome(request, headers) is Err ==> service.after_settlement_call(
            request,
            headers,
        ) == service,
{
}

// ---------------------------------------------------------------------------------------
// Names of decisions
// ---------------------------------------------------------------------------------------

/// Decisions with different numbers have different names.
pub proof fn law_decision_names_are_distinct(a: usize, b: usize)
    ensures
        decision_name(a) == decision_name(b) ==> a == b,
{
    if decision_name(a) == decision_name(b) {
        let prefix = "DEC-"@;
        assert(decision_name(a).skip(prefix.len() as int) =~= decimal(a as nat));
        assert(decision_name(b).skip(prefix.len() as int) =~= decimal(b as nat));
        law_decimal_is_injective(a as nat, b as nat);
    }
}

/// The name of the demonstration's decision is that of a number below all that are handed out.
proof fn lemma_demo_name()
    ensures
        decision_name(1001) == "DEC-1001"@,
{
    reveal_strlit("DEC-");
    reveal_strlit("DEC-1001");
    assert(decimal(1) == seq!['1']);
    assert(decimal(10) =~= seq!['1', '0']);
    assert(decimal(100) =~= seq!['1', '0', '0']);
    assert(decimal(1001) =~= seq!['1', '0', '0', '1']);
    assert(decision_name(1001) =~= "DEC-1001"@);
}

/// Whether all names are the demonstration's or belong to numbers from `first` on and below
/// `next`, and no two of the latter are the same.
pub open spec fn well_numbered(
    names: Map<Seq<char>, Seq<char>>,
    first: usize,
    next: usize,
) -> bool {
    &&& first <= next
    &&& forall|key: Seq<char>| #[trigger]
        names.contains_key(key) ==> names[key] == "DEC-1001"@ || exists|n: usize|
            first <= n < next && names[key] == #[trigger] decision_name(n)
    &&& forall|one: Seq<char>, other: Seq<char>|
        #[trigger] names.contains_key(one) && #[trigger] names.contains_key(other) && one != other
            && names[one] != "DEC-1001"@ ==> names[one] != names[other]
}

/// The names of the decisions, by their keys.
pub open spec fn decision_names(service: ServiceModel) -> Map<Seq<char>, Seq<char>> {
    service.decisions.map_values(|d: DecisionModel| d.decision_id)
}

/// The names of the recommendations, by their keys.
pub open spec fn settlement_names(service: ServiceModel) -> Map<Seq<char>, Seq<char>> {
    service.settlements.map_values(|s: SettlementModel| s.decision_id)
}

/// Whether the service has given no name twice, but for the demonstration's.
pub open spec fn names_once(service: ServiceModel) -> bool {
    &&& well_numbered(decision_names(service), 2000, service.next_decision_number)
    &&& well_numbered(settlement_names(service), 3000, service.next_settlement_number)
}

proof fn lemma_number_used(
    names: Map<Seq<char>, Seq<char>>,
    first: usize,
    next: usize,
    key: Seq<char>,
)
    requires
        well_numbered(names, first, next),
        1001 < first,
        next < usize::MAX,
        !names.contains_key(key),
    ensures
        well_numbered(names.insert(key, decision_name(next)), first, next_number(next)),
{
    let after = names.insert(key, decision_name(next));
    lemma_demo_name();
    law_decision_names_are_distinct(1001, next);
    assert forall|k: Seq<char>| #[trigger] after.contains_key(k) implies after[k] == "DEC-1001"@
        || exists|n: usize|
        first <= n < next_number(next) && after[k] == #[trigger] decision_name(n) by {
        if k == key {
            assert(after[k] == decision_name(next));
        } else {
            assert(names.contains_key(k));
        }
    }
    assert forall|one: Seq<char>, other: Seq<char>|
        #[trigger] after.contains_key(one) && #[trigger] after.contains_key(other) && one != other
            && after[one] != "DEC-1001"@ implies after[one] != after[other] by {
        let old_key = if one == key {
            other
        } else {
            one
        };
        assert(names.contains_key(old_key));
        if one == key || other == key {
            if names[old_key] != "DEC-1001"@ {
                let n = choose|n: usize|
                    first <= n < next && names[old_key] == #[trigger] decision_name(n);
                law_decision_names_are_distinct(n, next);
            }
        } else {
            assert(names.contains_key(other));
        }
    }
}

proof fn lemma_demo_recorded(
    names: Map<Seq<char>, Seq<char>>,
    first: usize,
    next: usize,
    key: Seq<char>,
)
    requires
        well_numbered(names, first, next),
        !names.contains_key(key),
    ensures
        well_numbered(names.insert(key, "DEC-1001"@), first, next),
{
    let after = names.insert(key, "DEC-1001"@);
    assert forall|k: Seq<char>| #[trigger] after.contains_key(k) implies after[k] == "DEC-1001"@
        || exists|n: usize| first <= n < next && after[k] == #[trigger] decision_name(n) by {
        if k != key {
            assert(names.contains_key(k));
        }
    }
    assert forall|one: Seq<char>, other: Seq<char>|
        #[trigger] after.contains_key(one) && #[trigger] after.contains_key(other) && one != other
            && after[one] != "DEC-1001"@ implies after[one] != after[other] by {
        assert(names.contains_key(one));
        if other != key {
            assert(names.contains_key(other));
        }
    }
}

/// The service starts without names.
pub proof fn law_no_name_is_given_at_the_start()
    ensures
        names_once(seeded_service()),
{
}

/// Only the demonstration's decision has the name that was set aside for it.
pub proof fn law_the_demonstration_has_its_own_name(
    service: ServiceModel,
    request: DecisionRequestModel,
)
    requires
        service.next_decision_number >= 2000,
    ensures
        service.new_decision(request).decision_id == "DEC-1001"@ <==> request.is_demo(),
{
    lemma_demo_name();
    law_decision_names_are_distinct(1001, service.next_decision_number);
}

/// No call gives a name that was given before to another key, as long as the numbers last.
pub proof fn law_names_are_given_once(service: ServiceModel, call: Call)
    requires
        names_once(service),
        service.next_decision_number < usize::MAX,
        service.next_settlement_number < usize::MAX,
    ensures
        names_once(after_call(service, call)),
{
    let after = after_call(service, call);
    match call {
        Call::Decision(request, headers) => {
            let key = request.key(headers);
            if is_open(service.offers, request.offer_id) && !service.decisions.contains_key(key) {
                let name = service.new_decision(request).decision_id;
                assert(decision_names(after) =~= decision_names(service).insert(key, name));
                if request.is_demo() {
                    lemma_demo_recorded(
                        decision_names(service),
                        2000,
                        service.next_decision_number,
                        key,
                    );
                } else {
                    lemma_number_used(
                        decision_names(service),
                        2000,
                        service.next_decision_number,
                        key,
                    );
                }
            }
        },
        Call::Settlement(request, headers) => {
            let key = request.key(headers);
            if request.customer_id() is Some && !service.settlements.contains_key(key) {
                let name = service.new_settlement(request).decision_id;
                assert(settlement_names(after) =~= settlement_names(service).insert(key, name));
                if request.is_demo() {
                    lemma_demo_recorded(
                        settlement_names(service),
                        3000,
                        service.next_settlement_number,
                        key,
                    );
                } else {
                    lemma_number_used(
                        settlement_names(service),
                        3000,
                        service.next_settlement_number,
                        key,
                    );
                }
            }
        },
    }
}

// ---------------------------------------------------------------------------------------
// Amounts
// ---------------------------------------------------------------------------------------

/// What is paid never exceeds the loss, and adds up to it with the deductible where the loss is
/// no smaller; a rejected claim is paid nothing.
pub proof fn law_settlements_stay_within_the_loss(
    request: SettlementRequestModel,
    decision_id: Seq<char>,
)
    ensures
        request.recommendation(decision_id).settlement_amount <= request.estimated_loss(),
        request.recommendation(decision_id).deductible == request.deductible(),
        request.rejected() ==> request.recommendation(decision_id).settlement_amount == 0,
        !request.rejected() && request.estimated_loss() >= request.deductible()
            ==> request.recommendation(decision_id).settlement_amount + request.deductible()
            == request.estimated_loss(),
        !request.rejected() && request.deductible() >= request.estimated_loss()
            ==> request.recommendation(decision_id).settlement_amount == 0,
{
}

// ---------------------------------------------------------------------------------------
// What is recommended
// ---------------------------------------------------------------------------------------

/// Whether an approval rejects the claim, in whatever case.
pub open spec fn rejects(approval: JsonModel) -> bool {
    approval.get("decision"@) matches Some(JsonModel::Text(decision)) && same_ignoring_case(
        trimmed(decision),
        "REJECTED"@,
    )
}

/// What is paid is the loss less the whole deductible: the two add up to the loss exactly, where
/// the loss is at least the deductible, and nothing is paid of a smaller loss or of a rejected
/// claim. The loss is the one that triage estimates, or else 3200; the deductible is the one of
/// the coverage review, or else 500; and the deductible is named as it is.
pub proof fn law_the_loss_is_paid_less_the_deductible(
    service: ServiceModel,
    request: SettlementRequestModel,
    loss: u32,
    deductible: u32,
)
    requires
        counts(request.triage, "estimatedLoss"@, loss) || (counts_nothing(
            request.triage,
            "estimatedLoss"@,
        ) && loss == 3200),
        counts(request.coverage_review, "deductible"@, deductible) || (counts_nothing(
            request.coverage_review,
            "deductible"@,
        ) && deductible == 500),
    ensures
        ({
            let paid = service.new_settlement(request).settlement_amount;
            &&& service.new_settlement(request).deductible == deductible
            &&& rejects(request.approval) ==> paid == 0
            &&& !rejects(request.approval) && loss >= deductible ==> paid + deductible == loss
            &&& !rejects(request.approval) && loss < deductible ==> paid == 0
        }),
{
    lemma_rejects(request);
}

proof fn lemma_rejects(request: SettlementRequestModel)
    ensures
        request.rejected() == rejects(request.approval),
{
    reveal_strlit("REJECTED");
    assert("REJECTED"@.len() == 8);
}

/// More of a loss is paid in full, and more of a deductible is taken off in full.
pub proof fn law_every_dollar_beyond_the_deductible_counts(
    one: SettlementRequestModel,
    other: SettlementRequestModel,
    id: Seq<char>,
)
    requires
        !rejects(one.approval),
        !rejects(other.approval),
        one.estimated_loss() >= one.deductible(),
        other.estimated_loss() >= other.deductible(),
    ensures
        other.recommendation(id).settlement_amount - one.recommendation(id).settlement_amount == (
        other.estimated_loss() - one.estimated_loss()) - (other.deductible() - one.deductible()),
{
    lemma_rejects(one);
    lemma_rejects(other);
}

/// The path, the words and the actions of a recommendation: a rejected claim is denied and the
/// customer told; any other takes the path that triage names, or else goes to repair.
pub proof fn law_recommendations_follow_approval_and_triage(
    service: ServiceModel,
    request: SettlementRequestModel,
    path: Seq<char>,
)
    ensures
        ({
            let answer = service.new_settlement(request);
            &&& rejects(request.approval) ==> {
                &&& answer.recommended_path == "deny"@
                &&& answer.customer_summary
                    == "The claim requires denial or additional review before settlement."@
                &&& answer.next_actions == seq!["notify_customer"@]
            }
            &&& !rejects(request.approval) ==> {
                &&& names(request.triage, "recommendedPath"@, path) ==> answer.recommended_path
                    == path
                &&& (forall|p: Seq<char>| !#[trigger] names(request.triage, "recommendedPath"@, p))
                    ==> answer.recommended_path == "repair"@
                &&& answer.customer_summary == "Repair is recommended after the deductible."@
                &&& answer.next_actions == seq!["schedule_repair"@, "send_photos"@]
            }
        }),
{
    lemma_rejects(request);
    if let Some(JsonModel::Text(text)) = request.triage.get("recommendedPath"@) {
        assert(names(request.triage, "recommendedPath"@, trimmed(text)) <==> trimmed(text).len()
            > 0);
    }
}

/// A recommendation for the customer of the demonstration has the name set aside for it; every
/// other has the number whose turn it is.
pub proof fn law_recommendations_are_numbered(
    service: ServiceModel,
    request: SettlementRequestModel,
)
    ensures
        names(request.claim, "customerId"@, "CUST-1001"@) ==> service.new_settlement(
            request,
        ).decision_id == "DEC-1001"@ && service.settlement_number_after(request)
            == service.next_settlement_number,
        !names(request.claim, "customerId"@, "CUST-1001"@) ==> service.new_settlement(
            request,
        ).decision_id == "DEC-"@ + decimal(service.next_settlement_number as nat)
            && service.settlement_number_after(request) == (if service.next_settlement_number
            < usize::MAX {
            service.next_settlement_number + 1
        } else {
            0
        }),
{
    reveal_strlit("CUST-1001");
    assert("CUST-1001"@.len() == 9);
}

/// A call that is not refused is answered from the record, or answered anew and recorded under
/// its key: then that entry is new, the number moves on, and all else stays.
pub proof fn law_settlements_are_recorded_under_their_key(
    service: ServiceModel,
    request: SettlementRequestModel,
    headers: Map<Seq<char>, Seq<Seq<u8>>>,
)
    ensures
        ({
            let key = request.key(headers);
            let after = service.after_settlement_call(request, headers);
            let outcome = service.settlement_outcome(request, headers);
            let refused = forall|name: Seq<char>|
                !#[trigger] names(request.claim, "customerId"@, name);
            &&& outcome is Err <==> refused
            &&& outcome matches Err(refusal) ==> refusal == (ApiErrorModel {
                status: 400,
                code: "INVALID_DECISION_REQUEST"@,
                message: "claim.customerId is required"@,
            })
            &&& outcome matches Ok(answer) ==> {
                &&& after.settlements.contains_key(key)
                &&& after.settlements[key] == answer
                &&& service.settlements.contains_key(key) ==> after == service
                &&& !service.settlements.contains_key(key) ==> {
                    &&& answer == service.new_settlement(request)
                    &&& after.settlements.remove(key) == service.settlements.remove(key)
                    &&& after.next_settlement_number == service.settlement_number_after(request)
                    &&& after.next_decision_number == service.next_decision_number
                    &&& after.decisions == service.decisions
                    &&& after.offers == service.offers
                }
            }
        }),
{
    let key = request.key(headers);
    if let Some(JsonModel::Text(text)) = request.claim.get("customerId"@) {
        assert(names(request.claim, "customerId"@, trimmed(text)) <==> trimmed(text).len() > 0);
    }
    assert(service.settlements.insert(key, service.new_settlement(request)).remove(key)
        =~= service.settlements.remove(key));
}

// ---------------------------------------------------------------------------------------
// What is decided
// ---------------------------------------------------------------------------------------

/// A new decision approves the offer to the customer of the request.
pub proof fn law_decisions_approve_what_was_asked(
    service: ServiceModel,
    request: DecisionRequestModel,
)
    ensures
        ({
            let decision = service.new_decision(request);
            let demo = request.customer_id == "CUST-1001"@ && request.offer_id
                == "OFFER-TRAVEL-01"@;
            &&& decision.customer_id == request.customer_id
            &&& decision.offer_id == request.offer_id
            &&& decision.decision == "approved"@
            &&& decision.created_at == "2026-05-25T14:12:00Z"@
            &&& demo ==> decision.decision_id == "DEC-1001"@ && service.decision_number_after(
                request,
            ) == service.next_decision_number
            &&& !demo ==> decision.decision_id == "DEC-"@ + decimal(
                service.next_decision_number as nat,
            ) && service.decision_number_after(request) == (if service.next_decision_number
                < usize::MAX {
                service.next_decision_number + 1
            } else {
                0
            })
        }),
{
}

/// The audit reference of a decision holds the first eight ASCII letters and digits of the
/// source and the reason, or all of them where there are fewer, each as a capital.
pub proof fn law_audit_references_hold_the_first_letters(
    service: ServiceModel,
    request: DecisionRequestModel,
    i: int,
)
    ensures
        ({
            let kept = (request.source + request.reason).filter(
                |c: char| 'a' <= c <= 'z' || 'A' <= c <= 'Z' || '0' <= c <= '9',
            );
            let code = audit_code(request.source, request.reason);
            &&& service.new_decision(request).audit_ref == "AUD-"@ + code
            &&& code.len() == (if kept.len() < 8 {
                kept.len()
            } else {
                8
            })
            &&& 0 <= i < code.len() ==> (if 'a' <= kept[i] <= 'z' {
                code[i] as u32 == kept[i] as u32 - 32
            } else {
                code[i] == kept[i]
            })
        }),
{
    let all = request.source + request.reason;
    let stated = |c: char| 'a' <= c <= 'z' || 'A' <= c <= 'Z' || '0' <= c <= '9';
    let used = |c: char| ascii_alphanumeric(c);
    assert(stated =~= used);
    let kept = all.filter(used);
    let code = audit_code(request.source, request.reason);
    if 0 <= i < code.len() {
        let c: char = kept[i];
        assert(code[i] == ascii_upper(c));
    }
}

/// A call that is not refused is answered from the record, or answered anew and recorded under
/// its key: then that entry is new, the number moves on, and all else stays. It is refused
/// exactly where no open offer has that name.
pub proof fn law_decisions_are_recorded_under_their_key(
    service: ServiceModel,
    request: DecisionRequestModel,
    headers: Map<Seq<char>, Seq<Seq<u8>>>,
)
    ensures
        ({
            let key = request.key(headers);
            let after = service.after_decision_call(request, headers);
            let outcome = service.decision_outcome(request, headers);
            let open = exists|i: int|
                0 <= i < service.offers.len() && (#[trigger] service.offers[i]).active
                    && service.offers[i].offer_id == request.offer_id;
            &&& outcome is Ok <==> open
            &&& outcome matches Err(refusal) ==> refusal == (ApiErrorModel {
                status: 400,
                code: "INVALID_DECISION_REQUEST"@,
                message: "offer "@ + request.offer_id + " is not active or does not exist"@,
            })
            &&& outcome matches Ok(answer) ==> {
                &&& after.decisions.contains_key(key)
                &&& after.decisions[key] == answer
                &&& service.decisions.contains_key(key) ==> after == service
                &&& !service.decisions.contains_key(key) ==> {
                    &&& answer == service.new_decision(request)
                    &&& after.decisions.remove(key) == service.decisions.remove(key)
                    &&& after.next_decision_number == service.decision_number_after(request)
                    &&& after.next_settlement_number == service.next_settlement_number
                    &&& after.settlements == service.settlements
                    &&& after.offers == service.offers
                }
            }
        }),
{
    let key = request.key(headers);
    assert(service.decisions.insert(key, service.new_decision(request)).remove(key)
        =~= service.decisions.remove(key));
}

// ---------------------------------------------------------------------------------------
// Keys
// ---------------------------------------------------------------------------------------

/// Whether the header of the key says `key`: its text without the white space around it.
pub open spec fn header_names(headers: Map<Seq<char>, Seq<Seq<u8>>>, key: Seq<char>) -> bool {
    header_text(headers, "idempotency-key"@) matches Some(text) && trimmed(text) == key
        && key.len() > 0
}

/// The key of a request for a decision is its own, or else the header's, or else customer, offer
/// and channel with colons between them.
pub proof fn law_keys_of_decisions(
    request: DecisionRequestModel,
    headers: Map<Seq<char>, Seq<Seq<u8>>>,
    key: Seq<char>,
)
    ensures
        request.idempotency_key == Some(key) ==> request.key(headers) == key,
        request.idempotency_key is None && header_names(headers, key) ==> request.key(headers)
            == key,
        request.idempotency_key is None && (forall|k: Seq<char>|
            !#[trigger] header_names(headers, k)) ==> request.key(headers) == request.customer_id
            + ":"@ + request.offer_id + ":"@ + request.channel,
{
    if let Some(text) = header_text(headers, "idempotency-key"@) {
        assert(header_names(headers, trimmed(text)) <==> trimmed(text).len() > 0);
    }
}

/// The key of a request for a recommendation is its own, or else the header's, or else the name
/// of the claim, or else customer and path with a colon between them, where the path is that of
/// the triage or else `review`.
pub proof fn law_keys_of_settlements(
    request: SettlementRequestModel,
    headers: Map<Seq<char>, Seq<Seq<u8>>>,
    key: Seq<char>,
    customer: Seq<char>,
    path: Seq<char>,
)
    requires
        names(request.claim, "customerId"@, customer),
        names(request.triage, "recommendedPath"@, path) || (path == "review"@ && forall|p: Seq<char>|
            !#[trigger] names(request.triage, "recommendedPath"@, p)),
    ensures
        request.idempotency_key == Some(key) ==> request.key(headers) == key,
        request.idempotency_key is None && header_names(headers, key) ==> request.key(headers)
            == key,
        request.idempotency_key is None && (forall|k: Seq<char>|
            !#[trigger] header_names(headers, k)) ==> {
            &&& names(request.claim, "claimId"@, key) ==> request.key(headers) == key
            &&& (forall|k: Seq<char>| !#[trigger] names(request.claim, "claimId"@, k))
                ==> request.key(headers) == customer + ":"@ + path
        },
{
    if let Some(text) = header_text(headers, "idempotency-key"@) {
        assert(header_names(headers, trimmed(text)) <==> trimmed(text).len() > 0);
    }
    if let Some(JsonModel::Text(text)) = request.claim.get("claimId"@) {
        assert(names(request.claim, "claimId"@, trimmed(text)) <==> trimmed(text).len() > 0);
    }
    if let Some(JsonModel::Text(text)) = request.triage.get("recommendedPath"@) {
        assert(names(request.triage, "recommendedPath"@, trimmed(text)) <==> trimmed(text).len()
            > 0);
    }
}

} // verus!
