//! Laws of the search among offers.

use crate::laws::texts::law_ignoring_case_is_an_equivalence;
use crate::offer_decision::seeded_service;
use crate::offers::{
    answering, answers, in_priority_order, is_open, matches_expected, of_priority, ranks,
    OfferModel, OfferQueryModel,
};
use crate::text::same_ignoring_case;
use vstd::prelude::*;

verus! {

/// Of which offers a list of some priority consists.
proof fn lemma_of_priority(offers: Seq<OfferModel>, offer: OfferModel)
    ensures
        of_priority(offers, offer.priority).contains(offer) <==> offers.contains(offer),
{
    let pred = |o: OfferModel| o.priority == offer.priority;
    broadcast use vstd::seq_lib::group_filter_ensures;

    if offers.contains(offer) {
        let i = choose|i: int| 0 <= i < offers.len() && offers[i] == offer;
        assert(pred(offers[i]));
        assert(of_priority(offers, offer.priority).contains(offers[i]));
    }
    if of_priority(offers, offer.priority).contains(offer) {
        offers.lemma_filter_contains_rev(pred, offer);
    }
}

/// The search finds exactly the open offers that answer the query, by rising priority.
pub proof fn law_search_finds_what_answers(
    found: Seq<OfferModel>,
    offers: Seq<OfferModel>,
    query: OfferQueryModel,
    offer: OfferModel,
)
    requires
        ranks(found, answering(offers, query)),
    ensures
        found.contains(offer) <==> offers.contains(offer) && answers(offer, query),
        found.contains(offer) ==> offer.active,
        in_priority_order(found),
{
    let pred = |o: OfferModel| answers(o, query);
    let kept = answering(offers, query);
    lemma_of_priority(found, offer);
    lemma_of_priority(kept, offer);
    assert(of_priority(found, offer.priority) == of_priority(kept, offer.priority));
    broadcast use vstd::seq_lib::group_filter_ensures;

    if offers.contains(offer) && answers(offer, query) {
        let i = choose|i: int| 0 <= i < offers.len() && offers[i] == offer;
        assert(pred(offers[i]));
        assert(kept.contains(offers[i]));
    }
    if kept.contains(offer) {
        offers.lemma_filter_contains_rev(pred, offer);
        let k = choose|k: int| 0 <= k < kept.len() && kept[k] == offer;
        assert(pred(kept[k]));
    }
}

/// Two ranked lists with the same offers of each priority are the same list.
proof fn lemma_same_lists(a: Seq<OfferModel>, b: Seq<OfferModel>)
    requires
        in_priority_order(a),
        in_priority_order(b),
        forall|priority: u8| #[trigger] of_priority(a, priority) == of_priority(b, priority),
    ensures
        a == b,
    decreases a.len(),
{
    reveal(Seq::filter);
    if a.len() == 0 {
        if b.len() > 0 {
            assert(of_priority(a, b.last().priority) == of_priority(b, b.last().priority));
            assert(of_priority(b, b.last().priority).len() > 0);
        }
        assert(a =~= b);
    } else {
        let p = a.last().priority;
        assert(of_priority(a, p) == of_priority(b, p));
        assert(of_priority(a, p).last() == a.last());
        assert(of_priority(a, p).contains(a.last())) by {
            assert(of_priority(a, p)[of_priority(a, p).len() - 1] == a.last());
        }
        lemma_of_priority(b, a.last());
        assert(b.contains(a.last()));
        assert(b.len() > 0);
        let q = b.last().priority;
        assert(of_priority(a, q) == of_priority(b, q));
        assert(of_priority(b, q).contains(b.last())) by {
            assert(of_priority(b, q)[of_priority(b, q).len() - 1] == b.last());
        }
        lemma_of_priority(a, b.last());
        assert(a.contains(b.last()));
        assert(p == q) by {
            let i = choose|i: int| 0 <= i < b.len() && b[i] == a.last();
            let j = choose|j: int| 0 <= j < a.len() && a[j] == b.last();
            if i < b.len() - 1 {
                assert(b[i].priority <= b[b.len() - 1].priority);
            }
            if j < a.len() - 1 {
                assert(a[j].priority <= a[a.len() - 1].priority);
            }
        }
        assert(a.last() == b.last());
        let x = a.drop_last();
        let y = b.drop_last();
        assert forall|priority: u8| #[trigger] of_priority(x, priority) == of_priority(
            y,
            priority,
        ) by {
            assert(of_priority(a, priority) == of_priority(b, priority));
            if priority == p {
                assert(of_priority(x, p).push(a.last()).drop_last() =~= of_priority(x, p));
                assert(of_priority(y, p).push(a.last()).drop_last() =~= of_priority(y, p));
            }
        }
        assert(in_priority_order(x)) by {
            assert forall|i: int, j: int| 0 <= i < j < x.len() implies (
            #[trigger] x[i]).priority <= (#[trigger] x[j]).priority by {
                assert(a[i].priority <= a[j].priority);
            }
        }
        assert(in_priority_order(y)) by {
            assert forall|i: int, j: int| 0 <= i < j < y.len() implies (
            #[trigger] y[i]).priority <= (#[trigger] y[j]).priority by {
                assert(b[i].priority <= b[j].priority);
            }
        }
        lemma_same_lists(x, y);
        assert(a =~= x.push(a.last()));
        assert(b =~= y.push(b.last()));
    }
}

/// A query has one answer: offers and query determine what the search finds, and in which order.
pub proof fn law_search_has_one_answer(
    one: Seq<OfferModel>,
    other: Seq<OfferModel>,
    offers: Seq<OfferModel>,
    query: OfferQueryModel,
)
    requires
        ranks(one, answering(offers, query)),
        ranks(other, answering(offers, query)),
    ensures
        one == other,
{
    assert forall|priority: u8| #[trigger] of_priority(one, priority) == of_priority(
        other,
        priority,
    ) by {
        assert(of_priority(one, priority) == of_priority(answering(offers, query), priority));
        assert(of_priority(other, priority) == of_priority(answering(offers, query), priority));
    }
    lemma_same_lists(one, other);
}

/// What a query asks for may be written in any case.
proof fn lemma_expected_in_any_case(
    one: Option<Seq<char>>,
    other: Option<Seq<char>>,
    actual: Seq<char>,
)
    requires
        one is Some <==> other is Some,
        one is Some ==> same_ignoring_case(one->0, other->0),
    ensures
        matches_expected(one, actual) == matches_expected(other, actual),
{
    if one is Some {
        law_ignoring_case_is_an_equivalence(one->0, other->0, actual);
        law_ignoring_case_is_an_equivalence(other->0, one->0, actual);
    }
}

/// Queries that differ in the case of letters alone are answered alike.
pub proof fn law_queries_ignore_case(
    offers: Seq<OfferModel>,
    one: OfferQueryModel,
    other: OfferQueryModel,
)
    requires
        one.segment is Some <==> other.segment is Some,
        one.segment is Some ==> same_ignoring_case(one.segment->0, other.segment->0),
        one.state is Some <==> other.state is Some,
        one.state is Some ==> same_ignoring_case(one.state->0, other.state->0),
        one.category is Some <==> other.category is Some,
        one.category is Some ==> same_ignoring_case(
            one.category->0,
            other.category->0,
        ),
    ensures
        answering(offers, one) == answering(offers, other),
{
    let first = |o: OfferModel| answers(o, one);
    let second = |o: OfferModel| answers(o, other);
    assert forall|offer: OfferModel| #[trigger] first(offer) == second(offer) by {
        lemma_expected_in_any_case(one.segment, other.segment, offer.segment);
        lemma_expected_in_any_case(one.state, other.state, offer.state);
        lemma_expected_in_any_case(one.category, other.category, offer.category);
    }
    assert(first =~= second);
}

/// An offer that the search finds is open: a decision on it is not refused for its sake.
pub proof fn law_found_offers_are_open(
    found: Seq<OfferModel>,
    offers: Seq<OfferModel>,
    query: OfferQueryModel,
    offer: OfferModel,
)
    requires
        ranks(found, answering(offers, query)),
        found.contains(offer),
    ensures
        is_open(offers, offer.offer_id),
{
    law_search_finds_what_answers(found, offers, query, offer);
    let i = choose|i: int| 0 <= i < offers.len() && offers[i] == offer;
    assert(offers[i].active && offers[i].offer_id == offer.offer_id);
}

/// Whether a wish for a text is met: by anything where there is none, or else by that text in
/// whatever case.
pub open spec fn meets(wish: Option<Seq<char>>, text: Seq<char>) -> bool {
    wish matches Some(wanted) ==> same_ignoring_case(wanted, text)
}

proof fn lemma_filter_twice(
    offers: Seq<OfferModel>,
    first: spec_fn(OfferModel) -> bool,
    second: spec_fn(OfferModel) -> bool,
)
    ensures
        offers.filter(first).filter(second) == offers.filter(
            |o: OfferModel| first(o) && second(o),
        ),
    decreases offers.len(),
{
    reveal(Seq::filter);
    let both = |o: OfferModel| first(o) && second(o);
    if offers.len() > 0 {
        let front = offers.drop_last();
        lemma_filter_twice(front, first, second);
        if first(offers.last()) {
            let kept = front.filter(first);
            assert(kept.push(offers.last()).drop_last() =~= kept);
            assert(kept.push(offers.last()).last() == offers.last());
        }
    }
}

/// The search finds an offer exactly where it is kept, is active and meets each wish of the
/// query; it finds each as often as it is kept, lower numbers of priority first, and those of one
/// priority in the order in which they are kept.
pub proof fn law_search_finds_active_offers_that_meet_the_query(
    found: Seq<OfferModel>,
    offers: Seq<OfferModel>,
    query: OfferQueryModel,
    offer: OfferModel,
    priority: u8,
)
    requires
        ranks(found, answering(offers, query)),
    ensures
        found.contains(offer) <==> {
            &&& offers.contains(offer)
            &&& offer.active
            &&& meets(query.segment, offer.segment)
            &&& meets(query.state, offer.state)
            &&& meets(query.category, offer.category)
        },
        forall|i: int, j: int|
            0 <= i < j < found.len() ==> (#[trigger] found[i]).priority <= (
            #[trigger] found[j]).priority,
        found.filter(|o: OfferModel| o.priority == priority) == offers.filter(
            |o: OfferModel|
                o.active && meets(query.segment, o.segment) && meets(query.state, o.state)
                    && meets(query.category, o.category) && o.priority == priority,
        ),
{
    law_search_finds_what_answers(found, offers, query, offer);
    let answers_it = |o: OfferModel| answers(o, query);
    let ranked_so = |o: OfferModel| o.priority == priority;
    let stated = |o: OfferModel|
        o.active && meets(query.segment, o.segment) && meets(query.state, o.state) && meets(
            query.category,
            o.category,
        ) && o.priority == priority;
    lemma_filter_twice(offers, answers_it, ranked_so);
    assert((|o: OfferModel| answers_it(o) && ranked_so(o)) =~= stated);
    assert(of_priority(found, priority) == of_priority(answering(offers, query), priority));
}

/// An offer is open exactly where one of that name is kept and active.
pub proof fn law_open_offers_are_kept_and_active(offers: Seq<OfferModel>, offer_id: Seq<char>)
    ensures
        is_open(offers, offer_id) <==> exists|offer: OfferModel|
            #[trigger] offers.contains(offer) && offer.active && offer.offer_id == offer_id,
{
    if is_open(offers, offer_id) {
        let i = choose|i: int|
            0 <= i < offers.len() && (#[trigger] offers[i]).active && offers[i].offer_id
                == offer_id;
        assert(offers.contains(offers[i]));
    }
    if exists|offer: OfferModel|
        #[trigger] offers.contains(offer) && offer.active && offer.offer_id == offer_id {
        let offer = choose|offer: OfferModel|
            #[trigger] offers.contains(offer) && offer.active && offer.offer_id == offer_id;
        let i = choose|i: int| 0 <= i < offers.len() && offers[i] == offer;
        assert(offers[i].active && offers[i].offer_id == offer_id);
    }
}

/// The service starts with three offers to premium customers, the last of which has expired, and
/// with nothing recorded.
pub proof fn law_the_service_starts_with_three_offers()
    ensures
        ({
            let service = seeded_service();
            let travel = service.offers[0];
            let cashback = service.offers[1];
            let expired = service.offers[2];
            &&& service.offers.len() == 3
            &&& service.decisions.dom() == Set::<Seq<char>>::empty()
            &&& service.settlements.dom() == Set::<Seq<char>>::empty()
            &&& service.next_decision_number == 2000
            &&& service.next_settlement_number == 3000
            &&& travel.offer_id == "OFFER-TRAVEL-01"@ && travel.title == "Premium travel credit"@
            &&& travel.state == "ON"@ && travel.category == "travel"@
            &&& travel.priority == 1 && travel.active
            &&& cashback.offer_id == "OFFER-CASHBACK-01"@ && cashback.title
                == "Premium shopping cashback"@
            &&& cashback.state == "BC"@ && cashback.category == "shopping"@
            &&& cashback.priority == 2 && cashback.active
            &&& expired.offer_id == "OFFER-EXPIRED-01"@ && expired.title
                == "Expired welcome credit"@
            &&& expired.state == "ON"@ && expired.category == "travel"@
            &&& expired.priority == 9 && !expired.active
            &&& forall|i: int|
                0 <= i < 3 ==> (#[trigger] service.offers[i]).segment == "premium"@
        }),
{
}

} // verus!
