//! Offers and the search among them.

use crate::text::{eq_ignore_ascii_case, same_ignoring_case, same_text};
use vstd::prelude::*;

verus! {

/// An offer to customers of a segment in a state.
#[derive(Debug, PartialEq, Eq)]
pub struct Offer {
    pub offer_id: String,
    pub title: String,
    pub segment: String,
    pub state: String,
    pub category: String,
    pub priority: u8,
    pub active: bool,
}

pub struct OfferModel {
    pub offer_id: Seq<char>,
    pub title: Seq<char>,
    pub segment: Seq<char>,
    pub state: Seq<char>,
    pub category: Seq<char>,
    pub priority: u8,
    pub active: bool,
}

impl DeepView for Offer {
    type V = OfferModel;

    open spec fn deep_view(&self) -> OfferModel {
        OfferModel {
            offer_id: self.offer_id@,
            title: self.title@,
            segment: self.segment@,
            state: self.state@,
            category: self.category@,
            priority: self.priority,
            active: self.active,
        }
    }
}

impl Clone for Offer {
    fn clone(&self) -> (offer: Offer)
        ensures
            offer.deep_view() == self.deep_view(),
    {
        Offer {
            offer_id: self.offer_id.clone(),
            title: self.title.clone(),
            segment: self.segment.clone(),
            state: self.state.clone(),
            category: self.category.clone(),
            priority: self.priority,
            active: self.active,
        }
    }
}

impl Offer {
    pub fn new(
        offer_id: &str,
        title: &str,
        segment: &str,
        state: &str,
        category: &str,
        priority: u8,
        active: bool,
    ) -> (offer: Offer)
        ensures
            offer.deep_view() == (OfferModel {
                offer_id: offer_id@,
                title: title@,
                segment: segment@,
                state: state@,
                category: category@,
                priority,
                active,
            }),
    {
        Offer {
            offer_id: offer_id.to_string(),
            title: title.to_string(),
            segment: segment.to_string(),
            state: state.to_string(),
            category: category.to_string(),
            priority,
            active,
        }
    }
}

/// What to search for; what is left out may be anything.
#[derive(Debug)]
pub struct OfferQuery {
    pub segment: Option<String>,
    pub state: Option<String>,
    pub category: Option<String>,
}

pub struct OfferQueryModel {
    pub segment: Option<Seq<char>>,
    pub state: Option<Seq<char>>,
    pub category: Option<Seq<char>>,
}

impl DeepView for OfferQuery {
    type V = OfferQueryModel;

    open spec fn deep_view(&self) -> OfferQueryModel {
        OfferQueryModel {
            segment: self.segment.deep_view(),
            state: self.state.deep_view(),
            category: self.category.deep_view(),
        }
    }
}

/// Whether `actual` is what is expected, up to the case of its letters, if anything is.
pub open spec fn matches_expected(expected: Option<Seq<char>>, actual: Seq<char>) -> bool {
    match expected {
        Some(text) => same_ignoring_case(text, actual),
        None => true,
    }
}

/// Whether an offer is open and answers a query.
pub open spec fn answers(offer: OfferModel, query: OfferQueryModel) -> bool {
    &&& offer.active
    &&& matches_expected(query.segment, offer.segment)
    &&& matches_expected(query.state, offer.state)
    &&& matches_expected(query.category, offer.category)
}

/// The offers that answer a query, in the order in which they are kept.
pub open spec fn answering(offers: Seq<OfferModel>, query: OfferQueryModel) -> Seq<OfferModel> {
    offers.filter(|offer: OfferModel| answers(offer, query))
}

/// The offers of a priority, in their order.
pub open spec fn of_priority(offers: Seq<OfferModel>, priority: u8) -> Seq<OfferModel> {
    offers.filter(|offer: OfferModel| offer.priority == priority)
}

pub open spec fn in_priority_order(offers: Seq<OfferModel>) -> bool {
    forall|i: int, j: int|
        0 <= i < j < offers.len() ==> (#[trigger] offers[i]).priority <= (
        #[trigger] offers[j]).priority
}

/// Whether `ranked` holds the offers of `offers` by rising priority, those of one priority in
/// the order they had.
pub open spec fn ranks(ranked: Seq<OfferModel>, offers: Seq<OfferModel>) -> bool {
    &&& in_priority_order(ranked)
    &&& forall|priority: u8| #[trigger]
        of_priority(ranked, priority) == of_priority(offers, priority)
}

/// Whether `actual` is what is expected, up to the case of its letters, if anything is.
pub fn optional_match(expected: Option<&str>, actual: &str) -> (yes: bool)
    ensures
        yes == matches_expected(expected.deep_view(), actual@),
{
    match expected {
        Some(text) => eq_ignore_ascii_case(text, actual),
        None => true,
    }
}

fn as_text(text: &Option<String>) -> (view: Option<&str>)
    ensures
        view.deep_view() == text.deep_view(),
{
    match text {
        Some(text) => Some(text.as_str()),
        None => None,
    }
}

/// Whether an offer is open and answers a query.
fn offer_answers(offer: &Offer, query: &OfferQuery) -> (yes: bool)
    ensures
        yes == answers(offer.deep_view(), query.deep_view()),
{
    offer.active && optional_match(as_text(&query.segment), offer.segment.as_str())
        && optional_match(as_text(&query.state), offer.state.as_str()) && optional_match(
        as_text(&query.category),
        offer.category.as_str(),
    )
}

/// Putting an offer behind all that rank no lower, and before all that rank lower, adds it at
/// the end of those of its priority.
proof fn lemma_insert_ranks(
    ranked: Seq<OfferModel>,
    offers: Seq<OfferModel>,
    offer: OfferModel,
    at: int,
)
    requires
        ranks(ranked, offers),
        0 <= at <= ranked.len(),
        forall|i: int| 0 <= i < at ==> (#[trigger] ranked[i]).priority <= offer.priority,
        forall|i: int| at <= i < ranked.len() ==> (#[trigger] ranked[i]).priority > offer.priority,
    ensures
        ranks(ranked.insert(at, offer), offers.push(offer)),
{
    let after = ranked.insert(at, offer);
    let front = ranked.take(at);
    let back = ranked.skip(at);
    assert(after =~= (front + seq![offer]) + back);
    assert(ranked =~= front + back);
    assert(offers.push(offer) =~= offers + seq![offer]);
    assert forall|priority: u8| #[trigger]
        of_priority(after, priority) == of_priority(offers.push(offer), priority) by {
        let pred = |o: OfferModel| o.priority == priority;
        Seq::filter_distributes_over_add(front + seq![offer], back, pred);
        Seq::filter_distributes_over_add(front, seq![offer], pred);
        Seq::filter_distributes_over_add(front, back, pred);
        Seq::filter_distributes_over_add(offers, seq![offer], pred);
        assert(of_priority(ranked, priority) == of_priority(offers, priority));
        if priority == offer.priority {
            back.lemma_all_neg_filter_empty(pred);
            assert(back.filter(pred) =~= Seq::empty());
            assert(front.filter(pred) + back.filter(pred) =~= front.filter(pred));
            assert((front.filter(pred) + seq![offer].filter(pred)) + back.filter(pred)
                =~= front.filter(pred) + seq![offer].filter(pred));
        } else {
            seq![offer].lemma_all_neg_filter_empty(pred);
            assert(seq![offer].filter(pred) =~= Seq::empty());
            assert(front.filter(pred) + seq![offer].filter(pred) =~= front.filter(pred));
            assert(offers.filter(pred) + seq![offer].filter(pred) =~= offers.filter(pred));
        }
    }
}

/// Adds an offer to a ranked list.
fn insert_ranked(ranked: &mut Vec<Offer>, offer: Offer, Ghost(offers): Ghost<Seq<OfferModel>>)
    requires
        ranks(old(ranked).deep_view(), offers),
    ensures
        ranks(final(ranked).deep_view(), offers.push(offer.deep_view())),
{
    let ghost before = ranked.deep_view();
    let mut at: usize = ranked.len();
    while at > 0 && ranked[at - 1].priority > offer.priority
        invariant
            at <= ranked@.len(),
            before == ranked.deep_view(),
            forall|i: int|
                at <= i < before.len() ==> (#[trigger] before[i]).priority > offer.priority,
        decreases at,
    {
        at = at - 1;
    }
    proof {
        assert forall|i: int| 0 <= i < at implies (#[trigger] before[i]).priority
            <= offer.priority by {
            if i < at - 1 {
                assert(before[i].priority <= before[at - 1].priority);
            }
        }
        lemma_insert_ranks(before, offers, offer.deep_view(), at as int);
        assert(ranked@.insert(at as int, offer).len() == before.len() + 1);
    }
    let ghost added = offer.deep_view();
    ranked.insert(at, offer);
    proof {
        assert(ranked.deep_view() =~= before.insert(at as int, added));
    }
}

/// The offers that answer a query, by rising priority.
pub fn search(offers: &Vec<Offer>, query: &OfferQuery) -> (found: Vec<Offer>)
    ensures
        ranks(found.deep_view(), answering(offers.deep_view(), query.deep_view())),
{
    let ghost all = offers.deep_view();
    let ghost pred = |offer: OfferModel| answers(offer, query.deep_view());
    let mut found: Vec<Offer> = Vec::new();
    let mut i: usize = 0;
    proof {
        reveal(Seq::filter);
        assert(all.take(0) =~= Seq::empty());
        assert(found.deep_view() =~= answering(all.take(0), query.deep_view()));
    }
    while i < offers.len()
        invariant
            i <= offers@.len(),
            all == offers.deep_view(),
            ranks(found.deep_view(), answering(all.take(i as int), query.deep_view())),
        decreases offers@.len() - i,
    {
        proof {
            reveal(Seq::filter);
            assert(all.take(i + 1).drop_last() =~= all.take(i as int));
            assert(all.take(i + 1).last() == offers@[i as int].deep_view());
        }
        if offer_answers(&offers[i], query) {
            insert_ranked(
                &mut found,
                offers[i].clone(),
                Ghost(answering(all.take(i as int), query.deep_view())),
            );
        }
        i = i + 1;
    }
    proof {
        assert(all.take(all.len() as int) =~= all);
    }
    found
}

/// Whether an offer with that name is open.
pub open spec fn is_open(offers: Seq<OfferModel>, offer_id: Seq<char>) -> bool {
    exists|i: int|
        0 <= i < offers.len() && (#[trigger] offers[i]).active && offers[i].offer_id == offer_id
}

/// Whether an offer with that name is open.
pub fn offer_open(offers: &Vec<Offer>, offer_id: &str) -> (open: bool)
    ensures
        open == is_open(offers.deep_view(), offer_id@),
{
    let ghost all = offers.deep_view();
    let mut i: usize = 0;
    while i < offers.len()
        invariant
            i <= offers@.len(),
            all == offers.deep_view(),
            forall|j: int|
                0 <= j < i ==> !((#[trigger] all[j]).active && all[j].offer_id == offer_id@),
        decreases offers@.len() - i,
    {
        proof {
            assert(all[i as int] == offers@[i as int].deep_view());
        }
        if offers[i].active && same_text(offers[i].offer_id.as_str(), offer_id) {
            return true;
        }
        i = i + 1;
    }
    false
}

} // verus!
