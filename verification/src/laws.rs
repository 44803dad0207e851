//! The conditional-GET protocol's guarantees, stated and proved once over
//! the models that the handlers' contracts use: what a request for a
//! cataloged resource receives for each kind of freshness token, and that
//! invalid or absent tokens, and unknown names, behave as specified.

use vstd::prelude::*;

use crate::catalog::ResourceView;
use crate::catalog::catalog_wf;
use crate::freshness::Freshness;
use crate::freshness::freshness_decision;
use crate::handler::DecisionView;
use crate::handler::decision_for_header;
use crate::handler::decision_for_token;
use crate::http_date::parsed_http_date;

verus! {

/// Requesting a cataloged resource is decided on that resource: the decision
/// for its name carries its own modification time and, on a full-body
/// outcome, the resource itself (so the content type served is the
/// resource's own).
pub proof fn lemma_decision_on_cataloged_resource(
    cat: Seq<ResourceView>,
    i: int,
    token: Option<u64>,
)
    requires
        catalog_wf(cat),
        0 <= i < cat.len(),
    ensures
        decision_for_token(cat, cat[i].name, token) == (
            match freshness_decision(token, cat[i].last_modified) {
                Freshness::NotModified => DecisionView::NotModified(cat[i].last_modified),
                Freshness::FullBody => DecisionView::FullBody(cat[i]),
            }),
{
    let name = cat[i].name;
    assert(exists|j: int| 0 <= j < cat.len() && (#[trigger] cat[j]).name == name);
    let j = choose|j: int| 0 <= j < cat.len() && (#[trigger] cat[j]).name == name;
    assert(j == i);
}

/// A request for a cataloged resource with no freshness token receives the
/// full body of that very resource.
pub proof fn lemma_no_token_full_body(cat: Seq<ResourceView>, i: int)
    requires
        catalog_wf(cat),
        0 <= i < cat.len(),
    ensures
        decision_for_token(cat, cat[i].name, None) == DecisionView::FullBody(cat[i]),
{
    lemma_decision_on_cataloged_resource(cat, i, None);
}

/// A freshness token equal to the resource's modification time (both whole
/// seconds) yields "not modified".
pub proof fn lemma_equal_token_not_modified(cat: Seq<ResourceView>, i: int)
    requires
        catalog_wf(cat),
        0 <= i < cat.len(),
    ensures
        decision_for_token(cat, cat[i].name, Some(cat[i].last_modified))
            == DecisionView::NotModified(cat[i].last_modified),
{
    lemma_decision_on_cataloged_resource(cat, i, Some(cat[i].last_modified));
}

/// A freshness token strictly later than the resource's modification time
/// yields "not modified".
pub proof fn lemma_later_token_not_modified(cat: Seq<ResourceView>, i: int, t: u64)
    requires
        catalog_wf(cat),
        0 <= i < cat.len(),
        t > cat[i].last_modified,
    ensures
        decision_for_token(cat, cat[i].name, Some(t))
            == DecisionView::NotModified(cat[i].last_modified),
{
    lemma_decision_on_cataloged_resource(cat, i, Some(t));
}

/// A freshness token strictly earlier than the resource's modification time
/// yields the full body.
pub proof fn lemma_earlier_token_full_body(cat: Seq<ResourceView>, i: int, t: u64)
    requires
        catalog_wf(cat),
        0 <= i < cat.len(),
        t < cat[i].last_modified,
    ensures
        decision_for_token(cat, cat[i].name, Some(t)) == DecisionView::FullBody(cat[i]),
{
    lemma_decision_on_cataloged_resource(cat, i, Some(t));
}

/// An `If-Modified-Since` value that is not a valid HTTP-date behaves
/// exactly as an absent header, for any catalog and any name.
pub proof fn lemma_invalid_header_like_absent(
    cat: Seq<ResourceView>,
    name: Seq<char>,
    h: Seq<char>,
)
    ensures
        parsed_http_date(h) is None
            ==> decision_for_header(cat, name, Some(h)) == decision_for_header(cat, name, None),
{
}

/// A name no cataloged resource carries is "not found", whatever the
/// request's headers say.
pub proof fn lemma_unknown_name_not_found(
    cat: Seq<ResourceView>,
    name: Seq<char>,
    header: Option<Seq<char>>,
)
    requires
        forall|i: int| 0 <= i < cat.len() ==> (#[trigger] cat[i]).name != name,
    ensures
        decision_for_header(cat, name, header) == DecisionView::NotFound,
{
}

} // verus!
