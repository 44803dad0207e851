//! The request handler: resolves a requested name against the catalog,
//! consults the freshness validator, and produces an abstract response
//! decision; and picks the target of the random-redirect endpoint.

use vstd::prelude::*;

use crate::catalog::Catalog;
use crate::catalog::Resource;
use crate::catalog::ResourceView;
use crate::freshness::Freshness;
use crate::freshness::evaluate;
use crate::freshness::freshness_decision;
use crate::freshness::header_view;
use crate::freshness::token_of_header;

verus! {

/// The abstract outcome of one request, consumed by the response builder.
/// Every state is terminal.
pub enum ResponseDecision<'a> {
    /// The resource is cataloged and the client's copy (if any) is stale:
    /// serve the bytes.
    FullBody(&'a Resource),
    /// The client's copy is current: answer with no body, restating the
    /// modification time.
    NotModified(u64),
    /// No cataloged resource has the requested name.
    NotFound,
    /// The request was rejected outright. Unreachable through the handlers:
    /// the catalog already excludes ineligible files at build time, so a
    /// request for such a name is indistinguishable from `NotFound`.
    Rejected,
}

/// The mathematical model of a [`ResponseDecision`].
pub enum DecisionView {
    FullBody(ResourceView),
    NotModified(u64),
    NotFound,
    Rejected,
}

impl<'a> View for ResponseDecision<'a> {
    type V = DecisionView;

    open spec fn view(&self) -> DecisionView {
        match self {
            ResponseDecision::FullBody(res) => DecisionView::FullBody(res@),
            ResponseDecision::NotModified(lm) => DecisionView::NotModified(*lm),
            ResponseDecision::NotFound => DecisionView::NotFound,
            ResponseDecision::Rejected => DecisionView::Rejected,
        }
    }
}

/// The decision for a named resource and an already-parsed freshness token:
/// `NotFound` for an uncataloged name; otherwise `NotModified` or `FullBody`
/// as the freshness comparison against the resource's modification time
/// says.
pub open spec fn decision_for_token(
    cat: Seq<ResourceView>,
    name: Seq<char>,
    token: Option<u64>,
) -> DecisionView {
    if exists|i: int| 0 <= i < cat.len() && (#[trigger] cat[i]).name == name {
        let r = cat[choose|i: int| 0 <= i < cat.len() && (#[trigger] cat[i]).name == name];
        match freshness_decision(token, r.last_modified) {
            Freshness::NotModified => DecisionView::NotModified(r.last_modified),
            Freshness::FullBody => DecisionView::FullBody(r),
        }
    } else {
        DecisionView::NotFound
    }
}

/// The decision for a named resource and a raw `If-Modified-Since` header.
pub open spec fn decision_for_header(
    cat: Seq<ResourceView>,
    name: Seq<char>,
    header: Option<Seq<char>>,
) -> DecisionView {
    decision_for_token(cat, name, token_of_header(header))
}

/// Handles `GET /image/{name}`: looks the name up and evaluates the
/// request's `If-Modified-Since` header against the resource's modification
/// time. An unknown name is `NotFound` whatever the header says.
pub fn handle_get_image<'a>(
    catalog: &'a Catalog,
    name: &str,
    if_modified_since: Option<&str>,
) -> (r: ResponseDecision<'a>)
    requires
        catalog.wf(),
    ensures
        r@ == decision_for_header(catalog@, name@, header_view(if_modified_since)),
{
    match catalog.lookup(name) {
        Some(res) => {
            proof {
                let i = choose|i: int|
                    0 <= i < catalog@.len() && #[trigger] catalog@[i] == res@;
                let j = choose|j: int|
                    0 <= j < catalog@.len() && (#[trigger] catalog@[j]).name == name@;
                assert(catalog@[i].name == name@);
                assert(i == j);
            }
            match evaluate(if_modified_since, res.last_modified) {
                Freshness::NotModified => ResponseDecision::NotModified(res.last_modified),
                Freshness::FullBody => ResponseDecision::FullBody(res),
            }
        },
        None => ResponseDecision::NotFound,
    }
}

/// Handles `GET /image`: picks a cataloged resource uniformly at random and
/// names the target of the redirect. The redirect always points at a
/// cataloged name; no image bytes are ever served from this endpoint.
pub fn handle_random_redirect<'a>(catalog: &'a Catalog) -> (r: &'a Resource)
    requires
        catalog.wf(),
    ensures
        exists|i: int| 0 <= i < catalog@.len() && #[trigger] catalog@[i] == r@,
{
    catalog.pick_random()
}

} // verus!
