//! The freshness validator: compares a client's `If-Modified-Since` token
//! against a resource's modification time and decides between sending the
//! full body and a "not modified" answer.

use vstd::prelude::*;

use crate::http_date::parsed_http_date;
use crate::http_date::parse_http_date_secs;

verus! {

/// The outcome of a freshness check.
#[derive(Clone, Copy, Debug, PartialEq, Eq, Structural)]
pub enum Freshness {
    /// The client's copy (if any) is stale or unknown: send the full body.
    FullBody,
    /// The client's copy is current: answer "not modified" with no body.
    NotModified,
}

/// The decision for a parsed freshness token: "not modified" exactly when a
/// token is present and is at or after the resource's modification time.
/// Both sides are whole seconds, the granularity of the HTTP-date format.
pub open spec fn freshness_decision(token: Option<u64>, last_modified: u64) -> Freshness {
    match token {
        Some(t) => if t >= last_modified {
            Freshness::NotModified
        } else {
            Freshness::FullBody
        },
        None => Freshness::FullBody,
    }
}

/// The freshness token a request carries: the parse of its
/// `If-Modified-Since` header, or `None` where the header is absent or is
/// not a valid HTTP-date. A parse failure is indistinguishable from an
/// absent header.
pub open spec fn token_of_header(header: Option<Seq<char>>) -> Option<u64> {
    match header {
        Some(h) => parsed_http_date(h),
        None => None,
    }
}

/// The freshness outcome for a raw `If-Modified-Since` header value.
pub open spec fn freshness_for_header(header: Option<Seq<char>>, last_modified: u64) -> Freshness {
    freshness_decision(token_of_header(header), last_modified)
}

/// The view of an optional header value.
pub open spec fn header_view(header: Option<&str>) -> Option<Seq<char>> {
    match header {
        Some(h) => Some(h@),
        None => None,
    }
}

/// Decides freshness from an already-parsed token.
pub fn decide_freshness(token: Option<u64>, last_modified: u64) -> (r: Freshness)
    ensures
        r == freshness_decision(token, last_modified),
{
    match token {
        Some(t) => if t >= last_modified {
            Freshness::NotModified
        } else {
            Freshness::FullBody
        },
        None => Freshness::FullBody,
    }
}

/// Evaluates a raw `If-Modified-Since` header against a resource's
/// modification time. A missing or unparseable header yields the full body;
/// parse failures never surface as errors.
pub fn evaluate(if_modified_since: Option<&str>, last_modified: u64) -> (r: Freshness)
    ensures
        r == freshness_for_header(header_view(if_modified_since), last_modified),
{
    let token = match if_modified_since {
        Some(h) => parse_http_date_secs(h),
        None => None,
    };
    decide_freshness(token, last_modified)
}

} // verus!
