//! Trusted boundary to the `httpdate` crate: parsing and formatting the
//! RFC 7231 HTTP-date text used by `If-Modified-Since` and `Last-Modified`.
//! Timestamps are whole seconds since the Unix epoch, matching the
//! second-level granularity of the HTTP-date format.

use vstd::prelude::*;

verus! {

/// Exclusive upper bound on the timestamps the HTTP-date format covers:
/// the first second of year 10000. `httpdate` panics on anything at or
/// beyond it, and every timestamp it parses lies below it.
pub const HTTP_DATE_MAX_SECS: u64 = 253402300800;

/// The timestamp an HTTP-date string denotes, or `None` where the string is
/// not a valid HTTP-date. A function of the characters alone; its definition
/// (the three RFC 7231 date grammars) is left to the `httpdate` crate.
pub uninterp spec fn parsed_http_date(s: Seq<char>) -> Option<u64>;

/// The IMF-fixdate text of a timestamp, e.g. `Fri, 15 May 2015 15:34:21 GMT`.
/// A function of the seconds value alone; its definition is left to the
/// `httpdate` crate.
pub uninterp spec fn formatted_http_date(secs: u64) -> Seq<char>;

/// Relies on `httpdate::parse_http_date`: parsing is deterministic in the
/// string, accepts the three RFC 7231 formats, and every accepted date lies
/// in years 1970 through 9999, so the conversion to seconds since the epoch
/// cannot fail on an accepted date.
#[verifier::external_body]
pub(crate) fn parse_http_date_secs(s: &str) -> (r: Option<u64>)
    ensures
        r == parsed_http_date(s@),
{
    match httpdate::parse_http_date(s) {
        Ok(t) => match t.duration_since(std::time::UNIX_EPOCH) {
            Ok(d) => Some(d.as_secs()),
            Err(_) => None,
        },
        Err(_) => None,
    }
}

/// Relies on `httpdate::fmt_http_date`: the IMF-fixdate text is a function
/// of the timestamp alone. `httpdate` panics on timestamps at or past year
/// 10000, which the precondition excludes.
#[verifier::external_body]
pub(crate) fn fmt_http_date_secs(secs: u64) -> (r: String)
    requires
        secs < HTTP_DATE_MAX_SECS,
    ensures
        r@ == formatted_http_date(secs),
{
    httpdate::fmt_http_date(std::time::UNIX_EPOCH + std::time::Duration::from_secs(secs))
}

} // verus!
