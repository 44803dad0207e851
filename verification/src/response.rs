//! The response builder: renders an abstract response decision into a
//! concrete HTTP status, headers, and a body plan. File bytes themselves are
//! streamed by the caller from the plan's path; nothing here buffers them.

use vstd::prelude::*;

use crate::handler::DecisionView;
use crate::handler::ResponseDecision;
use crate::http_date::HTTP_DATE_MAX_SECS;
use crate::http_date::fmt_http_date_secs;
use crate::http_date::formatted_http_date;

verus! {

/// What the response's body is: a file to stream, or nothing.
pub enum Body {
    /// Stream the bytes of the file at this path.
    FileStream { path: String },
    /// Send no body.
    Empty,
}

/// A concrete HTTP response: status code, headers in order, and a body plan.
pub struct HttpResponse {
    pub status: u16,
    pub headers: Vec<(String, String)>,
    pub body: Body,
}

/// A decision the builder can render: any modification time it must format
/// lies within what the HTTP-date format can express. Decisions produced
/// from a well-formed catalog satisfy this.
pub open spec fn renderable(d: DecisionView) -> bool {
    match d {
        DecisionView::FullBody(res) => res.wf(),
        DecisionView::NotModified(lm) => lm < HTTP_DATE_MAX_SECS,
        DecisionView::NotFound => true,
        DecisionView::Rejected => true,
    }
}

/// Renders a response decision:
/// - `FullBody`: 200, `Content-Type` and `Last-Modified` headers, the file
///   streamed;
/// - `NotModified`: 304, `Last-Modified` header, empty body;
/// - `NotFound` and `Rejected`: 404, empty body.
pub fn render(decision: &ResponseDecision<'_>) -> (r: HttpResponse)
    requires
        renderable(decision@),
    ensures
        decision@ matches DecisionView::FullBody(res) ==> {
            &&& r.status == 200
            &&& r.headers@.len() == 2
            &&& r.headers@[0].0@ == "Content-Type"@
            &&& r.headers@[0].1@ == res.content_type.mime_spec()
            &&& r.headers@[1].0@ == "Last-Modified"@
            &&& r.headers@[1].1@ == formatted_http_date(res.last_modified)
            &&& (r.body matches Body::FileStream { path } && path@ == res.path)
        },
        decision@ matches DecisionView::NotModified(lm) ==> {
            &&& r.status == 304
            &&& r.headers@.len() == 1
            &&& r.headers@[0].0@ == "Last-Modified"@
            &&& r.headers@[0].1@ == formatted_http_date(lm)
            &&& r.body is Empty
        },
        (decision@ is NotFound || decision@ is Rejected) ==> {
            &&& r.status == 404
            &&& r.headers@.len() == 0
            &&& r.body is Empty
        },
{
    match decision {
        ResponseDecision::FullBody(res) => {
            let mut headers: Vec<(String, String)> = Vec::new();
            headers.push((
                String::from_str("Content-Type"),
                String::from_str(res.content_type.mime()),
            ));
            headers.push((
                String::from_str("Last-Modified"),
                fmt_http_date_secs(res.last_modified),
            ));
            HttpResponse {
                status: 200,
                headers,
                body: Body::FileStream { path: res.path.clone() },
            }
        },
        ResponseDecision::NotModified(lm) => {
            let mut headers: Vec<(String, String)> = Vec::new();
            headers.push((String::from_str("Last-Modified"), fmt_http_date_secs(*lm)));
            HttpResponse { status: 304, headers, body: Body::Empty }
        },
        ResponseDecision::NotFound => {
            HttpResponse { status: 404, headers: Vec::new(), body: Body::Empty }
        },
        ResponseDecision::Rejected => {
            HttpResponse { status: 404, headers: Vec::new(), body: Body::Empty }
        },
    }
}

/// Renders the random endpoint's outcome: a 303 redirect to the canonical
/// direct-name URL for the picked resource, with no body.
pub fn render_redirect(name: &str) -> (r: HttpResponse)
    ensures
        r.status == 303,
        r.headers@.len() == 1,
        r.headers@[0].0@ == "Location"@,
        r.headers@[0].1@ == "/image/"@ + name@,
        r.body is Empty,
{
    let mut location = String::from_str("/image/");
    location.append(name);
    let mut headers: Vec<(String, String)> = Vec::new();
    headers.push((String::from_str("Location"), location));
    HttpResponse { status: 303, headers, body: Body::Empty }
}

} // verus!
