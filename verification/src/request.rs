//! The request metadata the routing layer hands to the responder: the
//! method, the raw request path, and the matched route's URI template when
//! one matched.

use vstd::prelude::*;
use crate::fingerprint::upper_of;
use crate::text::ends_with;

verus! {

/// What the responder learns about the failing request from the routing
/// layer. Plain values only: the surrounding framework extracts them from
/// its own request type.
#[derive(Debug, Clone)]
pub struct RequestMeta {
    pub method: String,
    pub path: String,
    pub route_template: Option<String>,
}

impl RequestMeta {
    /// The route label used for grouping: the matched route's URI
    /// template when known, else the raw request path, upper-cased in
    /// both cases.
    pub open spec fn route_label(self) -> Seq<char> {
        match self.route_template {
            Some(template) => upper_of(template@),
            None => upper_of(self.path@),
        }
    }

    /// Whether telemetry is suppressed for this request: the request path
    /// names the well-known static-asset noise source `favicon.ico`.
    pub open spec fn suppressed(self) -> bool {
        ends_with(self.path@, "/favicon.ico"@)
    }
}

} // verus!
