//! The fingerprinter: derives the stable grouping key and the route label
//! that the telemetry backend uses to cluster occurrences of the same
//! error on the same route.

use vstd::prelude::*;
use vstd::string::StringExecFns;

verus! {

/// The upper-case folding of a text, as `str::to_uppercase` computes it.
pub uninterp spec fn upper_of(s: Seq<char>) -> Seq<char>;

/// Relies on `str::to_uppercase`: the result is a function of the
/// characters of `s` alone.
#[verifier::external_body]
fn to_uppercase(s: &str) -> (r: String)
    ensures
        r@ == upper_of(s@),
{
    s.to_uppercase()
}

/// The grouping key for an error code on a route label:
/// `"<code> - <label>"`.
pub open spec fn fingerprint_of(code: Seq<char>, label: Seq<char>) -> Seq<char> {
    code + " - "@ + label
}

/// Compute the fingerprint and the route tag for an error `code` on a
/// matched route's URI template, or on the raw request path when no route
/// matched. The label is the upper-cased input; the fingerprint joins the
/// code and the label.
pub fn fingerprint(code: &str, route_label_or_path: &str) -> (r: (String, Option<String>))
    ensures
        r.0@ == fingerprint_of(code@, upper_of(route_label_or_path@)),
        r.1 matches Some(label) && label@ == upper_of(route_label_or_path@),
{
    let label = to_uppercase(route_label_or_path);
    let key = code.to_owned().concat(" - ").concat(label.as_str());
    (key, Some(label))
}

} // verus!
