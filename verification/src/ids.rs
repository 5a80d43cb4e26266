//! The request-id generator: a fresh, lexicographically sortable 128-bit
//! identifier rendered as text, minted once per error response.

use vstd::prelude::*;

verus! {

/// The length of a rendered request id: a ULID is always 26 characters of
/// Crockford base32 text.
pub const REQUEST_ID_LEN: usize = 26;

/// Mint a fresh request id. The result depends on the clock and on random
/// bits, so nothing is promised of its value beyond its shape; its
/// best-effort global uniqueness is the generator's own guarantee.
///
/// Relies on `ulid::Ulid::generate` and `ulid::Ulid::to_string`: the
/// Crockford base32 rendering of a ULID is always exactly 26 ASCII
/// characters.
#[verifier::external_body]
pub fn new_id() -> (r: String)
    ensures
        r@.len() == REQUEST_ID_LEN,
{
    ulid::Ulid::generate().to_string()
}

} // verus!
