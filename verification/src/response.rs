//! The response mapper: the single point where a normalized upstream failure
//! becomes an HTTP status and body. The mapping is fixed and identical for
//! both upstream clients — the caller is never told which upstream failed.

use crate::wrappers::errors::WrapperError;
use vstd::prelude::*;
use vstd::string::StringExecFns;

verus! {

/// What the service sends back: an HTTP status and a body.
#[derive(Debug)]
pub struct PublicResponse {
    pub status: u16,
    pub body: String,
}

/// The fixed status for each failure kind: 404 for a missing pokemon, 429
/// when the transformer rate-limits, 500 for everything else.
pub open spec fn spec_error_status(e: WrapperError) -> u16 {
    match e {
        WrapperError::NotFound => 404,
        WrapperError::TooManyRequests => 429,
        _ => 500,
    }
}

/// The fixed plain-text body for each failure kind. No internal detail ever
/// reaches the caller: only these three messages exist.
pub open spec fn spec_error_body(e: WrapperError) -> Seq<char> {
    match e {
        WrapperError::NotFound => "Not Found"@,
        WrapperError::TooManyRequests => "Too Many Requests"@,
        _ => "Unexpected Error"@,
    }
}

/// Map a normalized upstream failure onto the reply the caller sees.
pub fn error_response(e: &WrapperError) -> (r: PublicResponse)
    ensures
        r.status == spec_error_status(*e),
        r.body@ == spec_error_body(*e),
{
    match e {
        WrapperError::NotFound => PublicResponse {
            status: 404,
            body: String::from_str("Not Found"),
        },
        WrapperError::TooManyRequests => PublicResponse {
            status: 429,
            body: String::from_str("Too Many Requests"),
        },
        _ => PublicResponse { status: 500, body: String::from_str("Unexpected Error") },
    }
}

} // verus!
