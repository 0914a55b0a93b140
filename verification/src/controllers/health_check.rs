//! The health probe.

use crate::response::PublicResponse;
use vstd::prelude::*;

verus! {

/// The health-check reply: always 200 with an empty body, whatever the state
/// of the upstream services — nothing else flows into it.
pub fn health_check() -> (r: PublicResponse)
    ensures
        r.status == 200,
        r.body@ == Seq::<char>::empty(),
{
    PublicResponse { status: 200, body: String::new() }
}

} // verus!
