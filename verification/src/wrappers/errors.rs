//! The one failure vocabulary of the service.

use vstd::prelude::*;

verus! {

/// Every upstream failure, normalized. The upstream clients translate their
/// services' idiosyncratic signals — HTTP statuses, transport faults, a
/// semantic success count — into this enumeration, and nothing downstream of
/// them ever inspects a raw upstream status again.
#[derive(Clone, Copy, Debug, PartialEq, Eq, Structural)]
pub enum WrapperError {
    /// The description provider does not know the requested pokemon.
    NotFound,
    /// The provider answered, but holds no English flavor text.
    NoDescription,
    /// An upstream body arrived that could not be understood.
    ParsingError,
    /// The transformer refused the call for rate-limiting reasons.
    TooManyRequests,
    /// Transport failures and every other upstream misbehaviour.
    UnexpectedError,
}

/// A client outcome, with the successful text seen as a character sequence.
pub open spec fn outcome_view(r: Result<String, WrapperError>) -> Result<Seq<char>, WrapperError> {
    match r {
        Ok(s) => Ok(s@),
        Err(e) => Err(e),
    }
}

} // verus!
