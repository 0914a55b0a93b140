//! The immutable per-process state the route handlers share.

use crate::wrappers::pokemon::PokemonWrapper;
use crate::wrappers::shakespeare::ShakespeareWrapper;
use vstd::prelude::*;

verus! {

/// Everything a handler needs: the two configured upstream clients. Shared by
/// reference across concurrent requests and never mutated after startup.
#[derive(Clone, Debug)]
pub struct State {
    pub shakespeare_wrapper: ShakespeareWrapper,
    pub pokemon_wrapper: PokemonWrapper,
}

} // verus!
