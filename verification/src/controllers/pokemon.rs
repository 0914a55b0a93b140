//! The pokemon route: orchestration of the two upstream calls and the shape
//! of the final reply.
//!
//! The handler asks the description provider first; only if that succeeds is
//! the transformer consulted with the normalized text — on any provider
//! failure the pipeline short-circuits straight to the mapped error reply.

use crate::json::{json_string, write_json_string};
use crate::response::{error_response, spec_error_body, spec_error_status, PublicResponse};
use crate::wrappers::errors::WrapperError;
use crate::wrappers::pokemon::spec_description_outcome;
use crate::wrappers::shakespeare::spec_translation_outcome;
use vstd::prelude::*;
use vstd::string::StringExecFns;

verus! {

/// The success payload of the pokemon route.
#[derive(Debug)]
pub struct PokemonResponse {
    pub name: String,
    pub description: String,
}

/// The JSON document `{"name":...,"description":...}`.
pub open spec fn spec_pokemon_body(name: Seq<char>, description: Seq<char>) -> Seq<char> {
    "{\"name\":"@ + json_string(name) + ",\"description\":"@ + json_string(description) + "}"@
}

impl PokemonResponse {
    /// The JSON document this payload serializes to.
    pub open spec fn spec_json(&self) -> Seq<char> {
        spec_pokemon_body(self.name@, self.description@)
    }

    /// Serialize the payload as its JSON document.
    pub fn to_json(&self) -> (r: String)
        ensures
            r@ == self.spec_json(),
    {
        let mut r = String::from_str("{\"name\":");
        write_json_string(&mut r, self.name.as_str());
        r.append(",\"description\":");
        write_json_string(&mut r, self.description.as_str());
        r.append("}");
        r
    }
}

/// What the handler does next after the description fetch: consult the
/// transformer, or stop and reply at once.
pub enum Step {
    /// Send this normalized text to the transformer.
    Translate(String),
    /// Short-circuit: reply without consulting the transformer.
    Respond(PublicResponse),
}

/// The reply of the whole pipeline, as a (status, body) pair, given the
/// outcome of each client. The transformer's outcome is irrelevant whenever
/// the provider failed: the pipeline never reaches it.
pub open spec fn spec_response_of(
    name: Seq<char>,
    description: Result<Seq<char>, WrapperError>,
    translation: Result<Seq<char>, WrapperError>,
) -> (u16, Seq<char>) {
    match description {
        Err(e) => (spec_error_status(e), spec_error_body(e)),
        Ok(_) => match translation {
            Err(e) => (spec_error_status(e), spec_error_body(e)),
            Ok(t) => (200u16, spec_pokemon_body(name, t)),
        },
    }
}

/// Decide the step after the description fetch: a provider failure maps
/// straight to its reply and the transformer is never consulted; a success
/// hands the normalized description on.
pub fn on_description_outcome(r: Result<String, WrapperError>) -> (step: Step)
    ensures
        match r {
            Ok(d) => step matches Step::Translate(t) && t@ == d@,
            Err(e) => step matches Step::Respond(resp) && resp.status == spec_error_status(e)
                && resp.body@ == spec_error_body(e),
        },
{
    match r {
        Ok(d) => Step::Translate(d),
        Err(e) => Step::Respond(error_response(&e)),
    }
}

/// Decide the final reply once the transformer has answered (or failed): a
/// success becomes the 200 JSON payload, a failure its mapped reply.
pub fn on_translation_outcome(pokemon_name: &str, r: Result<String, WrapperError>) -> (resp:
    PublicResponse)
    ensures
        match r {
            Ok(t) => resp.status == 200 && resp.body@ == spec_pokemon_body(pokemon_name@, t@),
            Err(e) => resp.status == spec_error_status(e) && resp.body@ == spec_error_body(e),
        },
{
    match r {
        Ok(t) => {
            let payload = PokemonResponse {
                name: String::from_str(pokemon_name),
                description: t,
            };
            let body = payload.to_json();
            PublicResponse { status: 200, body }
        },
        Err(e) => error_response(&e),
    }
}

/// Law: when the description provider reports the pokemon unknown — which a
/// provider 404 always means, whatever body came with it — the reply is 404
/// "Not Found", and it does not depend on the transformer in any way, because
/// the pipeline never consults it.
pub proof fn lemma_not_found_short_circuit(
    name: Seq<char>,
    provider_body: Seq<char>,
    translation: Result<Seq<char>, WrapperError>,
    other_translation: Result<Seq<char>, WrapperError>,
)
    ensures
        spec_description_outcome(Some(404u16), provider_body) == Err::<Seq<char>, WrapperError>(
            WrapperError::NotFound,
        ),
        spec_response_of(name, Err(WrapperError::NotFound), translation).0 == 404,
        spec_response_of(name, Err(WrapperError::NotFound), translation).1 == "Not Found"@,
        spec_response_of(name, Err(WrapperError::NotFound), translation) == spec_response_of(
            name,
            Err(WrapperError::NotFound),
            other_translation,
        ),
{
}

/// Law: a transformer 429, whatever body came with it, always turns into a
/// 429 "Too Many Requests" reply, whatever description the provider had
/// returned.
pub proof fn lemma_rate_limited_transformer(
    name: Seq<char>,
    description: Seq<char>,
    transformer_body: Seq<char>,
)
    ensures
        spec_translation_outcome(Some(429u16), transformer_body) == Err::<Seq<char>, WrapperError>(
            WrapperError::TooManyRequests,
        ),
        spec_response_of(name, Ok(description), Err(WrapperError::TooManyRequests)).0 == 429,
        spec_response_of(name, Ok(description), Err(WrapperError::TooManyRequests)).1
            == "Too Many Requests"@,
{
}

} // verus!
