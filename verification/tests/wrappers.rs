//! The upstream clients, exercised with the bodies the real services send.

use poke_spearify::response::error_response;
use poke_spearify::wrappers::errors::WrapperError;
use poke_spearify::wrappers::pokemon::{description_outcome, species_path, PokemonWrapper};
use poke_spearify::wrappers::shakespeare::{
    api_key_header, translation_outcome, translation_path, translation_request_body,
    ShakespeareWrapper,
};

const CHARIZARD_BODY: &str = r#"{
  "name": "charizard",
  "flavor_text_entries": [
    {
      "flavor_text": "Sputa fiamme cosi ardenti da fondere le rocce.",
      "language": { "name": "it" }
    },
    {
      "flavor_text": "Spits fire that\nis hot enough to\nmelt boulders.\fKnown to cause forest fires\nunintentionally.",
      "language": { "name": "en" }
    }
  ]
}"#;

const CHARIZARD_WITHOUT_DESC_BODY: &str = r#"{
  "name": "charizard",
  "flavor_text_entries": [
    {
      "flavor_text": "Sputa fiamme cosi ardenti da fondere le rocce.",
      "language": { "name": "it" }
    }
  ]
}"#;

const CHARIZARD_BAD_BODY: &str = r#""this body is a JSON string, not a species document""#;

const TRANSLATION_BODY: &str = r#"{
  "success": { "total": 1 },
  "contents": {
    "translated": "Rust, a language empowering everyone to buildeth reliable and efficient software.",
    "text": "Rust, a language empowering everyone to build reliable and efficient software.",
    "translation": "shakespeare"
  }
}"#;

const TRANSLATION_BAD_BODY: &str = r#""this body is a JSON string, not a translation reply""#;

#[test]
fn fetch_pokemon_description() {
    let description = description_outcome(Some(200), CHARIZARD_BODY).unwrap();
    assert_eq!(
        description,
        "Spits fire that is hot enough to melt boulders. Known to cause forest fires unintentionally."
    );
}

#[test]
fn fetch_non_existing_pokemon_description() {
    let outcome = description_outcome(Some(404), "");
    assert_eq!(true, outcome.is_err());
    assert_eq!(WrapperError::NotFound, outcome.err().unwrap());
}

#[test]
fn fetch_pokemon_without_description() {
    let outcome = description_outcome(Some(200), CHARIZARD_WITHOUT_DESC_BODY);
    assert_eq!(true, outcome.is_err());
    assert_eq!(WrapperError::NoDescription, outcome.err().unwrap());
}

#[test]
fn fetch_pokemon_parse_error() {
    let outcome = description_outcome(Some(200), CHARIZARD_BAD_BODY);
    assert_eq!(true, outcome.is_err());
    assert_eq!(WrapperError::ParsingError, outcome.err().unwrap());
}

#[test]
fn fetch_pokemon_transport_failure() {
    let outcome = description_outcome(None, "");
    assert_eq!(WrapperError::UnexpectedError, outcome.err().unwrap());
}

#[test]
fn fetch_pokemon_other_status() {
    let outcome = description_outcome(Some(500), "");
    assert_eq!(WrapperError::UnexpectedError, outcome.err().unwrap());
}

#[test]
fn fetch_translation_ok() {
    let translated = translation_outcome(Some(200), TRANSLATION_BODY).unwrap();
    assert_eq!(
        translated,
        "Rust, a language empowering everyone to buildeth reliable and efficient software."
    );
}

#[test]
fn fetch_translation_http_error() {
    let outcome = translation_outcome(Some(500), "");
    assert_eq!(true, outcome.is_err());
    assert_eq!(500, error_response(&outcome.err().unwrap()).status);
}

#[test]
fn fetch_translation_parse_error() {
    let outcome = translation_outcome(Some(200), TRANSLATION_BAD_BODY);
    assert_eq!(true, outcome.is_err());
    assert_eq!(WrapperError::ParsingError, outcome.clone().err().unwrap());
    assert_eq!(500, error_response(&outcome.err().unwrap()).status);
}

#[test]
fn fetch_translation_rate_limited() {
    let outcome = translation_outcome(Some(429), "");
    assert_eq!(WrapperError::TooManyRequests, outcome.err().unwrap());
}

#[test]
fn fetch_translation_semantic_failure() {
    let body = r#"{"success":{"total":0},"contents":{"translated":"unused"}}"#;
    let outcome = translation_outcome(Some(200), body);
    assert_eq!(WrapperError::UnexpectedError, outcome.err().unwrap());
}

#[test]
fn fetch_translation_total_out_of_range() {
    let body = r#"{"success":{"total":300},"contents":{"translated":"unused"}}"#;
    let outcome = translation_outcome(Some(200), body);
    assert_eq!(WrapperError::ParsingError, outcome.err().unwrap());
}

#[test]
fn pokemon_wrapper_urls() {
    let default_wrapper = PokemonWrapper::new();
    assert_eq!(
        default_wrapper.pokemon_url("charizard"),
        "https://pokeapi.co/api/v2/pokemon-species/charizard"
    );
    let wrapper = PokemonWrapper::with_base_url("http://localhost:5001");
    assert_eq!(
        wrapper.pokemon_url("mew"),
        "http://localhost:5001/api/v2/pokemon-species/mew"
    );
    assert_eq!(species_path(), "/api/v2/pokemon-species/");
}

#[test]
fn shakespeare_wrapper_urls_and_key() {
    let default_wrapper = ShakespeareWrapper::new();
    assert_eq!(
        default_wrapper.translation_url(),
        "https://api.funtranslations.com/translate/shakespeare.json"
    );
    assert_eq!(default_wrapper.api_key().is_none(), true);

    let mut wrapper = ShakespeareWrapper::with_base_url("http://localhost:5002");
    assert_eq!(
        wrapper.translation_url(),
        "http://localhost:5002/translate/shakespeare.json"
    );
    wrapper.set_api_key(Some(String::from("secret")));
    assert_eq!(wrapper.api_key().as_deref(), Some("secret"));
    wrapper.set_api_key(None);
    assert_eq!(wrapper.api_key().is_none(), true);

    assert_eq!(translation_path(), "/translate/shakespeare.json");
    assert_eq!(api_key_header(), "X-FunTranslations-Api-Secret");
}

#[test]
fn translation_request_body_shape() {
    assert_eq!(
        translation_request_body("To be or not to be"),
        r#"{"text":"To be or not to be"}"#
    );
    assert_eq!(
        translation_request_body("line one\nline \"two\"\\"),
        r#"{"text":"line one\nline \"two\"\\"}"#
    );
    assert_eq!(
        translation_request_body("\u{8}\t\r\u{c}\u{1}\u{1f}"),
        r#"{"text":"\b\t\r\f\u0001\u001f"}"#
    );
}
