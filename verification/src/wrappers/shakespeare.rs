//! Client of the Shakespeare transformer.
//!
//! The transformer takes a text and restates it in Shakespearean English. Its
//! reply carries, besides the HTTP status, a nested success count: only a
//! count of exactly one means the translation actually happened. Rate
//! limiting, unreadable bodies, semantic failures and transport faults each
//! map to their [`WrapperError`] kind.

use crate::json::{json_string, write_json_string};
use crate::wrappers::errors::{outcome_view, WrapperError};
use vstd::prelude::*;
use vstd::string::StringExecFns;

verus! {

/// What a transformer body parses to: its `success.total` count and its
/// `contents.translated` text, or nothing when the text is not such a reply.
pub uninterp spec fn parsed_translation(body: Seq<char>) -> Option<(u8, Seq<char>)>;

/// Relies on `serde_json` (`from_str`, and the `Value` accessors `get`,
/// `as_u64`, `as_str`): whether a text parses as a transformer reply carrying
/// a `success.total` count and a `contents.translated` text, and what those
/// two fields hold, depend on the text alone.
#[verifier::external_body]
fn parse_translation_json(body: &str) -> (r: Option<(u8, String)>)
    ensures
        r is Some <==> parsed_translation(body@) is Some,
        r matches Some(p) ==> parsed_translation(body@)->0 == (p.0, p.1@),
{
    let v: serde_json::Value = serde_json::from_str(body).ok()?;
    let total = u8::try_from(v.get("success")?.get("total")?.as_u64()?).ok()?;
    let translated = v.get("contents")?.get("translated")?.as_str()?.to_string();
    Some((total, translated))
}

/// What the transformer's answer to one request means. `status` is the HTTP
/// status of its response, or `None` when the transport itself failed; `body`
/// is the response body, read only on status 200. A 200 whose success count
/// is not exactly one is a semantic failure despite the transport-level
/// success.
pub open spec fn spec_translation_outcome(status: Option<u16>, body: Seq<char>) -> Result<
    Seq<char>,
    WrapperError,
> {
    match status {
        None => Err(WrapperError::UnexpectedError),
        Some(code) => if code == 200 {
            match parsed_translation(body) {
                Some(t) => if t.0 == 1 {
                    Ok(t.1)
                } else {
                    Err(WrapperError::UnexpectedError)
                },
                None => Err(WrapperError::ParsingError),
            }
        } else if code == 429 {
            Err(WrapperError::TooManyRequests)
        } else {
            Err(WrapperError::UnexpectedError)
        },
    }
}

/// Interpret the transformer's answer to one request, per
/// [`spec_translation_outcome`].
pub fn translation_outcome(status: Option<u16>, body: &str) -> (r: Result<String, WrapperError>)
    ensures
        outcome_view(r) == spec_translation_outcome(status, body@),
{
    match status {
        None => Err(WrapperError::UnexpectedError),
        Some(code) => {
            if code == 200 {
                match parse_translation_json(body) {
                    Some(t) => {
                        if t.0 == 1 {
                            Ok(t.1)
                        } else {
                            Err(WrapperError::UnexpectedError)
                        }
                    },
                    None => Err(WrapperError::ParsingError),
                }
            } else if code == 429 {
                Err(WrapperError::TooManyRequests)
            } else {
                Err(WrapperError::UnexpectedError)
            }
        },
    }
}

/// The JSON body of one transformation request.
pub open spec fn spec_translation_request_body(text: Seq<char>) -> Seq<char> {
    "{\"text\":"@ + json_string(text) + "}"@
}

/// Build the JSON body `{"text": ...}` that asks the transformer for `text`.
pub fn translation_request_body(text: &str) -> (r: String)
    ensures
        r@ == spec_translation_request_body(text@),
{
    let mut r = String::from_str("{\"text\":");
    write_json_string(&mut r, text);
    r.append("}");
    r
}

/// The fixed path of the Shakespeare translation endpoint.
pub open spec fn spec_translation_path() -> Seq<char> {
    "/translate/shakespeare.json"@
}

/// The exec counterpart of [`spec_translation_path`].
pub fn translation_path() -> (p: &'static str)
    ensures
        p@ == spec_translation_path(),
{
    "/translate/shakespeare.json"
}

/// The request header that carries the configured api key, when one is set.
pub fn api_key_header() -> (h: &'static str)
    ensures
        h@ == "X-FunTranslations-Api-Secret"@,
{
    "X-FunTranslations-Api-Secret"
}

/// Immutable configuration of the transformer client.
#[derive(Clone, Debug)]
pub struct ShakespeareWrapper {
    base_url: String,
    api_key: Option<String>,
}

impl ShakespeareWrapper {
    /// The configured base of the transformer.
    pub closed spec fn spec_base_url(&self) -> Seq<char> {
        self.base_url@
    }

    /// The configured api key, if any.
    pub closed spec fn spec_api_key(&self) -> Option<Seq<char>> {
        match self.api_key {
            Some(k) => Some(k@),
            None => None,
        }
    }

    pub fn new() -> (w: Self)
        ensures
            w.spec_base_url() == "https://api.funtranslations.com"@,
            w.spec_api_key() is None,
    {
        ShakespeareWrapper { base_url: String::from_str("https://api.funtranslations.com"), api_key: None }
    }

    pub fn with_base_url(base_url: &str) -> (w: Self)
        ensures
            w.spec_base_url() == base_url@,
            w.spec_api_key() is None,
    {
        ShakespeareWrapper { base_url: String::from_str(base_url), api_key: None }
    }

    /// Set the shakespeare wrapper's api key.
    pub fn set_api_key(&mut self, api_key: Option<String>)
        ensures
            final(self).spec_base_url() == old(self).spec_base_url(),
            final(self).spec_api_key() == match api_key {
                Some(k) => Some(k@),
                None => None::<Seq<char>>,
            },
    {
        self.api_key = api_key;
    }

    /// The configured api key, for attaching to an outbound request.
    pub fn api_key(&self) -> (k: &Option<String>)
        ensures
            k is Some <==> self.spec_api_key() is Some,
            k matches Some(s) ==> self.spec_api_key() == Some(s@),
    {
        &self.api_key
    }

    /// The transformer URL that performs a translation.
    pub fn translation_url(&self) -> (u: String)
        ensures
            u@ == self.spec_base_url() + spec_translation_path(),
    {
        let mut u = self.base_url.clone();
        u.append(translation_path());
        u
    }
}

impl Default for ShakespeareWrapper {
    fn default() -> (w: Self)
        ensures
            w.spec_base_url() == "https://api.funtranslations.com"@,
            w.spec_api_key() is None,
    {
        ShakespeareWrapper::new()
    }
}

} // verus!
