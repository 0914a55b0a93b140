//! Client of the description provider.
//!
//! The provider serves one JSON document per pokemon species, holding a list
//! of localized flavor texts. This client selects the English entry and
//! normalizes it into a single clean line; a missing pokemon, an unreadable
//! body, a species without English text, and every other failure each map to
//! their [`WrapperError`] kind.

use crate::text::{normalize_flavor_text, normalize_spec};
use crate::wrappers::errors::{outcome_view, WrapperError};
use vstd::prelude::*;
use vstd::string::{StrSliceExecFns, StringExecFns};

verus! {

/// One localized name tag, as the provider sends it.
#[derive(Debug)]
pub struct Language {
    pub name: String,
}

/// One localized flavor text entry.
#[derive(Debug)]
pub struct FlavorText {
    pub flavor_text: String,
    pub language: Language,
}

/// The part of a species document this service reads.
#[derive(Debug)]
pub struct Pokemon {
    pub flavor_text_entries: Vec<FlavorText>,
}

impl View for FlavorText {
    type V = (Seq<char>, Seq<char>);

    /// A flavor text entry as the pair of its text and its language tag.
    open spec fn view(&self) -> (Seq<char>, Seq<char>) {
        (self.flavor_text@, self.language.name@)
    }
}

impl View for Pokemon {
    type V = Seq<(Seq<char>, Seq<char>)>;

    /// A species document as its (flavor text, language name) entries.
    open spec fn view(&self) -> Seq<(Seq<char>, Seq<char>)> {
        self.flavor_text_entries@.map_values(|e: FlavorText| e@)
    }
}

/// The language tag of English entries.
pub open spec fn is_english(lang: Seq<char>) -> bool {
    lang == seq!['e', 'n']
}

/// The first English flavor text among the entries, still raw.
pub open spec fn spec_english_text(entries: Seq<(Seq<char>, Seq<char>)>) -> Option<Seq<char>>
    decreases entries.len(),
{
    if entries.len() == 0 {
        None
    } else if is_english(entries.first().1) {
        Some(entries.first().0)
    } else {
        spec_english_text(entries.drop_first())
    }
}

/// The description a species document yields: its first English flavor text,
/// normalized to one clean line — or nothing, when no English entry exists.
pub open spec fn spec_description(entries: Seq<(Seq<char>, Seq<char>)>) -> Option<Seq<char>> {
    match spec_english_text(entries) {
        Some(t) => Some(normalize_spec(t)),
        None => None,
    }
}

fn language_is_english(name: &String) -> (r: bool)
    ensures
        r == is_english(name@),
{
    let s = name.as_str();
    if s.unicode_len() != 2 {
        return false;
    }
    let r = s.get_char(0) == 'e' && s.get_char(1) == 'n';
    proof {
        if r {
            assert(name@ =~= seq!['e', 'n']);
        } else {
            assert(name@ != seq!['e', 'n']);
        }
    }
    r
}

impl Pokemon {
    /// The normalized English description of this species, or
    /// [`WrapperError::NoDescription`] when the document has no
    /// English-language entry.
    pub fn get_description(&self) -> (r: Result<String, WrapperError>)
        ensures
            match spec_description(self@) {
                Some(d) => r matches Ok(s) && s@ == d,
                None => r == Err::<String, WrapperError>(WrapperError::NoDescription),
            },
    {
        let n = self.flavor_text_entries.len();
        let mut i: usize = 0;
        proof {
            assert(self@.skip(0) =~= self@);
        }
        while i < n
            invariant
                i <= n,
                n == self.flavor_text_entries.len(),
                spec_english_text(self@) == spec_english_text(self@.skip(i as int)),
            decreases n - i,
        {
            let entry = &self.flavor_text_entries[i];
            proof {
                assert(self@[i as int] == entry@);
                assert(self@.skip(i as int).first() == self@[i as int]);
            }
            if language_is_english(&entry.language.name) {
                return Ok(normalize_flavor_text(entry.flavor_text.as_str()));
            }
            proof {
                assert(self@.skip(i as int).drop_first() =~= self@.skip(i as int + 1));
            }
            i += 1;
        }
        proof {
            assert(self@.skip(n as int) =~= Seq::<(Seq<char>, Seq<char>)>::empty());
        }
        Err(WrapperError::NoDescription)
    }
}

/// What a species body parses to: the (flavor text, language name) entries of
/// the document, or nothing when the text is not such a document.
pub uninterp spec fn parsed_species(body: Seq<char>) -> Option<Seq<(Seq<char>, Seq<char>)>>;

/// Relies on `serde_json` (`from_str`, and the `Value` accessors `get`,
/// `as_array`, `as_str`): whether a text parses as a species document with a
/// `flavor_text_entries` list of `{flavor_text, language: {name}}` entries,
/// and which entries it holds, depend on the text alone.
#[verifier::external_body]
fn parse_species_json(body: &str) -> (r: Option<Pokemon>)
    ensures
        r is Some <==> parsed_species(body@) is Some,
        r matches Some(p) ==> p@ == parsed_species(body@)->0,
{
    let v: serde_json::Value = serde_json::from_str(body).ok()?;
    let entries = v.get("flavor_text_entries")?.as_array()?;
    let mut out: Vec<FlavorText> = Vec::new();
    for e in entries {
        out.push(FlavorText {
            flavor_text: e.get("flavor_text")?.as_str()?.to_string(),
            language: Language { name: e.get("language")?.get("name")?.as_str()?.to_string() },
        });
    }
    Some(Pokemon { flavor_text_entries: out })
}

/// What the provider's answer to one species request means. `status` is the
/// HTTP status of its response, or `None` when the transport itself failed;
/// `body` is the response body, read only on status 200.
pub open spec fn spec_description_outcome(status: Option<u16>, body: Seq<char>) -> Result<
    Seq<char>,
    WrapperError,
> {
    match status {
        None => Err(WrapperError::UnexpectedError),
        Some(code) => if code == 200 {
            match parsed_species(body) {
                Some(entries) => match spec_description(entries) {
                    Some(d) => Ok(d),
                    None => Err(WrapperError::NoDescription),
                },
                None => Err(WrapperError::ParsingError),
            }
        } else if code == 404 {
            Err(WrapperError::NotFound)
        } else {
            Err(WrapperError::UnexpectedError)
        },
    }
}

/// Interpret the provider's answer to one species request: on a 200 the body
/// is parsed and the normalized English description extracted; a 404 means
/// the pokemon is unknown; everything else — a transport failure (`None`),
/// an unreadable body, any other status — is normalized per
/// [`spec_description_outcome`].
pub fn description_outcome(status: Option<u16>, body: &str) -> (r: Result<String, WrapperError>)
    ensures
        outcome_view(r) == spec_description_outcome(status, body@),
{
    match status {
        None => Err(WrapperError::UnexpectedError),
        Some(code) => {
            if code == 200 {
                match parse_species_json(body) {
                    Some(pokemon) => pokemon.get_description(),
                    None => Err(WrapperError::ParsingError),
                }
            } else if code == 404 {
                Err(WrapperError::NotFound)
            } else {
                Err(WrapperError::UnexpectedError)
            }
        },
    }
}

/// The fixed path under which the provider serves species documents.
pub open spec fn spec_species_path() -> Seq<char> {
    "/api/v2/pokemon-species/"@
}

/// The exec counterpart of [`spec_species_path`].
pub fn species_path() -> (p: &'static str)
    ensures
        p@ == spec_species_path(),
{
    "/api/v2/pokemon-species/"
}

/// Immutable configuration of the description provider client.
#[derive(Clone, Debug)]
pub struct PokemonWrapper {
    base_url: String,
}

impl PokemonWrapper {
    /// The configured base of the provider.
    pub closed spec fn spec_base_url(&self) -> Seq<char> {
        self.base_url@
    }

    pub fn new() -> (w: Self)
        ensures
            w.spec_base_url() == "https://pokeapi.co"@,
    {
        PokemonWrapper { base_url: String::from_str("https://pokeapi.co") }
    }

    pub fn with_base_url(base_url: &str) -> (w: Self)
        ensures
            w.spec_base_url() == base_url@,
    {
        PokemonWrapper { base_url: String::from_str(base_url) }
    }

    /// The provider URL that asks for one pokemon species.
    pub fn pokemon_url(&self, pokemon_name: &str) -> (u: String)
        ensures
            u@ == self.spec_base_url() + spec_species_path() + pokemon_name@,
    {
        let mut u = self.base_url.clone();
        u.append(species_path());
        u.append(pokemon_name);
        u
    }
}

impl Default for PokemonWrapper {
    fn default() -> (w: Self)
        ensures
            w.spec_base_url() == "https://pokeapi.co"@,
    {
        PokemonWrapper::new()
    }
}

} // verus!
