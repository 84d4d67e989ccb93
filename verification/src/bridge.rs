//! The request orchestrator: the one verb of the library, written once
//! against an injected transport capability.
//!
//! A lookup is a stateless one-shot operation: build the request target,
//! let the transport perform one GET, decode the returned bytes.  Each
//! call is exactly one request/response round trip; identical words issued
//! twice perform two calls.  Nothing is cached and nothing is retried:
//! the first failure aborts the lookup and surfaces unchanged.

use vstd::prelude::*;
use vstd::string::StringExecFns;

use crate::decode::{decode_response, decode_response_spec};
use crate::error::{Error, ErrorModel, FetchError};
use crate::model::{first_definition_spec, Definition, DefinitionModel, Response, ResponseModel};
use crate::parse::{parse_json, parsed_json};

verus! {

/// The capability to perform one HTTP GET: anything that can take a
/// request target and yield the response body's bytes, or fail.
///
/// The host application supplies the implementation — any HTTP client,
/// blocking or suspending, can stand behind it; this crate implements it
/// for none.  A transport reports a failure only as a [`FetchError`], so
/// every transport failure surfaces through the taxonomy unchanged.
pub trait Transport {
    /// Perform one GET against `target` and return the full response
    /// body.
    fn fetch(&mut self, target: &str) -> Result<Vec<u8>, FetchError>;
}

/// The URL template a word is substituted into.
pub open spec fn url_prefix() -> Seq<char> {
    "http://api.urbandictionary.com/v0/define?term="@
}

/// The request target for a word: the word substituted verbatim into the
/// URL template.
pub open spec fn request_target_spec(word: Seq<char>) -> Seq<char> {
    url_prefix() + word
}

/// Build the request target for a word.
///
/// The word is substituted verbatim: a word holding reserved URL
/// characters (`&`, `#`, a space, non-ASCII bytes) corrupts the request
/// target, so the caller must percent-encode such a word first.
pub fn request_target(word: &str) -> (r: String)
    ensures
        r@ == request_target_spec(word@),
{
    String::from_str("http://api.urbandictionary.com/v0/define?term=").concat(word)
}

/// What decoding a raw payload yields: a parse failure when the bytes are
/// not well-formed JSON, the decode outcome of the denoted document
/// otherwise.
pub open spec fn payload_yields(bytes: Seq<u8>, out: Result<ResponseModel, ErrorModel>) -> bool {
    match parsed_json(bytes) {
        None => out matches Err(ErrorModel::Json(_)),
        Some(j) => match decode_response_spec(j) {
            Ok(rm) => out == Ok::<ResponseModel, ErrorModel>(rm),
            Err(de) => out == Err::<ResponseModel, ErrorModel>(ErrorModel::Decode(de)),
        },
    }
}

/// The model of a lookup's outcome.
pub open spec fn outcome_model(r: Result<Response, Error>) -> Result<ResponseModel, ErrorModel> {
    match r {
        Ok(resp) => Ok(resp@),
        Err(e) => Err(e@),
    }
}

/// Decode a raw response body into a [`Response`], as [`payload_yields`]
/// describes: a payload that is not well-formed JSON is a parse error, a
/// well-formed one that does not match the schema is a decode error, and
/// a matching one is the decoded response.
pub fn decode_payload(bytes: &[u8]) -> (r: Result<Response, Error>)
    ensures
        payload_yields(bytes@, outcome_model(r)),
{
    match parse_json(bytes) {
        Ok(j) => match decode_response(&j) {
            Ok(resp) => Ok(resp),
            Err(e) => Err(Error::Decode(e)),
        },
        Err(e) => Err(e),
    }
}

/// Process what the transport handed back: a transport failure surfaces
/// unchanged through [`Error::from_fetch`], and a body decodes as
/// [`decode_payload`] describes.
pub fn decode_fetch_outcome(fetched: Result<Vec<u8>, FetchError>) -> (r: Result<Response, Error>)
    ensures
        match fetched {
            Ok(bytes) => payload_yields(bytes@, outcome_model(r)),
            Err(fe) => match fe {
                FetchError::Transport(m) => r == Err::<Response, Error>(Error::Transport(m)),
                FetchError::Url(m) => r == Err::<Response, Error>(Error::Url(m)),
                FetchError::Io(m) => r == Err::<Response, Error>(Error::Io(m)),
            },
        },
{
    match fetched {
        Ok(bytes) => decode_payload(bytes.as_slice()),
        Err(fe) => Err(Error::from_fetch(fe)),
    }
}

/// Retrieve the definitions of a word: build the request target, perform
/// one GET through the transport, decode the body.
///
/// On success the returned response is the decoding of some raw payload;
/// on failure the error is either a transport failure passed through
/// unchanged, or the parse or decode failure of some raw payload.
pub fn definitions<T: Transport>(transport: &mut T, word: &str) -> (r: Result<Response, Error>)
    ensures
        match r {
            Ok(resp) => exists|b: Seq<u8>|
                #[trigger] payload_yields(b, Ok::<ResponseModel, ErrorModel>(resp@)),
            Err(e) => e@ is Transport || e@ is Url || e@ is Io || exists|b: Seq<u8>|
                #[trigger] payload_yields(b, Err::<ResponseModel, ErrorModel>(e@)),
        },
{
    let target = request_target(word);
    let fetched = transport.fetch(target.as_str());
    let ghost fetched_model = match &fetched {
        Ok(bytes) => Some(bytes@),
        Err(_) => None::<Seq<u8>>,
    };
    let r = decode_fetch_outcome(fetched);
    proof {
        if fetched_model is Some {
            assert(payload_yields(fetched_model->0, outcome_model(r)));
        }
    }
    r
}

/// The model of a first-definition lookup's outcome.
pub open spec fn first_outcome_model(r: Result<Option<Definition>, Error>) -> Result<
    Option<DefinitionModel>,
    ErrorModel,
> {
    match r {
        Ok(od) => match od {
            Some(d) => Ok(Some(d@)),
            None => Ok(None),
        },
        Err(e) => Err(e@),
    }
}

/// Retrieve the first definition of a word: one lookup through
/// [`definitions`], then the head of the returned sequence, which is
/// absent exactly when the sequence is empty.
pub fn define<T: Transport>(transport: &mut T, word: &str) -> (r: Result<Option<Definition>, Error>)
    ensures
        match r {
            Ok(od) => exists|b: Seq<u8>, rm: ResponseModel|
                #[trigger] payload_yields(b, Ok::<ResponseModel, ErrorModel>(rm))
                    && first_outcome_model(r) == Ok::<Option<DefinitionModel>, ErrorModel>(
                    first_definition_spec(rm),
                ),
            Err(e) => e@ is Transport || e@ is Url || e@ is Io || exists|b: Seq<u8>|
                #[trigger] payload_yields(b, Err::<ResponseModel, ErrorModel>(e@)),
        },
{
    match definitions(transport, word) {
        Ok(resp) => {
            let ghost rm = resp@;
            let first = resp.into_first_definition();
            proof {
                let b = choose|b: Seq<u8>| payload_yields(b, Ok::<ResponseModel, ErrorModel>(rm));
                assert(payload_yields(b, Ok::<ResponseModel, ErrorModel>(rm)));
            }
            Ok(first)
        },
        Err(e) => Err(e),
    }
}

/// The public face of a lookup, implemented for every [`Transport`]: the
/// two operations of the service, carrying the same contracts as the free
/// functions [`definitions`] and [`define`].
pub trait UrbanDictionaryRequester {
    /// Attempt to retrieve the definitions of a word.
    fn definitions(&mut self, word: &str) -> (r: Result<Response, Error>)
        ensures
            match r {
                Ok(resp) => exists|b: Seq<u8>|
                    #[trigger] payload_yields(b, Ok::<ResponseModel, ErrorModel>(resp@)),
                Err(e) => e@ is Transport || e@ is Url || e@ is Io || exists|b: Seq<u8>|
                    #[trigger] payload_yields(b, Err::<ResponseModel, ErrorModel>(e@)),
            },
    ;

    /// Attempt to retrieve the first definition of a word.
    fn define(&mut self, word: &str) -> (r: Result<Option<Definition>, Error>)
        ensures
            match r {
                Ok(od) => exists|b: Seq<u8>, rm: ResponseModel|
                    #[trigger] payload_yields(b, Ok::<ResponseModel, ErrorModel>(rm))
                        && first_outcome_model(r) == Ok::<Option<DefinitionModel>, ErrorModel>(
                        first_definition_spec(rm),
                    ),
                Err(e) => e@ is Transport || e@ is Url || e@ is Io || exists|b: Seq<u8>|
                    #[trigger] payload_yields(b, Err::<ResponseModel, ErrorModel>(e@)),
            },
    ;
}

impl<T: Transport> UrbanDictionaryRequester for T {
    fn definitions(&mut self, word: &str) -> (r: Result<Response, Error>) {
        crate::bridge::definitions(self, word)
    }

    fn define(&mut self, word: &str) -> (r: Result<Option<Definition>, Error>) {
        crate::bridge::define(self, word)
    }
}

} // verus!
