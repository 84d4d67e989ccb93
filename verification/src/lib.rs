//! Client library for a word-definition lookup web service.
//!
//! The library decodes the service's JSON payloads into two record types,
//! [`model::Response`] and [`model::Definition`], reports every failure
//! through one closed error taxonomy ([`error::Error`]), and performs a
//! lookup through an injected transport capability
//! ([`bridge::Transport`]) so that any HTTP client the host application
//! chooses can carry the request.

pub mod bridge;
pub mod decode;
pub mod encode;
pub mod error;
pub mod json;
pub mod laws;
pub mod model;
pub mod parse;

pub use crate::bridge::{
    decode_fetch_outcome, decode_payload, define, definitions, request_target, Transport,
    UrbanDictionaryRequester,
};
pub use crate::decode::{decode_definition, decode_response};
pub use crate::encode::{encode_definition, encode_response};

pub use crate::error::{DecodeError, DecodeErrorModel, Error, ErrorModel, FetchError};
pub use crate::json::{JsonSpec, JsonValue};
pub use crate::model::{Definition, DefinitionModel, Response, ResponseModel};
pub use crate::parse::parse_json;
