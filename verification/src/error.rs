//! The closed error taxonomy of the library.
//!
//! Every fallible step of a lookup reports through [`Error`]; the first
//! failure aborts the whole lookup, nothing is retried and nothing is
//! swallowed.  Shape mismatches found while decoding a well-formed JSON
//! payload are the [`DecodeError`] kinds; a transport hands its failures
//! over as a [`FetchError`], which [`Error::from_fetch`] folds into the
//! taxonomy unchanged.

use vstd::prelude::*;
use vstd::string::StringExecFns;

verus! {

/// A mismatch between a well-formed JSON payload and the expected shape.
#[derive(Debug, PartialEq, Eq)]
pub enum DecodeError {
    /// A value was not a JSON object where one was required.
    ExpectedObject,
    /// A field expected to be a list was not a JSON array.
    ExpectedArray,
    /// A field expected to be text was not a JSON string.
    ExpectedString,
    /// A required key was absent from an object; carries the wire name of
    /// the key.
    MissingField(String),
    /// A present field had the wrong primitive type, e.g. a numeric field
    /// not representable as an unsigned integer; carries the wire name of
    /// the field.
    TypeMismatch(String),
}

/// Mathematical model of a [`DecodeError`].
pub enum DecodeErrorModel {
    /// Model of [`DecodeError::ExpectedObject`].
    ExpectedObject,
    /// Model of [`DecodeError::ExpectedArray`].
    ExpectedArray,
    /// Model of [`DecodeError::ExpectedString`].
    ExpectedString,
    /// Model of [`DecodeError::MissingField`].
    MissingField(Seq<char>),
    /// Model of [`DecodeError::TypeMismatch`].
    TypeMismatch(Seq<char>),
}

impl View for DecodeError {
    type V = DecodeErrorModel;

    open spec fn view(&self) -> DecodeErrorModel {
        match self {
            DecodeError::ExpectedObject => DecodeErrorModel::ExpectedObject,
            DecodeError::ExpectedArray => DecodeErrorModel::ExpectedArray,
            DecodeError::ExpectedString => DecodeErrorModel::ExpectedString,
            DecodeError::MissingField(name) => DecodeErrorModel::MissingField(name@),
            DecodeError::TypeMismatch(name) => DecodeErrorModel::TypeMismatch(name@),
        }
    }
}

/// A failure of the injected transport capability, the only failures a
/// transport can report.  Each variant carries the underlying cause's own
/// description.
#[derive(Debug, PartialEq, Eq)]
pub enum FetchError {
    /// The HTTP request itself failed: connection, DNS, TLS, timeout.
    Transport(String),
    /// The request target was not a valid URL.
    Url(String),
    /// Reading the response body failed.
    Io(String),
}

/// Common error type used throughout the library: one closed taxonomy
/// that unifies transport failures, URL-construction failures, parse
/// failures and decode failures.
#[derive(Debug, PartialEq, Eq)]
pub enum Error {
    /// The injected transport capability failed; opaque to this crate and
    /// passed through unchanged.
    Transport(String),
    /// The search term, interpolated into the URL template, produced an
    /// invalid request target.
    Url(String),
    /// The response body was not well-formed JSON; carries the parser's
    /// own description of the fault.
    Json(String),
    /// Well-formed JSON did not match the expected shape.
    Decode(DecodeError),
    /// Reading the response body failed.
    Io(String),
}

/// Mathematical model of an [`Error`].
pub enum ErrorModel {
    /// Model of [`Error::Transport`].
    Transport(Seq<char>),
    /// Model of [`Error::Url`].
    Url(Seq<char>),
    /// Model of [`Error::Json`].
    Json(Seq<char>),
    /// Model of [`Error::Decode`].
    Decode(DecodeErrorModel),
    /// Model of [`Error::Io`].
    Io(Seq<char>),
}

impl View for Error {
    type V = ErrorModel;

    open spec fn view(&self) -> ErrorModel {
        match self {
            Error::Transport(m) => ErrorModel::Transport(m@),
            Error::Url(m) => ErrorModel::Url(m@),
            Error::Json(m) => ErrorModel::Json(m@),
            Error::Decode(d) => ErrorModel::Decode(d@),
            Error::Io(m) => ErrorModel::Io(m@),
        }
    }
}

/// The description of a [`DecodeError`].
pub open spec fn decode_error_text(e: DecodeErrorModel) -> Seq<char> {
    match e {
        DecodeErrorModel::ExpectedObject => "expected a JSON object"@,
        DecodeErrorModel::ExpectedArray => "expected a JSON array"@,
        DecodeErrorModel::ExpectedString => "expected a JSON string"@,
        DecodeErrorModel::MissingField(name) => "missing field `"@ + name + "`"@,
        DecodeErrorModel::TypeMismatch(name) => "invalid type for field `"@ + name + "`"@,
    }
}

/// The description of an [`Error`]: the wrapped cause's own description
/// where one exists, else the decode error's text.
pub open spec fn error_text(e: ErrorModel) -> Seq<char> {
    match e {
        ErrorModel::Transport(m) => m,
        ErrorModel::Url(m) => m,
        ErrorModel::Json(m) => m,
        ErrorModel::Decode(d) => decode_error_text(d),
        ErrorModel::Io(m) => m,
    }
}

impl DecodeError {
    /// A human-readable description of the mismatch.
    pub fn describe(&self) -> (r: String)
        ensures
            r@ == decode_error_text(self@),
    {
        match self {
            DecodeError::ExpectedObject => String::from_str("expected a JSON object"),
            DecodeError::ExpectedArray => String::from_str("expected a JSON array"),
            DecodeError::ExpectedString => String::from_str("expected a JSON string"),
            DecodeError::MissingField(name) => String::from_str("missing field `").concat(
                name.as_str(),
            ).concat("`"),
            DecodeError::TypeMismatch(name) => String::from_str("invalid type for field `").concat(
                name.as_str(),
            ).concat("`"),
        }
    }
}

impl Error {
    /// A human-readable description of the failure: the wrapped cause's
    /// own description where one exists.
    pub fn describe(&self) -> (r: String)
        ensures
            r@ == error_text(self@),
    {
        match self {
            Error::Transport(m) => m.clone(),
            Error::Url(m) => m.clone(),
            Error::Json(m) => m.clone(),
            Error::Decode(d) => d.describe(),
            Error::Io(m) => m.clone(),
        }
    }

    /// Fold a transport failure into the taxonomy: each kind of failure
    /// maps to its own variant, its description unchanged.
    pub fn from_fetch(e: FetchError) -> (r: Error)
        ensures
            match e {
                FetchError::Transport(m) => r == Error::Transport(m),
                FetchError::Url(m) => r == Error::Url(m),
                FetchError::Io(m) => r == Error::Io(m),
            },
    {
        match e {
            FetchError::Transport(m) => Error::Transport(m),
            FetchError::Url(m) => Error::Url(m),
            FetchError::Io(m) => Error::Io(m),
        }
    }
}

} // verus!
