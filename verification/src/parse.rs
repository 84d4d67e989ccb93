//! Parsing a raw payload into a [`JsonValue`].
//!
//! The parse itself is serde_json's work.  This module declares what the
//! crate relies on from serde_json: `parsed_json` names the document a
//! byte sequence denotes, and `json_model` names the document a
//! `serde_json::Value` holds.  A parsed value is converted into the
//! crate's own [`JsonValue`] tree by [`to_json`], which is verified
//! against the trusted contract of [`value_parts`].

use vstd::prelude::*;

use crate::error::Error;
use crate::json::{json_view, json_view_seq, lemma_json_view_entries, lemma_json_view_seq, JsonSpec, JsonValue};

verus! {

#[verifier::external_type_specification]
#[verifier::external_body]
/// Declares serde_json's JSON value type, opaque to this crate.
pub struct ExValue(serde_json::Value);

/// The document a `serde_json::Value` holds, with each number read as an
/// unsigned 64-bit integer where it is representable as one.
pub uninterp spec fn json_model(v: serde_json::Value) -> JsonSpec;

/// The document a byte sequence denotes: `Some` exactly when the parse
/// succeeds, which is a property of the bytes alone.
pub uninterp spec fn parsed_json(bytes: Seq<u8>) -> Option<JsonSpec>;

/// The models of a sequence of `serde_json::Value`s, in order.
pub open spec fn model_seq(items: Seq<serde_json::Value>) -> Seq<JsonSpec> {
    items.map(|i: int, c: serde_json::Value| json_model(c))
}

/// The models of a sequence of key/value entries, in order.
pub open spec fn model_entries(entries: Seq<(String, serde_json::Value)>) -> Seq<
    (Seq<char>, JsonSpec),
> {
    entries.map(|i: int, e: (String, serde_json::Value)| (e.0@, json_model(e.1)))
}

/// One level of a `serde_json::Value`, with the children still in
/// serde_json's form.
pub enum ValueParts {
    /// The value was `null`.
    Null,
    /// The value was a boolean.
    Bool(bool),
    /// The value was a number: `Some` exactly when it is representable as
    /// an unsigned 64-bit integer.
    Num(Option<u64>),
    /// The value was a string.
    Str(String),
    /// The value was an array of the given elements, in order.
    Arr(Vec<serde_json::Value>),
    /// The value was an object of the given entries, in key order.
    Obj(Vec<(String, serde_json::Value)>),
}

/// Relies on serde_json::Value: one arm for each of its six variants,
/// moving the fields out; a number is read with
/// serde_json::Number::as_u64, which returns `Some` exactly when the
/// number is representable as an unsigned 64-bit integer.
#[verifier::external_body]
fn value_parts(v: serde_json::Value) -> (r: ValueParts)
    ensures
        match r {
            ValueParts::Null => json_model(v) == JsonSpec::Null,
            ValueParts::Bool(b) => json_model(v) == JsonSpec::Bool(b),
            ValueParts::Num(n) => json_model(v) == JsonSpec::Num(n),
            ValueParts::Str(s) => json_model(v) == JsonSpec::Str(s@),
            ValueParts::Arr(items) => json_model(v) == JsonSpec::Arr(model_seq(items@)),
            ValueParts::Obj(entries) => json_model(v) == JsonSpec::Obj(model_entries(entries@)),
        },
{
    match v {
        serde_json::Value::Null => ValueParts::Null,
        serde_json::Value::Bool(b) => ValueParts::Bool(b),
        serde_json::Value::Number(n) => ValueParts::Num(n.as_u64()),
        serde_json::Value::String(s) => ValueParts::Str(s),
        serde_json::Value::Array(items) => ValueParts::Arr(items),
        serde_json::Value::Object(entries) => ValueParts::Obj(entries.into_iter().collect()),
    }
}

/// Relies on serde_json::from_slice::<serde_json::Value>: parses the
/// bytes as one JSON document; whether the parse succeeds, and what it
/// yields, depend on the bytes alone.  A failure is converted to the
/// parser's own description of the fault.
#[verifier::external_body]
fn parse_value(bytes: &[u8]) -> (r: Result<serde_json::Value, String>)
    ensures
        match r {
            Ok(v) => parsed_json(bytes@) == Some(json_model(v)),
            Err(_) => parsed_json(bytes@) is None,
        },
{
    serde_json::from_slice(bytes).map_err(|e| e.to_string())
}

/// Convert a parsed `serde_json::Value` into the crate's own tree,
/// preserving its model.
#[verifier::loop_isolation(false)]
fn to_json(v: serde_json::Value) -> (r: JsonValue)
    ensures
        r@ == json_model(v),
    decreases json_model(v),
{
    let ghost m = json_model(v);
    match value_parts(v) {
        ValueParts::Null => JsonValue::Null,
        ValueParts::Bool(b) => JsonValue::Bool(b),
        ValueParts::Num(n) => JsonValue::Num(n),
        ValueParts::Str(s) => JsonValue::Str(s),
        ValueParts::Arr(items) => {
            let ghost whole = model_seq(items@);
            let mut rest = items;
            let mut out: Vec<JsonValue> = Vec::new();
            while rest.len() > 0
                invariant
                    whole.len() == out@.len() + rest@.len(),
                    forall|k: int| 0 <= k < out@.len() ==> json_view(#[trigger] out@[k])
                        == whole[k],
                    forall|k: int| 0 <= k < rest@.len() ==> json_model(#[trigger] rest@[k])
                        == whole[out@.len() + k],
                decreases rest@.len(),
            {
                let c = rest.remove(0);
                proof {
                    assert(json_model(c) == whole[out@.len() as int]);
                    assert(decreases_to!(m => m->Arr_0));
                    assert(decreases_to!(whole => whole[out@.len() as int]));
                }
                let jc = to_json(c);
                out.push(jc);
            }
            proof {
                lemma_json_view_seq(out@);
                assert(json_view_seq(out@) =~= whole);
            }
            JsonValue::Arr(out)
        },
        ValueParts::Obj(entries) => {
            let ghost whole = model_entries(entries@);
            let mut rest = entries;
            let mut out: Vec<(String, JsonValue)> = Vec::new();
            while rest.len() > 0
                invariant
                    whole.len() == out@.len() + rest@.len(),
                    forall|k: int|
                        #![trigger out@[k]]
                        0 <= k < out@.len() ==> out@[k].0@ == whole[k].0 && json_view(out@[k].1)
                            == whole[k].1,
                    forall|k: int|
                        #![trigger rest@[k]]
                        0 <= k < rest@.len() ==> rest@[k].0@ == whole[out@.len() + k].0
                            && json_model(rest@[k].1) == whole[out@.len() + k].1,
                decreases rest@.len(),
            {
                let e = rest.remove(0);
                let (key, c) = e;
                proof {
                    assert(json_model(c) == whole[out@.len() as int].1);
                    assert(decreases_to!(m => m->Obj_0));
                    assert(decreases_to!(whole => whole[out@.len() as int]));
                    assert(decreases_to!(whole[out@.len() as int] => whole[out@.len() as int].1));
                }
                let jc = to_json(c);
                out.push((key, jc));
            }
            proof {
                lemma_json_view_entries(out@);
                assert(crate::json::json_view_entries(out@) =~= whole);
            }
            JsonValue::Obj(out)
        },
    }
}

/// Parse a raw payload into a JSON document: succeeds exactly when the
/// bytes denote one, and fails with the parse-error variant carrying the
/// parser's own description.
pub fn parse_json(bytes: &[u8]) -> (r: Result<JsonValue, Error>)
    ensures
        match r {
            Ok(j) => parsed_json(bytes@) == Some(j@),
            Err(e) => parsed_json(bytes@) is None && e@ is Json,
        },
{
    match parse_value(bytes) {
        Ok(v) => Ok(to_json(v)),
        Err(m) => Err(Error::Json(m)),
    }
}

} // verus!
