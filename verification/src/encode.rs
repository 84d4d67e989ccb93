//! The encoder: maps the record types back onto JSON documents.
//!
//! Encoding writes exactly the modeled fields, under their wire names
//! (`list` for the definitions, `defid` for a definition's id), in the
//! declaration order of the record types.  Decoding an encoded document
//! recovers the record unchanged; see the laws module.

use vstd::prelude::*;
use vstd::string::StringExecFns;

use crate::json::{
    json_view_entries, json_view_seq, lemma_json_view_entries, lemma_json_view_seq, JsonSpec,
    JsonValue,
};
use crate::model::{Definition, DefinitionModel, Response, ResponseModel};

verus! {

/// The JSON object that encodes one definition.
pub open spec fn encode_definition_spec(d: DefinitionModel) -> JsonSpec {
    JsonSpec::Obj(
        seq![
            ("author"@, JsonSpec::Str(d.author)),
            ("definition"@, JsonSpec::Str(d.definition)),
            ("example"@, JsonSpec::Str(d.example)),
            ("defid"@, JsonSpec::Num(Some(d.id))),
            ("permalink"@, JsonSpec::Str(d.permalink)),
            ("thumbs_down"@, JsonSpec::Num(Some(d.thumbs_down))),
            ("thumbs_up"@, JsonSpec::Num(Some(d.thumbs_up))),
            ("word"@, JsonSpec::Str(d.word)),
        ],
    )
}

/// The JSON array elements that encode a sequence of definitions.
pub open spec fn encode_definitions_seq(ds: Seq<DefinitionModel>) -> Seq<JsonSpec> {
    ds.map(|i: int, d: DefinitionModel| encode_definition_spec(d))
}

/// The JSON array elements that encode a sequence of tags.
pub open spec fn encode_tags_seq(ts: Seq<Seq<char>>) -> Seq<JsonSpec> {
    ts.map(|i: int, t: Seq<char>| JsonSpec::Str(t))
}

/// The JSON object that encodes one response.
pub open spec fn encode_response_spec(r: ResponseModel) -> JsonSpec {
    JsonSpec::Obj(
        seq![
            ("list"@, JsonSpec::Arr(encode_definitions_seq(r.definitions))),
            ("tags"@, JsonSpec::Arr(encode_tags_seq(r.tags))),
        ],
    )
}

/// Encode one definition, as [`encode_definition_spec`] describes.
pub fn encode_definition(d: &Definition) -> (r: JsonValue)
    ensures
        r@ == encode_definition_spec(d@),
{
    let mut entries: Vec<(String, JsonValue)> = Vec::new();
    entries.push((String::from_str("author"), JsonValue::Str(d.author.clone())));
    entries.push((String::from_str("definition"), JsonValue::Str(d.definition.clone())));
    entries.push((String::from_str("example"), JsonValue::Str(d.example.clone())));
    entries.push((String::from_str("defid"), JsonValue::Num(Some(d.id))));
    entries.push((String::from_str("permalink"), JsonValue::Str(d.permalink.clone())));
    entries.push((String::from_str("thumbs_down"), JsonValue::Num(Some(d.thumbs_down))));
    entries.push((String::from_str("thumbs_up"), JsonValue::Num(Some(d.thumbs_up))));
    entries.push((String::from_str("word"), JsonValue::Str(d.word.clone())));
    proof {
        lemma_json_view_entries(entries@);
        assert(json_view_entries(entries@) =~= encode_definition_spec(d@)->Obj_0);
    }
    JsonValue::Obj(entries)
}

/// Encode one response, as [`encode_response_spec`] describes.
pub fn encode_response(r: &Response) -> (out: JsonValue)
    ensures
        out@ == encode_response_spec(r@),
{
    let mut list: Vec<JsonValue> = Vec::new();
    let mut i: usize = 0;
    while i < r.definitions.len()
        invariant
            0 <= i <= r.definitions.len(),
            list@.len() == i,
            forall|k: int| 0 <= k < i ==> list@[k]@ == encode_definition_spec(
                #[trigger] r.definitions@[k]@,
            ),
        decreases r.definitions.len() - i,
    {
        list.push(encode_definition(&r.definitions[i]));
        i = i + 1;
    }
    let mut tags: Vec<JsonValue> = Vec::new();
    let mut k: usize = 0;
    while k < r.tags.len()
        invariant
            0 <= k <= r.tags.len(),
            tags@.len() == k,
            forall|m: int| 0 <= m < k ==> tags@[m]@ == JsonSpec::Str(#[trigger] r.tags@[m]@),
        decreases r.tags.len() - k,
    {
        tags.push(JsonValue::Str(r.tags[k].clone()));
        k = k + 1;
    }
    let mut entries: Vec<(String, JsonValue)> = Vec::new();
    entries.push((String::from_str("list"), JsonValue::Arr(list)));
    entries.push((String::from_str("tags"), JsonValue::Arr(tags)));
    proof {
        lemma_json_view_seq(list@);
        lemma_json_view_seq(tags@);
        assert(json_view_seq(list@) =~= encode_definitions_seq(r@.definitions));
        assert(json_view_seq(tags@) =~= encode_tags_seq(r@.tags));
        lemma_json_view_entries(entries@);
        assert(json_view_entries(entries@) =~= encode_response_spec(r@)->Obj_0);
    }
    JsonValue::Obj(entries)
}

} // verus!
