//! The laws the codec and the accessors obey, stated and proved once and
//! for all inputs.

use vstd::prelude::*;

use crate::decode::{
    decode_definition_spec, decode_definitions_spec, decode_response_spec, decode_tags_spec,
    field_string_spec, field_u64_spec,
};
use crate::encode::{
    encode_definition_spec, encode_definitions_seq, encode_response_spec, encode_tags_seq,
};
use crate::error::DecodeErrorModel;
use crate::json::{lemma_obj_lookup_at, obj_lookup, JsonSpec};
use crate::model::{first_definition_spec, DefinitionModel, ResponseModel};

verus! {

/// Decoding the document that encodes a definition recovers the
/// definition unchanged.
pub proof fn lemma_definition_round_trip(d: DefinitionModel)
    ensures
        decode_definition_spec(encode_definition_spec(d)) == Ok::<
            DefinitionModel,
            DecodeErrorModel,
        >(d),
{
    reveal_strlit("author");
    reveal_strlit("definition");
    reveal_strlit("example");
    reveal_strlit("defid");
    reveal_strlit("permalink");
    reveal_strlit("thumbs_down");
    reveal_strlit("thumbs_up");
    reveal_strlit("word");
    let entries = encode_definition_spec(d)->Obj_0;
    assert("author"@.len() == 6 && "definition"@.len() == 10 && "example"@.len() == 7
        && "defid"@.len() == 5 && "permalink"@.len() == 9 && "thumbs_down"@.len() == 11
        && "thumbs_up"@.len() == 9 && "word"@.len() == 4);
    assert("permalink"@ != "thumbs_up"@) by {
        assert("permalink"@[0] == 'p' && "thumbs_up"@[0] == 't');
    }
    assert forall|j: int, k: int| 0 <= j < k < entries.len() implies entries[j].0
        != entries[k].0 by {
        assert(entries[j].0.len() != entries[k].0.len() || (entries[j].0 == "permalink"@
            && entries[k].0 == "thumbs_up"@));
    }
    lemma_obj_lookup_at(entries, 0);
    lemma_obj_lookup_at(entries, 1);
    lemma_obj_lookup_at(entries, 2);
    lemma_obj_lookup_at(entries, 3);
    lemma_obj_lookup_at(entries, 4);
    lemma_obj_lookup_at(entries, 5);
    lemma_obj_lookup_at(entries, 6);
    lemma_obj_lookup_at(entries, 7);
    assert(obj_lookup(entries, "author"@) == Some(JsonSpec::Str(d.author)));
    assert(obj_lookup(entries, "definition"@) == Some(JsonSpec::Str(d.definition)));
    assert(obj_lookup(entries, "example"@) == Some(JsonSpec::Str(d.example)));
    assert(obj_lookup(entries, "defid"@) == Some(JsonSpec::Num(Some(d.id))));
    assert(obj_lookup(entries, "permalink"@) == Some(JsonSpec::Str(d.permalink)));
    assert(obj_lookup(entries, "thumbs_down"@) == Some(JsonSpec::Num(Some(d.thumbs_down))));
    assert(obj_lookup(entries, "thumbs_up"@) == Some(JsonSpec::Num(Some(d.thumbs_up))));
    assert(obj_lookup(entries, "word"@) == Some(JsonSpec::Str(d.word)));
    assert(field_string_spec(entries, "author"@) == Ok::<Seq<char>, DecodeErrorModel>(d.author));
    assert(field_u64_spec(entries, "defid"@) == Ok::<u64, DecodeErrorModel>(d.id));
    assert(field_string_spec(entries, "word"@) == Ok::<Seq<char>, DecodeErrorModel>(d.word));
}

/// Decoding the array elements that encode a sequence of definitions
/// recovers the sequence unchanged.
pub proof fn lemma_definitions_round_trip(ds: Seq<DefinitionModel>)
    ensures
        decode_definitions_spec(encode_definitions_seq(ds)) == Ok::<
            Seq<DefinitionModel>,
            DecodeErrorModel,
        >(ds),
    decreases ds.len(),
{
    let es = encode_definitions_seq(ds);
    if ds.len() == 0 {
        assert(es =~= Seq::<JsonSpec>::empty());
        assert(ds =~= Seq::<DefinitionModel>::empty());
    } else {
        assert(es[0] == encode_definition_spec(ds[0]));
        lemma_definition_round_trip(ds[0]);
        lemma_definitions_round_trip(ds.drop_first());
        assert(es.drop_first() =~= encode_definitions_seq(ds.drop_first()));
        assert(seq![ds[0]] + ds.drop_first() =~= ds);
    }
}

/// Decoding the array elements that encode a sequence of tags recovers
/// the sequence unchanged.
pub proof fn lemma_tags_round_trip(ts: Seq<Seq<char>>)
    ensures
        decode_tags_spec(encode_tags_seq(ts)) == Ok::<Seq<Seq<char>>, DecodeErrorModel>(ts),
    decreases ts.len(),
{
    let es = encode_tags_seq(ts);
    if ts.len() == 0 {
        assert(es =~= Seq::<JsonSpec>::empty());
        assert(ts =~= Seq::<Seq<char>>::empty());
    } else {
        assert(es[0] == JsonSpec::Str(ts[0]));
        lemma_tags_round_trip(ts.drop_first());
        assert(es.drop_first() =~= encode_tags_seq(ts.drop_first()));
        assert(seq![ts[0]] + ts.drop_first() =~= ts);
    }
}

/// Round trip of a response: decoding the document that encodes a
/// response recovers every modeled field value unchanged.
pub proof fn lemma_response_round_trip(r: ResponseModel)
    ensures
        decode_response_spec(encode_response_spec(r)) == Ok::<ResponseModel, DecodeErrorModel>(r),
{
    reveal_strlit("list");
    reveal_strlit("tags");
    reveal_with_fuel(obj_lookup, 3);
    let entries = encode_response_spec(r)->Obj_0;
    assert("list"@ != "tags"@) by {
        assert("list"@[0] == 'l' && "tags"@[0] == 't');
    }
    assert(obj_lookup(entries, "list"@) == Some(
        JsonSpec::Arr(encode_definitions_seq(r.definitions)),
    ));
    assert(obj_lookup(entries, "tags"@) == Some(JsonSpec::Arr(encode_tags_seq(r.tags))));
    lemma_definitions_round_trip(r.definitions);
    lemma_tags_round_trip(r.tags);
}

/// Round trip of a payload: when a JSON document decodes to a response,
/// re-encoding that response yields a document that decodes to the very
/// same response — decoding followed by re-encoding preserves every
/// modeled field value.
pub proof fn lemma_payload_round_trip(p: JsonSpec)
    requires
        decode_response_spec(p) is Ok,
    ensures
        decode_response_spec(encode_response_spec(decode_response_spec(p)->Ok_0))
            == decode_response_spec(p),
{
    lemma_response_round_trip(decode_response_spec(p)->Ok_0);
}

/// The first definition of a response is the head of its definition
/// sequence exactly when that sequence is non-empty, and is absent
/// exactly when that sequence is empty.
pub proof fn lemma_first_definition(r: ResponseModel)
    ensures
        (first_definition_spec(r) is Some) <==> r.definitions.len() > 0,
        r.definitions.len() > 0 ==> first_definition_spec(r) == Some(r.definitions[0]),
        (first_definition_spec(r) is None) <==> r.definitions.len() == 0,
{
}

} // verus!
