//! The decoder: maps a JSON document onto the record types, or fails with
//! a descriptive [`DecodeError`].
//!
//! Decoding is total and eager: the whole document is validated before any
//! result is returned, and the first mismatch aborts the decode.  The wire
//! field `list` becomes [`Response::definitions`] and the wire field
//! `defid` becomes [`Definition::id`]; all other field names match.  The
//! fields of a definition are checked in declaration order, and the `list`
//! field of a response before its `tags` field.

use vstd::prelude::*;
use vstd::string::StringExecFns;

use crate::error::{DecodeError, DecodeErrorModel};
use crate::json::{
    json_view, json_view_entries, json_view_seq, lemma_json_view_seq, lookup_entry, obj_lookup,
    JsonSpec, JsonValue,
};
use crate::model::{Definition, DefinitionModel, Response, ResponseModel};

verus! {

/// The text bound to `name` among an object's entries: absence is a
/// missing field, any value other than a string is a string mismatch.
pub open spec fn field_string_spec(
    entries: Seq<(Seq<char>, JsonSpec)>,
    name: Seq<char>,
) -> Result<Seq<char>, DecodeErrorModel> {
    match obj_lookup(entries, name) {
        None => Err(DecodeErrorModel::MissingField(name)),
        Some(v) => match v {
            JsonSpec::Str(s) => Ok(s),
            _ => Err(DecodeErrorModel::ExpectedString),
        },
    }
}

/// The unsigned integer bound to `name` among an object's entries:
/// absence is a missing field, any value other than a number representable
/// as an unsigned 64-bit integer is a type mismatch on that field.
pub open spec fn field_u64_spec(
    entries: Seq<(Seq<char>, JsonSpec)>,
    name: Seq<char>,
) -> Result<u64, DecodeErrorModel> {
    match obj_lookup(entries, name) {
        None => Err(DecodeErrorModel::MissingField(name)),
        Some(v) => match v {
            JsonSpec::Num(n) => match n {
                Some(u) => Ok(u),
                None => Err(DecodeErrorModel::TypeMismatch(name)),
            },
            _ => Err(DecodeErrorModel::TypeMismatch(name)),
        },
    }
}

/// The decoded definition a JSON document denotes, or the first mismatch,
/// with the fields checked in the declaration order of [`Definition`].
pub open spec fn decode_definition_spec(j: JsonSpec) -> Result<DefinitionModel, DecodeErrorModel> {
    match j {
        JsonSpec::Obj(entries) => match field_string_spec(entries, "author"@) {
            Err(e) => Err(e),
            Ok(author) => match field_string_spec(entries, "definition"@) {
                Err(e) => Err(e),
                Ok(definition) => match field_string_spec(entries, "example"@) {
                    Err(e) => Err(e),
                    Ok(example) => match field_u64_spec(entries, "defid"@) {
                        Err(e) => Err(e),
                        Ok(id) => match field_string_spec(entries, "permalink"@) {
                            Err(e) => Err(e),
                            Ok(permalink) => match field_u64_spec(entries, "thumbs_down"@) {
                                Err(e) => Err(e),
                                Ok(thumbs_down) => match field_u64_spec(entries, "thumbs_up"@) {
                                    Err(e) => Err(e),
                                    Ok(thumbs_up) => match field_string_spec(entries, "word"@) {
                                        Err(e) => Err(e),
                                        Ok(word) => Ok(
                                            DefinitionModel {
                                                author,
                                                definition,
                                                example,
                                                id,
                                                permalink,
                                                thumbs_down,
                                                thumbs_up,
                                                word,
                                            },
                                        ),
                                    },
                                },
                            },
                        },
                    },
                },
            },
        },
        _ => Err(DecodeErrorModel::ExpectedObject),
    }
}

/// The decoded definitions an array's elements denote, in order, or the
/// first mismatch.
pub open spec fn decode_definitions_spec(items: Seq<JsonSpec>) -> Result<
    Seq<DefinitionModel>,
    DecodeErrorModel,
>
    decreases items,
{
    if items.len() == 0 {
        Ok(Seq::empty())
    } else {
        match decode_definition_spec(items[0]) {
            Err(e) => Err(e),
            Ok(d) => match decode_definitions_spec(items.drop_first()) {
                Err(e) => Err(e),
                Ok(ds) => Ok(seq![d] + ds),
            },
        }
    }
}

/// The tags an array's elements denote, in order: every element must be a
/// string, or the decode fails with a string mismatch.
pub open spec fn decode_tags_spec(items: Seq<JsonSpec>) -> Result<Seq<Seq<char>>, DecodeErrorModel>
    decreases items,
{
    if items.len() == 0 {
        Ok(Seq::empty())
    } else {
        match items[0] {
            JsonSpec::Str(s) => match decode_tags_spec(items.drop_first()) {
                Err(e) => Err(e),
                Ok(ts) => Ok(seq![s] + ts),
            },
            _ => Err(DecodeErrorModel::ExpectedString),
        }
    }
}

/// The decoded response a JSON document denotes, or the first mismatch:
/// the document must be an object whose `list` field is an array of
/// definition objects and whose `tags` field is an array of strings, with
/// `list` checked before `tags`.
pub open spec fn decode_response_spec(j: JsonSpec) -> Result<ResponseModel, DecodeErrorModel> {
    match j {
        JsonSpec::Obj(entries) => match obj_lookup(entries, "list"@) {
            None => Err(DecodeErrorModel::MissingField("list"@)),
            Some(lv) => match lv {
                JsonSpec::Arr(items) => match decode_definitions_spec(items) {
                    Err(e) => Err(e),
                    Ok(definitions) => match obj_lookup(entries, "tags"@) {
                        None => Err(DecodeErrorModel::MissingField("tags"@)),
                        Some(tv) => match tv {
                            JsonSpec::Arr(titems) => match decode_tags_spec(titems) {
                                Err(e) => Err(e),
                                Ok(tags) => Ok(ResponseModel { definitions, tags }),
                            },
                            _ => Err(DecodeErrorModel::ExpectedArray),
                        },
                    },
                },
                _ => Err(DecodeErrorModel::ExpectedArray),
            },
        },
        _ => Err(DecodeErrorModel::ExpectedObject),
    }
}

/// Appending one element decodes as the sequence, then the element.
proof fn lemma_decode_definitions_snoc(items: Seq<JsonSpec>, x: JsonSpec)
    ensures
        decode_definitions_spec(items.push(x)) == match decode_definitions_spec(items) {
            Err(e) => Err(e),
            Ok(ds) => match decode_definition_spec(x) {
                Err(e) => Err(e),
                Ok(d) => Ok(ds.push(d)),
            },
        },
    decreases items,
{
    if items.len() == 0 {
        assert(items.push(x).len() == 1);
        assert(items.push(x)[0] == x);
        assert(items =~= items.push(x).drop_first());
        assert(decode_definitions_spec(items) == Ok::<Seq<DefinitionModel>, DecodeErrorModel>(
            Seq::empty(),
        ));
        match decode_definition_spec(x) {
            Err(e) => {
                assert(decode_definitions_spec(items.push(x)) == Err::<
                    Seq<DefinitionModel>,
                    DecodeErrorModel,
                >(e));
            },
            Ok(d) => {
                assert(seq![d] + Seq::<DefinitionModel>::empty() =~= Seq::<
                    DefinitionModel,
                >::empty().push(d));
                assert(decode_definitions_spec(items.push(x)) == Ok::<
                    Seq<DefinitionModel>,
                    DecodeErrorModel,
                >(Seq::<DefinitionModel>::empty().push(d)));
            },
        }
    } else {
        assert(items.push(x)[0] == items[0]);
        assert(items.push(x).drop_first() =~= items.drop_first().push(x));
        lemma_decode_definitions_snoc(items.drop_first(), x);
        if decode_definition_spec(items[0]) is Ok && decode_definitions_spec(items.drop_first())
            is Ok && decode_definition_spec(x) is Ok {
            let d0 = decode_definition_spec(items[0])->Ok_0;
            let ds = decode_definitions_spec(items.drop_first())->Ok_0;
            let dx = decode_definition_spec(x)->Ok_0;
            assert(seq![d0] + ds.push(dx) =~= (seq![d0] + ds).push(dx));
        }
    }
}

/// When every element of a prefix decodes and the next element does not,
/// the whole sequence fails with that element's mismatch.
proof fn lemma_decode_definitions_err_at(items: Seq<JsonSpec>, i: int)
    requires
        0 <= i < items.len(),
        decode_definitions_spec(items.take(i)) is Ok,
        decode_definition_spec(items[i]) is Err,
    ensures
        decode_definitions_spec(items) == Err::<Seq<DefinitionModel>, DecodeErrorModel>(
            decode_definition_spec(items[i])->Err_0,
        ),
    decreases i,
{
    if i == 0 {
    } else {
        assert(items.take(i)[0] == items[0]);
        assert(items.take(i).drop_first() =~= items.drop_first().take(i - 1));
        assert(items.drop_first()[i - 1] == items[i]);
        lemma_decode_definitions_err_at(items.drop_first(), i - 1);
    }
}

/// Appending one element decodes as the sequence, then the element.
proof fn lemma_decode_tags_snoc(items: Seq<JsonSpec>, x: JsonSpec)
    ensures
        decode_tags_spec(items.push(x)) == match decode_tags_spec(items) {
            Err(e) => Err(e),
            Ok(ts) => match x {
                JsonSpec::Str(s) => Ok(ts.push(s)),
                _ => Err(DecodeErrorModel::ExpectedString),
            },
        },
    decreases items,
{
    if items.len() == 0 {
        assert(items.push(x).len() == 1);
        assert(items.push(x)[0] == x);
        assert(items =~= items.push(x).drop_first());
        assert(decode_tags_spec(items) == Ok::<Seq<Seq<char>>, DecodeErrorModel>(Seq::empty()));
        if x is Str {
            let s = x->Str_0;
            assert(seq![s] + Seq::<Seq<char>>::empty() =~= Seq::<Seq<char>>::empty().push(s));
        }
    } else {
        assert(items.push(x)[0] == items[0]);
        assert(items.push(x).drop_first() =~= items.drop_first().push(x));
        lemma_decode_tags_snoc(items.drop_first(), x);
        if items[0] is Str && decode_tags_spec(items.drop_first()) is Ok && x is Str {
            let s0 = items[0]->Str_0;
            let ts = decode_tags_spec(items.drop_first())->Ok_0;
            let sx = x->Str_0;
            assert(seq![s0] + ts.push(sx) =~= (seq![s0] + ts).push(sx));
        }
    }
}

/// When every element of a prefix is a string and the next element is
/// not, the whole sequence fails with a string mismatch.
proof fn lemma_decode_tags_err_at(items: Seq<JsonSpec>, i: int)
    requires
        0 <= i < items.len(),
        decode_tags_spec(items.take(i)) is Ok,
        !(items[i] is Str),
    ensures
        decode_tags_spec(items) == Err::<Seq<Seq<char>>, DecodeErrorModel>(
            DecodeErrorModel::ExpectedString,
        ),
    decreases i,
{
    if i == 0 {
    } else {
        assert(items.take(i)[0] == items[0]);
        assert(items.take(i).drop_first() =~= items.drop_first().take(i - 1));
        assert(items.drop_first()[i - 1] == items[i]);
        lemma_decode_tags_err_at(items.drop_first(), i - 1);
    }
}

/// Fetch the text bound to `name`, as [`field_string_spec`] describes.
fn get_string_field(entries: &Vec<(String, JsonValue)>, name: &str) -> (r: Result<
    String,
    DecodeError,
>)
    ensures
        match r {
            Ok(s) => field_string_spec(json_view_entries(entries@), name@) == Ok::<
                Seq<char>,
                DecodeErrorModel,
            >(s@),
            Err(e) => field_string_spec(json_view_entries(entries@), name@) == Err::<
                Seq<char>,
                DecodeErrorModel,
            >(e@),
        },
{
    let key = String::from_str(name);
    match lookup_entry(entries, &key) {
        None => Err(DecodeError::MissingField(key)),
        Some(v) => match v {
            JsonValue::Str(s) => Ok(s.clone()),
            _ => Err(DecodeError::ExpectedString),
        },
    }
}

/// Fetch the unsigned integer bound to `name`, as [`field_u64_spec`]
/// describes.
fn get_u64_field(entries: &Vec<(String, JsonValue)>, name: &str) -> (r: Result<u64, DecodeError>)
    ensures
        match r {
            Ok(u) => field_u64_spec(json_view_entries(entries@), name@) == Ok::<
                u64,
                DecodeErrorModel,
            >(u),
            Err(e) => field_u64_spec(json_view_entries(entries@), name@) == Err::<
                u64,
                DecodeErrorModel,
            >(e@),
        },
{
    let key = String::from_str(name);
    match lookup_entry(entries, &key) {
        None => Err(DecodeError::MissingField(key)),
        Some(v) => match v {
            JsonValue::Num(n) => match n {
                Some(u) => Ok(*u),
                None => Err(DecodeError::TypeMismatch(key)),
            },
            _ => Err(DecodeError::TypeMismatch(key)),
        },
    }
}

/// Decode one definition object, as [`decode_definition_spec`] describes.
pub fn decode_definition(j: &JsonValue) -> (r: Result<Definition, DecodeError>)
    ensures
        match r {
            Ok(d) => decode_definition_spec(j@) == Ok::<DefinitionModel, DecodeErrorModel>(d@),
            Err(e) => decode_definition_spec(j@) == Err::<DefinitionModel, DecodeErrorModel>(e@),
        },
{
    match j {
        JsonValue::Obj(entries) => {
            let author = match get_string_field(entries, "author") {
                Ok(s) => s,
                Err(e) => {
                    return Err(e);
                },
            };
            let definition = match get_string_field(entries, "definition") {
                Ok(s) => s,
                Err(e) => {
                    return Err(e);
                },
            };
            let example = match get_string_field(entries, "example") {
                Ok(s) => s,
                Err(e) => {
                    return Err(e);
                },
            };
            let id = match get_u64_field(entries, "defid") {
                Ok(u) => u,
                Err(e) => {
                    return Err(e);
                },
            };
            let permalink = match get_string_field(entries, "permalink") {
                Ok(s) => s,
                Err(e) => {
                    return Err(e);
                },
            };
            let thumbs_down = match get_u64_field(entries, "thumbs_down") {
                Ok(u) => u,
                Err(e) => {
                    return Err(e);
                },
            };
            let thumbs_up = match get_u64_field(entries, "thumbs_up") {
                Ok(u) => u,
                Err(e) => {
                    return Err(e);
                },
            };
            let word = match get_string_field(entries, "word") {
                Ok(s) => s,
                Err(e) => {
                    return Err(e);
                },
            };
            Ok(Definition { author, definition, example, id, permalink, thumbs_down, thumbs_up, word })
        },
        _ => Err(DecodeError::ExpectedObject),
    }
}

/// Decode an array of definition objects, in order, as
/// [`decode_definitions_spec`] describes.
fn decode_definitions(items: &Vec<JsonValue>) -> (r: Result<Vec<Definition>, DecodeError>)
    ensures
        match r {
            Ok(ds) => decode_definitions_spec(json_view_seq(items@)) == Ok::<
                Seq<DefinitionModel>,
                DecodeErrorModel,
            >(ds@.map(|i: int, d: Definition| d@)),
            Err(e) => decode_definitions_spec(json_view_seq(items@)) == Err::<
                Seq<DefinitionModel>,
                DecodeErrorModel,
            >(e@),
        },
{
    let ghost models = json_view_seq(items@);
    proof {
        lemma_json_view_seq(items@);
    }
    let mut out: Vec<Definition> = Vec::new();
    proof {
        assert(models.take(0) =~= Seq::<JsonSpec>::empty());
        assert(out@.map(|k: int, d: Definition| d@) =~= Seq::<DefinitionModel>::empty());
    }
    let mut i: usize = 0;
    while i < items.len()
        invariant
            0 <= i <= items.len(),
            models == json_view_seq(items@),
            models.len() == items@.len(),
            forall|k: int| 0 <= k < items@.len() ==> models[k] == json_view(items@[k]),
            out@.len() == i,
            decode_definitions_spec(models.take(i as int)) == Ok::<
                Seq<DefinitionModel>,
                DecodeErrorModel,
            >(out@.map(|k: int, d: Definition| d@)),
        decreases items.len() - i,
    {
        match decode_definition(&items[i]) {
            Ok(d) => {
                let ghost prefix = out@.map(|k: int, d: Definition| d@);
                out.push(d);
                proof {
                    lemma_decode_definitions_snoc(models.take(i as int), models[i as int]);
                    assert(models.take(i + 1 as int) =~= models.take(i as int).push(
                        models[i as int],
                    ));
                    assert(out@.map(|k: int, d: Definition| d@) =~= prefix.push(d@));
                }
            },
            Err(e) => {
                proof {
                    lemma_decode_definitions_err_at(models, i as int);
                }
                return Err(e);
            },
        }
        i = i + 1;
    }
    proof {
        assert(models.take(items@.len() as int) =~= models);
    }
    Ok(out)
}

/// Decode an array of tag strings, in order, as [`decode_tags_spec`]
/// describes.
fn decode_tags(items: &Vec<JsonValue>) -> (r: Result<Vec<String>, DecodeError>)
    ensures
        match r {
            Ok(ts) => decode_tags_spec(json_view_seq(items@)) == Ok::<
                Seq<Seq<char>>,
                DecodeErrorModel,
            >(ts@.map(|i: int, t: String| t@)),
            Err(e) => decode_tags_spec(json_view_seq(items@)) == Err::<
                Seq<Seq<char>>,
                DecodeErrorModel,
            >(e@),
        },
{
    let ghost models = json_view_seq(items@);
    proof {
        lemma_json_view_seq(items@);
    }
    let mut out: Vec<String> = Vec::new();
    proof {
        assert(models.take(0) =~= Seq::<JsonSpec>::empty());
        assert(out@.map(|k: int, t: String| t@) =~= Seq::<Seq<char>>::empty());
    }
    let mut i: usize = 0;
    while i < items.len()
        invariant
            0 <= i <= items.len(),
            models == json_view_seq(items@),
            models.len() == items@.len(),
            forall|k: int| 0 <= k < items@.len() ==> models[k] == json_view(items@[k]),
            out@.len() == i,
            decode_tags_spec(models.take(i as int)) == Ok::<Seq<Seq<char>>, DecodeErrorModel>(
                out@.map(|k: int, t: String| t@),
            ),
        decreases items.len() - i,
    {
        match &items[i] {
            JsonValue::Str(s) => {
                let ghost prefix = out@.map(|k: int, t: String| t@);
                out.push(s.clone());
                proof {
                    lemma_decode_tags_snoc(models.take(i as int), models[i as int]);
                    assert(models.take(i + 1 as int) =~= models.take(i as int).push(
                        models[i as int],
                    ));
                    assert(out@.map(|k: int, t: String| t@) =~= prefix.push(s@));
                }
            },
            _ => {
                proof {
                    lemma_decode_tags_err_at(models, i as int);
                }
                return Err(DecodeError::ExpectedString);
            },
        }
        i = i + 1;
    }
    proof {
        assert(models.take(items@.len() as int) =~= models);
    }
    Ok(out)
}

/// Decode one full response document, as [`decode_response_spec`]
/// describes.
pub fn decode_response(j: &JsonValue) -> (r: Result<Response, DecodeError>)
    ensures
        match r {
            Ok(resp) => decode_response_spec(j@) == Ok::<ResponseModel, DecodeErrorModel>(resp@),
            Err(e) => decode_response_spec(j@) == Err::<ResponseModel, DecodeErrorModel>(e@),
        },
{
    match j {
        JsonValue::Obj(entries) => {
            let list_key = String::from_str("list");
            let definitions = match lookup_entry(entries, &list_key) {
                None => {
                    return Err(DecodeError::MissingField(list_key));
                },
                Some(lv) => match lv {
                    JsonValue::Arr(items) => match decode_definitions(items) {
                        Ok(ds) => ds,
                        Err(e) => {
                            return Err(e);
                        },
                    },
                    _ => {
                        return Err(DecodeError::ExpectedArray);
                    },
                },
            };
            let tags_key = String::from_str("tags");
            let tags = match lookup_entry(entries, &tags_key) {
                None => {
                    return Err(DecodeError::MissingField(tags_key));
                },
                Some(tv) => match tv {
                    JsonValue::Arr(titems) => match decode_tags(titems) {
                        Ok(ts) => ts,
                        Err(e) => {
                            return Err(e);
                        },
                    },
                    _ => {
                        return Err(DecodeError::ExpectedArray);
                    },
                },
            };
            Ok(Response { definitions, tags })
        },
        _ => Err(DecodeError::ExpectedObject),
    }
}

} // verus!
