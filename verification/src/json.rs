//! A JSON document, as the decoder and encoder see it.
//!
//! [`JsonValue`] is the executable tree; [`JsonSpec`] is its mathematical
//! model, used by every contract in the crate.  A JSON number is kept only
//! as `Option<u64>`: the record types hold nothing but unsigned integers,
//! so all the decoder ever asks of a number is whether it is representable
//! as one, and `None` stands for a number that is not.

use vstd::prelude::*;

verus! {

/// Mathematical model of a JSON document.
///
/// An object is a sequence of key/value entries in wire order; when a key
/// repeats, the first entry wins (see [`obj_lookup`]).
pub enum JsonSpec {
    /// The JSON literal `null`.
    Null,
    /// A JSON boolean.
    Bool(bool),
    /// A JSON number: `Some(n)` if it is representable as an unsigned
    /// 64-bit integer, `None` otherwise.
    Num(Option<u64>),
    /// A JSON string.
    Str(Seq<char>),
    /// A JSON array.
    Arr(Seq<JsonSpec>),
    /// A JSON object, as key/value entries in wire order.
    Obj(Seq<(Seq<char>, JsonSpec)>),
}

/// An executable JSON document.
#[derive(Debug, PartialEq, Eq)]
pub enum JsonValue {
    /// The JSON literal `null`.
    Null,
    /// A JSON boolean.
    Bool(bool),
    /// A JSON number: `Some(n)` if it is representable as an unsigned
    /// 64-bit integer, `None` otherwise.
    Num(Option<u64>),
    /// A JSON string.
    Str(String),
    /// A JSON array.
    Arr(Vec<JsonValue>),
    /// A JSON object, as key/value entries in wire order.
    Obj(Vec<(String, JsonValue)>),
}

/// The model of an executable JSON document.
pub open spec fn json_view(j: JsonValue) -> JsonSpec
    decreases j,
{
    match j {
        JsonValue::Null => JsonSpec::Null,
        JsonValue::Bool(b) => JsonSpec::Bool(b),
        JsonValue::Num(n) => JsonSpec::Num(n),
        JsonValue::Str(s) => JsonSpec::Str(s@),
        JsonValue::Arr(items) => JsonSpec::Arr(json_view_seq(items@)),
        JsonValue::Obj(entries) => JsonSpec::Obj(json_view_entries(entries@)),
    }
}

/// The models of the elements of a JSON array, in order.
pub open spec fn json_view_seq(items: Seq<JsonValue>) -> Seq<JsonSpec>
    decreases items,
{
    if items.len() == 0 {
        Seq::empty()
    } else {
        seq![json_view(items[0])] + json_view_seq(items.drop_first())
    }
}

/// The models of the entries of a JSON object, in order.
pub open spec fn json_view_entries(entries: Seq<(String, JsonValue)>) -> Seq<(Seq<char>, JsonSpec)>
    decreases entries,
{
    if entries.len() == 0 {
        Seq::empty()
    } else {
        seq![(entries[0].0@, json_view(entries[0].1))] + json_view_entries(entries.drop_first())
    }
}

impl View for JsonValue {
    type V = JsonSpec;

    open spec fn view(&self) -> JsonSpec {
        json_view(*self)
    }
}

/// `json_view_seq` maps each element to its model and keeps the order.
pub proof fn lemma_json_view_seq(items: Seq<JsonValue>)
    ensures
        json_view_seq(items).len() == items.len(),
        forall|i: int| 0 <= i < items.len() ==> json_view_seq(items)[i] == json_view(items[i]),
    decreases items,
{
    if items.len() > 0 {
        lemma_json_view_seq(items.drop_first());
    }
}

/// `json_view_entries` maps each entry to its model and keeps the order.
pub proof fn lemma_json_view_entries(entries: Seq<(String, JsonValue)>)
    ensures
        json_view_entries(entries).len() == entries.len(),
        forall|i: int| 0 <= i < entries.len() ==> json_view_entries(entries)[i]
            == (entries[i].0@, json_view(entries[i].1)),
    decreases entries,
{
    if entries.len() > 0 {
        lemma_json_view_entries(entries.drop_first());
    }
}

/// The value bound to `key` in an object's entries: the first entry whose
/// key matches, or `None` when no entry matches.
pub open spec fn obj_lookup(entries: Seq<(Seq<char>, JsonSpec)>, key: Seq<char>) -> Option<JsonSpec>
    decreases entries,
{
    if entries.len() == 0 {
        None
    } else if entries[0].0 == key {
        Some(entries[0].1)
    } else {
        obj_lookup(entries.drop_first(), key)
    }
}

/// A lookup that skips a prefix of non-matching entries finds the same
/// binding as a lookup over all the entries.
pub proof fn lemma_obj_lookup_skip(entries: Seq<(Seq<char>, JsonSpec)>, key: Seq<char>, i: int)
    requires
        0 <= i <= entries.len(),
        forall|k: int| 0 <= k < i ==> #[trigger] entries[k].0 != key,
    ensures
        obj_lookup(entries, key) == obj_lookup(entries.skip(i), key),
    decreases i,
{
    if i > 0 {
        assert(entries[0].0 != key);
        assert forall|k: int| 0 <= k < i - 1 implies #[trigger] entries.drop_first()[k].0
            != key by {
            assert(entries[k + 1].0 != key);
        }
        lemma_obj_lookup_skip(entries.drop_first(), key, i - 1);
        assert(entries.drop_first().skip(i - 1) =~= entries.skip(i));
    } else {
        assert(entries.skip(0) =~= entries);
    }
}

/// When no earlier entry shares the key of the entry at `k`, a lookup of
/// that key finds that entry's value.
pub proof fn lemma_obj_lookup_at(entries: Seq<(Seq<char>, JsonSpec)>, k: int)
    requires
        0 <= k < entries.len(),
        forall|j: int| 0 <= j < k ==> #[trigger] entries[j].0 != entries[k].0,
    ensures
        obj_lookup(entries, entries[k].0) == Some(entries[k].1),
{
    lemma_obj_lookup_skip(entries, entries[k].0, k);
    assert(entries.skip(k)[0] == entries[k]);
}

/// Find the value bound to `key` among an object's entries: the first
/// entry whose key matches, as [`obj_lookup`] describes.
pub fn lookup_entry<'a>(entries: &'a Vec<(String, JsonValue)>, key: &String) -> (r: Option<
    &'a JsonValue,
>)
    ensures
        match r {
            Some(v) => obj_lookup(json_view_entries(entries@), key@) == Some(v@),
            None => obj_lookup(json_view_entries(entries@), key@) is None,
        },
{
    proof {
        lemma_json_view_entries(entries@);
    }
    let ghost model = json_view_entries(entries@);
    let mut i: usize = 0;
    while i < entries.len()
        invariant
            0 <= i <= entries.len(),
            model == json_view_entries(entries@),
            model.len() == entries.len(),
            forall|k: int| 0 <= k < entries.len() ==> model[k] == (entries@[k].0@, json_view(
                entries@[k].1,
            )),
            forall|k: int| 0 <= k < i ==> #[trigger] model[k].0 != key@,
        decreases entries.len() - i,
    {
        if entries[i].0.eq(key) {
            proof {
                lemma_obj_lookup_skip(model, key@, i as int);
                assert(model.skip(i as int)[0] == model[i as int]);
            }
            return Some(&entries[i].1);
        }
        i = i + 1;
    }
    proof {
        lemma_obj_lookup_skip(model, key@, i as int);
        assert(model.skip(i as int).len() == 0);
    }
    None
}

} // verus!
