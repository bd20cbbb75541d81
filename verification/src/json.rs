//! Trusted access to JSON documents, specified against a plain-value
//! model: `JsonDoc` is what serde_json's accessors can observe of a parsed
//! document, `json_of` names the document a text denotes, and `json_view`
//! names the document an opaque parsed value carries. Each accessor wraps
//! one serde_json call and states its answer as a projection of that
//! model.

use vstd::prelude::*;

verus! {

/// A JSON document over plain values. A number is a non-negative integer,
/// a negative integer, or some other (floating) number whose value the
/// model does not carry — exactly the distinctions serde_json's integer
/// accessors make.
pub enum JsonDoc {
    Null,
    Bool(bool),
    UInt(u64),
    NegInt(i64),
    OtherNum,
    Text(Seq<char>),
    Arr(Seq<JsonDoc>),
    Obj(Map<Seq<char>, JsonDoc>),
}

/// The document an opaque parsed value carries: the contents of the
/// declared type, named so the accessors below can speak about it.
pub uninterp spec fn json_view(v: serde_json::Value) -> JsonDoc;

/// The document a text denotes: what serde_json's `from_str` yields,
/// `None` when the text is not valid JSON. `from_str` is deterministic in
/// the text alone.
pub uninterp spec fn json_of(s: Seq<char>) -> Option<JsonDoc>;

/// The value under a key of an object; `None` on any other document or a
/// missing key.
pub open spec fn doc_field(d: JsonDoc, key: Seq<char>) -> Option<JsonDoc> {
    match d {
        JsonDoc::Obj(m) => if m.dom().contains(key) {
            Some(m[key])
        } else {
            None
        },
        _ => None,
    }
}

/// The text of a string document.
pub open spec fn doc_str(d: JsonDoc) -> Option<Seq<char>> {
    match d {
        JsonDoc::Text(t) => Some(t),
        _ => None,
    }
}

/// A number read unsigned: only a non-negative integer answers.
pub open spec fn doc_u64(d: JsonDoc) -> Option<u64> {
    match d {
        JsonDoc::UInt(u) => Some(u),
        _ => None,
    }
}

/// A number read signed: a non-negative integer answers when it fits, a
/// negative integer always, any other number never.
pub open spec fn doc_i64(d: JsonDoc) -> Option<i64> {
    match d {
        JsonDoc::UInt(u) => if u <= i64::MAX {
            Some(u as i64)
        } else {
            None
        },
        JsonDoc::NegInt(n) => Some(n),
        _ => None,
    }
}

/// The value of a boolean document.
pub open spec fn doc_bool(d: JsonDoc) -> Option<bool> {
    match d {
        JsonDoc::Bool(b) => Some(b),
        _ => None,
    }
}

/// The elements of an array document; empty on any other document.
pub open spec fn doc_items(d: JsonDoc) -> Seq<JsonDoc> {
    match d {
        JsonDoc::Arr(items) => items,
        _ => Seq::empty(),
    }
}

/// A string field of an object.
pub open spec fn field_str(d: JsonDoc, key: Seq<char>) -> Option<Seq<char>> {
    match doc_field(d, key) {
        Some(f) => doc_str(f),
        None => None,
    }
}

/// An unsigned numeric field of an object.
pub open spec fn field_u64(d: JsonDoc, key: Seq<char>) -> Option<u64> {
    match doc_field(d, key) {
        Some(f) => doc_u64(f),
        None => None,
    }
}

/// A signed numeric field of an object.
pub open spec fn field_i64(d: JsonDoc, key: Seq<char>) -> Option<i64> {
    match doc_field(d, key) {
        Some(f) => doc_i64(f),
        None => None,
    }
}

/// A JSON document, opaque to the verifier; only the trusted accessors
/// below read it, and they answer according to `json_view`.
#[verifier::external_type_specification]
#[verifier::external_body]
pub struct ExJsonValue(serde_json::Value);

/// Relies on serde_json's `from_str`: decodes one JSON document,
/// deterministically in the text; `None` when the text is not valid JSON.
#[verifier::external_body]
pub(crate) fn json_parse(s: &str) -> (r: Option<serde_json::Value>)
    ensures
        r is Some <==> json_of(s@) is Some,
        r matches Some(v) ==> Some(json_view(v)) == json_of(s@),
{
    serde_json::from_str(s).ok()
}

/// Relies on serde_json's `Value::get`: the value under a key of a JSON
/// object, `None` when absent or not an object.
#[verifier::external_body]
pub(crate) fn json_get<'a>(v: &'a serde_json::Value, key: &str) -> (r: Option<
    &'a serde_json::Value,
>)
    ensures
        r is Some <==> doc_field(json_view(*v), key@) is Some,
        r matches Some(f) ==> Some(json_view(*f)) == doc_field(json_view(*v), key@),
{
    v.get(key)
}

/// Relies on serde_json's `Value::as_i64`: answers for integers in the
/// signed 64-bit range.
#[verifier::external_body]
pub(crate) fn json_as_i64(v: &serde_json::Value) -> (r: Option<i64>)
    ensures
        r == doc_i64(json_view(*v)),
{
    v.as_i64()
}

/// Relies on serde_json's `Value::as_u64`: answers for non-negative
/// integers.
#[verifier::external_body]
pub(crate) fn json_as_u64(v: &serde_json::Value) -> (r: Option<u64>)
    ensures
        r == doc_u64(json_view(*v)),
{
    v.as_u64()
}

/// Relies on serde_json's `Value::as_bool`.
#[verifier::external_body]
pub(crate) fn json_as_bool(v: &serde_json::Value) -> (r: Option<bool>)
    ensures
        r == doc_bool(json_view(*v)),
{
    v.as_bool()
}

/// Relies on serde_json's `Value::as_str`.
#[verifier::external_body]
pub(crate) fn json_as_string(v: &serde_json::Value) -> (r: Option<String>)
    ensures
        r is Some <==> doc_str(json_view(*v)) is Some,
        r matches Some(s) ==> Some(s@) == doc_str(json_view(*v)),
{
    v.as_str().map(|s| s.to_string())
}

/// Relies on serde_json's `Value::as_array`: the elements of a JSON array.
#[verifier::external_body]
pub(crate) fn json_as_array<'a>(v: &'a serde_json::Value) -> (r: Option<
    &'a Vec<serde_json::Value>,
>)
    ensures
        r is Some <==> json_view(*v) is Arr,
        r matches Some(a) ==> {
            &&& a@.len() == doc_items(json_view(*v)).len()
            &&& forall|i: int|
                0 <= i < a@.len() ==> json_view(#[trigger] a@[i]) == doc_items(json_view(*v))[i]
        },
{
    v.as_array()
}

/// Reads a string field of a JSON object.
pub(crate) fn read_string_field(v: &serde_json::Value, key: &str) -> (r: Option<String>)
    ensures
        r is Some <==> field_str(json_view(*v), key@) is Some,
        r matches Some(s) ==> Some(s@) == field_str(json_view(*v), key@),
{
    match json_get(v, key) {
        Some(f) => json_as_string(f),
        None => None,
    }
}

/// Reads an unsigned numeric field of a JSON object.
pub(crate) fn read_u64_field(v: &serde_json::Value, key: &str) -> (r: Option<u64>)
    ensures
        r == field_u64(json_view(*v), key@),
{
    match json_get(v, key) {
        Some(f) => json_as_u64(f),
        None => None,
    }
}

} // verus!
