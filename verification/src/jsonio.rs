//! The trusted boundary to serde_json, and the mathematical model of a JSON
//! document that its contracts are stated over. The worker's output is
//! arbitrary JSON, so parsing and the per-node reads go through serde_json;
//! each item here wraps exactly one of its functions, and everything read out
//! of a document crosses back as plain values. The verified decoders in the
//! rest of the crate work on those alone, with their results pinned to the
//! document model.
use vstd::prelude::*;

verus! {

#[verifier::external_type_specification]
#[verifier::external_body]
pub struct ExValue(serde_json::Value);

#[verifier::external_type_specification]
#[verifier::external_body]
pub struct ExJsonError(serde_json::Error);

/// The mathematical shape of one JSON node, as far as the readers below let
/// the decoders observe it. A number carries the text serde_json prints for
/// it — this layer never computes with numbers, so the text loses nothing.
pub enum JsonNode {
    Null,
    Bool(bool),
    Number(Seq<char>),
    Text(Seq<char>),
    Array(Seq<JsonNode>),
    Object(Map<Seq<char>, JsonNode>),
}

/// Whether a byte sequence is one well-formed JSON document, as serde_json's
/// grammar has it. Parsing depends on the input bytes alone.
pub uninterp spec fn json_wf(s: Seq<u8>) -> bool;

/// The document that parsing a well-formed byte sequence yields. Parsing
/// depends on the input bytes alone.
pub uninterp spec fn doc_of(s: Seq<u8>) -> JsonNode;

/// What a parsed serde_json::Value holds, as a node of the model.
pub uninterp spec fn json_model(v: serde_json::Value) -> JsonNode;

/// The text serde_json::to_string prints for a node; a function of the node's
/// contents alone.
pub uninterp spec fn rendered(n: JsonNode) -> Seq<char>;

/// The member of an object node under a key, absent for every other node
/// kind.
pub open spec fn member_of(d: JsonNode, key: Seq<char>) -> Option<JsonNode> {
    match d {
        JsonNode::Object(m) => if m.contains_key(key) {
            Some(m[key])
        } else {
            None
        },
        _ => None,
    }
}

/// The text member of an object node under a key, absent when missing or of
/// another kind.
pub open spec fn spec_text_member(d: JsonNode, key: Seq<char>) -> Option<Seq<char>> {
    match member_of(d, key) {
        Some(JsonNode::Text(t)) => Some(t),
        _ => None,
    }
}

/// The numeric member of an object node under a key, as the number's own
/// text; absent when missing or of another kind.
pub open spec fn spec_number_member(d: JsonNode, key: Seq<char>) -> Option<Seq<char>> {
    match member_of(d, key) {
        Some(JsonNode::Number(t)) => Some(t),
        _ => None,
    }
}

/// Relies on serde_json::from_slice::<serde_json::Value>: parses one JSON
/// document from bytes, succeeding exactly on well-formed input, with the
/// parsed value holding the input's document.
#[verifier::external_body]
pub fn parse_json(s: &[u8]) -> (r: Result<serde_json::Value, serde_json::Error>)
    ensures
        r is Ok <==> json_wf(s@),
        r is Ok ==> json_model(r->Ok_0) == doc_of(s@),
{
    serde_json::from_slice::<serde_json::Value>(s)
}

/// Relies on serde_json::Value::get: the member of a JSON object under a key,
/// absent when the node is no object or lacks the key.
#[verifier::external_body]
pub fn json_get<'a>(v: &'a serde_json::Value, key: &str) -> (r: Option<&'a serde_json::Value>)
    ensures
        r is Some <==> (json_model(*v) is Object && json_model(*v)->Object_0.contains_key(key@)),
        r is Some ==> json_model(*r->0) == json_model(*v)->Object_0[key@],
{
    v.get(key)
}

/// Relies on serde_json::Value::as_bool: the boolean a boolean node holds,
/// absent for every other node kind.
#[verifier::external_body]
pub fn json_as_bool(v: &serde_json::Value) -> (r: Option<bool>)
    ensures
        r is Some <==> json_model(*v) is Bool,
        r is Some ==> r->0 == json_model(*v)->Bool_0,
{
    v.as_bool()
}

/// Relies on serde_json::Value::as_str: the text a string node holds, copied
/// out, absent for every other node kind.
#[verifier::external_body]
pub fn json_as_string(v: &serde_json::Value) -> (r: Option<String>)
    ensures
        r is Some <==> json_model(*v) is Text,
        r is Some ==> r->0@ == json_model(*v)->Text_0,
{
    match v.as_str() {
        Some(s) => Some(s.to_string()),
        None => None,
    }
}

/// Relies on serde_json::Value::as_array: the elements of an array node, in
/// order, absent for every other node kind.
#[verifier::external_body]
pub fn json_as_array<'a>(v: &'a serde_json::Value) -> (r: Option<&'a Vec<serde_json::Value>>)
    ensures
        r is Some <==> json_model(*v) is Array,
        r is Some ==> (r->0@.len() == json_model(*v)->Array_0.len() && forall|i: int|
            0 <= i < r->0@.len() ==> json_model(#[trigger] r->0@[i]) == json_model(
                *v,
            )->Array_0[i]),
{
    v.as_array()
}

/// Relies on serde_json::Value::is_null.
#[verifier::external_body]
pub fn json_is_null(v: &serde_json::Value) -> (r: bool)
    ensures
        r == (json_model(*v) is Null),
{
    v.is_null()
}

/// Relies on serde_json::Value::is_number.
#[verifier::external_body]
pub fn json_is_number(v: &serde_json::Value) -> (r: bool)
    ensures
        r == (json_model(*v) is Number),
{
    v.is_number()
}

/// Relies on serde_json::to_string on a Value, which serializes every Value
/// (Value objects only ever carry string keys, the one failure source) and
/// prints a number node as the number's own text.
#[verifier::external_body]
pub fn json_to_text(v: &serde_json::Value) -> (r: String)
    ensures
        r@ == rendered(json_model(*v)),
        json_model(*v) is Number ==> r@ == json_model(*v)->Number_0,
{
    match serde_json::to_string(v) {
        Ok(s) => s,
        Err(_) => String::new(),
    }
}

} // verus!
