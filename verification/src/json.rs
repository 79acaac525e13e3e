//! The JSON documents the engine carries: request bodies, mock bodies, and
//! upstream bodies are arbitrary JSON values, held in a tagged type of the
//! library's own. Reading a document from text and writing one back is the
//! work of serde_json, behind trusted wrappers.

use vstd::prelude::*;

verus! {

/// A JSON document. Numbers keep their canonical literal text, so that the
/// type carries any JSON number without committing to a machine
/// representation; object fields keep their order of arrival.
#[derive(Debug, PartialEq, Eq)]
pub enum Json {
    Null,
    Bool(bool),
    Num(String),
    Str(String),
    Arr(Vec<Json>),
    Obj(Vec<(String, Json)>),
}

/// The value bound to `key` in `fields`, searching from position `i`:
/// the first binding wins.
pub open spec fn obj_lookup_from(fields: Seq<(String, Json)>, key: Seq<char>, i: int) -> Option<
    Json,
>
    decreases fields.len() - i,
{
    if i < 0 || i >= fields.len() {
        None
    } else if fields[i].0@ == key {
        Some(fields[i].1)
    } else {
        obj_lookup_from(fields, key, i + 1)
    }
}

/// The value bound to `key` in an object's field list, if any.
pub open spec fn obj_lookup(fields: Seq<(String, Json)>, key: Seq<char>) -> Option<Json> {
    obj_lookup_from(fields, key, 0)
}

/// Position of the first field named `key`, if any.
pub fn find_field(fields: &Vec<(String, Json)>, key: &String) -> (r: Option<usize>)
    ensures
        match r {
            Some(i) => i < fields@.len() && fields@[i as int].0@ == key@ && obj_lookup(
                fields@,
                key@,
            ) == Some(fields@[i as int].1),
            None => obj_lookup(fields@, key@) is None,
        },
{
    let mut i: usize = 0;
    while i < fields.len()
        invariant
            i <= fields@.len(),
            obj_lookup(fields@, key@) == obj_lookup_from(fields@, key@, i as int),
        decreases fields@.len() - i,
    {
        if fields[i].0 == *key {
            return Some(i);
        }
        i += 1;
    }
    None
}

/// Names the JSON document that serde_json reads from a text, where the text
/// parses; the result depends on the text alone.
pub uninterp spec fn json_of_text(s: Seq<char>) -> Option<Json>;

/// Names the text serde_json writes for a JSON document; the result depends
/// on the document alone.
pub uninterp spec fn json_text_of(v: Json) -> Seq<char>;

#[verifier::external_type_specification]
#[verifier::external_body]
pub struct ExValue(serde_json::Value);

/// Relies on serde_json::Value having exactly the six JSON variants: each is
/// moved to the library's matching variant, numbers through the canonical
/// literal text that serde_json prints for them.
#[verifier::external_body]
fn json_of_value(v: serde_json::Value) -> Json {
    match v {
        serde_json::Value::Null => Json::Null,
        serde_json::Value::Bool(b) => Json::Bool(b),
        serde_json::Value::Number(n) => Json::Num(n.to_string()),
        serde_json::Value::String(s) => Json::Str(s),
        serde_json::Value::Array(a) => Json::Arr(a.into_iter().map(json_of_value).collect()),
        serde_json::Value::Object(o) => Json::Obj(
            o.into_iter().map(|p| (p.0, json_of_value(p.1))).collect(),
        ),
    }
}

/// Relies on serde_json::Value and serde_json::Number: rebuilds the
/// serde_json document for a value of the library's type, variant by variant;
/// a number literal that serde_json does not read back becomes null.
#[verifier::external_body]
fn value_of_json(v: &Json) -> serde_json::Value {
    match v {
        Json::Null => serde_json::Value::Null,
        Json::Bool(b) => serde_json::Value::Bool(*b),
        Json::Num(t) => match serde_json::from_str::<serde_json::Number>(t) {
            Ok(n) => serde_json::Value::Number(n),
            Err(_) => serde_json::Value::Null,
        },
        Json::Str(s) => serde_json::Value::String(s.clone()),
        Json::Arr(a) => serde_json::Value::Array(a.iter().map(value_of_json).collect()),
        Json::Obj(o) => serde_json::Value::Object(
            o.iter().map(|p| (p.0.clone(), value_of_json(&p.1))).collect(),
        ),
    }
}

/// Relies on serde_json::from_str: reads a JSON document from text, `None`
/// where the text is not JSON.
#[verifier::external_body]
pub(crate) fn parse_json(s: &str) -> (r: Option<Json>)
    ensures
        r == json_of_text(s@),
{
    match serde_json::from_str::<serde_json::Value>(s) {
        Ok(v) => Some(json_of_value(v)),
        Err(_) => None,
    }
}

/// Relies on serde_json::to_string: writes a JSON document as compact text.
#[verifier::external_body]
pub(crate) fn json_to_string(v: &Json) -> (r: String)
    ensures
        r@ == json_text_of(*v),
{
    match serde_json::to_string(&value_of_json(v)) {
        Ok(s) => s,
        Err(_) => String::new(),
    }
}

} // verus!
