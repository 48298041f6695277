//! A JSON document tree owned by this library.
//!
//! Text is parsed and emitted by `serde_json`; what the library reads from or
//! writes into a document is computed on `Json` values and verified.

use vstd::prelude::*;

verus! {

#[verifier::external_type_specification]
#[verifier::external_body]
pub struct ExJsonValue(serde_json::Value);

#[verifier::external_type_specification]
#[verifier::external_body]
pub struct ExJsonNumber(serde_json::Number);

/// One JSON node. A number that is a non-negative integer is a `Count`;
/// any other number is carried through unchanged.
pub enum Json {
    Null,
    Bool(bool),
    Count(u64),
    Number(serde_json::Number),
    Text(String),
    Array(Vec<Json>),
    Object(Vec<(String, Json)>),
}

/// The document that `serde_json` reads from a text, if it reads one.
pub uninterp spec fn json_parse(text: Seq<char>) -> Option<Json>;

/// The compact text that `serde_json` writes for a document, if it writes one.
pub uninterp spec fn json_emit(doc: Json) -> Option<Seq<char>>;

/// The indented text that `serde_json` writes for a document, if it writes one.
pub uninterp spec fn json_emit_pretty(doc: Json) -> Option<Seq<char>>;

/// Moves a `serde_json::Value` into a `Json` node, variant for variant; a
/// number goes to `Count` where `Number::as_u64` reads it.
#[verifier::external_body]
fn json_from_value(v: serde_json::Value) -> Json {
    match v {
        serde_json::Value::Null => Json::Null,
        serde_json::Value::Bool(b) => Json::Bool(b),
        serde_json::Value::Number(n) => match n.as_u64() {
            Some(u) => Json::Count(u),
            None => Json::Number(n),
        },
        serde_json::Value::String(s) => Json::Text(s),
        serde_json::Value::Array(items) => Json::Array(items.into_iter().map(json_from_value).collect()),
        serde_json::Value::Object(m) => Json::Object(m.into_iter().map(|(k, v)| (k, json_from_value(v))).collect()),
    }
}

/// Copies a `Json` node into a `serde_json::Value`, variant for variant.
#[verifier::external_body]
fn json_to_value(j: &Json) -> serde_json::Value {
    match j {
        Json::Null => serde_json::Value::Null,
        Json::Bool(b) => serde_json::Value::Bool(*b),
        Json::Count(u) => serde_json::Value::Number(serde_json::Number::from(*u)),
        Json::Number(n) => serde_json::Value::Number(n.clone()),
        Json::Text(s) => serde_json::Value::String(s.clone()),
        Json::Array(items) => serde_json::Value::Array(items.iter().map(json_to_value).collect()),
        Json::Object(es) => serde_json::Value::Object(es.iter().map(|(k, v)| (k.clone(), json_to_value(v))).collect()),
    }
}

/// Relies on `serde_json::from_str::<serde_json::Value>`: whether a text is
/// a JSON document, and which, depends on the text alone.
#[verifier::external_body]
pub(crate) fn parse_json(text: &str) -> (r: Result<Json, String>)
    ensures
        r is Ok <==> json_parse(text@) is Some,
        r matches Ok(d) ==> json_parse(text@) == Some(d),
{
    serde_json::from_str::<serde_json::Value>(text).map(json_from_value).map_err(|e| e.to_string())
}

/// Relies on `serde_json::to_string`: the text written depends on the
/// document alone, and it fails only for a failing `Serialize` impl or a map
/// with non-string keys, neither of which a `serde_json::Value` has.
#[verifier::external_body]
pub(crate) fn emit_json(doc: &Json) -> (r: Result<String, String>)
    ensures
        r is Ok,
        r is Ok <==> json_emit(*doc) is Some,
        r matches Ok(t) ==> json_emit(*doc) == Some(t@),
{
    serde_json::to_string(&json_to_value(doc)).map_err(|e| e.to_string())
}

/// Relies on `serde_json::to_string_pretty`: the text written depends on
/// the document alone, and it fails only for a failing `Serialize` impl or a
/// map with non-string keys, neither of which a `serde_json::Value` has.
#[verifier::external_body]
pub(crate) fn emit_json_pretty(doc: &Json) -> (r: Result<String, String>)
    ensures
        r is Ok,
        r is Ok <==> json_emit_pretty(*doc) is Some,
        r matches Ok(t) ==> json_emit_pretty(*doc) == Some(t@),
{
    serde_json::to_string_pretty(&json_to_value(doc)).map_err(|e| e.to_string())
}

/// Whether entry `i` is the first entry of `es` under `name`.
pub open spec fn is_first_field(es: Seq<(String, Json)>, name: Seq<char>, i: int) -> bool {
    &&& 0 <= i < es.len()
    &&& es[i].0@ == name
    &&& forall|j: int| 0 <= j < i ==> (#[trigger] es[j].0)@ != name
}

/// The value of the first entry of `es` under `name`.
pub open spec fn field(es: Seq<(String, Json)>, name: Seq<char>) -> Option<Json> {
    if exists|i: int| is_first_field(es, name, i) {
        Some(es[choose|i: int| is_first_field(es, name, i)].1)
    } else {
        None
    }
}

/// Looks up the first entry of `es` under `name`.
pub fn get_field<'a>(es: &'a Vec<(String, Json)>, name: &str) -> (r: Option<&'a Json>)
    ensures
        r is None ==> field(es@, name@) is None,
        r matches Some(v) ==> field(es@, name@) == Some(*v),
{
    let key = name.to_owned();
    let mut i: usize = 0;
    while i < es.len()
        invariant
            i <= es.len(),
            key@ == name@,
            forall|j: int| 0 <= j < i ==> (#[trigger] es@[j].0)@ != name@,
        decreases es.len() - i,
    {
        if es[i].0 == key {
            assert(is_first_field(es@, name@, i as int));
            proof {
                let c = choose|c: int| is_first_field(es@, name@, c);
                assert(c == i) by {
                    if c < i {
                        assert(es@[c].0@ != name@);
                    } else if c > i {
                        assert(es@[i as int].0@ != name@);
                    }
                }
            }
            return Some(&es[i].1);
        }
        i = i + 1;
    }
    assert(!exists|c: int| is_first_field(es@, name@, c));
    None
}

} // verus!
