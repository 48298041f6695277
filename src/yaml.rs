//! A YAML document tree owned by this library.
//!
//! Text is parsed and emitted by `serde_yaml`; everything the library decides
//! about a document is computed on `Yaml` values and verified.

use vstd::prelude::*;

verus! {

#[verifier::external_type_specification]
#[verifier::external_body]
pub struct ExYamlValue(serde_yaml::Value);

#[verifier::external_type_specification]
#[verifier::external_body]
pub struct ExYamlNumber(serde_yaml::Number);

#[verifier::external_type_specification]
#[verifier::external_body]
pub struct ExYamlTaggedValue(serde_yaml::value::TaggedValue);

/// One YAML node. Numbers and tagged nodes are carried through unchanged.
pub enum Yaml {
    Null,
    Bool(bool),
    Number(serde_yaml::Number),
    Text(String),
    List(Vec<Yaml>),
    Table(Vec<(Yaml, Yaml)>),
    Tagged(Box<serde_yaml::value::TaggedValue>),
}

/// The document that `serde_yaml` reads from a text, if it reads one.
pub uninterp spec fn yaml_parse(text: Seq<char>) -> Option<Yaml>;

/// The text that `serde_yaml` writes for a document, if it writes one.
pub uninterp spec fn yaml_emit(doc: Yaml) -> Option<Seq<char>>;

/// Moves a `serde_yaml::Value` into a `Yaml` node, variant for variant.
#[verifier::external_body]
fn yaml_from_value(v: serde_yaml::Value) -> Yaml {
    match v {
        serde_yaml::Value::Null => Yaml::Null,
        serde_yaml::Value::Bool(b) => Yaml::Bool(b),
        serde_yaml::Value::Number(n) => Yaml::Number(n),
        serde_yaml::Value::String(s) => Yaml::Text(s),
        serde_yaml::Value::Sequence(items) => Yaml::List(items.into_iter().map(yaml_from_value).collect()),
        serde_yaml::Value::Mapping(m) => Yaml::Table(
            m.into_iter().map(|(k, v)| (yaml_from_value(k), yaml_from_value(v))).collect(),
        ),
        serde_yaml::Value::Tagged(t) => Yaml::Tagged(t),
    }
}

/// Copies a `Yaml` node into a `serde_yaml::Value`, variant for variant.
#[verifier::external_body]
fn yaml_to_value(y: &Yaml) -> serde_yaml::Value {
    match y {
        Yaml::Null => serde_yaml::Value::Null,
        Yaml::Bool(b) => serde_yaml::Value::Bool(*b),
        Yaml::Number(n) => serde_yaml::Value::Number(n.clone()),
        Yaml::Text(s) => serde_yaml::Value::String(s.clone()),
        Yaml::List(items) => serde_yaml::Value::Sequence(items.iter().map(yaml_to_value).collect()),
        Yaml::Table(es) => serde_yaml::Value::Mapping(
            es.iter().map(|(k, v)| (yaml_to_value(k), yaml_to_value(v))).collect(),
        ),
        Yaml::Tagged(t) => serde_yaml::Value::Tagged(t.clone()),
    }
}

/// Relies on `serde_yaml::from_str::<serde_yaml::Value>`: whether a text is
/// a YAML document, and which, depends on the text alone.
#[verifier::external_body]
pub(crate) fn parse_yaml(text: &str) -> (r: Result<Yaml, String>)
    ensures
        r is Ok <==> yaml_parse(text@) is Some,
        r matches Ok(d) ==> yaml_parse(text@) == Some(d),
{
    serde_yaml::from_str::<serde_yaml::Value>(text).map(yaml_from_value).map_err(|e| e.to_string())
}

/// Relies on `serde_yaml::to_string`: the text written depends on the
/// document alone.
#[verifier::external_body]
pub(crate) fn emit_yaml(doc: &Yaml) -> (r: Result<String, String>)
    ensures
        r is Ok <==> yaml_emit(*doc) is Some,
        r matches Ok(t) ==> yaml_emit(*doc) == Some(t@),
{
    serde_yaml::to_string(&yaml_to_value(doc)).map_err(|e| e.to_string())
}

/// Whether a node is the string `name`.
pub open spec fn is_text(y: Yaml, name: Seq<char>) -> bool {
    y matches Yaml::Text(s) && s@ == name
}

/// Whether entry `i` is the first entry of `es` whose key is `name`.
pub open spec fn is_first_key(es: Seq<(Yaml, Yaml)>, name: Seq<char>, i: int) -> bool {
    &&& 0 <= i < es.len()
    &&& is_text(es[i].0, name)
    &&& forall|j: int| 0 <= j < i ==> !is_text(#[trigger] es[j].0, name)
}

/// Whether some entry of `es` has the key `name`.
pub open spec fn has_key(es: Seq<(Yaml, Yaml)>, name: Seq<char>) -> bool {
    exists|i: int| 0 <= i < es.len() && is_text(#[trigger] es[i].0, name)
}

/// The position of the first entry of `es` whose key is `name`, or -1.
pub open spec fn position_of(es: Seq<(Yaml, Yaml)>, name: Seq<char>) -> int {
    if exists|i: int| is_first_key(es, name, i) {
        choose|i: int| is_first_key(es, name, i)
    } else {
        -1
    }
}

/// Whether a document is a mapping with the key `name`.
pub open spec fn doc_has_key(doc: Yaml, name: Seq<char>) -> bool {
    doc matches Yaml::Table(es) && has_key(es@, name)
}

/// Whether `s` is the string `name`.
pub fn text_eq(s: &String, name: &str) -> (r: bool)
    ensures
        r == (s@ == name@),
{
    let n = name.to_owned();
    *s == n
}

/// Finds the first entry of `es` whose key is the string `name`.
pub fn find_key(es: &Vec<(Yaml, Yaml)>, name: &str) -> (r: Option<usize>)
    ensures
        r is None <==> !has_key(es@, name@),
        r is None ==> position_of(es@, name@) == -1,
        r matches Some(i) ==> is_first_key(es@, name@, i as int) && position_of(es@, name@) == i,
{
    let mut i: usize = 0;
    while i < es.len()
        invariant
            i <= es.len(),
            forall|j: int| 0 <= j < i ==> !is_text(#[trigger] es@[j].0, name@),
        decreases es.len() - i,
    {
        let found = match &es[i].0 {
            Yaml::Text(s) => text_eq(s, name),
            _ => false,
        };
        if found {
            assert(is_first_key(es@, name@, i as int));
            proof {
                let c = choose|c: int| is_first_key(es@, name@, c);
                assert(c == i) by {
                    if c < i {
                        assert(!is_text(es@[c].0, name@));
                    } else if c > i {
                        assert(!is_text(es@[i as int].0, name@));
                    }
                }
            }
            return Some(i);
        }
        i = i + 1;
    }
    assert(!has_key(es@, name@));
    assert(!exists|c: int| is_first_key(es@, name@, c));
    None
}

/// Whether a parsed document is a legal profile: a mapping with a `rules` key.
pub fn is_profile_document(doc: &Yaml) -> (r: bool)
    ensures
        r == doc_has_key(*doc, "rules"@),
{
    match doc {
        Yaml::Table(es) => find_key(es, "rules").is_some(),
        _ => false,
    }
}

/// Whether a text is a legal profile: YAML whose top level is a mapping with
/// a `rules` key.
pub fn check_yaml(text: &String) -> (r: bool)
    ensures
        r == (yaml_parse(text@) matches Some(d) && doc_has_key(d, "rules"@)),
{
    match parse_yaml(text.as_str()) {
        Ok(doc) => is_profile_document(&doc),
        Err(_) => false,
    }
}

} // verus!
