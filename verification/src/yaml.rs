//! Reading and writing documents as YAML text.
//!
//! The YAML grammar itself is handled by serde_yaml behind trusted wrappers;
//! everything the engine decides about the parsed documents is verified
//! against the names given to the parser's and serializer's results here.

use vstd::prelude::*;

use serde::Deserialize;

use crate::doc::{doc_view, Doc, DocView};

verus! {

/// serde_yaml's parsed YAML value, opaque to the verifier: the wrappers
/// below only carry it between serde_yaml and the library's own `Doc`.
#[verifier::external_type_specification]
#[verifier::external_body]
pub struct ExValue(serde_yaml::Value);

/// The canonical YAML rendering of a document value.
pub uninterp spec fn yaml_of(d: DocView) -> Seq<char>;

/// The documents (or per-document parse errors) contained in a YAML stream.
pub uninterp spec fn docs_of(text: Seq<char>) -> Seq<Result<DocView, Seq<char>>>;

/// The value of one parse outcome.
pub open spec fn parse_outcome_view(p: Result<Doc, String>) -> Result<DocView, Seq<char>> {
    match p {
        Ok(d) => Ok(doc_view(d)),
        Err(e) => Err(e@),
    }
}

/// The values of a sequence of parse outcomes, outcome by outcome.
pub open spec fn parsed_view(s: Seq<Result<Doc, String>>) -> Seq<Result<DocView, Seq<char>>> {
    Seq::new(s.len(), |i: int| parse_outcome_view(s[i]))
}

/// Relies on serde_yaml's `Value` representation: converts one parsed YAML
/// value into the library's document form, arm by arm.  Numbers are carried
/// as their textual rendering, and a non-string mapping key is rendered to
/// text the same way; a tagged value stands for the value it wraps.
#[verifier::external_body]
fn value_to_doc(v: &serde_yaml::Value) -> Doc {
    match v {
        serde_yaml::Value::Null => Doc::Null,
        serde_yaml::Value::Bool(b) => Doc::Bool(*b),
        serde_yaml::Value::Number(n) => Doc::Num(n.to_string()),
        serde_yaml::Value::String(s) => Doc::Str(s.clone()),
        serde_yaml::Value::Sequence(xs) => Doc::List(xs.iter().map(value_to_doc).collect()),
        serde_yaml::Value::Mapping(m) => Doc::Object(
            m.iter().map(|(k, v)| (key_to_string(k), value_to_doc(v))).collect(),
        ),
        serde_yaml::Value::Tagged(t) => value_to_doc(&t.value),
    }
}

/// Relies on serde_yaml's `Value` representation: renders a mapping key to
/// the string the library keys its objects by.
#[verifier::external_body]
fn key_to_string(k: &serde_yaml::Value) -> String {
    match k {
        serde_yaml::Value::String(s) => s.clone(),
        _ => match serde_yaml::to_string(k) {
            Ok(s) => s.trim_end().to_string(),
            Err(_) => String::new(),
        },
    }
}

/// Relies on serde_yaml's `Value` representation: rebuilds the parsed form
/// of a document, arm by arm, so that serde_yaml can serialize it.
#[verifier::external_body]
fn doc_to_value(d: &Doc) -> serde_yaml::Value {
    match d {
        Doc::Null => serde_yaml::Value::Null,
        Doc::Bool(b) => serde_yaml::Value::Bool(*b),
        Doc::Num(s) => match s.parse::<serde_yaml::Number>() {
            Ok(n) => serde_yaml::Value::Number(n),
            Err(_) => serde_yaml::Value::String(s.clone()),
        },
        Doc::Str(s) => serde_yaml::Value::String(s.clone()),
        Doc::List(xs) => serde_yaml::Value::Sequence(xs.iter().map(doc_to_value).collect()),
        Doc::Object(es) => serde_yaml::Value::Mapping(
            es.iter().map(|(k, v)| (serde_yaml::Value::String(k.clone()), doc_to_value(v))).collect(),
        ),
    }
}

/// Relies on `serde_yaml::Deserializer::from_str` and `Value`'s
/// `Deserialize`: a YAML stream parses to one outcome per `---`-separated
/// document, a function of the text alone.  Parsing stops at the first
/// malformed document, which contributes the final, error entry: past a
/// syntax error the parser cannot find the next document boundary.
#[verifier::external_body]
pub fn parse_documents(text: &str) -> (r: Vec<Result<Doc, String>>)
    ensures
        parsed_view(r@) == docs_of(text@),
{
    let mut out = Vec::new();
    for doc in serde_yaml::Deserializer::from_str(text) {
        match serde_yaml::Value::deserialize(doc) {
            Ok(v) => out.push(Ok(value_to_doc(&v))),
            Err(e) => {
                out.push(Err(e.to_string()));
                break;
            },
        }
    }
    out
}

/// Relies on `serde_yaml::to_string`: the YAML rendering of a document is a
/// function of its value alone, with mapping order preserved.
#[verifier::external_body]
pub fn to_yaml(d: &Doc) -> (r: String)
    ensures
        r@ == yaml_of(d@),
{
    match serde_yaml::to_string(&doc_to_value(d)) {
        Ok(s) => s,
        Err(_) => String::new(),
    }
}

} // verus!
