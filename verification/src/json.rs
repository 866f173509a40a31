//! A mathematical model of JSON documents, and trusted access to serde_json's
//! parser and value accessors. The extractor's logic is verified against this
//! model; only the small items below are taken on trust.

use vstd::prelude::*;

verus! {

/// What a JSON document holds, as a mathematical value. A number's magnitude
/// is never read by this library, so numbers are not distinguished from one
/// another.
pub enum JsonModel {
    Null,
    Flag(bool),
    Number,
    Text(Seq<char>),
    Items(Seq<JsonModel>),
    Fields(Map<Seq<char>, JsonModel>),
}

/// The serde_json value type, opaque to the verifier; `json_model` names what
/// a value of it holds.
#[verifier::external_type_specification]
#[verifier::external_body]
pub struct ExJsonValue(serde_json::Value);

/// What a serde_json value holds.
pub uninterp spec fn json_model(v: serde_json::Value) -> JsonModel;

/// What serde_json's parser returns for a given text: `None` where the text is
/// not a JSON document, otherwise the document it denotes. The outcome depends
/// on the text alone.
pub uninterp spec fn parsed_json(s: Seq<char>) -> Option<JsonModel>;

/// Relies on serde_json::from_str::<serde_json::Value>: parses the text as a
/// JSON document or fails, deterministically in the text.
#[verifier::external_body]
pub(crate) fn parse_json(s: &str) -> (r: Result<serde_json::Value, ()>)
    ensures
        r is Ok <==> parsed_json(s@) is Some,
        r is Ok ==> json_model(r->Ok_0) == parsed_json(s@)->0,
{
    match serde_json::from_str::<serde_json::Value>(s) {
        Ok(v) => Ok(v),
        Err(_) => Err(()),
    }
}

/// Relies on serde_json::Value::get with a string index: on an object it looks
/// the key up, on any other value it returns nothing.
#[verifier::external_body]
pub(crate) fn get_field<'a>(v: &'a serde_json::Value, key: &str) -> (r: Option<&'a serde_json::Value>)
    ensures
        match json_model(*v) {
            JsonModel::Fields(m) => {
                &&& r is Some <==> m.contains_key(key@)
                &&& r is Some ==> json_model(*r->0) == m[key@]
            },
            _ => r is None,
        },
{
    v.get(key)
}

/// Relies on serde_json::Value::as_str: returns the text a string value holds
/// and nothing for any other value.
#[verifier::external_body]
pub(crate) fn str_content(v: &serde_json::Value) -> (r: Option<String>)
    ensures
        r is Some <==> json_model(*v) is Text,
        r is Some ==> r->0@ == json_model(*v)->Text_0,
{
    match v.as_str() {
        Some(s) => Some(s.to_owned()),
        None => None,
    }
}

} // verus!
