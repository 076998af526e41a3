//! A mathematical model of parsed JSON documents, and the trusted boundary
//! to the JSON parser.
//!
//! Parsed documents are carried as opaque `serde_json::Value` trees; the
//! spec function `value_rep` names the document a tree holds, and `json_of`
//! names the result of parsing a text.  Every accessor used by the decoders
//! is a thin wrapper whose contract restates what the parser's source shows.

use vstd::prelude::*;

verus! {

/// A JSON document: the mathematical shape of a parsed body.  Numbers and
/// booleans can occur in ignored fields and carry no further detail here.
pub enum JsonRep {
    Null,
    Bool(bool),
    Number,
    Str(Seq<char>),
    Arr(Seq<JsonRep>),
    Obj(Map<Seq<char>, JsonRep>),
}

#[verifier::external_type_specification]
#[verifier::external_body]
pub struct ExValue(serde_json::Value);

#[verifier::external_type_specification]
#[verifier::external_body]
pub struct ExJsonError(serde_json::Error);

/// The document held by a parsed `serde_json::Value` tree.
pub uninterp spec fn value_rep(v: serde_json::Value) -> JsonRep;

/// What parsing a text yields: `None` when the text is not JSON, otherwise
/// the parsed document.  Parsing depends on the text alone.
pub uninterp spec fn json_of(s: Seq<char>) -> Option<JsonRep>;

/// Relies on serde_json::from_str: parsing succeeds exactly on JSON texts
/// and its result is a function of the text alone, named by `json_of`.
#[verifier::external_body]
pub fn parse_json(s: &str) -> (r: Result<serde_json::Value, serde_json::Error>)
    ensures
        r is Ok <==> json_of(s@) is Some,
        r matches Ok(v) ==> json_of(s@) matches Some(j) && value_rep(v) == j,
{
    serde_json::from_str(s)
}

/// Relies on serde_json's Display impl for Error: the one-line detail text
/// of a parse failure.
#[verifier::external_body]
pub fn json_error_to_string(e: &serde_json::Error) -> String {
    e.to_string()
}

/// Relies on serde_json::Value::get with a string index: field lookup when
/// the document is an object, `None` on any other document.
#[verifier::external_body]
pub fn value_get<'a>(v: &'a serde_json::Value, key: &str) -> (r: Option<&'a serde_json::Value>)
    ensures
        match value_rep(*v) {
            JsonRep::Obj(m) => {
                &&& r is Some <==> m.contains_key(key@)
                &&& (r matches Some(f) ==> m.contains_key(key@) && value_rep(*f) == m[key@])
            },
            _ => r is None,
        },
{
    v.get(key)
}

/// Relies on serde_json::Value::as_str: the characters when the document is
/// a string, `None` otherwise.
#[verifier::external_body]
pub fn value_as_str<'a>(v: &'a serde_json::Value) -> (r: Option<&'a str>)
    ensures
        r is Some <==> value_rep(*v) is Str,
        r matches Some(s) ==> value_rep(*v) matches JsonRep::Str(t) && s@ == t,
{
    v.as_str()
}

/// Relies on serde_json::Value::as_array: the element trees, in order, when
/// the document is an array, `None` otherwise.
#[verifier::external_body]
pub fn value_as_array<'a>(v: &'a serde_json::Value) -> (r: Option<&'a Vec<serde_json::Value>>)
    ensures
        r is Some <==> value_rep(*v) is Arr,
        r matches Some(a) ==> value_rep(*v) matches JsonRep::Arr(items) && a@.len() == items.len()
            && (forall|i: int|
            0 <= i < items.len() ==> value_rep(#[trigger] a@[i]) == items[i]),
{
    v.as_array()
}

/// Relies on serde_json::Value::is_null.
#[verifier::external_body]
pub fn value_is_null(v: &serde_json::Value) -> (r: bool)
    ensures
        r == (value_rep(*v) is Null),
{
    v.is_null()
}

} // verus!
