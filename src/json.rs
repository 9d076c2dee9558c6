//! A plain model of a JSON document, filled from `serde_json`'s parser.
use vstd::prelude::*;

verus! {

#[verifier::external_type_specification]
#[verifier::external_body]
pub struct ExValue(serde_json::Value);

/// A parsed JSON document. Numbers that fit an `i64` are kept as integers;
/// any other number is kept as its decimal text. An object's members come in
/// key order, each key once.
#[derive(Debug)]
pub enum Json {
    Null,
    Bool(bool),
    Int(i64),
    OtherNumber(String),
    Str(String),
    Array(Vec<Json>),
    Object(Vec<(String, Json)>),
}

/// Why a body could not be read as JSON of the expected shape.
#[derive(Debug)]
pub enum ParseError {
    /// The bytes are not JSON (or not UTF-8, or nested too deep); carries
    /// the parser's diagnostic.
    Syntax(String),
    /// The document is JSON but matches neither the error envelope nor the
    /// expected result shape; carries what was wrong with the result shape.
    UnexpectedShape(String),
}

/// What `serde_json::from_slice::<Value>` makes of the bytes: the document,
/// converted variant for variant, or the parser's diagnostic.
pub uninterp spec fn parse_outcome(bytes: Seq<u8>) -> Result<Json, Seq<char>>;

/// Converts a parsed value into the library's model, variant for variant;
/// only `parse_document` calls it, on what the parser returned.
#[verifier::external_body]
fn from_value(v: serde_json::Value) -> Json {
    match v {
        serde_json::Value::Null => Json::Null,
        serde_json::Value::Bool(b) => Json::Bool(b),
        serde_json::Value::Number(n) => match n.as_i64() {
            Some(i) => Json::Int(i),
            None => Json::OtherNumber(n.to_string()),
        },
        serde_json::Value::String(s) => Json::Str(s),
        serde_json::Value::Array(a) => Json::Array(a.into_iter().map(from_value).collect()),
        serde_json::Value::Object(o) => Json::Object(o.into_iter().map(|(k, x)| (k, from_value(x))).collect()),
    }
}

/// Relies on `serde_json::from_slice::<Value>` (and on `Error`'s `Display`
/// for the diagnostic): the result depends on the bytes alone.
#[verifier::external_body]
fn parse_document(bytes: &[u8]) -> (r: Result<Json, String>)
    ensures
        r is Ok ==> parse_outcome(bytes@) == Ok::<Json, Seq<char>>(r->Ok_0),
        r is Err ==> parse_outcome(bytes@) == Err::<Json, Seq<char>>(r->Err_0@),
{
    serde_json::from_slice::<serde_json::Value>(bytes).map(from_value).map_err(|e| e.to_string())
}

/// An owned copy of a string slice.
pub(crate) fn owned(s: &str) -> (r: String)
    ensures
        r@ == s@,
{
    s.to_owned()
}

/// Parses a response body into the library's JSON model.
pub fn parse_json(bytes: &[u8]) -> (r: Result<Json, ParseError>)
    ensures
        parse_outcome(bytes@) matches Ok(j) ==> r == Ok::<Json, ParseError>(j),
        parse_outcome(bytes@) matches Err(d) ==> r matches Err(ParseError::Syntax(m)) && m@ == d,
{
    match parse_document(bytes) {
        Ok(j) => Ok(j),
        Err(d) => Err(ParseError::Syntax(d)),
    }
}

} // verus!
