//! What this library reads from JSON texts, through `serde_json`. Lookups go
//! by JSON pointer (`/data/object`) into the text.
use vstd::prelude::*;

verus! {

/// Declares `serde_json::Value`, a parsed JSON document, which is carried
/// through unread.
#[verifier::external_type_specification]
#[verifier::external_body]
pub struct ExValue(serde_json::Value);

/// Declares `serde_json::Error`, why a text is not well-formed JSON.
#[verifier::external_type_specification]
#[verifier::external_body]
pub struct ExJsonError(serde_json::Error);

/// Whether a text is one well-formed JSON document.
pub uninterp spec fn json_valid(text: Seq<char>) -> bool;

/// What stands at `pointer` in the JSON text `text`, read as an optional
/// string: `Some(Some(s))` for the string `s`, `Some(None)` where nothing
/// or `null` stands there, and `None` where the text is not JSON or
/// something else stands there.
pub uninterp spec fn json_text_at(text: Seq<char>, pointer: Seq<char>) -> Option<Option<Seq<char>>>;

/// Whether the JSON text `text` holds an object at `pointer`.
pub uninterp spec fn json_object_at(text: Seq<char>, pointer: Seq<char>) -> bool;

/// Relies on `serde_json::from_str::<Value>`: it succeeds exactly on
/// well-formed JSON text, which depends on the text alone.
#[verifier::external_body]
pub fn parse_json(text: &str) -> (r: Result<serde_json::Value, serde_json::Error>)
    ensures
        r is Ok <==> json_valid(text@),
{
    serde_json::from_str::<serde_json::Value>(text)
}

/// Relies on `serde_json::Error`'s `Display`, for the text of a parse error.
#[verifier::external_body]
pub fn json_error_text(e: &serde_json::Error) -> (r: String) {
    e.to_string()
}

/// Relies on `serde_json::from_str::<Value>` and `Value::pointer`: the
/// string or `null` at `pointer` in `text`, as `json_text_at` describes.
#[verifier::external_body]
pub fn text_at(text: &str, pointer: &str) -> (r: Option<Option<String>>)
    ensures
        match r {
            Some(Some(s)) => json_text_at(text@, pointer@) == Some(Some(s@)),
            Some(None) => json_text_at(text@, pointer@) == Some(None::<Seq<char>>),
            None => json_text_at(text@, pointer@) is None,
        },
{
    let v = serde_json::from_str::<serde_json::Value>(text).ok()?;
    match v.pointer(pointer) {
        None => Some(None),
        Some(serde_json::Value::Null) => Some(None),
        Some(serde_json::Value::String(s)) => Some(Some(s.clone())),
        Some(_) => None,
    }
}

/// Relies on `serde_json::from_str::<Value>` and `Value::pointer`: a copy of
/// the object at `pointer` in `text`, where one stands there.
#[verifier::external_body]
pub fn object_at(text: &str, pointer: &str) -> (r: Option<serde_json::Value>)
    ensures
        r is Some <==> json_object_at(text@, pointer@),
{
    let v = serde_json::from_str::<serde_json::Value>(text).ok()?;
    match v.pointer(pointer) {
        Some(o @ serde_json::Value::Object(_)) => Some(o.clone()),
        _ => None,
    }
}

/// Relies on `Clone` for `serde_json::Value` (derived), which the event
/// types' own `Clone` calls. Nothing is stated of the copy.
pub assume_specification[ <serde_json::Value as Clone>::clone ](
    v: &serde_json::Value,
) -> serde_json::Value;

} // verus!
