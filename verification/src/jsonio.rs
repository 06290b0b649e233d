//! The JSON work the gateway hands to serde_json: parsing an upstream
//! response body into a JSON value and rendering that value as
//! pretty-printed text. The value itself is opaque to the library; the two
//! operations are named, and everything around them is verified against
//! those names.

use vstd::prelude::*;

verus! {

/// serde_json's JSON value, carried through the library opaquely.
#[verifier::external_type_specification]
#[verifier::external_body]
pub struct ExJsonValue(serde_json::Value);

/// serde_json's error, reported through its diagnostic text alone.
#[verifier::external_type_specification]
#[verifier::external_body]
pub struct ExJsonError(serde_json::Error);

/// What serde_json::from_str makes of a text: the parsed JSON value, or
/// nothing when the text is not valid JSON. Parsing is a function of the
/// text alone.
pub uninterp spec fn parsed_json(s: Seq<char>) -> Option<serde_json::Value>;

/// What serde_json::to_string_pretty makes of a JSON value: its
/// pretty-printed text, or nothing when the value cannot be rendered. The
/// rendering is a function of the value alone.
pub uninterp spec fn pretty_json(v: serde_json::Value) -> Option<Seq<char>>;

/// Relies on serde_json::from_str::<serde_json::Value>: it returns the JSON
/// value that the text denotes, and fails exactly on text that is not valid
/// JSON.
#[verifier::external_body]
pub fn parse_json(s: &str) -> (r: Result<serde_json::Value, serde_json::Error>)
    ensures
        r is Ok <==> parsed_json(s@) is Some,
        r matches Ok(v) ==> parsed_json(s@) == Some(v),
{
    serde_json::from_str(s)
}

/// Relies on serde_json::to_string_pretty: it renders the value as
/// pretty-printed JSON text, a function of the value alone.
#[verifier::external_body]
pub fn to_pretty_json(v: &serde_json::Value) -> (r: Result<String, serde_json::Error>)
    ensures
        r is Ok <==> pretty_json(*v) is Some,
        r matches Ok(s) ==> pretty_json(*v) == Some(s@),
{
    serde_json::to_string_pretty(v)
}

/// Relies on serde_json::Error's Display implementation for the diagnostic
/// text that accompanies a parse or render failure.
#[verifier::external_body]
pub fn json_error_message(e: &serde_json::Error) -> String {
    e.to_string()
}

} // verus!
