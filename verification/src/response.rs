//! The response side of each tool call: the status check, the conversion of
//! a JSON response into pretty-printed text, the conversion of an image
//! response into base64 with a MIME type, and the errors these steps report.

use vstd::prelude::*;
use crate::digits::{dec_rep, u64_to_string};
use crate::jsonio::{json_error_message, parse_json, parsed_json, pretty_json, to_pretty_json};

verus! {

/// Whether an HTTP status code counts as success: the 2xx range.
pub open spec fn is_success_status(status: u16) -> bool {
    200 <= status < 300
}

/// The status check applied to every upstream response.
pub fn status_is_success(status: u16) -> (r: bool)
    ensures
        r == is_success_status(status),
{
    200 <= status && status < 300
}

/// What a failed tool call reports: a non-success upstream status, a
/// response body that is not valid JSON, or a JSON value that could not be
/// rendered.
#[derive(Debug, Clone, PartialEq, Eq)]
pub enum ToolError {
    Status(u16),
    Parse(String),
    Format(String),
}

/// The diagnostic text of a tool error.
pub open spec fn tool_error_text(e: ToolError) -> Seq<char> {
    match e {
        ToolError::Status(code) => "Request failed with status: "@ + dec_rep(code as nat),
        ToolError::Parse(detail) => "Failed to parse response: "@ + detail@,
        ToolError::Format(detail) => "Failed to format response: "@ + detail@,
    }
}

impl ToolError {
    /// The diagnostic text of this error.
    pub fn message(&self) -> (r: String)
        ensures
            r@ == tool_error_text(*self),
    {
        match self {
            ToolError::Status(code) => {
                let mut s = String::from_str("Request failed with status: ");
                let digits = u64_to_string(*code as u64);
                s.append(digits.as_str());
                proof {
                    assert(s@ =~= tool_error_text(*self));
                }
                s
            },
            ToolError::Parse(detail) => {
                let mut s = String::from_str("Failed to parse response: ");
                s.append(detail.as_str());
                proof {
                    assert(s@ =~= tool_error_text(*self));
                }
                s
            },
            ToolError::Format(detail) => {
                let mut s = String::from_str("Failed to format response: ");
                s.append(detail.as_str());
                proof {
                    assert(s@ =~= tool_error_text(*self));
                }
                s
            },
        }
    }
}

/// Turns one upstream JSON response into the text of a tool result: a
/// non-success status is rejected as such; otherwise the body is parsed as
/// JSON and rendered pretty-printed.
pub fn finish_json_tool(status: u16, body: &str) -> (r: Result<String, ToolError>)
    ensures
        !is_success_status(status) ==> r == Err::<String, ToolError>(ToolError::Status(status)),
        (is_success_status(status) && parsed_json(body@) is None) ==> (r matches Err(e) && e
            is Parse),
        (is_success_status(status) && parsed_json(body@) is Some) ==> (match pretty_json(
            parsed_json(body@)->0,
        ) {
            Some(text) => r matches Ok(out) && out@ == text,
            None => r matches Err(e) && e is Format,
        }),
{
    if !status_is_success(status) {
        return Err(ToolError::Status(status));
    }
    let value = match parse_json(body) {
        Ok(v) => v,
        Err(e) => {
            return Err(ToolError::Parse(json_error_message(&e)));
        },
    };
    match to_pretty_json(&value) {
        Ok(text) => Ok(text),
        Err(e) => Err(ToolError::Format(json_error_message(&e))),
    }
}

} // verus!
