//! The image side of the gateway: the cover-image response is re-encoded as
//! base64 and labelled with a MIME type chosen from the file extension of
//! the requested relative URL.

use vstd::prelude::*;
use crate::response::{is_success_status, status_is_success, ToolError};

verus! {

/// Whether `s` ends with `suffix`.
pub open spec fn seq_ends_with(s: Seq<char>, suffix: Seq<char>) -> bool {
    suffix.len() <= s.len() && s.subrange(s.len() - suffix.len(), s.len() as int) == suffix
}

/// Suffix test on strings, by characters.
pub fn str_ends_with(s: &str, suffix: &str) -> (r: bool)
    ensures
        r == seq_ends_with(s@, suffix@),
{
    let n = s.unicode_len();
    let m = suffix.unicode_len();
    if m > n {
        proof {
            assert(!seq_ends_with(s@, suffix@));
        }
        return false;
    }
    for j in 0..m
        invariant
            m <= n,
            n == s@.len(),
            m == suffix@.len(),
            forall|k: int| 0 <= k < j ==> s@[n - m + k] == suffix@[k],
    {
        let a = s.get_char(n - m + j);
        let b = suffix.get_char(j);
        if a != b {
            proof {
                assert(s@.subrange(n - m, n as int)[j as int] == s@[n - m + j]);
                assert(!seq_ends_with(s@, suffix@));
            }
            return false;
        }
    }
    proof {
        assert(s@.subrange(n - m, n as int) =~= suffix@);
    }
    true
}

/// The MIME type the gateway reports for a cover image, from the file
/// extension of the relative URL; anything unrecognised is taken for JPEG.
pub open spec fn mime_text(rel: Seq<char>) -> Seq<char> {
    if seq_ends_with(rel, ".png"@) {
        "image/png"@
    } else if seq_ends_with(rel, ".jpg"@) || seq_ends_with(rel, ".jpeg"@) {
        "image/jpeg"@
    } else if seq_ends_with(rel, ".gif"@) {
        "image/gif"@
    } else if seq_ends_with(rel, ".webp"@) {
        "image/webp"@
    } else {
        "image/jpeg"@
    }
}

/// Chooses the MIME type for a cover image from its relative URL.
pub fn mime_type_for(rel_url: &str) -> (r: &'static str)
    ensures
        r@ == mime_text(rel_url@),
{
    if str_ends_with(rel_url, ".png") {
        "image/png"
    } else if str_ends_with(rel_url, ".jpg") || str_ends_with(rel_url, ".jpeg") {
        "image/jpeg"
    } else if str_ends_with(rel_url, ".gif") {
        "image/gif"
    } else if str_ends_with(rel_url, ".webp") {
        "image/webp"
    } else {
        "image/jpeg"
    }
}

/// What base64 (standard alphabet, with padding) makes of a byte sequence:
/// a function of the bytes alone.
pub uninterp spec fn base64_of(b: Seq<u8>) -> Seq<char>;

/// Relies on base64::engine::general_purpose::STANDARD.encode: the standard
/// alphabet with padding encodes every three-byte chunk as four characters,
/// the last chunk padded to four; the result is a function of the bytes
/// alone. The length bound keeps the encoder's size computation from
/// overflowing.
#[verifier::external_body]
fn base64_encode(b: &Vec<u8>) -> (r: String)
    requires
        b@.len() <= usize::MAX as nat / 4,
    ensures
        r@ == base64_of(b@),
        r@.len() == 4 * ((b@.len() + 2) / 3),
{
    base64::Engine::encode(&base64::engine::general_purpose::STANDARD, b)
}

/// A tool-call image result: the image bytes as base64 text, and the MIME
/// type they are reported under.
#[derive(Debug, Clone, PartialEq, Eq)]
pub struct ImageContent {
    pub data: String,
    pub mime: String,
}

/// Turns one upstream image response into a tool result: a non-success
/// status is rejected as such; otherwise the bytes are base64-encoded and
/// labelled with the MIME type chosen from the relative URL.
pub fn finish_image_tool(status: u16, bytes: &Vec<u8>, rel_url: &str) -> (r: Result<
    ImageContent,
    ToolError,
>)
    requires
        bytes@.len() <= usize::MAX as nat / 4,
    ensures
        !is_success_status(status) ==> r == Err::<ImageContent, ToolError>(
            ToolError::Status(status),
        ),
        is_success_status(status) ==> (r matches Ok(img) && img.data@ == base64_of(bytes@)
            && img.mime@ == mime_text(rel_url@)),
{
    if !status_is_success(status) {
        return Err(ToolError::Status(status));
    }
    let data = base64_encode(bytes);
    let mime = String::from_str(mime_type_for(rel_url));
    Ok(ImageContent { data, mime })
}

} // verus!
