//! Notes commands: the requests that create and extend documents.

use vstd::prelude::*;

use crate::api::{AppendDocParams, ImportDocParams};
use crate::error::Error;

verus! {

/// Validate and clean UTF-8 text. Text held in a `str` is valid UTF-8, so
/// re-decoding its bytes gives the same characters.
pub fn validate_utf8(input: &str) -> (r: Result<String, Error>)
    ensures
        r matches Ok(s) && s@ == input@,
{
    Ok(input.to_owned())
}

/// The request that creates a document; the format number is carried over
/// as an `i32` (wrapping, as `as` does).
pub fn import_doc_params(notebook_id: String, title: &str, content: &str, format: u32) -> (r: Result<
    ImportDocParams,
    Error,
>)
    ensures
        r matches Ok(p) && p.notebook_id == notebook_id && p.title@ == title@ && p.content@ == content@
            && p.content_format == format as i32,
{
    let content = match validate_utf8(content) {
        Ok(c) => c,
        Err(e) => return Err(e),
    };
    let title = match validate_utf8(title) {
        Ok(t) => t,
        Err(e) => return Err(e),
    };
    Ok(ImportDocParams { notebook_id, title, content, content_format: format as i32 })
}

/// The request that appends to a document.
pub fn append_doc_params(doc_id: String, content: &str, format: u32) -> (r: Result<AppendDocParams, Error>)
    ensures
        r matches Ok(p) && p.doc_id == doc_id && p.content@ == content@ && p.content_format == format as i32,
{
    let content = match validate_utf8(content) {
        Ok(c) => c,
        Err(e) => return Err(e),
    };
    Ok(AppendDocParams { doc_id, content, content_format: format as i32 })
}

} // verus!
