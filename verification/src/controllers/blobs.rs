//! Uploaded files: where they are stored and how they are served.
use vstd::prelude::*;
use crate::ids::{uuid_text, uuid_to_string};
use crate::text::{chars_of, push_str, signed_decimal, signed_decimal_spec, string_of};

verus! {

/// A stored file record.
pub struct BlobModel {
    pub id: u128,
    pub session_id: u128,
    pub file_name: String,
    pub content_type: String,
    pub size: i64,
    pub storage_key: String,
    /// Creation time, RFC 3339.
    pub created_at: String,
}

/// What the file endpoints answer for one file.
pub struct BlobResponse {
    pub id: u128,
    pub session_id: u128,
    pub file_name: String,
    pub content_type: String,
    pub size: i64,
    pub created_at: String,
}

impl BlobResponse {
    /// The response for file `m` (its storage key stays private).
    pub fn from(m: BlobModel) -> (r: Self)
        ensures
            r.id == m.id,
            r.session_id == m.session_id,
            r.file_name == m.file_name,
            r.content_type == m.content_type,
            r.size == m.size,
            r.created_at == m.created_at,
    {
        BlobResponse {
            id: m.id,
            session_id: m.session_id,
            file_name: m.file_name,
            content_type: m.content_type,
            size: m.size,
            created_at: m.created_at,
        }
    }
}

/// The storage key of blob `blob_id` of session `session_id`:
/// `{session_id}/{blob_id}`.
pub open spec fn storage_key_spec(session_id: u128, blob_id: u128) -> Seq<char> {
    uuid_text(session_id) + "/"@ + uuid_text(blob_id)
}

/// The storage key of a blob.
pub fn storage_key(session_id: u128, blob_id: u128) -> (r: String)
    ensures
        r@ == storage_key_spec(session_id, blob_id),
{
    let mut t = chars_of(uuid_to_string(session_id).as_str());
    push_str(&mut t, "/");
    push_str(&mut t, uuid_to_string(blob_id).as_str());
    string_of(&t)
}

/// The name of an upload: the given file name, or `unnamed`.
pub fn upload_file_name(name: Option<&str>) -> (r: String)
    ensures
        r@ == match name {
            Some(n) => n@,
            None => "unnamed"@,
        },
{
    match name {
        Some(n) => string_of(&chars_of(n)),
        None => string_of(&chars_of("unnamed")),
    }
}

/// The content type of an upload: the given one, or
/// `application/octet-stream`.
pub fn upload_content_type(content_type: Option<&str>) -> (r: String)
    ensures
        r@ == match content_type {
            Some(c) => c@,
            None => "application/octet-stream"@,
        },
{
    match content_type {
        Some(c) => string_of(&chars_of(c)),
        None => string_of(&chars_of("application/octet-stream")),
    }
}

/// The `Content-Disposition` of a download: `attachment; filename="{name}"`.
pub fn content_disposition(file_name: &str) -> (r: String)
    ensures
        r@ == "attachment; filename=\""@ + file_name@ + "\""@,
{
    let mut t = chars_of("attachment; filename=\"");
    push_str(&mut t, file_name);
    push_str(&mut t, "\"");
    string_of(&t)
}

/// The `Content-Length` of a download: the stored size in decimal.
pub fn content_length(size: i64) -> (r: String)
    ensures
        r@ == signed_decimal_spec(size as int),
{
    string_of(&signed_decimal(size))
}

} // verus!
