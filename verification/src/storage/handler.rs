//! Object storage uploads: the key an uploaded file is stored under.
use vstd::prelude::*;

use crate::auth::jwt::{hyphenated, uuid_hyphenated};
use crate::handlers::media::random_uuid;
use crate::config::opt_str_view;
use crate::text::owned;

verus! {

/// The name of a part that names no file.
pub open spec fn default_file_name() -> Seq<char> {
    "file.bin"@
}

/// The storage key of an upload: `uploads/`, a UUID, `/`, and the part's
/// file name (`file.bin` when it names none).
pub open spec fn storage_key_of(id: u128, file_name: Option<Seq<char>>) -> Seq<char> {
    "uploads/"@ + hyphenated(id) + "/"@ + match file_name {
        Some(f) => f,
        None => default_file_name(),
    }
}

/// The content type an upload is stored with: the part's own, or
/// `application/octet-stream` when it names none.
pub fn content_type_or_default(content_type: Option<&str>) -> (r: String)
    ensures
        content_type matches Some(c) ==> r@ == c@,
        content_type is None ==> r@ == "application/octet-stream"@,
{
    match content_type {
        Some(c) => owned(c),
        None => owned("application/octet-stream"),
    }
}

/// The storage key of an upload with id `id`.
pub fn storage_key(id: u128, file_name: Option<&str>) -> (r: String)
    ensures
        r@ == storage_key_of(id, opt_str_view(file_name)),
{
    let mut key = owned("uploads/");
    key.append(uuid_hyphenated(id).as_str());
    key.append("/");
    match file_name {
        Some(f) => key.append(f),
        None => key.append("file.bin"),
    }
    key
}

/// The storage key of a new upload, under a fresh random id.
pub fn new_storage_key(file_name: Option<&str>) -> (r: String)
    ensures
        exists|id: u128|
            #[trigger] storage_key_of(id, opt_str_view(file_name)) == r@,
{
    let id: u128 = random_uuid();
    storage_key(id, file_name)
}

} // verus!
