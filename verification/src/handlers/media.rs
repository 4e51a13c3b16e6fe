//! Media uploads: which content types each kind of upload accepts, the
//! stored file name, and the size cap enforced while the file streams in.
use vstd::prelude::*;

use crate::auth::jwt::{hyphenated, uuid_hyphenated};
use crate::error::ApiError;
use crate::text::{owned, same_text};

verus! {

/// The two kinds of media upload.
#[derive(Clone, Copy, Debug)]
pub enum MediaKind {
    Image,
    Video,
}

/// The content types accepted for an upload of `kind`.
pub open spec fn allowed_mimes(kind: MediaKind) -> Seq<Seq<char>> {
    match kind {
        MediaKind::Image => seq!["image/jpeg"@, "image/png"@, "image/webp"@, "image/gif"@],
        MediaKind::Video => seq!["video/mp4"@, "video/webm"@, "video/quicktime"@],
    }
}

/// The name under which uploads of `kind` are recorded.
pub open spec fn kind_name(kind: MediaKind) -> Seq<char> {
    match kind {
        MediaKind::Image => "image"@,
        MediaKind::Video => "video"@,
    }
}

/// The file extension for a content type.
pub open spec fn ext_spec(mime: Seq<char>) -> Seq<char> {
    if mime == "image/jpeg"@ {
        "jpg"@
    } else if mime == "image/png"@ {
        "png"@
    } else if mime == "image/webp"@ {
        "webp"@
    } else if mime == "image/gif"@ {
        "gif"@
    } else if mime == "video/mp4"@ {
        "mp4"@
    } else if mime == "video/webm"@ {
        "webm"@
    } else if mime == "video/quicktime"@ {
        "mov"@
    } else {
        "bin"@
    }
}

/// The content type assumed for a part that names none.
pub open spec fn default_mime() -> Seq<char> {
    "application/octet-stream"@
}

/// The stored name of an uploaded file: a UUID and the content type's
/// extension.
pub open spec fn filename_of(id: u128, mime: Seq<char>) -> Seq<char> {
    hyphenated(id) + "."@ + ext_spec(mime)
}

/// Whether `f` is the stored name of some file of content type `mime`.
pub open spec fn is_stored_name(f: Seq<char>, mime: Seq<char>) -> bool {
    exists|id: u128| #[trigger] filename_of(id, mime) == f
}

/// The file extension for a content type: the usual one for each accepted
/// image and video type, `bin` for anything else.
pub fn ext_for(mime: &str) -> (r: &'static str)
    ensures
        r@ == ext_spec(mime@),
{
    if same_text(mime, "image/jpeg") {
        "jpg"
    } else if same_text(mime, "image/png") {
        "png"
    } else if same_text(mime, "image/webp") {
        "webp"
    } else if same_text(mime, "image/gif") {
        "gif"
    } else if same_text(mime, "video/mp4") {
        "mp4"
    } else if same_text(mime, "video/webm") {
        "webm"
    } else if same_text(mime, "video/quicktime") {
        "mov"
    } else {
        "bin"
    }
}

impl MediaKind {
    /// The name under which uploads of this kind are recorded.
    pub fn name(&self) -> (r: &'static str)
        ensures
            r@ == kind_name(*self),
    {
        match self {
            MediaKind::Image => "image",
            MediaKind::Video => "video",
        }
    }

    /// Whether uploads of this kind accept the content type `mime`.
    pub fn allows(&self, mime: &str) -> (r: bool)
        ensures
            r == allowed_mimes(*self).contains(mime@),
    {
        let r = match self {
            MediaKind::Image => same_text(mime, "image/jpeg") || same_text(mime, "image/png")
                || same_text(mime, "image/webp") || same_text(mime, "image/gif"),
            MediaKind::Video => same_text(mime, "video/mp4") || same_text(mime, "video/webm")
                || same_text(mime, "video/quicktime"),
        };
        proof {
            let a = allowed_mimes(*self);
            if r {
                match *self {
                    MediaKind::Image => {
                        if mime@ == "image/jpeg"@ {
                            assert(a[0] == mime@);
                        } else if mime@ == "image/png"@ {
                            assert(a[1] == mime@);
                        } else if mime@ == "image/webp"@ {
                            assert(a[2] == mime@);
                        } else {
                            assert(a[3] == mime@);
                        }
                    },
                    MediaKind::Video => {
                        if mime@ == "video/mp4"@ {
                            assert(a[0] == mime@);
                        } else if mime@ == "video/webm"@ {
                            assert(a[1] == mime@);
                        } else {
                            assert(a[2] == mime@);
                        }
                    },
                }
            }
        }
        r
    }
}

/// The stored name of a file with id `id` and content type `mime`.
pub fn media_filename(id: u128, mime: &str) -> (r: String)
    ensures
        r@ == filename_of(id, mime@),
{
    let mut out = uuid_hyphenated(id);
    out.append(".");
    out.append(ext_for(mime));
    out
}

/// `uuid::Uuid::new_v4`: a random (version 4) UUID, as its 128-bit value.
/// Which one comes back is chance; every one carries the version number 4
/// in bits 76 to 79 and the RFC 4122 variant (binary `10`) in bits 62 and
/// 63.
#[verifier::external_body]
pub(crate) fn random_uuid() -> (r: u128)
    ensures
        (r >> 76u128) & 0xfu128 == 4,
        (r >> 62u128) & 0x3u128 == 2,
{
    uuid::Uuid::new_v4().as_u128()
}

/// What to do with one part of a multipart upload.
#[derive(Debug)]
pub enum FieldDecision {
    /// Not the `file` part: ignore it.
    Skip,
    /// The file part is refused.
    Reject(ApiError),
    /// Store the file part under `filename`, recorded with content type `mime`.
    Accept { mime: String, filename: String },
}

/// The decision for a part named `name` with content type `content_type`,
/// where a file would be stored under the id `id`: only the part named
/// `file` counts; its content type (`application/octet-stream` when it
/// names none) must be accepted for the kind of upload.
pub fn decide_field(kind: MediaKind, name: Option<&str>, content_type: Option<&str>, id: u128) -> (r:
    FieldDecision)
    ensures
        !(name matches Some(n) && n@ == "file"@) ==> r is Skip,
        name matches Some(n) && n@ == "file"@ ==> {
            let mime = match content_type {
                Some(c) => c@,
                None => default_mime(),
            };
            if allowed_mimes(kind).contains(mime) {
                r matches FieldDecision::Accept { mime: m, filename: f } && m@ == mime && f@
                    == filename_of(id, mime)
            } else {
                r matches FieldDecision::Reject(ApiError::UnsupportedMediaType)
            }
        },
{
    let is_file = match name {
        Some(n) => same_text(n, "file"),
        None => false,
    };
    if !is_file {
        return FieldDecision::Skip;
    }
    let mime = match content_type {
        Some(c) => owned(c),
        None => owned("application/octet-stream"),
    };
    if !kind.allows(mime.as_str()) {
        return FieldDecision::Reject(ApiError::UnsupportedMediaType);
    }
    let filename = media_filename(id, mime.as_str());
    FieldDecision::Accept { mime, filename }
}

/// The decision for a part of a multipart upload, with a fresh random id
/// for the file.
pub fn on_field(kind: MediaKind, name: Option<&str>, content_type: Option<&str>) -> (r: FieldDecision)
    ensures
        !(name matches Some(n) && n@ == "file"@) ==> r is Skip,
        name matches Some(n) && n@ == "file"@ ==> {
            let mime = match content_type {
                Some(c) => c@,
                None => default_mime(),
            };
            if allowed_mimes(kind).contains(mime) {
                r matches FieldDecision::Accept { mime: m, filename: f } && m@ == mime
                    && is_stored_name(f@, mime)
            } else {
                r matches FieldDecision::Reject(ApiError::UnsupportedMediaType)
            }
        },
{
    let id: u128 = random_uuid();
    let r = decide_field(kind, name, content_type, id);
    proof {
        let mime = match content_type {
            Some(c) => c@,
            None => default_mime(),
        };
        if r is Accept {
            assert(filename_of(id, r->mime@) == r->filename@);
        }
    }
    r
}

/// The running size of an upload after one more chunk: once it exceeds
/// `max_bytes` the upload is refused as too large.
pub fn add_chunk(total: usize, chunk_len: usize, max_bytes: usize) -> (r: Result<usize, ApiError>)
    requires
        total + chunk_len <= usize::MAX,
    ensures
        total + chunk_len > max_bytes ==> r matches Err(ApiError::PayloadTooLarge),
        total + chunk_len <= max_bytes ==> r == Ok::<usize, ApiError>((total + chunk_len) as usize),
        r matches Ok(t) ==> t <= max_bytes,
{
    let t: usize = total + chunk_len;
    if t > max_bytes {
        Err(ApiError::PayloadTooLarge)
    } else {
        Ok(t)
    }
}

/// The error of an upload that holds no `file` part.
pub fn missing_file() -> (r: ApiError)
    ensures
        r matches ApiError::BadRequest(m) && m@ == "missing 'file' field"@,
{
    ApiError::BadRequest(owned("missing 'file' field"))
}

/// Every accepted content type has its own extension, never the fallback
/// `bin`; and the fallback content type is accepted by no kind of upload.
pub proof fn lemma_accepted_types(kind: MediaKind, mime: Seq<char>)
    requires
        allowed_mimes(kind).contains(mime),
    ensures
        ext_spec(mime) != "bin"@,
        mime != default_mime(),
{
    reveal_strlit("bin");
    reveal_strlit("jpg");
    reveal_strlit("png");
    reveal_strlit("webp");
    reveal_strlit("gif");
    reveal_strlit("mp4");
    reveal_strlit("webm");
    reveal_strlit("mov");
    reveal_strlit("application/octet-stream");
    reveal_strlit("image/jpeg");
    reveal_strlit("image/png");
    reveal_strlit("image/webp");
    reveal_strlit("image/gif");
    reveal_strlit("video/mp4");
    reveal_strlit("video/webm");
    reveal_strlit("video/quicktime");
    let a = allowed_mimes(kind);
    let i = choose|i: int| 0 <= i < a.len() && a[i] == mime;
    assert("bin"@[0] == 'b');
    assert("jpg"@[0] != 'b');
    assert("png"@[0] != 'b');
    assert("webp"@[0] != 'b');
    assert("gif"@[0] != 'b');
    assert("mp4"@[0] != 'b');
    assert("webm"@[0] != 'b');
    assert("mov"@[0] != 'b');
    assert(mime[0] == 'i' || mime[0] == 'v');
    assert(default_mime()[0] == 'a');
}

/// The content types each kind of upload accepts are exactly the listed
/// ones: an image upload takes JPEG, PNG, WebP and GIF images, a video
/// upload MP4, WebM and QuickTime videos, and nothing else.
pub proof fn lemma_upload_types(mime: Seq<char>)
    ensures
        allowed_mimes(MediaKind::Image).contains(mime) <==> (mime == "image/jpeg"@ || mime
            == "image/png"@ || mime == "image/webp"@ || mime == "image/gif"@),
        allowed_mimes(MediaKind::Video).contains(mime) <==> (mime == "video/mp4"@ || mime
            == "video/webm"@ || mime == "video/quicktime"@),
{
    let a = allowed_mimes(MediaKind::Image);
    let v = allowed_mimes(MediaKind::Video);
    if mime == "image/jpeg"@ {
        assert(a[0] == mime);
    } else if mime == "image/png"@ {
        assert(a[1] == mime);
    } else if mime == "image/webp"@ {
        assert(a[2] == mime);
    } else if mime == "image/gif"@ {
        assert(a[3] == mime);
    }
    if mime == "video/mp4"@ {
        assert(v[0] == mime);
    } else if mime == "video/webm"@ {
        assert(v[1] == mime);
    } else if mime == "video/quicktime"@ {
        assert(v[2] == mime);
    }
    if a.contains(mime) {
        let i = choose|i: int| 0 <= i < a.len() && a[i] == mime;
        assert(i == 0 || i == 1 || i == 2 || i == 3);
    }
    if v.contains(mime) {
        let i = choose|i: int| 0 <= i < v.len() && v[i] == mime;
        assert(i == 0 || i == 1 || i == 2);
    }
}

/// Every accepted content type is stored under its usual extension:
/// `jpg`, `png`, `webp` and `gif` for images, `mp4`, `webm` and `mov` for
/// videos.
pub proof fn lemma_upload_extensions()
    ensures
        ext_spec("image/jpeg"@) == "jpg"@,
        ext_spec("image/png"@) == "png"@,
        ext_spec("image/webp"@) == "webp"@,
        ext_spec("image/gif"@) == "gif"@,
        ext_spec("video/mp4"@) == "mp4"@,
        ext_spec("video/webm"@) == "webm"@,
        ext_spec("video/quicktime"@) == "mov"@,
{
    reveal_strlit("image/jpeg");
    reveal_strlit("image/png");
    reveal_strlit("image/webp");
    reveal_strlit("image/gif");
    reveal_strlit("video/mp4");
    reveal_strlit("video/webm");
    reveal_strlit("video/quicktime");
    assert("image/jpeg"@[6] != "image/png"@[6]);
    assert("image/jpeg"@[6] != "image/webp"@[6]);
    assert("image/jpeg"@[6] != "image/gif"@[6]);
    assert("image/png"@[6] != "image/webp"@[6]);
    assert("image/png"@[6] != "image/gif"@[6]);
    assert("image/webp"@[6] != "image/gif"@[6]);
    assert("image/jpeg"@[0] == 'i' && "image/png"@[0] == 'i' && "image/webp"@[0] == 'i'
        && "image/gif"@[0] == 'i');
    assert("video/mp4"@[0] == 'v' && "video/webm"@[0] == 'v' && "video/quicktime"@[0] == 'v');
    assert("video/mp4"@[6] != "video/webm"@[6]);
    assert("video/mp4"@[6] != "video/quicktime"@[6]);
    assert("video/webm"@[6] != "video/quicktime"@[6]);
}

} // verus!
