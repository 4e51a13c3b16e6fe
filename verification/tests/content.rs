use zetra::auth::middleware::AuthUser;
use zetra::error::ApiError;
use zetra::handlers::comments::{authorize_delete, default_limit, CreateInput, ListQuery};
use zetra::handlers::identity::{after_lookup, candidate_from, next_candidate, IdentityStep};
use zetra::handlers::media::{
    add_chunk, decide_field, ext_for, media_filename, missing_file, on_field, FieldDecision,
    MediaKind,
};
use zetra::models::{default_limit as paging_default, Comment, Pagination};
use zetra::storage::handler::{content_type_or_default, new_storage_key, storage_key};

const ID: u128 = 0xffee_ddcc_bbaa_9988_7766_5544_3322_1100;

fn query(limit: i64, offset: i64) -> ListQuery {
    ListQuery { target: "post:1".to_string(), limit, offset }
}

#[test]
fn listing_paging_is_bounded() {
    assert_eq!(default_limit(), 50);
    assert_eq!(paging_default(), 50);
    let p = Pagination::default_paging();
    assert_eq!((p.limit, p.offset), (50, 0));
    let d = ListQuery::for_target("t".to_string());
    assert_eq!((d.limit, d.offset), (50, 0));
    assert_eq!(query(0, 0).effective_limit(), 1);
    assert_eq!(query(-9, 0).effective_limit(), 1);
    assert_eq!(query(57, 0).effective_limit(), 57);
    assert_eq!(query(201, 0).effective_limit(), 200);
    assert_eq!(query(5, -3).effective_offset(), 0);
    assert_eq!(query(5, 40).effective_offset(), 40);
}

#[test]
fn comment_rules() {
    assert!(CreateInput { target: "t".to_string(), body: "b".to_string() }.validate().is_ok());
    match (CreateInput { target: "".to_string(), body: "x".repeat(5001) }).validate() {
        Err(ApiError::Validation(m)) => assert_eq!(
            m,
            format!(
                "target: Validation error: length [{{\"min\": Number(1), \"max\": Number(200), \"value\": String(\"\")}}]\n\
                 body: Validation error: length [{{\"min\": Number(1), \"max\": Number(5000), \"value\": String(\"{}\")}}]",
                "x".repeat(5001)
            )
        ),
        other => panic!("unexpected {:?}", other),
    }
    assert!(CreateInput { target: "t".repeat(200), body: "x".repeat(5000) }.validate().is_ok());
}

fn comment(owner: u128) -> Comment {
    Comment {
        id: 1,
        user_id: owner,
        target: "t".to_string(),
        body: "b".to_string(),
        created_at: 0,
        updated_at: 0,
    }
}

#[test]
fn only_the_author_deletes() {
    let me = AuthUser { id: 5 };
    assert!(authorize_delete(Some(comment(5)), &me).is_ok());
    assert!(matches!(authorize_delete(Some(comment(6)), &me), Err(ApiError::Forbidden)));
    assert!(matches!(authorize_delete(None, &me), Err(ApiError::NotFound)));
}

#[test]
fn identity_candidates() {
    assert_eq!(candidate_from(b"abc12Zq"), "ZTR-ABC12ZQ");
    let c = next_candidate();
    assert_eq!(c.len(), 11);
    assert!(c.starts_with("ZTR-"));
    assert!(c[4..].chars().all(|ch| ch.is_ascii_uppercase() || ch.is_ascii_digit()));
}

#[test]
fn identity_retries_up_to_ten_times() {
    assert!(matches!(after_lookup(0, "ZTR-A".to_string(), false), IdentityStep::Use(s) if s == "ZTR-A"));
    assert!(matches!(after_lookup(0, "ZTR-A".to_string(), true), IdentityStep::Retry));
    assert!(matches!(after_lookup(8, "ZTR-A".to_string(), true), IdentityStep::Retry));
    match after_lookup(9, "ZTR-A".to_string(), true) {
        IdentityStep::GiveUp(ApiError::Internal(m)) => {
            assert_eq!(m, "Failed to generate unique Zetra ID")
        }
        other => panic!("unexpected {:?}", other),
    }
}

#[test]
fn extensions_by_content_type() {
    assert_eq!(ext_for("image/jpeg"), "jpg");
    assert_eq!(ext_for("image/png"), "png");
    assert_eq!(ext_for("image/webp"), "webp");
    assert_eq!(ext_for("image/gif"), "gif");
    assert_eq!(ext_for("video/mp4"), "mp4");
    assert_eq!(ext_for("video/webm"), "webm");
    assert_eq!(ext_for("video/quicktime"), "mov");
    assert_eq!(ext_for("text/plain"), "bin");
    assert_eq!(ext_for("IMAGE/JPEG"), "bin");
}

#[test]
fn kinds_accept_their_types() {
    assert!(MediaKind::Image.allows("image/gif"));
    assert!(!MediaKind::Image.allows("video/mp4"));
    assert!(MediaKind::Video.allows("video/quicktime"));
    assert!(!MediaKind::Video.allows("application/octet-stream"));
    assert_eq!(MediaKind::Image.name(), "image");
    assert_eq!(MediaKind::Video.name(), "video");
}

#[test]
fn upload_parts() {
    assert!(matches!(decide_field(MediaKind::Image, Some("avatar"), Some("image/png"), ID), FieldDecision::Skip));
    assert!(matches!(decide_field(MediaKind::Image, None, Some("image/png"), ID), FieldDecision::Skip));
    assert!(matches!(
        decide_field(MediaKind::Image, Some("file"), None, ID),
        FieldDecision::Reject(ApiError::UnsupportedMediaType)
    ));
    assert!(matches!(
        decide_field(MediaKind::Video, Some("file"), Some("image/png"), ID),
        FieldDecision::Reject(ApiError::UnsupportedMediaType)
    ));
    match decide_field(MediaKind::Video, Some("file"), Some("video/mp4"), ID) {
        FieldDecision::Accept { mime, filename } => {
            assert_eq!(mime, "video/mp4");
            assert_eq!(filename, "ffeeddcc-bbaa-9988-7766-554433221100.mp4");
        }
        other => panic!("unexpected {:?}", other),
    }
    match on_field(MediaKind::Image, Some("file"), Some("image/webp")) {
        FieldDecision::Accept { filename, .. } => {
            assert_eq!(filename.len(), 41);
            assert!(filename.ends_with(".webp"));
        }
        other => panic!("unexpected {:?}", other),
    }
    assert_eq!(media_filename(ID, "text/plain"), "ffeeddcc-bbaa-9988-7766-554433221100.bin");
}

#[test]
fn upload_size_cap() {
    assert_eq!(add_chunk(0, 10, 10).unwrap(), 10);
    assert!(matches!(add_chunk(10, 1, 10), Err(ApiError::PayloadTooLarge)));
    assert_eq!(add_chunk(4, 0, 4).unwrap(), 4);
    match missing_file() {
        ApiError::BadRequest(m) => assert_eq!(m, "missing 'file' field"),
        other => panic!("unexpected {:?}", other),
    }
}

#[test]
fn storage_keys() {
    assert_eq!(storage_key(ID, Some("cat.png")), "uploads/ffeeddcc-bbaa-9988-7766-554433221100/cat.png");
    assert_eq!(storage_key(1, None), "uploads/00000000-0000-0000-0000-000000000001/file.bin");
    let k = new_storage_key(Some("a.txt"));
    assert!(k.starts_with("uploads/") && k.ends_with("/a.txt") && k.len() == 8 + 36 + 6);
    assert_eq!(content_type_or_default(None), "application/octet-stream");
    assert_eq!(content_type_or_default(Some("text/csv")), "text/csv");
}
