use zetra::error::{require_found, ApiError, DbFailure};

fn answer(e: ApiError) -> (u16, String, bool) {
    (e.status_code(), e.message(), e.logged())
}

#[test]
fn client_errors_carry_their_text() {
    assert_eq!(answer(ApiError::BadRequest("bad".to_string())), (400, "bad".to_string(), false));
    assert_eq!(answer(ApiError::Unauthorized), (401, "unauthorized".to_string(), false));
    assert_eq!(answer(ApiError::Forbidden), (403, "forbidden".to_string(), false));
    assert_eq!(answer(ApiError::NotFound), (404, "not found".to_string(), false));
    assert_eq!(answer(ApiError::Conflict("taken".to_string())), (409, "taken".to_string(), false));
    assert_eq!(answer(ApiError::PayloadTooLarge), (413, "payload too large".to_string(), false));
    assert_eq!(
        answer(ApiError::UnsupportedMediaType),
        (415, "unsupported media type".to_string(), false)
    );
    assert_eq!(answer(ApiError::Validation("v".to_string())), (422, "v".to_string(), false));
    assert_eq!(answer(ApiError::Jwt("sig".to_string())), (401, "invalid token".to_string(), false));
}

#[test]
fn server_errors_hide_their_details() {
    assert_eq!(
        answer(ApiError::Sqlx(DbFailure::Other("pool timed out".to_string()))),
        (500, "database error".to_string(), true)
    );
    assert_eq!(answer(ApiError::Io("disk full".to_string())), (500, "io error".to_string(), true));
    assert_eq!(
        answer(ApiError::Internal("boom".to_string())),
        (500, "internal error".to_string(), true)
    );
}

#[test]
fn missing_row_is_not_found() {
    assert_eq!(answer(ApiError::Sqlx(DbFailure::RowNotFound)), (404, "not found".to_string(), false));
    assert!(matches!(require_found::<u32>(None), Err(ApiError::NotFound)));
    assert!(matches!(require_found(Some(7u32)), Ok(7)));
}

#[test]
fn errors_describe_themselves() {
    assert_eq!(ApiError::BadRequest("x".to_string()).describe(), "bad request: x");
    assert_eq!(ApiError::Conflict("dup".to_string()).describe(), "conflict: dup");
    assert_eq!(ApiError::Validation("v".to_string()).describe(), "validation failed: v");
    assert_eq!(ApiError::Unauthorized.describe(), "unauthorized");
    assert_eq!(ApiError::Forbidden.describe(), "forbidden");
    assert_eq!(ApiError::NotFound.describe(), "not found");
    assert_eq!(ApiError::PayloadTooLarge.describe(), "payload too large");
    assert_eq!(ApiError::UnsupportedMediaType.describe(), "unsupported media type");
    assert_eq!(
        ApiError::Sqlx(DbFailure::RowNotFound).describe(),
        "no rows returned by a query that expected to return at least one row"
    );
    assert_eq!(ApiError::Sqlx(DbFailure::Other("pool".to_string())).describe(), "pool");
    assert_eq!(ApiError::Io("disk".to_string()).describe(), "disk");
    assert_eq!(ApiError::Jwt("ExpiredSignature".to_string()).describe(), "ExpiredSignature");
    assert_eq!(ApiError::Internal("why".to_string()).describe(), "internal error");
}
