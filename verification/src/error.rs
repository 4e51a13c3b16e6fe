//! The API's error type and the HTTP answer that each error gets.
use vstd::prelude::*;

use crate::text::{concat2, owned};

verus! {

/// A failure reported by the database layer, reduced to what the API
/// distinguishes: a query that found no row, and everything else (with the
/// driver's description, which is logged and never sent to clients).
#[derive(Debug)]
pub enum DbFailure {
    RowNotFound,
    Other(String),
}

/// Every way a request can fail.
#[derive(Debug)]
pub enum ApiError {
    BadRequest(String),
    Unauthorized,
    Forbidden,
    NotFound,
    Conflict(String),
    PayloadTooLarge,
    UnsupportedMediaType,
    Validation(String),
    Sqlx(DbFailure),
    Io(String),
    Jwt(String),
    Internal(String),
}

/// The result type of every fallible request step.
pub type ApiResult<T> = Result<T, ApiError>;

/// The HTTP status code that answers `e`.
pub open spec fn status_of(e: ApiError) -> u16 {
    match e {
        ApiError::BadRequest(_) => 400,
        ApiError::Unauthorized => 401,
        ApiError::Forbidden => 403,
        ApiError::NotFound => 404,
        ApiError::Conflict(_) => 409,
        ApiError::PayloadTooLarge => 413,
        ApiError::UnsupportedMediaType => 415,
        ApiError::Validation(_) => 422,
        ApiError::Sqlx(DbFailure::RowNotFound) => 404,
        ApiError::Sqlx(DbFailure::Other(_)) => 500,
        ApiError::Jwt(_) => 401,
        ApiError::Io(_) => 500,
        ApiError::Internal(_) => 500,
    }
}

/// The text sent in the `error` field of the JSON body that answers `e`.
pub open spec fn message_of(e: ApiError) -> Seq<char> {
    match e {
        ApiError::BadRequest(m) => m@,
        ApiError::Unauthorized => "unauthorized"@,
        ApiError::Forbidden => "forbidden"@,
        ApiError::NotFound => "not found"@,
        ApiError::Conflict(m) => m@,
        ApiError::PayloadTooLarge => "payload too large"@,
        ApiError::UnsupportedMediaType => "unsupported media type"@,
        ApiError::Validation(m) => m@,
        ApiError::Sqlx(DbFailure::RowNotFound) => "not found"@,
        ApiError::Sqlx(DbFailure::Other(_)) => "database error"@,
        ApiError::Jwt(_) => "invalid token"@,
        ApiError::Io(_) => "io error"@,
        ApiError::Internal(_) => "internal error"@,
    }
}

/// The description of `e` in logs: a fixed phrase, with the detail the
/// error carries where it carries one; failures of the database, the file
/// system, token decoding and the internals are described by their own
/// text.
pub open spec fn description_of(e: ApiError) -> Seq<char> {
    match e {
        ApiError::BadRequest(m) => "bad request: "@ + m@,
        ApiError::Unauthorized => "unauthorized"@,
        ApiError::Forbidden => "forbidden"@,
        ApiError::NotFound => "not found"@,
        ApiError::Conflict(m) => "conflict: "@ + m@,
        ApiError::PayloadTooLarge => "payload too large"@,
        ApiError::UnsupportedMediaType => "unsupported media type"@,
        ApiError::Validation(m) => "validation failed: "@ + m@,
        ApiError::Sqlx(DbFailure::RowNotFound) => "no rows returned by a query that expected to return at least one row"@,
        ApiError::Sqlx(DbFailure::Other(m)) => m@,
        ApiError::Io(m) => m@,
        ApiError::Jwt(m) => m@,
        ApiError::Internal(_) => "internal error"@,
    }
}

/// Whether the error is a server-side failure whose details are logged.
pub open spec fn is_logged(e: ApiError) -> bool {
    match e {
        ApiError::Sqlx(DbFailure::Other(_)) => true,
        ApiError::Io(_) => true,
        ApiError::Internal(_) => true,
        _ => false,
    }
}

impl ApiError {
    /// The HTTP status code of the response for this error.
    pub fn status_code(&self) -> (r: u16)
        ensures
            r == status_of(*self),
    {
        match self {
            ApiError::BadRequest(_) => 400,
            ApiError::Unauthorized => 401,
            ApiError::Forbidden => 403,
            ApiError::NotFound => 404,
            ApiError::Conflict(_) => 409,
            ApiError::PayloadTooLarge => 413,
            ApiError::UnsupportedMediaType => 415,
            ApiError::Validation(_) => 422,
            ApiError::Sqlx(DbFailure::RowNotFound) => 404,
            ApiError::Sqlx(DbFailure::Other(_)) => 500,
            ApiError::Jwt(_) => 401,
            ApiError::Io(_) => 500,
            ApiError::Internal(_) => 500,
        }
    }

    /// The client-facing message of the response for this error.
    pub fn message(&self) -> (r: String)
        ensures
            r@ == message_of(*self),
    {
        match self {
            ApiError::BadRequest(m) => m.clone(),
            ApiError::Unauthorized => owned("unauthorized"),
            ApiError::Forbidden => owned("forbidden"),
            ApiError::NotFound => owned("not found"),
            ApiError::Conflict(m) => m.clone(),
            ApiError::PayloadTooLarge => owned("payload too large"),
            ApiError::UnsupportedMediaType => owned("unsupported media type"),
            ApiError::Validation(m) => m.clone(),
            ApiError::Sqlx(DbFailure::RowNotFound) => owned("not found"),
            ApiError::Sqlx(DbFailure::Other(_)) => owned("database error"),
            ApiError::Jwt(_) => owned("invalid token"),
            ApiError::Io(_) => owned("io error"),
            ApiError::Internal(_) => owned("internal error"),
        }
    }

    /// The description of this error, as it is written to logs.
    pub fn describe(&self) -> (r: String)
        ensures
            r@ == description_of(*self),
    {
        match self {
            ApiError::BadRequest(m) => concat2("bad request: ", m.as_str()),
            ApiError::Unauthorized => owned("unauthorized"),
            ApiError::Forbidden => owned("forbidden"),
            ApiError::NotFound => owned("not found"),
            ApiError::Conflict(m) => concat2("conflict: ", m.as_str()),
            ApiError::PayloadTooLarge => owned("payload too large"),
            ApiError::UnsupportedMediaType => owned("unsupported media type"),
            ApiError::Validation(m) => concat2("validation failed: ", m.as_str()),
            ApiError::Sqlx(DbFailure::RowNotFound) => owned(
                "no rows returned by a query that expected to return at least one row",
            ),
            ApiError::Sqlx(DbFailure::Other(m)) => m.clone(),
            ApiError::Io(m) => m.clone(),
            ApiError::Jwt(m) => m.clone(),
            ApiError::Internal(_) => owned("internal error"),
        }
    }

    /// Whether answering this error logs its details on the server.
    pub fn logged(&self) -> (r: bool)
        ensures
            r == is_logged(*self),
    {
        match self {
            ApiError::Sqlx(DbFailure::Other(_)) => true,
            ApiError::Io(_) => true,
            ApiError::Internal(_) => true,
            _ => false,
        }
    }
}

/// The record a lookup found, or "not found" when it found none.
pub fn require_found<T>(found: Option<T>) -> (r: ApiResult<T>)
    ensures
        found is None ==> r matches Err(ApiError::NotFound),
        found matches Some(x) ==> r == Ok::<T, ApiError>(x),
{
    match found {
        Some(x) => Ok(x),
        None => Err(ApiError::NotFound),
    }
}

/// Every error is answered with a client error (4xx) or a server error
/// (500), and a server error never carries the failure's own details: its
/// message is one of three fixed texts.
pub proof fn lemma_error_answers(e: ApiError)
    ensures
        400 <= status_of(e) < 500 || status_of(e) == 500,
        status_of(e) == 500 <==> is_logged(e),
        status_of(e) == 500 ==> (message_of(e) == "database error"@ || message_of(e)
            == "io error"@ || message_of(e) == "internal error"@),
{
}

/// A lookup that found nothing is answered as "not found" (404) whether it
/// was reported by the database driver or by the handler.
pub proof fn lemma_missing_row_is_not_found()
    ensures
        status_of(ApiError::Sqlx(DbFailure::RowNotFound)) == status_of(ApiError::NotFound),
        message_of(ApiError::Sqlx(DbFailure::RowNotFound)) == message_of(ApiError::NotFound),
{
}

/// Each kind of failure gets its HTTP status: a refused or missing
/// credential and a bad token 401, a forbidden action 403, a missing record
/// 404, a conflict 409, an oversized or unsupported upload 413 and 415,
/// broken field rules 422, a malformed request 400, and a failure of the
/// server itself 500; the errors that carry their own text for the client
/// are answered with exactly that text.
pub proof fn lemma_error_statuses(m: String, f: String)
    ensures
        status_of(ApiError::Unauthorized) == 401,
        status_of(ApiError::Jwt(m)) == 401,
        status_of(ApiError::Forbidden) == 403,
        status_of(ApiError::NotFound) == 404,
        status_of(ApiError::Conflict(m)) == 409,
        status_of(ApiError::PayloadTooLarge) == 413,
        status_of(ApiError::UnsupportedMediaType) == 415,
        status_of(ApiError::Validation(m)) == 422,
        status_of(ApiError::BadRequest(m)) == 400,
        status_of(ApiError::Sqlx(DbFailure::Other(f))) == 500,
        status_of(ApiError::Io(m)) == 500,
        status_of(ApiError::Internal(m)) == 500,
        message_of(ApiError::BadRequest(m)) == m@,
        message_of(ApiError::Conflict(m)) == m@,
        message_of(ApiError::Validation(m)) == m@,
        message_of(ApiError::Jwt(m)) == message_of(ApiError::Jwt(f)),
{
}

} // verus!
