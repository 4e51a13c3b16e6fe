//! Request authentication: a request is made by the user named in the
//! access token that its `Authorization: Bearer <token>` header carries.
use vstd::prelude::*;

use crate::auth::jwt::Claims;
use crate::error::{ApiError, ApiResult};
use crate::text::same_text;

verus! {

/// The authenticated caller of a request.
#[derive(Debug)]
pub struct AuthUser {
    pub id: u128,
}

/// The token carried by an `Authorization` header value: what follows the
/// prefix `Bearer ` (with its single space), if the value starts with it.
pub open spec fn bearer_of(h: Seq<char>) -> Option<Seq<char>> {
    if h.len() >= 7 && h.subrange(0, 7) == "Bearer "@ {
        Some(h.subrange(7, h.len() as int))
    } else {
        None
    }
}

/// The token of a request, from its `Authorization` header (`None` when the
/// header is absent or is not valid visible ASCII). A missing header or one
/// without the `Bearer ` prefix makes the request unauthorized.
pub fn bearer_token(header: Option<&str>) -> (r: ApiResult<&str>)
    ensures
        header is None ==> r matches Err(ApiError::Unauthorized),
        header matches Some(h) ==> match bearer_of(h@) {
            Some(t) => r matches Ok(x) && x@ == t,
            None => r matches Err(ApiError::Unauthorized),
        },
{
    proof {
        reveal_strlit("Bearer ");
    }
    match header {
        None => Err(ApiError::Unauthorized),
        Some(h) => {
            let n: usize = h.unicode_len();
            if n >= 7 && same_text(h.substring_char(0, 7), "Bearer ") {
                Ok(h.substring_char(7, n))
            } else {
                Err(ApiError::Unauthorized)
            }
        },
    }
}

/// Whether `c` are the claims of an access token.
pub open spec fn is_access(c: Claims) -> bool {
    c.typ@ == "access"@
}

/// Whether `c` are the claims of a refresh token.
pub open spec fn is_refresh(c: Claims) -> bool {
    c.typ@ == "refresh"@
}

/// Whether a token's kind is `kind`.
pub fn has_kind(claims: &Claims, kind: &str) -> (r: bool)
    ensures
        r == (claims.typ@ == kind@),
{
    same_text(claims.typ.as_str(), kind)
}

/// The caller of a request, given the outcome of decoding its bearer token:
/// any decoding failure, and any token other than an access token, makes
/// the request unauthorized; otherwise the caller is the token's subject.
pub fn authorize_access(decoded: ApiResult<Claims>) -> (r: ApiResult<AuthUser>)
    ensures
        decoded is Err ==> r matches Err(ApiError::Unauthorized),
        decoded matches Ok(c) ==> (if is_access(c) {
            r matches Ok(u) && u.id == c.sub
        } else {
            r matches Err(ApiError::Unauthorized)
        }),
{
    match decoded {
        Err(_) => Err(ApiError::Unauthorized),
        Ok(c) => {
            if has_kind(&c, "access") {
                Ok(AuthUser { id: c.sub })
            } else {
                Err(ApiError::Unauthorized)
            }
        },
    }
}

/// The user a refresh request is for, given the outcome of decoding its
/// refresh token: a decoding failure is passed on unchanged, a token other
/// than a refresh token is unauthorized, and otherwise the user is the
/// token's subject.
pub fn refresh_subject(decoded: ApiResult<Claims>) -> (r: ApiResult<u128>)
    ensures
        decoded matches Err(e) ==> r == Err::<u128, ApiError>(e),
        decoded matches Ok(c) ==> (if is_refresh(c) {
            r == Ok::<u128, ApiError>(c.sub)
        } else {
            r matches Err(ApiError::Unauthorized)
        }),
{
    match decoded {
        Err(e) => Err(e),
        Ok(c) => {
            if has_kind(&c, "refresh") {
                Ok(c.sub)
            } else {
                Err(ApiError::Unauthorized)
            }
        },
    }
}

/// No token serves both purposes: claims accepted as an access token are
/// refused as a refresh token, and the other way round.
pub proof fn lemma_token_kinds_exclusive(c: Claims)
    ensures
        !(is_access(c) && is_refresh(c)),
{
    reveal_strlit("access");
    reveal_strlit("refresh");
    if is_access(c) && is_refresh(c) {
        assert("access"@[0] != "refresh"@[0]);
    }
}

/// A header written as `Bearer ` followed by a token carries exactly that
/// token.
pub proof fn lemma_bearer_roundtrip(token: Seq<char>)
    ensures
        bearer_of("Bearer "@ + token) == Some(token),
{
    reveal_strlit("Bearer ");
    let h = "Bearer "@ + token;
    assert(h.subrange(0, 7) =~= "Bearer "@);
    assert(h.subrange(7, h.len() as int) =~= token);
}

/// Which purpose a token serves depends on its kind alone: claims whose
/// `typ` is `"access"` are accepted as an access token and those whose
/// `typ` is `"refresh"` as a refresh token, whatever their subject, issue
/// time and expiry; claims of any other kind serve neither.
pub proof fn lemma_kind_decides_purpose(c: Claims)
    ensures
        is_access(c) <==> c.typ@ == "access"@,
        is_refresh(c) <==> c.typ@ == "refresh"@,
{
}

/// Claims that differ only in subject, issue time or expiry are accepted
/// for the same purposes.
pub proof fn lemma_purpose_ignores_times(c1: Claims, c2: Claims)
    requires
        c1.typ@ == c2.typ@,
    ensures
        is_access(c1) == is_access(c2),
        is_refresh(c1) == is_refresh(c2),
{
}

} // verus!
