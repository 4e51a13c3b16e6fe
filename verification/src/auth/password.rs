//! Argon2 password hashing: passwords, refresh tokens and service-app keys
//! are stored only as salted Argon2 hashes in PHC string form.
use vstd::prelude::*;

use crate::error::{ApiError, ApiResult};
use crate::text::owned;
use vstd::string::StringSliceAdditionalSpecFns;
use vstd::utf8::encode_utf8;
use argon2::password_hash::rand_core::OsRng;
use argon2::password_hash::{PasswordHash, PasswordHasher, PasswordVerifier, SaltString};

verus! {

/// Whether Argon2 (default parameters) accepts `password` against the PHC
/// hash string `phc`.
pub uninterp spec fn argon2_verifies(password: Seq<u8>, phc: Seq<char>) -> bool;

/// The longest password, in bytes, that Argon2 accepts.
pub const MAX_PASSWORD_BYTES: usize = 0xFFFFFFFF;

/// Whether `h` begins as the PHC string of an Argon2id hash with the
/// default parameters does: algorithm, version 19, 19 MiB of memory, two
/// passes and one lane, each part led by `$`; the salt and the hash follow.
pub open spec fn is_phc(h: Seq<char>) -> bool {
    h.len() > 31 && h.subrange(0, 31) == "$argon2id$v=19$m=19456,t=2,p=1$"@
}

/// A PHC string starts with `$`.
pub proof fn lemma_phc_starts_with_dollar(h: Seq<char>)
    requires
        is_phc(h),
    ensures
        h.len() > 0,
        h[0] == '$',
{
    reveal_strlit("$argon2id$v=19$m=19456,t=2,p=1$");
    assert(h[0] == h.subrange(0, 31)[0]);
}

/// Whether the text `password` (as its UTF-8 bytes) opens the stored hash
/// `hash`.
pub open spec fn password_opens(password: Seq<char>, hash: Seq<char>) -> bool {
    argon2_verifies(encode_utf8(password), hash)
}

/// `PasswordHasher::hash_password` of `Argon2::default()` with a fresh
/// random salt from the operating system, rendered as a PHC string. The
/// salt makes the result differ from call to call; what is promised is that
/// the hash verifies the password it was made from, and that with the
/// default parameters and a 16-byte salt the only refused input is a
/// password longer than `MAX_PWD_LEN` (0xFFFFFFFF) bytes. The PHC string
/// starts with the algorithm (`argon2id`), the version (19) and the default
/// parameters (`m=19456,t=2,p=1`), each led by `$`.
#[verifier::external_body]
fn argon2_hash(password: &[u8]) -> (r: Result<String, String>)
    ensures
        r matches Ok(h) ==> argon2_verifies(password@, h@) && is_phc(h@),
        r is Ok <==> password@.len() <= MAX_PASSWORD_BYTES,
{
    let salt = SaltString::generate(&mut OsRng);
    argon2::Argon2::default().hash_password(password, &salt).map(|h| h.to_string()).map_err(
        |e| e.to_string(),
    )
}

/// `PasswordVerifier::verify_password` of `Argon2::default()`, after
/// parsing `phc` with `PasswordHash::new` (an unparsable hash verifies
/// nothing).
#[verifier::external_body]
fn argon2_check(password: &[u8], phc: &str) -> (r: bool)
    ensures
        r == argon2_verifies(password@, phc@),
{
    match PasswordHash::new(phc) {
        Ok(h) => argon2::Argon2::default().verify_password(password, &h).is_ok(),
        Err(_) => false,
    }
}

/// Hashes a password for storage; a failure of the hasher is an internal
/// error.
pub fn hash_password(password: &str) -> (r: ApiResult<String>)
    ensures
        r matches Ok(h) ==> password_opens(password@, h@) && is_phc(h@),
        r matches Err(e) ==> e is Internal,
        r is Ok <==> encode_utf8(password@).len() <= MAX_PASSWORD_BYTES,
{
    match argon2_hash(password.as_bytes()) {
        Ok(h) => Ok(h),
        Err(m) => Err(ApiError::Internal(m)),
    }
}

/// Whether `password` matches the stored hash `hash`.
pub fn verify_password(password: &str, hash: &str) -> (r: bool)
    ensures
        r == password_opens(password@, hash@),
{
    argon2_check(password.as_bytes(), hash)
}

/// The stored form of a refresh token: its Argon2 hash, or the empty
/// string when hashing fails (a token longer than Argon2 accepts).
pub fn hash_refresh(token: &str) -> (r: String)
    ensures
        encode_utf8(token@).len() <= MAX_PASSWORD_BYTES ==> password_opens(token@, r@) && is_phc(r@),
        encode_utf8(token@).len() > MAX_PASSWORD_BYTES ==> r@.len() == 0,
{
    match argon2_hash(token.as_bytes()) {
        Ok(h) => h,
        Err(_) => {
            proof {
                reveal_strlit("");
            }
            owned("")
        },
    }
}

/// A text takes at most four UTF-8 bytes per character.
pub proof fn lemma_utf8_len_bound(s: Seq<char>)
    ensures
        encode_utf8(s).len() <= 4 * s.len(),
    decreases s.len(),
{
    if s.len() > 0 {
        lemma_utf8_len_bound(s.drop_first());
    }
}

} // verus!
