//! Zetra identities: generation of a fresh `ZTR-` identifier, retried
//! while the generated one is already taken.
use vstd::prelude::*;

use crate::error::ApiError;
use crate::text::{owned, push_char};
use rand::Rng;

verus! {

/// The body of an identity creation request.
#[derive(Debug)]
pub struct CreateIdentityRequest {
    pub name: String,
}

/// The answer to an identity creation request.
#[derive(Debug)]
pub struct CreateIdentityResponse {
    pub zetra_id: String,
}

/// How many generated identifiers are tried before giving up.
pub const MAX_IDENTITY_ATTEMPTS: u32 = 10;

/// How many random characters follow the `ZTR-` prefix.
pub const CODE_LEN: usize = 7;

/// Whether `b` is an ASCII letter or digit.
pub open spec fn is_alphanumeric_byte(b: u8) -> bool {
    (65 <= b <= 90) || (97 <= b <= 122) || (48 <= b <= 57)
}

/// The character of byte `b`, with lower-case ASCII letters made upper case.
pub open spec fn upper_char(b: u8) -> char {
    if 97 <= b <= 122 {
        ((b - 32) as u8) as char
    } else {
        b as char
    }
}

/// The identifier built from random bytes `code`: `ZTR-` followed by the
/// bytes as characters, upper-cased.
pub open spec fn candidate_of(code: Seq<u8>) -> Seq<char> {
    "ZTR-"@ + code.map_values(|b: u8| upper_char(b))
}

/// `n` samples of `rand::distributions::Alphanumeric` from the thread-local
/// generator: bytes drawn from `A-Z`, `a-z` and `0-9`. Which ones come back
/// is left to chance.
#[verifier::external_body]
fn random_alphanumeric(n: usize) -> (r: Vec<u8>)
    ensures
        r@.len() == n,
        forall|i: int| 0 <= i < n ==> is_alphanumeric_byte(#[trigger] r@[i]),
{
    rand::thread_rng().sample_iter(&rand::distributions::Alphanumeric).take(n).collect()
}

/// The identifier built from the random bytes `code`.
pub fn candidate_from(code: &[u8]) -> (r: String)
    ensures
        r@ == candidate_of(code@),
{
    let mut out = owned("ZTR-");
    let n: usize = code.len();
    let mut i: usize = 0;
    while i < n
        invariant
            n == code@.len(),
            i <= n,
            out@ == "ZTR-"@ + code@.subrange(0, i as int).map_values(|b: u8| upper_char(b)),
        decreases n - i,
    {
        let b: u8 = code[i];
        let c: char = if 97 <= b && b <= 122 {
            (b - 32) as char
        } else {
            b as char
        };
        push_char(&mut out, c);
        assert(code@.subrange(0, i as int + 1).map_values(|b: u8| upper_char(b)) =~= code@.subrange(
            0,
            i as int,
        ).map_values(|b: u8| upper_char(b)).push(upper_char(b)));
        i = i + 1;
    }
    assert(code@.subrange(0, n as int) =~= code@);
    out
}

/// A freshly generated identifier: `ZTR-` followed by seven random
/// upper-case letters and digits.
pub fn next_candidate() -> (r: String)
    ensures
        exists|code: Seq<u8>|
            code.len() == CODE_LEN && (forall|i: int|
                0 <= i < code.len() ==> is_alphanumeric_byte(#[trigger] code[i])) && r@
                == candidate_of(code),
{
    let code = random_alphanumeric(CODE_LEN);
    candidate_from(code.as_slice())
}

/// What to do after looking up a generated identifier.
#[derive(Debug)]
pub enum IdentityStep {
    /// The identifier is free: create the identity under it.
    Use(String),
    /// The identifier is taken: generate another one.
    Retry,
    /// Every attempt found its identifier taken.
    GiveUp(ApiError),
}

/// The decision after the lookup of the identifier generated at attempt
/// `attempt` (counted from 0): a free identifier is used; a taken one is
/// retried, up to `MAX_IDENTITY_ATTEMPTS` attempts in all, after which the
/// request fails with an internal error.
pub fn after_lookup(attempt: u32, candidate: String, taken: bool) -> (r: IdentityStep)
    requires
        attempt < MAX_IDENTITY_ATTEMPTS,
    ensures
        !taken ==> r == IdentityStep::Use(candidate),
        taken && attempt + 1 < MAX_IDENTITY_ATTEMPTS ==> r is Retry,
        taken && attempt + 1 == MAX_IDENTITY_ATTEMPTS ==> (r matches IdentityStep::GiveUp(
            ApiError::Internal(m),
        ) && m@ == "Failed to generate unique Zetra ID"@),
        r is Retry ==> attempt + 1 < MAX_IDENTITY_ATTEMPTS,
        r is Use ==> !taken,
{
    if !taken {
        IdentityStep::Use(candidate)
    } else if attempt + 1 < MAX_IDENTITY_ATTEMPTS {
        IdentityStep::Retry
    } else {
        IdentityStep::GiveUp(ApiError::Internal(owned("Failed to generate unique Zetra ID")))
    }
}

/// Every generated identifier has the form `ZTR-` followed by seven
/// characters among `A-Z` and `0-9`.
pub proof fn lemma_candidate_form(code: Seq<u8>)
    requires
        code.len() == CODE_LEN,
        forall|i: int| 0 <= i < code.len() ==> is_alphanumeric_byte(#[trigger] code[i]),
    ensures
        candidate_of(code).len() == 11,
        candidate_of(code).subrange(0, 4) == "ZTR-"@,
        forall|i: int|
            4 <= i < 11 ==> ('A' <= #[trigger] candidate_of(code)[i] <= 'Z' || '0'
                <= candidate_of(code)[i] <= '9'),
{
    reveal_strlit("ZTR-");
    let c = candidate_of(code);
    assert(c.subrange(0, 4) =~= "ZTR-"@);
    assert forall|i: int| 4 <= i < 11 implies ('A' <= #[trigger] c[i] <= 'Z' || '0' <= c[i] <= '9') by {
        let b = code[i - 4];
        assert(c[i] == upper_char(b));
    }
}

} // verus!
