//! The Zetra inbox: messages that registered service apps deliver to
//! users, and the registration of those apps.
use vstd::prelude::*;

use crate::auth::password::{
    hash_password, is_phc, lemma_phc_starts_with_dollar, lemma_utf8_len_bound, password_opens,
    verify_password,
};
use crate::error::{ApiError, ApiResult, DbFailure};
use crate::handlers::auth::insert_error;
use crate::models::{ServiceApp, User};
use crate::text::{hex_digits, is_blank, lemma_hex_digits_len, owned, same_text, trimmed};

verus! {

/// The body of a message delivery request.
#[derive(Debug)]
pub struct SendMessageInput {
    /// Zetra ID, username, ZetraMail, phone, or email of the
    /// recipient user.
    pub identifier: String,
    pub subject: String,
    pub body: String,
    pub code: Option<String>,
    pub kind: String,
}

/// The answer to a message delivery.
#[derive(Debug)]
pub struct SendMessageOutput {
    pub message_id: u128,
    pub delivered_to: String,
}

/// The body of a service app registration.
#[derive(Debug)]
pub struct RegisterServiceAppInput {
    pub name: String,
}

/// The answer to a service app registration.
#[derive(Debug)]
pub struct RegisterServiceAppOutput {
    pub name: String,
    /// Shown once. Store this in the calling app's own secrets —
    /// it cannot be recovered later, only rotated.
    pub api_key: String,
}

/// How many messages an inbox listing returns at most.
pub const INBOX_LIMIT: i64 = 100;

/// The kind of a message whose sender names none.
pub fn default_kind() -> (r: String)
    ensures
        r@ == "verification_code"@,
{
    owned("verification_code")
}

/// The credentials a service app presents: its name and key headers
/// (`None` when absent or not visible ASCII). Both are required.
pub fn service_credentials<'a>(name: Option<&'a str>, key: Option<&'a str>) -> (r: ApiResult<
    (&'a str, &'a str),
>)
    ensures
        (name is None || key is None) ==> r matches Err(ApiError::Unauthorized),
        name is Some && key is Some ==> (r matches Ok(p) && p.0@ == name->Some_0@ && p.1@
            == key->Some_0@),
{
    match (name, key) {
        (Some(n), Some(k)) => Ok((n, k)),
        _ => Err(ApiError::Unauthorized),
    }
}

/// The service app a delivery comes from, given the registered,
/// non-revoked app found under the presented name: an unknown app, or a
/// key that does not match the app's stored hash, is unauthorized.
pub fn check_service_app(found: Option<ServiceApp>, key: &str) -> (r: ApiResult<ServiceApp>)
    ensures
        found is None ==> r matches Err(ApiError::Unauthorized),
        found matches Some(a) ==> (if password_opens(key@, a.api_key_hash@) {
            r == Ok::<ServiceApp, ApiError>(a)
        } else {
            r matches Err(ApiError::Unauthorized)
        }),
{
    match found {
        None => Err(ApiError::Unauthorized),
        Some(a) => {
            if verify_password(key, a.api_key_hash.as_str()) {
                Ok(a)
            } else {
                Err(ApiError::Unauthorized)
            }
        },
    }
}

impl SendMessageInput {
    /// A message must have a subject and a body that are not blank.
    pub fn check(&self) -> (r: ApiResult<()>)
        ensures
            (trimmed(self.subject@).len() == 0 || trimmed(self.body@).len() == 0) ==> (r matches Err(
                ApiError::Validation(m),
            ) && m@ == "subject and body are required"@),
            (trimmed(self.subject@).len() > 0 && trimmed(self.body@).len() > 0) ==> r is Ok,
    {
        if is_blank(self.subject.as_str()) || is_blank(self.body.as_str()) {
            Err(ApiError::Validation(owned("subject and body are required")))
        } else {
            Ok(())
        }
    }
}

/// The receipt of a delivered message: its id and the recipient's Zetra ID.
pub fn delivery_receipt(message_id: u128, recipient: User) -> (r: SendMessageOutput)
    ensures
        r.message_id == message_id,
        r.delivered_to == recipient.zetra_id,
{
    SendMessageOutput { message_id, delivered_to: recipient.zetra_id }
}

/// Whether an admin request may proceed: the service must have an admin
/// key configured (else an internal error), and the request must present
/// exactly that key (else it is unauthorized).
pub fn check_admin_key(expected: Option<&str>, provided: Option<&str>) -> (r: ApiResult<()>)
    ensures
        expected is None ==> (r matches Err(ApiError::Internal(m)) && m@
            == "ADMIN_API_KEY not configured"@),
        expected matches Some(e) ==> match provided {
            None => r matches Err(ApiError::Unauthorized),
            Some(p) => if p@ == e@ {
                r is Ok
            } else {
                r matches Err(ApiError::Unauthorized)
            },
        },
{
    let expected = match expected {
        Some(e) => e,
        None => {
            return Err(ApiError::Internal(owned("ADMIN_API_KEY not configured")));
        },
    };
    match provided {
        None => Err(ApiError::Unauthorized),
        Some(p) => {
            if same_text(p, expected) {
                Ok(())
            } else {
                Err(ApiError::Unauthorized)
            }
        },
    }
}

/// A service app key made from two UUIDs: `zsk_` followed by the 32
/// lower-case hexadecimal digits of each.
pub open spec fn api_key_of(a: u128, b: u128) -> Seq<char> {
    "zsk_"@ + hex_digits(a as nat, 32) + hex_digits(b as nat, 32)
}

/// `Uuid::simple` from the uuid crate, rendered with `to_string`: the 32
/// lower-case hexadecimal digits of the value.
#[verifier::external_body]
fn uuid_simple(v: u128) -> (r: String)
    ensures
        r@ == hex_digits(v as nat, 32),
{
    uuid::Uuid::from_u128(v).simple().to_string()
}

/// The service app key made from the UUIDs `a` and `b`.
pub fn api_key_from(a: u128, b: u128) -> (r: String)
    ensures
        r@ == api_key_of(a, b),
{
    let mut key = owned("zsk_");
    key.append(uuid_simple(a).as_str());
    key.append(uuid_simple(b).as_str());
    key
}

/// The key of a newly registered service app and its stored hash: the key
/// comes from two fresh random UUIDs; the hash verifies it. A failure of
/// the hasher is an internal error.
pub fn new_service_app(input: RegisterServiceAppInput) -> (r: ApiResult<(RegisterServiceAppOutput, String)>)
    ensures
        r is Ok,
        r matches Ok(p) ==> service_app_issued(input.name, p),
{
    let a: u128 = crate::handlers::media::random_uuid();
    let b: u128 = crate::handlers::media::random_uuid();
    let key = api_key_from(a, b);
    proof {
        lemma_api_key_length(a, b);
        lemma_utf8_len_bound(key@);
        reveal_strlit("zsk_");
        assert(key@[0] == "zsk_"@[0]);
    }
    let hash = hash_password(key.as_str())?;
    proof {
        lemma_phc_starts_with_dollar(hash@);
    }
    assert(api_key_of(a, b) == key@);
    Ok((RegisterServiceAppOutput { name: input.name, api_key: key }, hash))
}

/// The error for a service app registration whose insert failed.
pub fn service_app_insert_error(constraint_violated: bool, failure: DbFailure) -> (r: ApiError)
    ensures
        constraint_violated ==> (r matches ApiError::Conflict(m) && m@
            == "an app with that name is already registered"@),
        !constraint_violated ==> r == ApiError::Sqlx(failure),
{
    insert_error(constraint_violated, failure, "an app with that name is already registered")
}

/// Every service app key is `zsk_` followed by 64 hexadecimal digits.
pub proof fn lemma_api_key_length(a: u128, b: u128)
    ensures
        api_key_of(a, b).len() == 68,
        api_key_of(a, b).subrange(0, 4) == "zsk_"@,
{
    reveal_strlit("zsk_");
    lemma_hex_digits_len(a as nat, 32);
    lemma_hex_digits_len(b as nat, 32);
    assert(api_key_of(a, b).subrange(0, 4) =~= "zsk_"@);
}

/// Whether `p` is what `new_service_app` returns for a registration of
/// `name`: the key shown once, and a stored hash that the key opens.
pub open spec fn service_app_issued(name: String, p: (RegisterServiceAppOutput, String)) -> bool {
    &&& p.0.name == name
    &&& exists|a: u128, b: u128| #[trigger] api_key_of(a, b) == p.0.api_key@
    &&& password_opens(p.0.api_key@, p.1@)
    &&& is_phc(p.1@)
    &&& p.1@ != p.0.api_key@
}

/// A service app authenticates with the key it was issued: once its
/// registration is stored, presenting that key passes the check that
/// `check_service_app` makes.
pub proof fn lemma_issued_key_authenticates(
    name: String,
    issued: (RegisterServiceAppOutput, String),
    stored: ServiceApp,
)
    requires
        service_app_issued(name, issued),
        stored.api_key_hash@ == issued.1@,
    ensures
        password_opens(issued.0.api_key@, stored.api_key_hash@),
{
}

} // verus!
