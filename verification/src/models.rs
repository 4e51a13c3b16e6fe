//! The records the service stores. Identifiers are UUIDs held as their
//! 128-bit value; times are microseconds since the Unix epoch (UTC).
use vstd::prelude::*;

verus! {

/// A user account as stored, password hash included.
#[derive(Clone, Debug)]
pub struct User {
    pub id: u128,
    pub username: String,
    pub email: String,
    pub password_hash: String,
    pub zetra_id: String,
    pub zetramail: String,
    pub phone: Option<String>,
    pub created_at: i64,
    pub updated_at: i64,
}

/// The part of a user account that may be shown to anyone.
#[derive(Clone, Debug)]
pub struct PublicUser {
    pub id: u128,
    pub username: String,
    pub email: String,
    pub zetra_id: String,
    pub zetramail: String,
    pub phone: Option<String>,
    pub created_at: i64,
}

/// A comment attached to a target.
#[derive(Debug)]
pub struct Comment {
    pub id: u128,
    pub user_id: u128,
    pub target: String,
    pub body: String,
    pub created_at: i64,
    pub updated_at: i64,
}

/// An uploaded media file.
#[derive(Debug)]
pub struct MediaRecord {
    pub id: u128,
    pub user_id: u128,
    pub kind: String,
    pub filename: String,
    pub mime_type: String,
    pub size_bytes: i64,
    pub created_at: i64,
}

/// Paging parameters of a listing.
#[derive(Debug)]
pub struct Pagination {
    pub limit: i64,
    pub offset: i64,
}

/// Default page size of a listing.
pub fn default_limit() -> (r: i64)
    ensures
        r == 50,
{
    50
}

impl Pagination {
    /// The paging of a request that names neither limit nor offset.
    pub fn default_paging() -> (r: Pagination)
        ensures
            r.limit == 50,
            r.offset == 0,
    {
        Pagination { limit: default_limit(), offset: 0 }
    }
}

/// A registered Zetra ecosystem app (NAI, Nigergram, ZTC, etc.)
/// allowed to send messages/verification codes to user inboxes.
#[derive(Clone, Debug)]
pub struct ServiceApp {
    pub id: u128,
    pub name: String,
    pub api_key_hash: String,
    pub created_at: i64,
    pub revoked_at: Option<i64>,
}

/// A message delivered to a user's Zetra inbox — typically a
/// verification code sent from another Zetra app.
#[derive(Debug)]
pub struct Message {
    pub id: u128,
    pub user_id: u128,
    pub from_app: String,
    pub kind: String,
    pub subject: String,
    pub body: String,
    pub code: Option<String>,
    pub read_at: Option<i64>,
    pub created_at: i64,
}

/// Whether `p` shows exactly the public fields of `u`.
pub open spec fn public_view_of(p: PublicUser, u: User) -> bool {
    &&& p.id == u.id
    &&& p.username == u.username
    &&& p.email == u.email
    &&& p.zetra_id == u.zetra_id
    &&& p.zetramail == u.zetramail
    &&& p.phone == u.phone
    &&& p.created_at == u.created_at
}

impl PublicUser {
    /// The public part of a user account: everything but the password hash
    /// and the last update time.
    pub fn from_user(u: User) -> (r: PublicUser)
        ensures
            public_view_of(r, u),
    {
        PublicUser {
            id: u.id,
            username: u.username,
            email: u.email,
            zetra_id: u.zetra_id,
            zetramail: u.zetramail,
            phone: u.phone,
            created_at: u.created_at,
        }
    }
}

impl From<User> for PublicUser {
    fn from(u: User) -> (r: PublicUser) {
        PublicUser::from_user(u)
    }
}

impl vstd::std_specs::convert::FromSpecImpl<User> for PublicUser {
    open spec fn obeys_from_spec() -> bool {
        true
    }

    open spec fn from_spec(u: User) -> PublicUser {
        PublicUser {
            id: u.id,
            username: u.username,
            email: u.email,
            zetra_id: u.zetra_id,
            zetramail: u.zetramail,
            phone: u.phone,
            created_at: u.created_at,
        }
    }
}

} // verus!
