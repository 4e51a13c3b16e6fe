//! Registration, login and token refresh: the decisions of the `/auth`
//! endpoints. The database reads and writes around them are the caller's.
use vstd::prelude::*;

use crate::auth::jwt::{
    claims_at, claims_payload, issue_at, issued_token, lemma_payload_len, max_micros, min_micros,
    seconds_of, timestamp_in_range, ttl_representable, utc_now_micros, MAX_SPAN_SECONDS,
    MIN_TIMESTAMP,
};
use crate::auth::password::{
    hash_password, hash_refresh, is_phc, lemma_phc_starts_with_dollar, lemma_utf8_len_bound,
    password_opens, verify_password,
    MAX_PASSWORD_BYTES,
};
use crate::config::Config;
use crate::error::{ApiError, ApiResult, DbFailure};
use crate::models::{public_view_of, PublicUser, User};
use crate::text::{concat2, lowercased, owned, to_lowercase, trim, trimmed};
use vstd::utf8::{encode_utf8, is_ascii_chars_encode_utf8};
use crate::validation::{
    check_email, check_length, check_min_length, email_params, email_valid, flag, length_params,
    length_within, outcome, report_lines, violations_view, Violation,
};

verus! {

/// The body of a registration request.
#[derive(Debug)]
pub struct RegisterInput {
    pub username: String,
    pub email: String,
    pub password: String,
    pub phone: Option<String>,
}

/// The body of a login request.
#[derive(Debug)]
pub struct LoginInput {
    /// Accepts a Zetra ID (ZT100000001), username, ZetraMail
    /// (name@ztmail.zt), verified phone, or external email — all
    /// resolve to the same account.
    pub identifier: String,
    pub password: String,
}

/// The body of a token refresh request.
#[derive(Debug)]
pub struct RefreshInput {
    pub refresh_token: String,
}

/// The tokens handed to a user who logged in, registered or refreshed.
#[derive(Debug)]
pub struct TokenPair {
    pub access_token: String,
    pub refresh_token: String,
    pub token_type: String,
    pub expires_in: i64,
    pub user: PublicUser,
}

/// A token pair together with what is stored of its refresh token.
#[derive(Debug)]
pub struct IssuedPair {
    pub pair: TokenPair,
    /// The Argon2 hash of the refresh token.
    pub refresh_hash: String,
    /// When the refresh token expires, in microseconds since the Unix epoch.
    pub refresh_expires_at: i64,
}

/// A user account about to be created.
#[derive(Debug)]
pub struct NewUser {
    pub username: String,
    pub email: String,
    pub password_hash: String,
    pub zetramail: String,
    pub phone: Option<String>,
}

/// The rule violations of a registration body: a username of 3 to 32
/// characters, an e-mail address, and a password of 8 to 128 characters.
pub open spec fn register_violations(i: RegisterInput) -> Seq<(Seq<char>, Seq<char>, Seq<char>)> {
    flag(
        !length_within(i.username@, 3, 32),
        "username"@,
        "length"@,
        length_params(3, Some(32), i.username@),
    ) + flag(!email_valid(i.email@), "email"@, "email"@, email_params(i.email@)) + flag(
        !length_within(i.password@, 8, 128),
        "password"@,
        "length"@,
        length_params(8, Some(128), i.password@),
    )
}

/// The rule violations of a login body: neither field may be empty.
pub open spec fn login_violations(i: LoginInput) -> Seq<(Seq<char>, Seq<char>, Seq<char>)> {
    flag(i.identifier@.len() < 1, "identifier"@, "length"@, length_params(1, None, i.identifier@))
        + flag(i.password@.len() < 1, "password"@, "length"@, length_params(1, None, i.password@))
}

/// The ZetraMail address of a user: the lower-cased username at
/// `ztmail.zt`.
pub open spec fn zetramail_of(username: Seq<char>) -> Seq<char> {
    lowercased(username) + "@ztmail.zt"@
}

/// The key under which an account is looked up at login or as a message
/// recipient: the identifier without surrounding white space, lower-cased.
pub open spec fn lookup_key(identifier: Seq<char>) -> Seq<char> {
    lowercased(trimmed(identifier))
}

/// The view of an optional string.
pub open spec fn opt_text(o: Option<String>) -> Option<Seq<char>> {
    match o {
        Some(s) => Some(s@),
        None => None,
    }
}

/// Whether `u` is the account that the registration `input` creates: the
/// body satisfies every rule, the e-mail address is lower-cased, the
/// password is kept only as a hash that it opens, and the ZetraMail address
/// follows from the username.
pub open spec fn registered_from(input: RegisterInput, u: NewUser) -> bool {
    &&& register_violations(input).len() == 0
    &&& u.username@ == input.username@
    &&& u.email@ == lowercased(input.email@)
    &&& u.zetramail@ == zetramail_of(input.username@)
    &&& password_opens(input.password@, u.password_hash@)
    &&& is_phc(u.password_hash@)
    &&& opt_text(u.phone) == opt_text(input.phone)
}

impl RegisterInput {
    /// Checks the registration rules, reporting every field that breaks
    /// one, in field order.
    pub fn validate(&self) -> (r: ApiResult<()>)
        ensures
            register_violations(*self).len() == 0 ==> r is Ok,
            register_violations(*self).len() > 0 ==> (r matches Err(ApiError::Validation(m))
                && m@ == report_lines(register_violations(*self))),
    {
        let mut v: Vec<Violation> = Vec::new();
        check_length(&mut v, "username", self.username.as_str(), 3, 32);
        check_email(&mut v, "email", self.email.as_str());
        check_length(&mut v, "password", self.password.as_str(), 8, 128);
        assert(violations_view(v@) =~= register_violations(*self));
        outcome(v)
    }
}

impl LoginInput {
    /// Checks that neither the identifier nor the password is empty.
    pub fn validate(&self) -> (r: ApiResult<()>)
        ensures
            login_violations(*self).len() == 0 ==> r is Ok,
            login_violations(*self).len() > 0 ==> (r matches Err(ApiError::Validation(m)) && m@
                == report_lines(login_violations(*self))),
    {
        let mut v: Vec<Violation> = Vec::new();
        check_min_length(&mut v, "identifier", self.identifier.as_str(), 1);
        check_min_length(&mut v, "password", self.password.as_str(), 1);
        assert(violations_view(v@) =~= login_violations(*self));
        outcome(v)
    }
}

/// The ZetraMail address for `username`.
pub fn zetramail_for(username: &str) -> (r: String)
    ensures
        r@ == zetramail_of(username@),
{
    let lower = to_lowercase(username);
    concat2(lower.as_str(), "@ztmail.zt")
}

/// The lookup key of a login or recipient identifier.
pub fn normalize_identifier(identifier: &str) -> (r: String)
    ensures
        r@ == lookup_key(identifier@),
{
    to_lowercase(trim(identifier))
}

/// The account to create for a registration: the body is validated first;
/// the e-mail address is stored lower-cased, the password only as its
/// Argon2 hash, and the ZetraMail address is derived from the username.
pub fn prepare_registration(input: &RegisterInput) -> (r: ApiResult<NewUser>)
    ensures
        register_violations(*input).len() > 0 ==> (r matches Err(ApiError::Validation(m)) && m@
            == report_lines(register_violations(*input))),
        register_violations(*input).len() == 0 ==> r is Ok,
        r matches Ok(u) ==> registered_from(*input, u),
        r matches Ok(u) ==> (!is_phc(input.password@) ==> u.password_hash@ != input.password@),
{
    input.validate()?;
    proof {
        lemma_accepted_registration(*input);
        lemma_utf8_len_bound(input.password@);
    }
    let hash = hash_password(input.password.as_str())?;
    let zetramail = zetramail_for(input.username.as_str());
    let phone = match &input.phone {
        Some(p) => Some(owned(p.as_str())),
        None => None,
    };
    Ok(NewUser {
        username: owned(input.username.as_str()),
        email: to_lowercase(input.email.as_str()),
        password_hash: hash,
        zetramail,
        phone,
    })
}

/// The error for a failed insert of a new record: a violated uniqueness
/// constraint is a conflict reported with `conflict_message`; any other
/// database failure is passed on.
pub fn insert_error(constraint_violated: bool, failure: DbFailure, conflict_message: &str) -> (r:
    ApiError)
    ensures
        constraint_violated ==> (r matches ApiError::Conflict(m) && m@ == conflict_message@),
        !constraint_violated ==> r == ApiError::Sqlx(failure),
{
    if constraint_violated {
        ApiError::Conflict(owned(conflict_message))
    } else {
        ApiError::Sqlx(failure)
    }
}

/// The error for a registration whose insert failed.
pub fn registration_insert_error(constraint_violated: bool, failure: DbFailure) -> (r: ApiError)
    ensures
        constraint_violated ==> (r matches ApiError::Conflict(m) && m@
            == "username, email, phone, or ZetraMail already in use"@),
        !constraint_violated ==> r == ApiError::Sqlx(failure),
{
    insert_error(constraint_violated, failure, "username, email, phone, or ZetraMail already in use")
}

/// The outcome of a login, given the account the identifier resolved to:
/// no account, or a password that does not match its hash, is unauthorized.
pub fn check_login(account: Option<User>, password: &str) -> (r: ApiResult<User>)
    ensures
        account is None ==> r matches Err(ApiError::Unauthorized),
        account matches Some(u) ==> (if password_opens(password@, u.password_hash@) {
            r == Ok::<User, ApiError>(u)
        } else {
            r matches Err(ApiError::Unauthorized)
        }),
{
    match account {
        None => Err(ApiError::Unauthorized),
        Some(u) => {
            if verify_password(password, u.password_hash.as_str()) {
                Ok(u)
            } else {
                Err(ApiError::Unauthorized)
            }
        },
    }
}

/// The account a refresh is for: a token whose user no longer exists is
/// unauthorized.
pub fn refresh_account(account: Option<User>) -> (r: ApiResult<User>)
    ensures
        account is None ==> r matches Err(ApiError::Unauthorized),
        account matches Some(u) ==> r == Ok::<User, ApiError>(u),
{
    match account {
        None => Err(ApiError::Unauthorized),
        Some(u) => Ok(u),
    }
}

/// Whether `token` opens one of the stored hashes `live`.
pub open spec fn opens_some(token: Seq<char>, live: Seq<String>) -> bool {
    exists|i: int| 0 <= i < live.len() && password_opens(token, #[trigger] live[i]@)
}

/// The rotation check of a refresh, given the stored hashes of its user's
/// refresh tokens that are neither revoked nor expired: the presented token
/// must open one of them. A token that an earlier refresh revoked, or that
/// was never stored, is unauthorized.
pub fn require_live_refresh(token: &str, live: &Vec<String>) -> (r: ApiResult<()>)
    ensures
        r is Ok <==> opens_some(token@, live@),
        r matches Err(e) ==> e is Unauthorized,
{
    let n: usize = live.len();
    let mut i: usize = 0;
    while i < n
        invariant
            n == live@.len(),
            i <= n,
            forall|j: int| 0 <= j < i ==> !password_opens(token@, #[trigger] live@[j]@),
        decreases n - i,
    {
        if verify_password(token, live[i].as_str()) {
            return Ok(());
        }
        i = i + 1;
    }
    Err(ApiError::Unauthorized)
}

/// A stored refresh token: its user, the hash of the token, whether a
/// refresh has revoked it, and when it expires (microseconds since the Unix
/// epoch).
pub struct RefreshRecord {
    pub user_id: u128,
    pub token_hash: String,
    pub revoked: bool,
    pub expires_at: i64,
}

/// Whether `r` is a live refresh token of `user` at `now`: neither revoked
/// nor expired.
pub open spec fn live_for(r: RefreshRecord, user: u128, now: int) -> bool {
    r.user_id == user && !r.revoked && now < r.expires_at
}

/// Whether every hash in `live` is that of a live refresh token of `user`
/// among `records` at `now` (what the store hands a refresh to check).
pub open spec fn drawn_from_live(live: Seq<String>, records: Seq<RefreshRecord>, user: u128, now: int) -> bool {
    forall|j: int|
        0 <= j < live.len() ==> exists|i: int|
            0 <= i < records.len() && live_for(#[trigger] records[i], user, now) && records[i].token_hash@
                == (#[trigger] live[j])@
}

/// The store after a refresh of `user` rotated its tokens: every token of
/// that user is revoked, and the newly issued one is added.
pub open spec fn rotated(records: Seq<RefreshRecord>, user: u128, new: RefreshRecord) -> Seq<RefreshRecord> {
    records.map_values(
        |r: RefreshRecord|
            if r.user_id == user {
                RefreshRecord { revoked: true, ..r }
            } else {
                r
            },
    ).push(new)
}

/// A rotated-out refresh token cannot be used again: once a refresh of
/// `user` has rotated its tokens, the rotation check of a later refresh
/// accepts only a token that opens the hash stored by that rotation, so
/// every token the user held before is refused unless it opens the new
/// hash (as it does where the new token is the same text).
pub proof fn lemma_rotated_refresh_refused(
    records: Seq<RefreshRecord>,
    user: u128,
    new: RefreshRecord,
    live: Seq<String>,
    token: Seq<char>,
    now: int,
)
    requires
        new.user_id == user,
        drawn_from_live(live, rotated(records, user, new), user, now),
        opens_some(token, live),
    ensures
        password_opens(token, new.token_hash@),
        now < new.expires_at,
{
    let after = rotated(records, user, new);
    let j = choose|j: int| 0 <= j < live.len() && password_opens(token, #[trigger] live[j]@);
    let i = choose|i: int|
        0 <= i < after.len() && live_for(#[trigger] after[i], user, now) && after[i].token_hash@
            == live[j]@;
    if i < records.len() {
        assert(after[i] == (if records[i].user_id == user {
            RefreshRecord { revoked: true, ..records[i] }
        } else {
            records[i]
        }));
    }
}

/// Whether the lookup key `key` names the account `u`, as the account
/// query tests it: it is the lower-cased Zetra ID, username, ZetraMail
/// address or e-mail address of the account, or its phone number as
/// stored.
pub open spec fn identifies(key: Seq<char>, u: User) -> bool {
    ||| key == lowercased(u.zetra_id@)
    ||| key == lowercased(u.username@)
    ||| key == lowercased(u.zetramail@)
    ||| key == lowercased(u.email@)
    ||| (u.phone matches Some(p) && key == p@)
}

/// Every identifier form reaches the account: a login identifier that is,
/// up to surrounding white space and letter case, the account's Zetra ID,
/// username, ZetraMail address or e-mail address, or that is its phone
/// number up to surrounding white space (and unchanged by lower-casing),
/// has a lookup key that names the account. The account found is then
/// handed to `check_login`, which accepts it with its password.
pub proof fn lemma_identifier_forms_reach_account(u: User, identifier: Seq<char>)
    requires
        lowercased(trimmed(identifier)) == lowercased(u.zetra_id@) || lowercased(trimmed(identifier))
            == lowercased(u.username@) || lowercased(trimmed(identifier)) == lowercased(
            u.zetramail@,
        ) || lowercased(trimmed(identifier)) == lowercased(u.email@) || (u.phone matches Some(p)
            && lowercased(trimmed(identifier)) == p@),
    ensures
        identifies(lookup_key(identifier), u),
{
}

/// Whether the configured token lifetimes are time spans the clock
/// arithmetic can represent (access lifetime in minutes, refresh lifetime in
/// days).
pub open spec fn lifetimes_representable(cfg: Config) -> bool {
    &&& ttl_representable(cfg.jwt_access_ttl_minutes)
    &&& -MAX_SPAN_SECONDS <= cfg.jwt_refresh_ttl_days * 86400 <= MAX_SPAN_SECONDS
}

/// Whether the configured token lifetimes are representable.
pub fn lifetimes_ok(cfg: &Config) -> (r: bool)
    ensures
        r == lifetimes_representable(*cfg),
{
    let a: i64 = cfg.jwt_access_ttl_minutes;
    let d: i64 = cfg.jwt_refresh_ttl_days;
    -153722867280912 <= a && a <= 153722867280912 && -106751991167 <= d && d <= 106751991167
}

/// Whether the clock readings leave every expiry of a token pair within
/// the range of UTC date-times: that of the access token issued at
/// `now_access`, that of the refresh token issued at `now_refresh` (both in
/// seconds), and the stored expiry of the refresh token counted from
/// `now_micros` (in microseconds).
pub open spec fn pair_expiries_in_range(cfg: Config, now_access: int, now_refresh: int, now_micros: int) -> bool {
    &&& timestamp_in_range(now_access + cfg.jwt_access_ttl_minutes * 60)
    &&& timestamp_in_range(now_refresh + cfg.jwt_refresh_ttl_days * 86400)
    &&& min_micros() <= now_micros + cfg.jwt_refresh_ttl_days * 86_400_000_000 <= max_micros()
}

/// Whether `p` is the token pair issued to `user` under `cfg` when the
/// clock read `now_access` for the access token, `now_refresh` for the
/// refresh token and `now_micros` for the stored expiry: each token is the
/// one `issue_at` makes for that reading, the refresh token is stored only
/// as an Argon2 hash that it opens, the pair is of type `Bearer`, its
/// `expires_in` is the access lifetime in seconds and its user the public
/// view of `user`, and the stored expiry lies the refresh lifetime after
/// `now_micros`.
pub open spec fn pair_issued(
    cfg: Config,
    user: User,
    p: IssuedPair,
    now_access: i64,
    now_refresh: i64,
    now_micros: i64,
) -> bool {
    &&& issued_token(
        p.pair.access_token@,
        cfg.jwt_secret@,
        user.id,
        now_access,
        cfg.jwt_access_ttl_minutes,
        "access"@,
    )
    &&& issued_token(
        p.pair.refresh_token@,
        cfg.jwt_secret@,
        user.id,
        now_refresh,
        (cfg.jwt_refresh_ttl_days * 1440) as i64,
        "refresh"@,
    )
    &&& password_opens(p.pair.refresh_token@, p.refresh_hash@)
    &&& is_phc(p.refresh_hash@)
    &&& p.refresh_hash@ != p.pair.refresh_token@
    &&& p.pair.token_type@ == "Bearer"@
    &&& p.pair.expires_in == cfg.jwt_access_ttl_minutes * 60
    &&& public_view_of(p.pair.user, user)
    &&& p.refresh_expires_at == now_micros + cfg.jwt_refresh_ttl_days * 86_400_000_000
}

/// Issues an access and a refresh token for `user` as if the clock read
/// `now_access` (seconds) for the first, `now_refresh` (seconds) for the
/// second and `now_micros` (microseconds) for the stored expiry: the access
/// token lives `jwt_access_ttl_minutes`, the refresh token
/// `jwt_refresh_ttl_days` days, and the refresh token is stored as its
/// hash, expiring that many days after `now_micros`. An expiry past the
/// range of UTC date-times is an internal error.
pub fn issue_pair_at(
    cfg: &Config,
    user: User,
    now_access: i64,
    now_refresh: i64,
    now_micros: i64,
) -> (r: ApiResult<IssuedPair>)
    requires
        lifetimes_representable(*cfg),
        timestamp_in_range(now_access as int),
        timestamp_in_range(now_refresh as int),
        min_micros() <= now_micros <= max_micros(),
    ensures
        r is Ok <==> pair_expiries_in_range(
            *cfg,
            now_access as int,
            now_refresh as int,
            now_micros as int,
        ),
        r matches Err(e) ==> e is Internal,
        r matches Ok(p) ==> pair_issued(*cfg, user, p, now_access, now_refresh, now_micros),
{
    let secret = cfg.jwt_secret.as_str();
    let access = issue_at(secret, user.id, cfg.jwt_access_ttl_minutes, "access", now_access)?;
    let refresh_minutes: i64 = cfg.jwt_refresh_ttl_days * 24 * 60;
    let refresh = issue_at(secret, user.id, refresh_minutes, "refresh", now_refresh)?;
    proof {
        let c = claims_at(user.id, now_refresh, refresh_minutes, "refresh"@);
        let payload = claims_payload(c);
        reveal_strlit("refresh");
        lemma_payload_len(c);
        lemma_utf8_len_bound(payload);
        is_ascii_chars_encode_utf8(refresh@);
        reveal_strlit("eyJ0eXAiOiJKV1QiLCJhbGciOiJIUzI1NiJ9");
        assert(refresh@[0] == refresh@.subrange(0, 36)[0]);
        assert(encode_utf8(refresh@).len() <= MAX_PASSWORD_BYTES);
    }
    let hash = hash_refresh(refresh.as_str());
    proof {
        lemma_phc_starts_with_dollar(hash@);
    }
    let expires: i128 = now_micros as i128 + cfg.jwt_refresh_ttl_days as i128 * 86_400_000_000;
    if expires < -8334601315200000000 || expires > 8210266876799999999 {
        return Err(ApiError::Internal(owned("refresh expiry out of range")));
    }
    let expires_at: i64 = expires as i64;
    let pair = TokenPair {
        access_token: access,
        refresh_token: refresh,
        token_type: owned("Bearer"),
        expires_in: cfg.jwt_access_ttl_minutes * 60,
        user: PublicUser::from_user(user),
    };
    Ok(IssuedPair { pair, refresh_hash: hash, refresh_expires_at: expires_at })
}

/// Issues an access and a refresh token for `user` at the current time
/// (see `issue_pair_at`): the clock is read once for each token and once
/// for the stored expiry. Lifetimes between the earliest timestamp and zero
/// are issued whatever the clock reads.
pub fn issue_pair(cfg: &Config, user: User) -> (r: ApiResult<IssuedPair>)
    requires
        lifetimes_representable(*cfg),
    ensures
        r matches Ok(p) ==> exists|now_access: i64, now_refresh: i64, now_micros: i64|
            0 <= now_access && 0 <= now_refresh && 0 <= now_micros && timestamp_in_range(
                now_access as int,
            ) && timestamp_in_range(now_refresh as int) && #[trigger] pair_issued(
                *cfg,
                user,
                p,
                now_access,
                now_refresh,
                now_micros,
            ),
        r matches Err(e) ==> e is Internal,
        (MIN_TIMESTAMP <= cfg.jwt_access_ttl_minutes * 60 <= 0 && MIN_TIMESTAMP
            <= cfg.jwt_refresh_ttl_days * 86400 <= 0) ==> r is Ok,
{
    let now_access: i64 = seconds_of(utc_now_micros());
    let now_refresh: i64 = seconds_of(utc_now_micros());
    let now_micros: i64 = utc_now_micros();
    let ghost u = user;
    let r = issue_pair_at(cfg, user, now_access, now_refresh, now_micros);
    proof {
        if r is Ok {
            let p = r->Ok_0;
            assert(pair_issued(*cfg, u, p, now_access, now_refresh, now_micros));
        }
    }
    r
}

/// The stored ZetraMail address always lies in the `ztmail.zt` domain.
pub proof fn lemma_zetramail_domain(username: Seq<char>)
    ensures
        zetramail_of(username).len() >= 10,
        zetramail_of(username).subrange(
            zetramail_of(username).len() - 10,
            zetramail_of(username).len() as int,
        ) == "@ztmail.zt"@,
{
    reveal_strlit("@ztmail.zt");
    let z = zetramail_of(username);
    assert(z.subrange(z.len() - 10, z.len() as int) =~= "@ztmail.zt"@);
}

/// A registration that is accepted satisfies every field rule: the
/// username and password lengths are within bounds and the e-mail address
/// is valid.
pub proof fn lemma_accepted_registration(i: RegisterInput)
    requires
        register_violations(i).len() == 0,
    ensures
        3 <= i.username@.len() <= 32,
        email_valid(i.email@),
        8 <= i.password@.len() <= 128,
{
    if !length_within(i.username@, 3, 32) {
        assert(flag(
            !length_within(i.username@, 3, 32),
            "username"@,
            "length"@,
            length_params(3, Some(32), i.username@),
        ).len() == 1);
    }
    if !email_valid(i.email@) {
        assert(flag(!email_valid(i.email@), "email"@, "email"@, email_params(i.email@)).len() == 1);
    }
    if !length_within(i.password@, 8, 128) {
        assert(flag(
            !length_within(i.password@, 8, 128),
            "password"@,
            "length"@,
            length_params(8, Some(128), i.password@),
        ).len() == 1);
    }
}

/// A registration body breaks no rule exactly when its username has 3 to
/// 32 characters, its e-mail address is valid and its password has 8 to
/// 128 characters.
pub proof fn lemma_registration_rules(i: RegisterInput)
    ensures
        register_violations(i).len() == 0 <==> (3 <= i.username@.len() <= 32 && email_valid(
            i.email@,
        ) && 8 <= i.password@.len() <= 128),
{
    if register_violations(i).len() == 0 {
        lemma_accepted_registration(i);
    }
}

/// A login body is refused before any lookup only for an empty identifier
/// or an empty password: identifiers of any length are looked up.
pub proof fn lemma_login_rules(i: LoginInput)
    ensures
        login_violations(i).len() == 0 <==> (i.identifier@.len() >= 1 && i.password@.len() >= 1),
{
}

/// A registered account opens with the password it was registered with:
/// once the prepared account is stored, a login that resolves to it with
/// the same password is accepted (the condition under which `check_login`
/// returns the account).
pub proof fn lemma_registered_password_logs_in(
    input: RegisterInput,
    created: NewUser,
    stored: User,
    password: Seq<char>,
)
    requires
        registered_from(input, created),
        stored.password_hash@ == created.password_hash@,
        password == input.password@,
    ensures
        password_opens(password, stored.password_hash@),
{
}

} // verus!
