//! Access and refresh tokens: HS256-signed JWTs whose claims are the user,
//! the issue and expiry times, and the token's kind.
use vstd::prelude::*;

use crate::error::{ApiError, ApiResult};
use crate::text::{
    decimal, hex_char, hex_digits, lemma_decimal_len, lemma_hex_digits_len, owned, pow10, push_char,
    usize_to_decimal,
};
use crate::auth::payload::lemma_payload_determines_claims;
use vstd::utf8::{encode_utf8, is_ascii_chars};

verus! {

/// The largest timestamp (seconds since the Unix epoch) of a UTC date-time:
/// the last second of the year 262142.
pub const MAX_TIMESTAMP: i64 = 8210266876799;

/// The smallest timestamp of a UTC date-time: the first second of the year
/// -262143.
pub const MIN_TIMESTAMP: i64 = -8334601315200;

/// The largest number of whole seconds a time span may hold
/// (`i64::MAX` milliseconds).
pub const MAX_SPAN_SECONDS: i64 = 9223372036854775;

/// The claims carried by a token.
#[derive(Debug)]
pub struct Claims {
    /// The user the token was issued to.
    pub sub: u128,
    /// Expiry, in seconds since the Unix epoch.
    pub exp: usize,
    /// Issue time, in seconds since the Unix epoch.
    pub iat: usize,
    /// `"access"` or `"refresh"`.
    pub typ: String,
}

/// The mathematical content of a set of claims.
pub struct ClaimsView {
    pub sub: u128,
    pub exp: usize,
    pub iat: usize,
    pub typ: Seq<char>,
}

impl View for Claims {
    type V = ClaimsView;

    open spec fn view(&self) -> ClaimsView {
        ClaimsView { sub: self.sub, exp: self.exp, iat: self.iat, typ: self.typ@ }
    }
}

/// The canonical text of a UUID: 32 lower-case hexadecimal digits of the
/// 128-bit value, most significant first, grouped 8-4-4-4-12 by hyphens.
pub open spec fn hyphenated(v: u128) -> Seq<char> {
    let h = hex_digits(v as nat, 32);
    h.subrange(0, 8) + seq!['-'] + h.subrange(8, 12) + seq!['-'] + h.subrange(12, 16) + seq![
        '-',
    ] + h.subrange(16, 20) + seq!['-'] + h.subrange(20, 32)
}

/// How one character is written inside a JSON string.
pub open spec fn json_escape_char(c: char) -> Seq<char> {
    if c == '"' {
        seq!['\\', '"']
    } else if c == '\\' {
        seq!['\\', '\\']
    } else if c == '\u{8}' {
        seq!['\\', 'b']
    } else if c == '\u{c}' {
        seq!['\\', 'f']
    } else if c == '\n' {
        seq!['\\', 'n']
    } else if c == '\r' {
        seq!['\\', 'r']
    } else if c == '\t' {
        seq!['\\', 't']
    } else if (c as u32) < 0x20 {
        seq!['\\', 'u', '0', '0', hex_char((c as u32 / 16) as nat), hex_char((c as u32 % 16) as nat)]
    } else {
        seq![c]
    }
}

/// The escaped body of a JSON string.
pub open spec fn json_escape(s: Seq<char>) -> Seq<char>
    decreases s.len(),
{
    if s.len() == 0 {
        seq![]
    } else {
        json_escape(s.drop_last()) + json_escape_char(s.last())
    }
}

/// A JSON string literal holding `s`.
pub open spec fn json_string(s: Seq<char>) -> Seq<char> {
    seq!['"'] + json_escape(s) + seq!['"']
}

/// The JSON payload of a token: the claims as an object with the keys
/// `sub`, `exp`, `iat` and `typ`, in that order, without white space.
pub open spec fn claims_payload(c: ClaimsView) -> Seq<char> {
    "{\"sub\":\""@ + hyphenated(c.sub) + "\",\"exp\":"@ + decimal(c.exp as nat) + ",\"iat\":"@
        + decimal(c.iat as nat) + ",\"typ\":"@ + json_string(c.typ) + "}"@
}

/// The compact HS256 JSON Web Token that signs `payload` (a JSON text) with
/// the secret `secret`, under the default header `{"typ":"JWT","alg":"HS256"}`.
pub uninterp spec fn hs256_token(secret: Seq<char>, payload: Seq<char>) -> Seq<char>;

/// What `jsonwebtoken::decode` reads from `token` under the secret `secret`
/// with the default validation, except that no claim is required, the
/// expiry is not compared with the clock, and the audience is checked only
/// where `check_audience` holds: the JSON text of the payload, or `None`
/// where the token is refused.
pub uninterp spec fn hs256_payload(secret: Seq<char>, token: Seq<char>, check_audience: bool) -> Option<
    Seq<char>,
>;

/// The claims of a token issued at `now` that lives `ttl_minutes`, for `user_id`
/// and of kind `typ`. Timestamps are stored as `usize`, as the JWT
/// library reads them.
pub open spec fn claims_at(user_id: u128, now: i64, ttl_minutes: i64, typ: Seq<char>) -> ClaimsView {
    ClaimsView {
        sub: user_id,
        exp: (now + ttl_minutes * 60) as usize,
        iat: now as usize,
        typ,
    }
}

/// The first part of every token: the default header
/// `{"typ":"JWT","alg":"HS256"}` in unpadded URL-safe base64.
pub open spec fn encoded_header() -> Seq<char> {
    "eyJ0eXAiOiJKV1QiLCJhbGciOiJIUzI1NiJ9"@
}

/// The length of an HS256 token whose JSON payload is `n` bytes long: the
/// encoded header (36 characters), a dot, the payload in unpadded base64,
/// a dot, and the 32-byte signature in unpadded base64 (43 characters).
pub open spec fn hs256_token_len(n: nat) -> nat {
    81 + (4 * n + 2) / 3
}

/// Whether `t` has the shape of an HS256 token over the JSON text
/// `payload`: ASCII only, of the length its parts give, and starting with
/// the encoded default header.
pub open spec fn hs256_shaped(t: Seq<char>, payload: Seq<char>) -> bool {
    &&& is_ascii_chars(t)
    &&& t.len() == hs256_token_len(encode_utf8(payload).len())
    &&& t.subrange(0, 36) == encoded_header()
}

/// Whether `t` is the token that `issue_at` makes when the clock reads
/// `now`: signed with `secret`, for `user_id`, of kind `typ`, expiring
/// `ttl_minutes` later, and read back under the same secret as exactly the
/// payload it signs.
pub open spec fn issued_token(
    t: Seq<char>,
    secret: Seq<char>,
    user_id: u128,
    now: i64,
    ttl_minutes: i64,
    typ: Seq<char>,
) -> bool {
    let payload = claims_payload(claims_at(user_id, now, ttl_minutes, typ));
    &&& timestamp_in_range(now + ttl_minutes * 60)
    &&& t == hs256_token(secret, payload)
    &&& hs256_payload(secret, t, false) == Some(payload)
    &&& hs256_payload(secret, t, true) == Some(payload)
    &&& hs256_shaped(t, payload)
}

/// Whether `t` is a token that some reading `now` of the clock (at or after
/// the Unix epoch) makes `issue_at` produce.
pub open spec fn is_token_for(t: Seq<char>, secret: Seq<char>, user_id: u128, ttl_minutes: i64, typ: Seq<char>) -> bool {
    exists|now: i64|
        #![trigger claims_at(user_id, now, ttl_minutes, typ)]
        0 <= now && timestamp_in_range(now as int) && issued_token(
            t,
            secret,
            user_id,
            now,
            ttl_minutes,
            typ,
        )
}

/// Whether a lifetime in minutes is a time span the clock arithmetic can
/// represent.
pub open spec fn ttl_representable(ttl_minutes: i64) -> bool {
    -MAX_SPAN_SECONDS <= ttl_minutes * 60 <= MAX_SPAN_SECONDS
}

/// Whether `t` is the timestamp of some UTC date-time.
pub open spec fn timestamp_in_range(t: int) -> bool {
    MIN_TIMESTAMP <= t <= MAX_TIMESTAMP
}

/// `Uuid::hyphenated` from the uuid crate, rendered with `to_string`.
#[verifier::external_body]
pub(crate) fn uuid_hyphenated(v: u128) -> (r: String)
    ensures
        r@ == hyphenated(v),
{
    uuid::Uuid::from_u128(v).hyphenated().to_string()
}

/// The smallest microsecond timestamp of a UTC date-time.
pub open spec fn min_micros() -> int {
    MIN_TIMESTAMP * 1_000_000
}

/// The largest microsecond timestamp of a UTC date-time.
pub open spec fn max_micros() -> int {
    MAX_TIMESTAMP * 1_000_000 + 999_999
}

/// `chrono::Utc::now`, as microseconds since the Unix epoch
/// (`timestamp_micros`). It reads the system clock, which it requires to be
/// at or after the epoch, and every UTC date-time chrono can hold lies
/// within range; which one comes back depends on the clock.
#[verifier::external_body]
pub(crate) fn utc_now_micros() -> (r: i64)
    ensures
        0 <= r <= max_micros(),
{
    chrono::Utc::now().timestamp_micros()
}

/// The whole seconds of a microsecond timestamp (rounded down).
pub fn seconds_of(micros: i64) -> (r: i64)
    requires
        min_micros() <= micros <= max_micros(),
    ensures
        r == micros as int / 1_000_000,
        timestamp_in_range(r as int),
{
    if micros >= 0 {
        micros / 1_000_000
    } else {
        let m: i64 = -micros;
        let q: i64 = (m + 999_999) / 1_000_000;
        assert(-q == micros as int / 1_000_000) by (nonlinear_arith)
            requires
                m == -micros,
                micros < 0,
                q == (m + 999_999) / 1_000_000,
        ;
        -q
    }
}

/// `jsonwebtoken::encode` under the default header with an HMAC key made
/// from `secret`, signing the JSON text `payload` verbatim (as a
/// `serde_json` raw value). The token is `hs256_token` of the secret and the
/// payload. A payload that is the JSON text of some claims is valid JSON,
/// and HMAC signing cannot fail, so such a payload is always signed; the
/// token then has the shape its parts give, and `jsonwebtoken::decode`
/// under the same secret reads back exactly that payload, with or without
/// the audience check (the payload carries no `aud` claim).
#[verifier::external_body]
fn sign_hs256(secret: &str, payload: String) -> (r: Result<String, String>)
    ensures
        r matches Ok(t) ==> t@ == hs256_token(secret@, payload@),
        (exists|c: ClaimsView| #[trigger] claims_payload(c) == payload@) ==> r is Ok,
        (exists|c: ClaimsView| #[trigger] claims_payload(c) == payload@) ==> (r matches Ok(t)
            ==> hs256_payload(secret@, t@, false) == Some(payload@) && hs256_payload(
            secret@,
            t@,
            true,
        ) == Some(payload@) && hs256_shaped(t@, payload@)),
{
    let raw = serde_json::value::RawValue::from_string(payload).map_err(|e| e.to_string())?;
    let key = jsonwebtoken::EncodingKey::from_secret(secret.as_bytes());
    jsonwebtoken::encode(&jsonwebtoken::Header::default(), &raw, &key).map_err(|e| e.to_string())
}

/// `jsonwebtoken::decode` with an HMAC key made from `secret` and the
/// default validation (HS256 only) except that no claim is required, the
/// expiry is not compared with the clock, and the audience is checked only
/// where `check_audience` holds: the payload is taken as a `serde_json` raw
/// value and handed back as its JSON text.
#[verifier::external_body]
fn decode_hs256(secret: &str, token: &str, check_audience: bool) -> (r: Result<String, String>)
    ensures
        r matches Ok(p) ==> hs256_payload(secret@, token@, check_audience) == Some(p@),
        r is Err <==> hs256_payload(secret@, token@, check_audience) is None,
{
    let mut validation = jsonwebtoken::Validation::default();
    validation.set_required_spec_claims::<&str>(&[]);
    validation.validate_exp = false;
    validation.validate_aud = check_audience;
    let key = jsonwebtoken::DecodingKey::from_secret(secret.as_bytes());
    match jsonwebtoken::decode::<Box<serde_json::value::RawValue>>(token, &key, &validation) {
        Ok(data) => Ok(data.claims.get().to_string()),
        Err(e) => Err(e.to_string()),
    }
}

/// The lower-case hexadecimal digit for `d`.
fn hex_digit(d: u32) -> (r: char)
    requires
        d < 16,
    ensures
        r == hex_char(d as nat),
{
    let digits = ['0', '1', '2', '3', '4', '5', '6', '7', '8', '9', 'a', 'b', 'c', 'd', 'e', 'f'];
    assert(digits@ =~= seq!['0', '1', '2', '3', '4', '5', '6', '7', '8', '9', 'a', 'b', 'c', 'd', 'e', 'f']);
    digits[d as usize]
}

/// Appends the JSON form of `c` to `out`.
fn push_escaped(out: &mut String, c: char)
    ensures
        final(out)@ == old(out)@ + json_escape_char(c),
{
    if c == '"' {
        push_char(out, '\\');
        push_char(out, '"');
    } else if c == '\\' {
        push_char(out, '\\');
        push_char(out, '\\');
    } else if c == '\u{8}' {
        push_char(out, '\\');
        push_char(out, 'b');
    } else if c == '\u{c}' {
        push_char(out, '\\');
        push_char(out, 'f');
    } else if c == '\n' {
        push_char(out, '\\');
        push_char(out, 'n');
    } else if c == '\r' {
        push_char(out, '\\');
        push_char(out, 'r');
    } else if c == '\t' {
        push_char(out, '\\');
        push_char(out, 't');
    } else if (c as u32) < 0x20 {
        let v: u32 = c as u32;
        push_char(out, '\\');
        push_char(out, 'u');
        push_char(out, '0');
        push_char(out, '0');
        push_char(out, hex_digit(v / 16));
        push_char(out, hex_digit(v % 16));
    } else {
        push_char(out, c);
    }
    assert(final(out)@ =~= old(out)@ + json_escape_char(c));
}

/// `s` as a JSON string literal, escaped the way `serde_json` writes it.
pub fn to_json_string(s: &str) -> (r: String)
    ensures
        r@ == json_string(s@),
{
    let mut out = owned("\"");
    proof {
        reveal_strlit("\"");
    }
    let n: usize = s.unicode_len();
    let mut i: usize = 0;
    while i < n
        invariant
            n == s@.len(),
            i <= n,
            out@ == seq!['"'] + json_escape(s@.subrange(0, i as int)),
        decreases n - i,
    {
        let c = s.get_char(i);
        let ghost before = out@;
        push_escaped(&mut out, c);
        proof {
            let t = s@.subrange(0, i as int + 1);
            assert(t.drop_last() =~= s@.subrange(0, i as int));
            assert(t.last() == c);
            assert(json_escape(t) == json_escape(t.drop_last()) + json_escape_char(c));
            assert(out@ =~= seq!['"'] + json_escape(t));
        }
        i = i + 1;
    }
    push_char(&mut out, '"');
    assert(s@.subrange(0, n as int) =~= s@);
    assert(out@ =~= json_string(s@));
    out
}

/// The JSON payload of a token carrying `claims`.
pub fn claims_json(claims: &Claims) -> (r: String)
    ensures
        r@ == claims_payload(claims@),
{
    let mut out = owned("{\"sub\":\"");
    out.append(uuid_hyphenated(claims.sub).as_str());
    out.append("\",\"exp\":");
    out.append(usize_to_decimal(claims.exp).as_str());
    out.append(",\"iat\":");
    out.append(usize_to_decimal(claims.iat).as_str());
    out.append(",\"typ\":");
    out.append(to_json_string(claims.typ.as_str()).as_str());
    out.append("}");
    out
}

/// Issues a token for `user_id` of kind `typ` that lives `ttl_minutes`,
/// as if the clock read `now` (seconds since the Unix epoch). An expiry
/// past the range of UTC date-times is refused as an internal error.
pub fn issue_at(secret: &str, user_id: u128, ttl_minutes: i64, typ: &str, now: i64) -> (r: ApiResult<
    String,
>)
    requires
        ttl_representable(ttl_minutes),
        timestamp_in_range(now as int),
    ensures
        r is Ok <==> timestamp_in_range(now + ttl_minutes * 60),
        r matches Err(e) ==> e is Internal,
        r matches Ok(t) ==> issued_token(t@, secret@, user_id, now, ttl_minutes, typ@),
{
    let expires: i64 = now + ttl_minutes * 60;
    if expires < MIN_TIMESTAMP || expires > MAX_TIMESTAMP {
        return Err(ApiError::Internal(owned("token expiry out of range")));
    }
    let claims = Claims { sub: user_id, exp: expires as usize, iat: now as usize, typ: owned(typ) };
    let payload = claims_json(&claims);
    assert(claims@ == claims_at(user_id, now, ttl_minutes, typ@));
    match sign_hs256(secret, payload) {
        Ok(t) => Ok(t),
        Err(m) => Err(ApiError::Jwt(m)),
    }
}

/// Issues a token for `user_id` of kind `typ` (`"access"` or `"refresh"`)
/// that expires `ttl_minutes` after the current time. A lifetime between
/// the earliest timestamp and zero is issued whatever the clock reads; a
/// longer one fails only where its expiry falls past the last UTC
/// date-time.
pub fn issue(secret: &str, user_id: u128, ttl_minutes: i64, typ: &str) -> (r: ApiResult<String>)
    requires
        ttl_representable(ttl_minutes),
    ensures
        r matches Ok(t) ==> is_token_for(t@, secret@, user_id, ttl_minutes, typ@),
        r matches Err(e) ==> e is Internal,
        MIN_TIMESTAMP <= ttl_minutes * 60 <= 0 ==> r is Ok,
{
    let now: i64 = seconds_of(utc_now_micros());
    let r = issue_at(secret, user_id, ttl_minutes, typ, now);
    let ghost issued = claims_at(user_id, now, ttl_minutes, typ@);
    r
}

/// The leeway, in seconds, that the expiry check grants past a token's
/// expiry.
pub const EXPIRY_LEEWAY: i64 = 60;

/// Whether a token expiring at `exp` is refused as expired when the clock
/// reads `now`: the expiry lies more than the leeway in the past.
pub open spec fn expired_at(exp: usize, now: int) -> bool {
    (exp as int) < now - EXPIRY_LEEWAY
}

/// Checks the signature and header of `token` under `secret` and reads
/// its payload, the JSON text of its claims. A refused token is a token
/// error. The claims are checked afterwards, once they are parsed: first
/// the expiry (`check_expiry`), then the audience (`check_audience`).
pub fn verify_token(secret: &str, token: &str) -> (r: ApiResult<String>)
    ensures
        r matches Ok(p) ==> hs256_payload(secret@, token@, false) == Some(p@),
        r matches Err(e) ==> e is Jwt && hs256_payload(secret@, token@, false) is None,
        hs256_payload(secret@, token@, false) is Some ==> r is Ok,
{
    match decode_hs256(secret, token, false) {
        Ok(p) => Ok(p),
        Err(m) => Err(ApiError::Jwt(m)),
    }
}

/// The last check of a token: it is accepted under the default validation
/// with the audience checked (a token that names an audience is refused,
/// since none is expected). A refusal is a token error.
pub fn check_audience(secret: &str, token: &str) -> (r: ApiResult<()>)
    ensures
        r is Ok <==> hs256_payload(secret@, token@, true) is Some,
        r matches Err(e) ==> e is Jwt,
{
    match decode_hs256(secret, token, true) {
        Ok(_) => Ok(()),
        Err(m) => Err(ApiError::Jwt(m)),
    }
}

/// The expiry check of decoded claims when the clock reads `now`: claims
/// expired by more than the leeway are refused with the token error
/// `ExpiredSignature`; others are handed back unchanged.
pub fn check_expiry_at(claims: Claims, now: i64) -> (r: ApiResult<Claims>)
    ensures
        expired_at(claims.exp, now as int) ==> (r matches Err(ApiError::Jwt(m)) && m@
            == "ExpiredSignature"@),
        !expired_at(claims.exp, now as int) ==> (r matches Ok(c) && c@ == claims@),
{
    let exp: i128 = claims.exp as i128;
    if exp < now as i128 - EXPIRY_LEEWAY as i128 {
        Err(ApiError::Jwt(owned("ExpiredSignature")))
    } else {
        Ok(claims)
    }
}

/// The expiry check of decoded claims against the current time.
pub fn check_expiry(claims: Claims) -> (r: ApiResult<Claims>)
    ensures
        r matches Ok(c) ==> c@ == claims@,
        r matches Err(e) ==> (e matches ApiError::Jwt(m) && m@ == "ExpiredSignature"@),
        exists|now: i64|
            0 <= now && timestamp_in_range(now as int) && (#[trigger] expired_at(claims.exp, now as int)
                <==> r is Err),
{
    let now: i64 = seconds_of(utc_now_micros());
    let r = check_expiry_at(claims, now);
    assert(expired_at(claims.exp, now as int) <==> r is Err);
    r
}

/// A token issued at a time within range lives exactly `ttl_minutes`:
/// its expiry minus its issue time is the lifetime in seconds, whenever
/// both timestamps are non-negative.
pub proof fn lemma_token_lifetime(user_id: u128, now: i64, ttl_minutes: i64, typ: Seq<char>)
    requires
        0 <= now <= usize::MAX,
        0 <= now + ttl_minutes * 60 <= usize::MAX,
    ensures
        claims_at(user_id, now, ttl_minutes, typ).exp - claims_at(user_id, now, ttl_minutes, typ).iat
            == ttl_minutes * 60,
        claims_at(user_id, now, ttl_minutes, typ).sub == user_id,
        claims_at(user_id, now, ttl_minutes, typ).typ == typ,
{
}

/// An issued token reads back as its claims: under the secret it was
/// signed with, its signature and header are accepted and its payload is
/// the JSON text of the claims it was issued with and of no other claims;
/// those claims pass the expiry check at every time up to a minute past the
/// expiry, and fail it at every later time; and the audience check accepts
/// the token.
pub proof fn lemma_issued_token_reads_back(
    t: Seq<char>,
    secret: Seq<char>,
    user_id: u128,
    now: i64,
    ttl_minutes: i64,
    typ: Seq<char>,
    later: int,
)
    requires
        issued_token(t, secret, user_id, now, ttl_minutes, typ),
        0 <= now + ttl_minutes * 60 <= usize::MAX,
    ensures
        hs256_payload(secret, t, false) == Some(
            claims_payload(claims_at(user_id, now, ttl_minutes, typ)),
        ),
        hs256_payload(secret, t, true) is Some,
        forall|c: ClaimsView|
            hs256_payload(secret, t, false) == Some(#[trigger] claims_payload(c)) ==> c == claims_at(
                user_id,
                now,
                ttl_minutes,
                typ,
            ),
        !expired_at(claims_at(user_id, now, ttl_minutes, typ).exp, later) <==> later <= now
            + ttl_minutes * 60 + EXPIRY_LEEWAY,
{
    assert forall|c: ClaimsView|
        hs256_payload(secret, t, false) == Some(#[trigger] claims_payload(c)) implies c == claims_at(
        user_id,
        now,
        ttl_minutes,
        typ,
    ) by {
        lemma_payload_determines_claims(c, claims_at(user_id, now, ttl_minutes, typ));
    }
}

/// A character takes at most six characters inside a JSON string.
pub proof fn lemma_json_escape_len(s: Seq<char>)
    ensures
        json_escape(s).len() <= 6 * s.len(),
    decreases s.len(),
{
    if s.len() > 0 {
        lemma_json_escape_len(s.drop_last());
    }
}

/// The payload of a token is at most 109 characters besides its kind,
/// which takes at most six characters per character of it.
pub proof fn lemma_payload_len(c: ClaimsView)
    ensures
        claims_payload(c).len() <= 109 + 6 * c.typ.len(),
{
    reveal_strlit("{\"sub\":\"");
    reveal_strlit("\",\"exp\":");
    reveal_strlit(",\"iat\":");
    reveal_strlit(",\"typ\":");
    reveal_strlit("}");
    reveal_with_fuel(pow10, 21);
    assert(usize::MAX < pow10(20));
    lemma_decimal_len(c.exp as nat, 20);
    lemma_decimal_len(c.iat as nat, 20);
    lemma_hex_digits_len(c.sub as nat, 32);
    lemma_json_escape_len(c.typ);
    assert(hyphenated(c.sub).len() == 36);
}

} // verus!
