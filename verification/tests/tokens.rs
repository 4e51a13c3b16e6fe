use std::time::{SystemTime, UNIX_EPOCH};

use zetra::auth::jwt::{
    check_audience, check_expiry, check_expiry_at, claims_json, issue, issue_at, to_json_string, verify_token, Claims,
    MAX_TIMESTAMP,
};
use zetra::auth::middleware::{authorize_access, bearer_token, has_kind, refresh_subject};
use zetra::error::ApiError;

const UID: u128 = 0x0123_4567_89ab_cdef_0011_2233_4455_6677;

fn now() -> i64 {
    SystemTime::now().duration_since(UNIX_EPOCH).unwrap().as_secs() as i64
}

fn decode(secret: &str, token: &str) -> serde_json::Value {
    let data = jsonwebtoken::decode::<serde_json::Value>(
        token,
        &jsonwebtoken::DecodingKey::from_secret(secret.as_bytes()),
        &jsonwebtoken::Validation::default(),
    )
    .unwrap();
    data.claims
}

#[test]
fn claims_payload_is_canonical_json() {
    let c = Claims { sub: UID, exp: 1700000900, iat: 1700000000, typ: "access".to_string() };
    assert_eq!(
        claims_json(&c),
        "{\"sub\":\"01234567-89ab-cdef-0011-223344556677\",\"exp\":1700000900,\"iat\":1700000000,\"typ\":\"access\"}"
    );
}

#[test]
fn json_strings_are_escaped() {
    assert_eq!(to_json_string("plain"), "\"plain\"");
    assert_eq!(to_json_string("a\"b\\c"), "\"a\\\"b\\\\c\"");
    assert_eq!(to_json_string("\n\r\t\u{8}\u{c}"), "\"\\n\\r\\t\\b\\f\"");
    assert_eq!(to_json_string("\u{1}\u{1f}é"), "\"\\u0001\\u001fé\"");
}

#[test]
fn issued_token_carries_the_claims() {
    let t = now();
    let token = issue_at("secret", UID, 15, "access", t).unwrap();
    let claims = decode("secret", &token);
    assert_eq!(claims["sub"], "01234567-89ab-cdef-0011-223344556677");
    assert_eq!(claims["iat"], t);
    assert_eq!(claims["exp"], t + 15 * 60);
    assert_eq!(claims["typ"], "access");
}

#[test]
fn token_lifetime_is_the_ttl() {
    let token = issue("k", UID, 60 * 24, "refresh").unwrap();
    let claims = decode("k", &token);
    let exp = claims["exp"].as_i64().unwrap();
    let iat = claims["iat"].as_i64().unwrap();
    assert_eq!(exp - iat, 60 * 24 * 60);
    assert_eq!(claims["typ"], "refresh");
}

#[test]
fn token_signed_with_another_secret_is_refused() {
    let token = issue_at("one", UID, 15, "access", now()).unwrap();
    let r = jsonwebtoken::decode::<serde_json::Value>(
        &token,
        &jsonwebtoken::DecodingKey::from_secret(b"two"),
        &jsonwebtoken::Validation::default(),
    );
    assert!(r.is_err());
}

#[test]
fn expiry_beyond_the_calendar_is_an_internal_error() {
    let r = issue_at("k", UID, 1_000_000, "access", MAX_TIMESTAMP - 10);
    assert!(matches!(r, Err(ApiError::Internal(_))));
}

#[test]
fn bearer_header_parsing() {
    assert_eq!(bearer_token(Some("Bearer abc.def")).unwrap(), "abc.def");
    assert_eq!(bearer_token(Some("Bearer ")).unwrap(), "");
    assert!(matches!(bearer_token(Some("bearer abc")), Err(ApiError::Unauthorized)));
    assert!(matches!(bearer_token(Some("Basic abc")), Err(ApiError::Unauthorized)));
    assert!(matches!(bearer_token(Some("Bearer")), Err(ApiError::Unauthorized)));
    assert!(matches!(bearer_token(None), Err(ApiError::Unauthorized)));
}

fn claims(typ: &str) -> Claims {
    Claims { sub: UID, exp: 2, iat: 1, typ: typ.to_string() }
}

#[test]
fn only_access_tokens_authenticate() {
    assert_eq!(authorize_access(Ok(claims("access"))).unwrap().id, UID);
    assert!(matches!(authorize_access(Ok(claims("refresh"))), Err(ApiError::Unauthorized)));
    assert!(matches!(
        authorize_access(Err(ApiError::Jwt("expired".to_string()))),
        Err(ApiError::Unauthorized)
    ));
}

#[test]
fn only_refresh_tokens_refresh() {
    assert_eq!(refresh_subject(Ok(claims("refresh"))).unwrap(), UID);
    assert!(matches!(refresh_subject(Ok(claims("access"))), Err(ApiError::Unauthorized)));
    assert!(matches!(
        refresh_subject(Err(ApiError::Jwt("bad".to_string()))),
        Err(ApiError::Jwt(_))
    ));
    assert!(has_kind(&claims("access"), "access"));
    assert!(!has_kind(&claims("access"), "refresh"));
}

#[test]
fn issued_token_reads_back_its_payload() {
    let t = now();
    let token = issue_at("secret", UID, 15, "access", t).unwrap();
    let payload = verify_token("secret", &token).unwrap();
    let expected = Claims { sub: UID, exp: (t + 900) as usize, iat: t as usize, typ: "access".to_string() };
    assert_eq!(payload, claims_json(&expected));
}

#[test]
fn token_starts_with_the_default_header() {
    let token = issue_at("k", UID, 15, "access", 1_700_000_000).unwrap();
    assert!(token.starts_with("eyJ0eXAiOiJKV1QiLCJhbGciOiJIUzI1NiJ9."));
    assert!(token.is_ascii());
    let payload_len = claims_json(&Claims {
        sub: UID,
        exp: 1_700_000_900,
        iat: 1_700_000_000,
        typ: "access".to_string(),
    })
    .len();
    assert_eq!(token.len(), 81 + (4 * payload_len + 2) / 3);
}

#[test]
fn verify_refuses_another_secret_and_garbage() {
    let token = issue_at("one", UID, 15, "access", now()).unwrap();
    assert!(matches!(verify_token("two", &token), Err(ApiError::Jwt(_))));
    assert!(matches!(verify_token("one", "not.a.token"), Err(ApiError::Jwt(_))));
    assert!(matches!(verify_token("one", ""), Err(ApiError::Jwt(_))));
}

#[test]
fn verify_does_not_check_the_expiry() {
    let token = issue_at("k", UID, 1, "access", 1_000).unwrap();
    assert!(verify_token("k", &token).is_ok());
}

#[test]
fn expiry_allows_a_minute_of_leeway() {
    let c = |exp: usize| Claims { sub: UID, exp, iat: 0, typ: "access".to_string() };
    assert_eq!(check_expiry_at(c(1000), 1060).unwrap().exp, 1000);
    assert_eq!(check_expiry_at(c(1000), 500).unwrap().exp, 1000);
    match check_expiry_at(c(1000), 1061) {
        Err(ApiError::Jwt(m)) => assert_eq!(m, "ExpiredSignature"),
        _ => panic!("expected an expired token"),
    }
    assert!(check_expiry(c(1000)).is_err());
    let later = (now() + 3600) as usize;
    assert_eq!(check_expiry(c(later)).unwrap().exp, later);
}

#[test]
fn zero_lifetime_is_always_issued() {
    assert!(issue("k", UID, 0, "access").is_ok());
    assert!(issue("k", UID, -5, "access").is_ok());
}

#[test]
fn distinct_claims_have_distinct_payloads() {
    let a = Claims { sub: UID, exp: 10, iat: 1, typ: "a\\nb".to_string() };
    let b = Claims { sub: UID, exp: 10, iat: 1, typ: "a\nb".to_string() };
    let c = Claims { sub: UID, exp: 101, iat: 1, typ: "x".to_string() };
    let d = Claims { sub: UID, exp: 10, iat: 11, typ: "x".to_string() };
    assert_ne!(claims_json(&a), claims_json(&b));
    assert_ne!(claims_json(&c), claims_json(&d));
    let parsed: serde_json::Value = serde_json::from_str(&claims_json(&a)).unwrap();
    assert_eq!(parsed["typ"], "a\\nb");
}

fn sign(secret: &str, payload: &str) -> String {
    let claims: serde_json::Value = serde_json::from_str(payload).unwrap();
    jsonwebtoken::encode(
        &jsonwebtoken::Header::default(),
        &claims,
        &jsonwebtoken::EncodingKey::from_secret(secret.as_bytes()),
    )
    .unwrap()
}

#[test]
fn signature_check_requires_no_claim() {
    let token = sign("k", "{\"sub\":\"01234567-89ab-cdef-0011-223344556677\",\"typ\":\"access\"}");
    assert!(verify_token("k", &token).is_ok());
    assert!(check_audience("k", &token).is_ok());
}

#[test]
fn a_token_naming_an_audience_is_refused_last() {
    let token = sign("k", "{\"exp\":1,\"aud\":\"someone\"}");
    assert!(verify_token("k", &token).is_ok());
    match check_audience("k", &token) {
        Err(ApiError::Jwt(m)) => assert_eq!(m, "InvalidAudience"),
        other => panic!("unexpected {:?}", other),
    }
    let issued = issue_at("k", UID, 15, "access", now()).unwrap();
    assert!(check_audience("k", &issued).is_ok());
    assert!(check_audience("other", &issued).is_err());
}
