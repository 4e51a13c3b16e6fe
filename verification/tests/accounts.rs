use std::time::{SystemTime, UNIX_EPOCH};

use zetra::auth::password::{hash_password, hash_refresh, verify_password};
use zetra::config::Config;
use zetra::error::{ApiError, DbFailure};
use zetra::handlers::auth::{
    check_login, issue_pair, issue_pair_at, lifetimes_ok, normalize_identifier,
    prepare_registration, refresh_account, registration_insert_error, require_live_refresh,
    zetramail_for, LoginInput, RegisterInput,
};
use zetra::auth::jwt::{claims_json, verify_token, Claims, MAX_TIMESTAMP};
use zetra::models::{PublicUser, User};

fn user(hash: &str) -> User {
    User {
        id: 7,
        username: "alice".to_string(),
        email: "alice@example.com".to_string(),
        password_hash: hash.to_string(),
        zetra_id: "ZT100000001".to_string(),
        zetramail: "alice@ztmail.zt".to_string(),
        phone: Some("+15550100".to_string()),
        created_at: 1_700_000_000_000_000,
        updated_at: 1_700_000_500_000_000,
    }
}

fn register(username: &str, email: &str, password: &str) -> RegisterInput {
    RegisterInput {
        username: username.to_string(),
        email: email.to_string(),
        password: password.to_string(),
        phone: None,
    }
}

fn config(access: i64, refresh_days: i64) -> Config {
    Config {
        database_url: "db".to_string(),
        jwt_secret: "secret".to_string(),
        jwt_access_ttl_minutes: access,
        jwt_refresh_ttl_days: refresh_days,
        bind_addr: "0.0.0.0:8080".to_string(),
        upload_dir: "./uploads".to_string(),
        max_upload_bytes: 1024,
    }
}

#[test]
fn password_hash_verifies_only_its_password() {
    let h = hash_password("correct horse").unwrap();
    assert!(h.starts_with("$argon2id$"));
    assert!(verify_password("correct horse", &h));
    assert!(!verify_password("wrong horse", &h));
    assert!(!verify_password("correct horse", "not a hash"));
}

#[test]
fn refresh_hash_verifies_the_token() {
    let h = hash_refresh("a.b.c");
    assert!(verify_password("a.b.c", &h));
    assert_ne!(h, "a.b.c");
}

#[test]
fn valid_registration_is_prepared() {
    let u = prepare_registration(&register("Alice", "Alice@Example.COM", "password1")).unwrap();
    assert_eq!(u.username, "Alice");
    assert_eq!(u.email, "alice@example.com");
    assert_eq!(u.zetramail, "alice@ztmail.zt");
    assert!(verify_password("password1", &u.password_hash));
    assert_eq!(u.phone, None);
}

#[test]
fn registration_reports_each_broken_rule() {
    match prepare_registration(&register("al", "not-an-email", "short")) {
        Err(ApiError::Validation(m)) => {
            assert_eq!(
                m,
                "username: Validation error: length [{\"min\": Number(3), \"max\": Number(32), \"value\": String(\"al\")}]\n\
                 email: Validation error: email [{\"value\": String(\"not-an-email\")}]\n\
                 password: Validation error: length [{\"min\": Number(8), \"max\": Number(128), \"value\": String(\"short\")}]"
            )
        }
        other => panic!("unexpected {:?}", other),
    }
    match register("a".repeat(33).as_str(), "a@b.co", "12345678").validate() {
        Err(ApiError::Validation(m)) => assert_eq!(
            m,
            format!(
                "username: Validation error: length [{{\"min\": Number(3), \"max\": Number(32), \"value\": String(\"{}\")}}]",
                "a".repeat(33)
            )
        ),
        other => panic!("unexpected {:?}", other),
    }
    assert!(register("abc", "a@b.co", &"x".repeat(128)).validate().is_ok());
    assert!(register("abc", "a@b.co", &"x".repeat(129)).validate().is_err());
    assert!(register("äöü", "a@b.co", "12345678").validate().is_ok());
}

#[test]
fn login_requires_both_fields() {
    let ok = LoginInput { identifier: "x".to_string(), password: "y".to_string() };
    assert!(ok.validate().is_ok());
    let bad = LoginInput { identifier: "".to_string(), password: "".to_string() };
    match bad.validate() {
        Err(ApiError::Validation(m)) => assert_eq!(
            m,
            "identifier: Validation error: length [{\"min\": Number(1), \"value\": String(\"\")}]\n\
             password: Validation error: length [{\"min\": Number(1), \"value\": String(\"\")}]"
        ),
        other => panic!("unexpected {:?}", other),
    }
}

#[test]
fn identifiers_are_trimmed_and_lower_cased() {
    assert_eq!(normalize_identifier("  Bob@Example.COM \n"), "bob@example.com");
    assert_eq!(normalize_identifier("ZT100000001"), "zt100000001");
    assert_eq!(zetramail_for("MiXeD"), "mixed@ztmail.zt");
}

#[test]
fn login_checks_the_password() {
    let h = hash_password("pw-12345").unwrap();
    assert_eq!(check_login(Some(user(&h)), "pw-12345").unwrap().id, 7);
    assert!(matches!(check_login(Some(user(&h)), "nope"), Err(ApiError::Unauthorized)));
    assert!(matches!(check_login(None, "pw-12345"), Err(ApiError::Unauthorized)));
    assert!(matches!(refresh_account(None), Err(ApiError::Unauthorized)));
    assert_eq!(refresh_account(Some(user(&h))).unwrap().username, "alice");
}

#[test]
fn registration_conflicts_are_reported() {
    match registration_insert_error(true, DbFailure::Other("dup".to_string())) {
        ApiError::Conflict(m) => assert_eq!(m, "username, email, phone, or ZetraMail already in use"),
        other => panic!("unexpected {:?}", other),
    }
    assert!(matches!(
        registration_insert_error(false, DbFailure::Other("down".to_string())),
        ApiError::Sqlx(DbFailure::Other(_))
    ));
}

#[test]
fn token_pair_for_a_user() {
    let cfg = config(15, 30);
    assert!(lifetimes_ok(&cfg));
    let before = SystemTime::now().duration_since(UNIX_EPOCH).unwrap().as_micros() as i64;
    let p = issue_pair(&cfg, user("h")).unwrap();
    let after = SystemTime::now().duration_since(UNIX_EPOCH).unwrap().as_micros() as i64;
    assert_eq!(p.pair.token_type, "Bearer");
    assert_eq!(p.pair.expires_in, 900);
    assert_eq!(p.pair.user.id, 7);
    assert_eq!(p.pair.user.zetra_id, "ZT100000001");
    assert!(verify_password(&p.pair.refresh_token, &p.refresh_hash));
    let span = 30 * 86_400_000_000i64;
    assert!(before + span <= p.refresh_expires_at && p.refresh_expires_at <= after + span);
    let v = jsonwebtoken::Validation::default();
    let key = jsonwebtoken::DecodingKey::from_secret(b"secret");
    let a = jsonwebtoken::decode::<serde_json::Value>(&p.pair.access_token, &key, &v).unwrap();
    let r = jsonwebtoken::decode::<serde_json::Value>(&p.pair.refresh_token, &key, &v).unwrap();
    assert_eq!(a.claims["typ"], "access");
    assert_eq!(r.claims["typ"], "refresh");
    assert_eq!(
        r.claims["exp"].as_i64().unwrap() - r.claims["iat"].as_i64().unwrap(),
        30 * 86_400
    );
}

#[test]
fn unrepresentable_lifetimes_are_detected() {
    assert!(!lifetimes_ok(&config(153722867280913, 30)));
    assert!(!lifetimes_ok(&config(15, -106751991168)));
    assert!(lifetimes_ok(&config(-153722867280912, 106751991167)));
}

#[test]
fn public_view_drops_the_hash() {
    let p: PublicUser = user("secret-hash").into();
    assert_eq!(p.id, 7);
    assert_eq!(p.username, "alice");
    assert_eq!(p.email, "alice@example.com");
    assert_eq!(p.zetramail, "alice@ztmail.zt");
    assert_eq!(p.phone.as_deref(), Some("+15550100"));
    assert_eq!(p.created_at, 1_700_000_000_000_000);
}

#[test]
fn token_pair_at_fixed_times() {
    let cfg = config(15, 30);
    let p = issue_pair_at(&cfg, user("h"), 1_700_000_000, 1_700_000_001, 1_700_000_002_000_000).unwrap();
    assert_eq!(p.refresh_expires_at, 1_700_000_002_000_000 + 30 * 86_400_000_000);
    assert!(p.refresh_hash.starts_with('$'));
    assert_ne!(p.refresh_hash, p.pair.refresh_token);
    assert!(verify_password(&p.pair.refresh_token, &p.refresh_hash));
    let access = Claims { sub: 7, exp: 1_700_000_900, iat: 1_700_000_000, typ: "access".to_string() };
    let refresh = Claims {
        sub: 7,
        exp: 1_700_000_001 + 30 * 86_400,
        iat: 1_700_000_001,
        typ: "refresh".to_string(),
    };
    assert_eq!(verify_token("secret", &p.pair.access_token).unwrap(), claims_json(&access));
    assert_eq!(verify_token("secret", &p.pair.refresh_token).unwrap(), claims_json(&refresh));
}

#[test]
fn token_pair_past_the_calendar_is_refused() {
    let cfg = config(15, 30);
    let r = issue_pair_at(&cfg, user("h"), MAX_TIMESTAMP - 10, 0, 0);
    assert!(matches!(r, Err(ApiError::Internal(_))));
    let r = issue_pair_at(&cfg, user("h"), 0, 0, 8_210_266_876_799_000_000);
    assert!(matches!(r, Err(ApiError::Internal(_))));
}

#[test]
fn zero_lifetimes_are_always_issued() {
    let p = issue_pair(&config(0, 0), user("h")).unwrap();
    assert_eq!(p.pair.expires_in, 0);
}

#[test]
fn valid_registration_always_succeeds_with_a_real_hash() {
    let pw = "é".repeat(128);
    let u = prepare_registration(&register("bob", "bob@example.com", &pw)).unwrap();
    assert_ne!(u.password_hash, pw);
    assert!(u.password_hash.starts_with('$'));
    assert!(verify_password(&pw, &u.password_hash));
}

#[test]
fn only_a_live_refresh_token_rotates() {
    let token = "eyJ.payload.sig";
    let live = vec![hash_refresh("other"), hash_refresh(token)];
    assert!(require_live_refresh(token, &live).is_ok());
    assert!(matches!(require_live_refresh(token, &vec![hash_refresh("other")]), Err(ApiError::Unauthorized)));
    assert!(matches!(require_live_refresh(token, &Vec::new()), Err(ApiError::Unauthorized)));
}

#[test]
fn email_report_matches_the_validator_display() {
    let email = "bad\"mail\n";
    let mut err = validator::ValidationError::new("email");
    err.add_param(std::borrow::Cow::from("value"), &email);
    match register("abc", email, "12345678").validate() {
        Err(ApiError::Validation(m)) => assert_eq!(m, format!("email: {}", err)),
        other => panic!("unexpected {:?}", other),
    }
}
