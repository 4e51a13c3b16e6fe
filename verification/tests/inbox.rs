use zetra::auth::password::{hash_password, verify_password};
use zetra::error::{ApiError, DbFailure};
use zetra::handlers::messages::{
    api_key_from, check_admin_key, check_service_app, default_kind, delivery_receipt,
    new_service_app, service_app_insert_error, service_credentials, RegisterServiceAppInput,
    SendMessageInput,
};
use zetra::models::{ServiceApp, User};

fn input(subject: &str, body: &str) -> SendMessageInput {
    SendMessageInput {
        identifier: "alice".to_string(),
        subject: subject.to_string(),
        body: body.to_string(),
        code: Some("123456".to_string()),
        kind: default_kind(),
    }
}

#[test]
fn messages_need_subject_and_body() {
    assert_eq!(default_kind(), "verification_code");
    assert!(input("Code", "Your code").check().is_ok());
    for (s, b) in [("  ", "x"), ("x", "\n"), ("", "")] {
        match input(s, b).check() {
            Err(ApiError::Validation(m)) => assert_eq!(m, "subject and body are required"),
            other => panic!("unexpected {:?}", other),
        }
    }
}

#[test]
fn service_apps_authenticate_with_their_key() {
    assert_eq!(service_credentials(Some("nai"), Some("k")).unwrap(), ("nai", "k"));
    assert!(matches!(service_credentials(None, Some("k")), Err(ApiError::Unauthorized)));
    assert!(matches!(service_credentials(Some("nai"), None), Err(ApiError::Unauthorized)));
    let app = ServiceApp {
        id: 3,
        name: "nai".to_string(),
        api_key_hash: hash_password("zsk_key").unwrap(),
        created_at: 0,
        revoked_at: None,
    };
    assert_eq!(check_service_app(Some(app.clone()), "zsk_key").unwrap().name, "nai");
    assert!(matches!(check_service_app(Some(app), "zsk_other"), Err(ApiError::Unauthorized)));
    assert!(matches!(check_service_app(None, "zsk_key"), Err(ApiError::Unauthorized)));
}

#[test]
fn receipt_names_the_recipients_zetra_id() {
    let u = User {
        id: 1,
        username: "bob".to_string(),
        email: "b@x.io".to_string(),
        password_hash: "h".to_string(),
        zetra_id: "ZT100000002".to_string(),
        zetramail: "bob@ztmail.zt".to_string(),
        phone: None,
        created_at: 0,
        updated_at: 0,
    };
    let r = delivery_receipt(99, u);
    assert_eq!(r.message_id, 99);
    assert_eq!(r.delivered_to, "ZT100000002");
}

#[test]
fn admin_key_checks() {
    assert!(check_admin_key(Some("adm"), Some("adm")).is_ok());
    assert!(matches!(check_admin_key(Some("adm"), Some("ADM")), Err(ApiError::Unauthorized)));
    assert!(matches!(check_admin_key(Some("adm"), None), Err(ApiError::Unauthorized)));
    match check_admin_key(None, Some("adm")) {
        Err(ApiError::Internal(m)) => assert_eq!(m, "ADMIN_API_KEY not configured"),
        other => panic!("unexpected {:?}", other),
    }
}

#[test]
fn service_app_keys() {
    assert_eq!(
        api_key_from(1, u128::MAX),
        "zsk_00000000000000000000000000000001ffffffffffffffffffffffffffffffff"
    );
    let (out, hash) = new_service_app(RegisterServiceAppInput { name: "ztc".to_string() }).unwrap();
    assert_eq!(out.name, "ztc");
    assert_eq!(out.api_key.len(), 68);
    assert!(out.api_key.starts_with("zsk_"));
    assert!(verify_password(&out.api_key, &hash));
    assert_ne!(hash, out.api_key);
    assert!(hash.starts_with("$argon2id$v=19$m=19456,t=2,p=1$"));
    let key = out.api_key.as_bytes();
    assert_eq!(key[4 + 12], b'4');
    assert!(matches!(key[4 + 16], b'8' | b'9' | b'a' | b'b'));
    assert_eq!(key[4 + 32 + 12], b'4');
    assert!(hash.starts_with('$'));
    match service_app_insert_error(true, DbFailure::Other("dup".to_string())) {
        ApiError::Conflict(m) => assert_eq!(m, "an app with that name is already registered"),
        other => panic!("unexpected {:?}", other),
    }
}
