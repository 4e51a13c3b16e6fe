use zetra::config::{
    access_ttl_minutes_setting, max_upload_mb_setting, refresh_ttl_days_setting, Config,
    ConfigError,
};

#[test]
fn defaults_apply_when_only_required_settings_are_given() {
    let c = Config::from_values(Some("postgres://db"), Some("s3cret"), None, None, None, None, None)
        .unwrap();
    assert_eq!(c.database_url, "postgres://db");
    assert_eq!(c.jwt_secret, "s3cret");
    assert_eq!(c.jwt_access_ttl_minutes, 15);
    assert_eq!(c.jwt_refresh_ttl_days, 30);
    assert_eq!(c.bind_addr, "0.0.0.0:8080");
    assert_eq!(c.upload_dir, "./uploads");
    assert_eq!(c.max_upload_bytes, 100 * 1024 * 1024);
}

#[test]
fn given_settings_override_the_defaults() {
    let c = Config::from_values(
        Some("db"),
        Some("k"),
        Some("60"),
        Some("+7"),
        Some("3000"),
        Some("/srv/media"),
        Some("2"),
    )
    .unwrap();
    assert_eq!(c.jwt_access_ttl_minutes, 60);
    assert_eq!(c.jwt_refresh_ttl_days, 7);
    assert_eq!(c.bind_addr, "0.0.0.0:3000");
    assert_eq!(c.upload_dir, "/srv/media");
    assert_eq!(c.max_upload_bytes, 2 * 1024 * 1024);
}

#[test]
fn malformed_numbers_fall_back_to_defaults() {
    assert_eq!(access_ttl_minutes_setting(Some("fifteen")), 15);
    assert_eq!(access_ttl_minutes_setting(Some(" 20")), 15);
    assert_eq!(access_ttl_minutes_setting(Some("-5")), -5);
    assert_eq!(refresh_ttl_days_setting(Some("")), 30);
    assert_eq!(refresh_ttl_days_setting(Some("99999999999999999999")), 30);
    assert_eq!(max_upload_mb_setting(Some("-1")), 100);
    assert_eq!(max_upload_mb_setting(Some("+")), 100);
    assert_eq!(max_upload_mb_setting(Some("0")), 0);
    assert_eq!(max_upload_mb_setting(None), 100);
}

#[test]
fn database_url_is_required_first() {
    let r = Config::from_values(None, None, None, None, None, None, None);
    let e = r.unwrap_err();
    assert!(matches!(e, ConfigError::MissingDatabaseUrl));
    assert_eq!(e.message(), "DATABASE_URL is required");
}

#[test]
fn jwt_secret_is_required() {
    let r = Config::from_values(Some("db"), None, None, None, None, None, None);
    let e = r.unwrap_err();
    assert!(matches!(e, ConfigError::MissingJwtSecret));
    assert_eq!(e.message(), "JWT_SECRET is required");
}
