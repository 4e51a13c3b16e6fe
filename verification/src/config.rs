//! Service configuration, built from the raw settings found in the
//! environment.
use vstd::prelude::*;

use crate::text::{concat2, decimal, lemma_parse_decimal, owned, parse_i64, parse_i64_spec, parse_usize, parse_usize_spec};

verus! {

/// Bytes in one mebibyte, the unit of `MAX_UPLOAD_MB`.
pub const BYTES_PER_MB: usize = 1048576;

/// The resolved configuration of the service.
#[derive(Clone, Debug)]
pub struct Config {
    pub database_url: String,
    pub jwt_secret: String,
    pub jwt_access_ttl_minutes: i64,
    pub jwt_refresh_ttl_days: i64,
    pub bind_addr: String,
    pub upload_dir: String,
    pub max_upload_bytes: usize,
}

/// A required setting that is absent.
#[derive(Debug)]
pub enum ConfigError {
    MissingDatabaseUrl,
    MissingJwtSecret,
}

/// An integer setting: its parsed value when present and well formed, the
/// default otherwise.
pub open spec fn i64_setting(raw: Option<Seq<char>>, default: i64) -> i64 {
    match raw {
        Some(s) => match parse_i64_spec(s) {
            Some(v) => v,
            None => default,
        },
        None => default,
    }
}

/// An unsigned setting: its parsed value when present and well formed, the
/// default otherwise.
pub open spec fn usize_setting(raw: Option<Seq<char>>, default: usize) -> usize {
    match raw {
        Some(s) => match parse_usize_spec(s) {
            Some(v) => v,
            None => default,
        },
        None => default,
    }
}

/// A text setting: its value when present, the default otherwise.
pub open spec fn text_setting(raw: Option<Seq<char>>, default: Seq<char>) -> Seq<char> {
    match raw {
        Some(s) => s,
        None => default,
    }
}

/// The view of an optional string.
pub open spec fn opt_view(o: Option<String>) -> Option<Seq<char>> {
    match o {
        Some(s) => Some(s@),
        None => None,
    }
}

/// The view of an optional string slice.
pub open spec fn opt_str_view(o: Option<&str>) -> Option<Seq<char>> {
    match o {
        Some(s) => Some(s@),
        None => None,
    }
}

/// `JWT_ACCESS_TTL_MINUTES`, 15 by default.
pub fn access_ttl_minutes_setting(raw: Option<&str>) -> (r: i64)
    ensures
        r == i64_setting(opt_str_view(raw), 15),
{
    i64_or(raw, 15)
}

/// `JWT_REFRESH_TTL_DAYS`, 30 by default.
pub fn refresh_ttl_days_setting(raw: Option<&str>) -> (r: i64)
    ensures
        r == i64_setting(opt_str_view(raw), 30),
{
    i64_or(raw, 30)
}

/// `MAX_UPLOAD_MB`, 100 by default.
pub fn max_upload_mb_setting(raw: Option<&str>) -> (r: usize)
    ensures
        r == usize_setting(opt_str_view(raw), 100),
{
    match raw {
        Some(s) => match parse_usize(s) {
            Some(v) => v,
            None => 100,
        },
        None => 100,
    }
}

fn i64_or(raw: Option<&str>, default: i64) -> (r: i64)
    ensures
        r == i64_setting(opt_str_view(raw), default),
{
    match raw {
        Some(s) => match parse_i64(s) {
            Some(v) => v,
            None => default,
        },
        None => default,
    }
}

fn text_or(raw: Option<&str>, default: &str) -> (r: String)
    ensures
        r@ == text_setting(opt_str_view(raw), default@),
{
    match raw {
        Some(s) => owned(s),
        None => owned(default),
    }
}

impl Config {
    /// Builds the configuration from the raw settings (`None` where a
    /// variable is unset): `DATABASE_URL` and `JWT_SECRET` are required, in
    /// that order; every other setting falls back to its default when it is
    /// absent or does not parse. The service listens on `0.0.0.0` at `PORT`
    /// (8080 by default), and uploads are capped at `MAX_UPLOAD_MB` mebibytes.
    pub fn from_values(
        database_url: Option<&str>,
        jwt_secret: Option<&str>,
        access_ttl_minutes: Option<&str>,
        refresh_ttl_days: Option<&str>,
        port: Option<&str>,
        upload_dir: Option<&str>,
        max_upload_mb: Option<&str>,
    ) -> (r: Result<Config, ConfigError>)
        requires
            database_url is Some && jwt_secret is Some ==> usize_setting(
                opt_str_view(max_upload_mb),
                100,
            ) * BYTES_PER_MB <= usize::MAX,
        ensures
            database_url is None ==> r matches Err(ConfigError::MissingDatabaseUrl),
            database_url is Some && jwt_secret is None ==> r matches Err(
                ConfigError::MissingJwtSecret,
            ),
            database_url is Some && jwt_secret is Some ==> r is Ok,
            r matches Ok(c) ==> {
                &&& c.database_url@ == database_url->Some_0@
                &&& c.jwt_secret@ == jwt_secret->Some_0@
                &&& c.jwt_access_ttl_minutes == i64_setting(opt_str_view(access_ttl_minutes), 15)
                &&& c.jwt_refresh_ttl_days == i64_setting(opt_str_view(refresh_ttl_days), 30)
                &&& c.bind_addr@ == "0.0.0.0:"@ + text_setting(opt_str_view(port), "8080"@)
                &&& c.upload_dir@ == text_setting(opt_str_view(upload_dir), "./uploads"@)
                &&& c.max_upload_bytes == usize_setting(opt_str_view(max_upload_mb), 100)
                    * BYTES_PER_MB
            },
    {
        let max_mb: usize = max_upload_mb_setting(max_upload_mb);
        let port = text_or(port, "8080");
        let bind_addr = concat2("0.0.0.0:", port.as_str());
        let database_url = match database_url {
            Some(s) => owned(s),
            None => {
                return Err(ConfigError::MissingDatabaseUrl);
            },
        };
        let jwt_secret = match jwt_secret {
            Some(s) => owned(s),
            None => {
                return Err(ConfigError::MissingJwtSecret);
            },
        };
        Ok(Config {
            database_url,
            jwt_secret,
            jwt_access_ttl_minutes: access_ttl_minutes_setting(access_ttl_minutes),
            jwt_refresh_ttl_days: refresh_ttl_days_setting(refresh_ttl_days),
            bind_addr,
            upload_dir: text_or(upload_dir, "./uploads"),
            max_upload_bytes: max_mb * BYTES_PER_MB,
        })
    }
}

impl ConfigError {
    /// The message that reports the missing setting.
    pub fn message(&self) -> (r: String)
        ensures
            self is MissingDatabaseUrl ==> r@ == "DATABASE_URL is required"@,
            self is MissingJwtSecret ==> r@ == "JWT_SECRET is required"@,
    {
        match self {
            ConfigError::MissingDatabaseUrl => owned("DATABASE_URL is required"),
            ConfigError::MissingJwtSecret => owned("JWT_SECRET is required"),
        }
    }
}

/// An unsigned setting written as the decimal digits of `v` is read back
/// as `v`; an absent or malformed one is read as the default.
pub proof fn lemma_usize_setting_roundtrip(v: usize, default: usize, junk: Seq<char>)
    requires
        parse_usize_spec(junk) is None,
    ensures
        usize_setting(Some(decimal(v as nat)), default) == v,
        usize_setting(None, default) == default,
        usize_setting(Some(junk), default) == default,
{
    lemma_parse_decimal(v as nat);
}

} // verus!
