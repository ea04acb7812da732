//! Service configuration read from environment variables.
//!
//! The environment is handed in as a list of (name, value) pairs; each
//! setting has a default or is required, and numeric settings must parse.

use vstd::prelude::*;
use crate::encoding::{check_base64_key32, is_base64_key32};
use crate::text::{
    parse_bool, parse_bool_spec, parse_i64, parse_i64_spec, parse_unsigned,
    parse_unsigned_bounded, push_decimal, push_str, split_by, split_fields, split_pred,
    trim_kind, trim_spec, views, SplitKind, TrimKind, decimal_digits, is_nonempty,
    strip_back, strip_front, trim_pred,
};

verus! {

/// Environment variables: (name, value) pairs. When a name occurs more
/// than once, the first pair counts.
#[derive(Debug, Clone, PartialEq, Eq)]
pub struct EnvVars {
    pub vars: Vec<(String, String)>,
}

/// The value of variable `key`, if set.
pub open spec fn env_lookup(vars: Seq<(String, String)>, key: Seq<char>) -> Option<Seq<char>>
    decreases vars.len(),
{
    if vars.len() == 0 {
        None
    } else if vars[0].0@ == key {
        Some(vars[0].1@)
    } else {
        env_lookup(vars.drop_first(), key)
    }
}

/// The value of variable `key`, or `default` when it is not set.
pub open spec fn var_or(vars: Seq<(String, String)>, key: Seq<char>, default: Seq<char>) -> Seq<char> {
    match env_lookup(vars, key) {
        Some(v) => v,
        None => default,
    }
}

proof fn lemma_env_lookup_skip(vars: Seq<(String, String)>, key: Seq<char>, i: int)
    requires
        0 <= i <= vars.len(),
        forall|k: int| 0 <= k < i ==> (#[trigger] vars[k]).0@ != key,
    ensures
        env_lookup(vars, key) == env_lookup(vars.skip(i), key),
    decreases i,
{
    if i > 0 {
        assert forall|k: int| 0 <= k < i - 1 implies (#[trigger] vars.drop_first()[k]).0@ != key by {
            assert(vars.drop_first()[k] == vars[k + 1]);
        }
        assert(vars[0].0@ != key);
        lemma_env_lookup_skip(vars.drop_first(), key, i - 1);
        assert(vars.drop_first().skip(i - 1) =~= vars.skip(i));
    } else {
        assert(vars.skip(0) =~= vars);
    }
}

impl EnvVars {
    /// An empty environment.
    pub fn new() -> (r: EnvVars)
        ensures
            r.vars@.len() == 0,
    {
        EnvVars { vars: Vec::new() }
    }

    /// Records a variable (after any recorded earlier).
    pub fn set(&mut self, key: String, value: String)
        ensures
            final(self).vars@ == old(self).vars@.push((key, value)),
    {
        self.vars.push((key, value));
    }

    /// The value of variable `key`, if set.
    pub fn get(&self, key: &str) -> (r: Option<String>)
        ensures
            match env_lookup(self.vars@, key@) {
                Some(v) => r matches Some(s) && s@ == v,
                None => r is None,
            },
    {
        let n = self.vars.len();
        let mut i: usize = 0;
        while i < n
            invariant
                n == self.vars@.len(),
                i <= n,
                forall|k: int| 0 <= k < i ==> (#[trigger] self.vars@[k]).0@ != key@,
            decreases n - i,
        {
            if crate::text::str_eq(self.vars[i].0.as_str(), key) {
                proof {
                    lemma_env_lookup_skip(self.vars@, key@, i as int);
                    assert(self.vars@.skip(i as int)[0] == self.vars@[i as int]);
                }
                return Some(self.vars[i].1.clone());
            }
            i = i + 1;
        }
        proof {
            lemma_env_lookup_skip(self.vars@, key@, n as int);
        }
        None
    }

    /// The value of variable `key`, or `default` when it is not set.
    pub fn var_or(&self, key: &str, default: &str) -> (r: String)
        ensures
            r@ == var_or(self.vars@, key@, default@),
    {
        match self.get(key) {
            Some(v) => v,
            None => default.to_owned(),
        }
    }
}

/// A configuration setting that is missing or malformed; the message
/// names the setting.
#[derive(Debug, Clone, PartialEq, Eq)]
pub struct ConfigError {
    pub message: String,
}

fn error_with(message: &str) -> (r: ConfigError)
    ensures
        r.message@ == message@,
{
    ConfigError { message: message.to_owned() }
}

/// Reads an unsigned number no larger than `max` from variable `key`
/// (or `default` when unset); a malformed value is reported with `message`.
fn number_var(env: &EnvVars, key: &str, default: &str, max: u64, message: &str) -> (r: Result<u64, ConfigError>)
    ensures
        match parse_unsigned(var_or(env.vars@, key@, default@), max as int) {
            Some(v) => r == Ok::<u64, ConfigError>(v as u64),
            None => r matches Err(e) && e.message@ == message@,
        },
{
    let raw = env.var_or(key, default);
    match parse_unsigned_bounded(raw.as_str(), max) {
        Some(v) => Ok(v),
        None => Err(error_with(message)),
    }
}

/// Reads a required variable; when it is unset the error is `message`.
fn required_var(env: &EnvVars, key: &str, message: &str) -> (r: Result<String, ConfigError>)
    ensures
        match env_lookup(env.vars@, key@) {
            Some(v) => r matches Ok(s) && s@ == v,
            None => r matches Err(e) && e.message@ == message@,
        },
{
    match env.get(key) {
        Some(v) => Ok(v),
        None => Err(error_with(message)),
    }
}

/// Reads a boolean flag: "true" or "false", anything else (or an unset
/// variable with a malformed default) falls back to `fallback`.
fn flag_var(env: &EnvVars, key: &str, default: &str, fallback: bool) -> (r: bool)
    ensures
        r == match parse_bool_spec(var_or(env.vars@, key@, default@)) {
            Some(b) => b,
            None => fallback,
        },
{
    let raw = env.var_or(key, default);
    match parse_bool(raw.as_str()) {
        Some(b) => b,
        None => fallback,
    }
}

} // verus!

verus! {

/// The deployment environment.
#[derive(Debug, Clone, PartialEq, Eq)]
pub enum AppEnv {
    Development,
    Production,
}

/// Server settings.
#[derive(Debug, Clone, PartialEq, Eq)]
pub struct AppConfig {
    pub env: AppEnv,
    pub host: String,
    pub port: u16,
    pub workers: usize,
}

/// The environment named by `APP_ENV`: production only for "production".
pub open spec fn app_env_spec(v: Seq<char>) -> AppEnv {
    if v == "production"@ { AppEnv::Production } else { AppEnv::Development }
}

/// Why the server settings cannot be read, if they cannot.
pub open spec fn app_config_error(vars: Seq<(String, String)>) -> Option<Seq<char>> {
    if parse_unsigned(var_or(vars, "PORT"@, "8080"@), 65535) is None {
        Some("PORT must be a valid number"@)
    } else if parse_unsigned(var_or(vars, "WORKERS"@, "4"@), usize::MAX as int) is None {
        Some("WORKERS must be a valid number"@)
    } else {
        None
    }
}

/// The server settings read from the environment.
pub open spec fn app_config_matches(vars: Seq<(String, String)>, c: AppConfig) -> bool {
    &&& c.env == app_env_spec(var_or(vars, "APP_ENV"@, "development"@))
    &&& c.host@ == var_or(vars, "HOST"@, "0.0.0.0"@)
    &&& Some(c.port as int) == parse_unsigned(var_or(vars, "PORT"@, "8080"@), 65535)
    &&& Some(c.workers as int) == parse_unsigned(var_or(vars, "WORKERS"@, "4"@), usize::MAX as int)
}

impl AppConfig {
    /// Reads APP_ENV (default "development"), HOST (default "0.0.0.0"),
    /// PORT (default 8080) and WORKERS (default 4).
    pub fn from_env(env: &EnvVars) -> (r: Result<AppConfig, ConfigError>)
        ensures
            match app_config_error(env.vars@) {
                None => r matches Ok(c) && app_config_matches(env.vars@, c),
                Some(m) => r matches Err(e) && e.message@ == m,
            },
    {
        let env_name = env.var_or("APP_ENV", "development");
        let app_env = if crate::text::str_eq(env_name.as_str(), "production") {
            AppEnv::Production
        } else {
            AppEnv::Development
        };
        let host = env.var_or("HOST", "0.0.0.0");
        let port = number_var(env, "PORT", "8080", 65535, "PORT must be a valid number")?;
        let workers = number_var(env, "WORKERS", "4", usize::MAX as u64, "WORKERS must be a valid number")?;
        Ok(AppConfig { env: app_env, host, port: port as u16, workers: workers as usize })
    }

    /// The address to listen on, "host:port".
    pub fn socket_addr(&self) -> (r: String)
        ensures
            r@ == self.host@ + ":"@ + decimal_digits(self.port as nat),
    {
        let mut s = String::new();
        push_str(&mut s, self.host.as_str());
        push_str(&mut s, ":");
        push_decimal(&mut s, self.port as u64);
        assert(s@ =~= self.host@ + ":"@ + decimal_digits(self.port as nat));
        s
    }
}

/// Database settings.
#[derive(Debug, Clone, PartialEq, Eq)]
pub struct DatabaseConfig {
    pub url: String,
    pub pool_size: u32,
    /// Connection timeout, in seconds.
    pub timeout_secs: u64,
}

/// Why the database settings cannot be read, if they cannot.
pub open spec fn database_config_error(vars: Seq<(String, String)>) -> Option<Seq<char>> {
    if env_lookup(vars, "DATABASE_URL"@) is None {
        Some("DATABASE_URL must be set"@)
    } else if parse_unsigned(var_or(vars, "DATABASE_POOL_SIZE"@, "10"@), 4294967295) is None {
        Some("DATABASE_POOL_SIZE must be a number"@)
    } else if parse_unsigned(var_or(vars, "DATABASE_TIMEOUT_SECONDS"@, "5"@), 18446744073709551615) is None {
        Some("DATABASE_TIMEOUT_SECONDS must be a number"@)
    } else {
        None
    }
}

/// The database settings read from the environment.
pub open spec fn database_config_matches(vars: Seq<(String, String)>, c: DatabaseConfig) -> bool {
    &&& env_lookup(vars, "DATABASE_URL"@) == Some(c.url@)
    &&& Some(c.pool_size as int) == parse_unsigned(var_or(vars, "DATABASE_POOL_SIZE"@, "10"@), 4294967295)
    &&& Some(c.timeout_secs as int) == parse_unsigned(var_or(vars, "DATABASE_TIMEOUT_SECONDS"@, "5"@), 18446744073709551615)
}

impl DatabaseConfig {
    /// Reads DATABASE_URL (required), DATABASE_POOL_SIZE (default 10) and
    /// DATABASE_TIMEOUT_SECONDS (default 5).
    pub fn from_env(env: &EnvVars) -> (r: Result<DatabaseConfig, ConfigError>)
        ensures
            match database_config_error(env.vars@) {
                None => r matches Ok(c) && database_config_matches(env.vars@, c),
                Some(m) => r matches Err(e) && e.message@ == m,
            },
    {
        let url = required_var(env, "DATABASE_URL", "DATABASE_URL must be set")?;
        let pool_size = number_var(env, "DATABASE_POOL_SIZE", "10", 4294967295, "DATABASE_POOL_SIZE must be a number")?;
        let timeout = number_var(env, "DATABASE_TIMEOUT_SECONDS", "5", 18446744073709551615, "DATABASE_TIMEOUT_SECONDS must be a number")?;
        Ok(DatabaseConfig { url, pool_size: pool_size as u32, timeout_secs: timeout })
    }
}

/// Cache settings.
#[derive(Debug, Clone, PartialEq, Eq)]
pub struct RedisConfig {
    /// Comma-separated Redis URLs. Single URL for standalone, multiple for cluster.
    pub url: String,
    pub pool_size: usize,
    /// Timeout, in seconds.
    pub timeout_secs: u64,
    pub use_cache: bool,
}

/// Why the cache settings cannot be read, if they cannot.
pub open spec fn redis_config_error(vars: Seq<(String, String)>) -> Option<Seq<char>> {
    if parse_unsigned(var_or(vars, "REDIS_POOL_SIZE"@, "10"@), usize::MAX as int) is None {
        Some("REDIS_POOL_SIZE must be a number"@)
    } else if parse_unsigned(var_or(vars, "REDIS_TIMEOUT_SECONDS"@, "2"@), 18446744073709551615) is None {
        Some("REDIS_TIMEOUT_SECONDS must be a number"@)
    } else {
        None
    }
}

/// The cache settings read from the environment.
pub open spec fn redis_config_matches(vars: Seq<(String, String)>, c: RedisConfig) -> bool {
    &&& c.url@ == var_or(vars, "REDIS_URL"@, ""@)
    &&& Some(c.pool_size as int) == parse_unsigned(var_or(vars, "REDIS_POOL_SIZE"@, "10"@), usize::MAX as int)
    &&& Some(c.timeout_secs as int) == parse_unsigned(var_or(vars, "REDIS_TIMEOUT_SECONDS"@, "2"@), 18446744073709551615)
    &&& c.use_cache == match parse_bool_spec(var_or(vars, "USE_REDIS_CACHE"@, "false"@)) {
        Some(b) => b,
        None => false,
    }
}

impl RedisConfig {
    /// The configured server URLs: the comma-separated entries of `url`,
    /// trimmed, empty ones dropped. One URL is a standalone server,
    /// several are the nodes of a cluster.
    pub fn urls(&self) -> (r: Vec<String>)
        ensures
            views(r@) == comma_list(self.url@),
    {
        comma_list_of(self.url.as_str())
    }

    /// Reads REDIS_URL (default empty), REDIS_POOL_SIZE (default 10),
    /// REDIS_TIMEOUT_SECONDS (default 2) and USE_REDIS_CACHE (default
    /// false, and false when malformed).
    pub fn from_env(env: &EnvVars) -> (r: Result<RedisConfig, ConfigError>)
        ensures
            match redis_config_error(env.vars@) {
                None => r matches Ok(c) && redis_config_matches(env.vars@, c),
                Some(m) => r matches Err(e) && e.message@ == m,
            },
    {
        let url = env.var_or("REDIS_URL", "");
        let pool_size = number_var(env, "REDIS_POOL_SIZE", "10", usize::MAX as u64, "REDIS_POOL_SIZE must be a number")?;
        let timeout = number_var(env, "REDIS_TIMEOUT_SECONDS", "2", 18446744073709551615, "REDIS_TIMEOUT_SECONDS must be a number")?;
        let use_cache = flag_var(env, "USE_REDIS_CACHE", "false", false);
        Ok(RedisConfig { url, pool_size: pool_size as usize, timeout_secs: timeout, use_cache })
    }
}

} // verus!

verus! {

/// Authentication settings.
#[derive(Debug, Clone, PartialEq, Eq)]
pub struct AuthConfig {
    /// PASETO v4 local symmetric key — must be exactly 32 bytes, base64-encoded
    pub paseto_key: String,
    /// HMAC secret for signing refresh tokens
    pub refresh_token_hmac_secret: String,
    /// Refresh token TTL in days
    pub refresh_token_ttl_days: u64,
    /// Number of random bytes for refresh token generation
    pub refresh_token_length_bytes: usize,
    /// Failed login threshold before lockout
    pub failed_login_threshold: u32,
    /// Lockout duration in minutes
    pub failed_login_lockout_minutes: u64,
}

/// The error for a PASETO key that is not base64 of exactly 32 bytes.
pub open spec fn paseto_key_message() -> Seq<char> {
    "PASETO_SYMMETRIC_KEY must be exactly 32 bytes, base64-encoded"@
}

/// Why the authentication settings cannot be read, if they cannot.
pub open spec fn auth_config_error(vars: Seq<(String, String)>) -> Option<Seq<char>> {
    if env_lookup(vars, "PASETO_SYMMETRIC_KEY"@) is None {
        Some("PASETO_SYMMETRIC_KEY must be set"@)
    } else if !is_base64_key32(env_lookup(vars, "PASETO_SYMMETRIC_KEY"@).unwrap()) {
        Some(paseto_key_message())
    } else if env_lookup(vars, "REFRESH_TOKEN_HMAC_SECRET"@) is None {
        Some("REFRESH_TOKEN_HMAC_SECRET must be set"@)
    } else if parse_unsigned(var_or(vars, "REFRESH_TOKEN_TTL_DAYS"@, "7"@), 18446744073709551615) is None {
        Some("REFRESH_TOKEN_TTL_DAYS must be a number"@)
    } else if parse_unsigned(var_or(vars, "REFRESH_TOKEN_LENGTH_BYTES"@, "32"@), usize::MAX as int) is None {
        Some("REFRESH_TOKEN_LENGTH_BYTES must be a number"@)
    } else if parse_unsigned(var_or(vars, "FAILED_LOGIN_THRESHOLD"@, "5"@), 4294967295) is None {
        Some("FAILED_LOGIN_THRESHOLD must be a number"@)
    } else if parse_unsigned(var_or(vars, "FAILED_LOGIN_LOCKOUT_MINUTES"@, "15"@), 18446744073709551615) is None {
        Some("FAILED_LOGIN_LOCKOUT_MINUTES must be a number"@)
    } else {
        None
    }
}

/// The authentication settings read from the environment.
pub open spec fn auth_config_matches(vars: Seq<(String, String)>, c: AuthConfig) -> bool {
    &&& env_lookup(vars, "PASETO_SYMMETRIC_KEY"@) == Some(c.paseto_key@)
    &&& env_lookup(vars, "REFRESH_TOKEN_HMAC_SECRET"@) == Some(c.refresh_token_hmac_secret@)
    &&& Some(c.refresh_token_ttl_days as int) == parse_unsigned(var_or(vars, "REFRESH_TOKEN_TTL_DAYS"@, "7"@), 18446744073709551615)
    &&& Some(c.refresh_token_length_bytes as int) == parse_unsigned(var_or(vars, "REFRESH_TOKEN_LENGTH_BYTES"@, "32"@), usize::MAX as int)
    &&& Some(c.failed_login_threshold as int) == parse_unsigned(var_or(vars, "FAILED_LOGIN_THRESHOLD"@, "5"@), 4294967295)
    &&& Some(c.failed_login_lockout_minutes as int) == parse_unsigned(var_or(vars, "FAILED_LOGIN_LOCKOUT_MINUTES"@, "15"@), 18446744073709551615)
}

impl AuthConfig {
    /// Reads PASETO_SYMMETRIC_KEY and REFRESH_TOKEN_HMAC_SECRET (both
    /// required; the key must be standard base64 of exactly 32 bytes),
    /// REFRESH_TOKEN_TTL_DAYS (default 7),
    /// REFRESH_TOKEN_LENGTH_BYTES (default 32), FAILED_LOGIN_THRESHOLD
    /// (default 5) and FAILED_LOGIN_LOCKOUT_MINUTES (default 15).
    pub fn from_env(env: &EnvVars) -> (r: Result<AuthConfig, ConfigError>)
        ensures
            match auth_config_error(env.vars@) {
                None => r matches Ok(c) && auth_config_matches(env.vars@, c),
                Some(m) => r matches Err(e) && e.message@ == m,
            },
    {
        let paseto_key = required_var(env, "PASETO_SYMMETRIC_KEY", "PASETO_SYMMETRIC_KEY must be set")?;
        if !check_base64_key32(paseto_key.as_str()) {
            return Err(error_with("PASETO_SYMMETRIC_KEY must be exactly 32 bytes, base64-encoded"));
        }
        let secret = required_var(env, "REFRESH_TOKEN_HMAC_SECRET", "REFRESH_TOKEN_HMAC_SECRET must be set")?;
        let ttl = number_var(env, "REFRESH_TOKEN_TTL_DAYS", "7", 18446744073709551615, "REFRESH_TOKEN_TTL_DAYS must be a number")?;
        let len = number_var(env, "REFRESH_TOKEN_LENGTH_BYTES", "32", usize::MAX as u64, "REFRESH_TOKEN_LENGTH_BYTES must be a number")?;
        let threshold = number_var(env, "FAILED_LOGIN_THRESHOLD", "5", 4294967295, "FAILED_LOGIN_THRESHOLD must be a number")?;
        let lockout = number_var(env, "FAILED_LOGIN_LOCKOUT_MINUTES", "15", 18446744073709551615, "FAILED_LOGIN_LOCKOUT_MINUTES must be a number")?;
        Ok(AuthConfig {
            paseto_key,
            refresh_token_hmac_secret: secret,
            refresh_token_ttl_days: ttl,
            refresh_token_length_bytes: len as usize,
            failed_login_threshold: threshold as u32,
            failed_login_lockout_minutes: lockout,
        })
    }

    /// The refresh token lifetime in seconds (days × 86 400).
    pub fn refresh_token_ttl_seconds(&self) -> (r: u64)
        requires
            self.refresh_token_ttl_days * 86400 <= u64::MAX,
        ensures
            r == self.refresh_token_ttl_days * 86400,
    {
        self.refresh_token_ttl_days * 24 * 60 * 60
    }

    /// The lockout duration in seconds (minutes × 60).
    pub fn lockout_seconds(&self) -> (r: u64)
        requires
            self.failed_login_lockout_minutes * 60 <= u64::MAX,
        ensures
            r == self.failed_login_lockout_minutes * 60,
    {
        self.failed_login_lockout_minutes * 60
    }
}

/// Refresh-token cookie settings.
#[derive(Debug, Clone, PartialEq, Eq)]
pub struct CookieConfig {
    pub name: String,
    pub secure: bool,
    pub http_only: bool,
    pub same_site: String,
    pub domain: Option<String>,
    pub path: String,
    pub max_age_seconds: i64,
}

/// Why the cookie settings cannot be read, if they cannot.
pub open spec fn cookie_config_error(vars: Seq<(String, String)>) -> Option<Seq<char>> {
    if parse_i64_spec(var_or(vars, "COOKIE_MAX_AGE_SECONDS"@, "604800"@)) is None {
        Some("COOKIE_MAX_AGE_SECONDS must be a number"@)
    } else {
        None
    }
}

/// The cookie settings read from the environment.
pub open spec fn cookie_config_matches(vars: Seq<(String, String)>, c: CookieConfig) -> bool {
    &&& c.name@ == trim_spec(var_or(vars, "COOKIE_NAME"@, "refresh_token"@), TrimKind::Quote)
    &&& c.secure == match parse_bool_spec(var_or(vars, "COOKIE_SECURE"@, "true"@)) {
        Some(b) => b,
        None => true,
    }
    &&& c.http_only == match parse_bool_spec(var_or(vars, "COOKIE_HTTP_ONLY"@, "true"@)) {
        Some(b) => b,
        None => true,
    }
    &&& c.same_site@ == trim_spec(var_or(vars, "COOKIE_SAME_SITE"@, "Strict"@), TrimKind::Quote)
    &&& match env_lookup(vars, "COOKIE_DOMAIN"@) {
        Some(d) => c.domain matches Some(cd) && cd@ == trim_spec(d, TrimKind::Quote),
        None => c.domain is None,
    }
    &&& c.path@ == trim_spec(var_or(vars, "COOKIE_PATH"@, "/api/v1/auth/refresh"@), TrimKind::Quote)
    &&& Some(c.max_age_seconds as int) == parse_i64_spec(var_or(vars, "COOKIE_MAX_AGE_SECONDS"@, "604800"@))
}

impl CookieConfig {
    /// Reads COOKIE_NAME (default "refresh_token"), COOKIE_SECURE and
    /// COOKIE_HTTP_ONLY (default true, and true when malformed),
    /// COOKIE_SAME_SITE (default "Strict"), COOKIE_DOMAIN (optional),
    /// COOKIE_PATH (default "/api/v1/auth/refresh") and
    /// COOKIE_MAX_AGE_SECONDS (default 604800); surrounding double quotes
    /// are removed from the text settings.
    pub fn from_env(env: &EnvVars) -> (r: Result<CookieConfig, ConfigError>)
        ensures
            match cookie_config_error(env.vars@) {
                None => r matches Ok(c) && cookie_config_matches(env.vars@, c),
                Some(m) => r matches Err(e) && e.message@ == m,
            },
    {
        let raw_name = env.var_or("COOKIE_NAME", "refresh_token");
        let name = trim_kind(raw_name.as_str(), TrimKind::Quote);
        let secure = flag_var(env, "COOKIE_SECURE", "true", true);
        let http_only = flag_var(env, "COOKIE_HTTP_ONLY", "true", true);
        let raw_same_site = env.var_or("COOKIE_SAME_SITE", "Strict");
        let same_site = trim_kind(raw_same_site.as_str(), TrimKind::Quote);
        let domain = match env.get("COOKIE_DOMAIN") {
            Some(d) => Some(trim_kind(d.as_str(), TrimKind::Quote)),
            None => None,
        };
        let raw_path = env.var_or("COOKIE_PATH", "/api/v1/auth/refresh");
        let path = trim_kind(raw_path.as_str(), TrimKind::Quote);
        let raw_max_age = env.var_or("COOKIE_MAX_AGE_SECONDS", "604800");
        let max_age_seconds = match parse_i64(raw_max_age.as_str()) {
            Some(v) => v,
            None => return Err(error_with("COOKIE_MAX_AGE_SECONDS must be a number")),
        };
        Ok(CookieConfig { name, secure, http_only, same_site, domain, path, max_age_seconds })
    }
}

/// Cross-origin settings.
#[derive(Debug, Clone, PartialEq, Eq)]
pub struct CorsConfig {
    /// Comma-separated list of allowed origins
    pub allowed_origins: Vec<String>,
    pub allow_credentials: bool,
}

/// The entries of a comma-separated list: each entry with its
/// surrounding white space removed, empty entries dropped.
pub open spec fn comma_list(raw: Seq<char>) -> Seq<Seq<char>> {
    split_by(raw, split_pred(SplitKind::Comma))
        .map_values(|f: Seq<char>| trim_spec(f, TrimKind::Whitespace))
        .filter(|w: Seq<char>| is_nonempty(w))
}

/// The allowed origins in a comma-separated list.
pub open spec fn origins_spec(raw: Seq<char>) -> Seq<Seq<char>> {
    comma_list(raw)
}

/// The cross-origin settings read from the environment.
pub open spec fn cors_config_matches(vars: Seq<(String, String)>, c: CorsConfig) -> bool {
    &&& views(c.allowed_origins@) == origins_spec(var_or(vars, "CORS_ALLOWED_ORIGINS"@, ""@))
    &&& c.allow_credentials == match parse_bool_spec(var_or(vars, "CORS_ALLOW_CREDENTIALS"@, "false"@)) {
        Some(b) => b,
        None => false,
    }
}

/// Trims every string of a list.
fn trim_all(v: Vec<String>) -> (r: Vec<String>)
    ensures
        views(r@) == views(v@).map_values(|f: Seq<char>| trim_spec(f, TrimKind::Whitespace)),
{
    let mut out: Vec<String> = Vec::new();
    let n = v.len();
    let mut i: usize = 0;
    while i < n
        invariant
            n == v@.len(),
            i <= n,
            out@.len() == i,
            forall|k: int| 0 <= k < i ==> (#[trigger] out@[k])@ == trim_spec(v@[k]@, TrimKind::Whitespace),
        decreases n - i,
    {
        out.push(trim_kind(v[i].as_str(), TrimKind::Whitespace));
        i = i + 1;
    }
    assert(views(out@) =~= views(v@).map_values(|f: Seq<char>| trim_spec(f, TrimKind::Whitespace)));
    out
}

/// The entries of a comma-separated list, trimmed, empty ones dropped.
fn comma_list_of(raw: &str) -> (r: Vec<String>)
    ensures
        views(r@) == comma_list(raw@),
{
    let fields = split_fields(raw, SplitKind::Comma);
    let trimmed = trim_all(fields);
    crate::text::keep_nonempty(trimmed)
}

impl CorsConfig {
    /// Reads CORS_ALLOWED_ORIGINS (a comma-separated list, default empty)
    /// and CORS_ALLOW_CREDENTIALS (default false, and false when malformed).
    pub fn from_env(env: &EnvVars) -> (r: Result<CorsConfig, ConfigError>)
        ensures
            r matches Ok(c) && cors_config_matches(env.vars@, c),
    {
        let raw = env.var_or("CORS_ALLOWED_ORIGINS", "");
        let origins = comma_list_of(raw.as_str());
        let allow_credentials = flag_var(env, "CORS_ALLOW_CREDENTIALS", "false", false);
        Ok(CorsConfig { allowed_origins: origins, allow_credentials })
    }
}

/// Rate limiting settings.
#[derive(Debug, Clone, PartialEq, Eq)]
pub struct RateLimitConfig {
    /// Max requests per window per IP
    pub per_ip: u32,
    /// Window size in seconds
    pub window_seconds: u64,
    /// Burst allowance above the base limit
    pub burst: u32,
}

/// Why the rate limiting settings cannot be read, if they cannot.
pub open spec fn rate_limit_config_error(vars: Seq<(String, String)>) -> Option<Seq<char>> {
    if parse_unsigned(var_or(vars, "RATE_LIMIT_PER_IP"@, "100"@), 4294967295) is None {
        Some("RATE_LIMIT_PER_IP must be a number"@)
    } else if parse_unsigned(var_or(vars, "RATE_LIMIT_WINDOW_SECONDS"@, "60"@), 18446744073709551615) is None {
        Some("RATE_LIMIT_WINDOW_SECONDS must be a number"@)
    } else if parse_unsigned(var_or(vars, "RATE_LIMIT_BURST"@, "150"@), 4294967295) is None {
        Some("RATE_LIMIT_BURST must be a number"@)
    } else {
        None
    }
}

/// The rate limiting settings read from the environment.
pub open spec fn rate_limit_config_matches(vars: Seq<(String, String)>, c: RateLimitConfig) -> bool {
    &&& Some(c.per_ip as int) == parse_unsigned(var_or(vars, "RATE_LIMIT_PER_IP"@, "100"@), 4294967295)
    &&& Some(c.window_seconds as int) == parse_unsigned(var_or(vars, "RATE_LIMIT_WINDOW_SECONDS"@, "60"@), 18446744073709551615)
    &&& Some(c.burst as int) == parse_unsigned(var_or(vars, "RATE_LIMIT_BURST"@, "150"@), 4294967295)
}

impl RateLimitConfig {
    /// Reads RATE_LIMIT_PER_IP (default 100), RATE_LIMIT_WINDOW_SECONDS
    /// (default 60) and RATE_LIMIT_BURST (default 150).
    pub fn from_env(env: &EnvVars) -> (r: Result<RateLimitConfig, ConfigError>)
        ensures
            match rate_limit_config_error(env.vars@) {
                None => r matches Ok(c) && rate_limit_config_matches(env.vars@, c),
                Some(m) => r matches Err(e) && e.message@ == m,
            },
    {
        let per_ip = number_var(env, "RATE_LIMIT_PER_IP", "100", 4294967295, "RATE_LIMIT_PER_IP must be a number")?;
        let window = number_var(env, "RATE_LIMIT_WINDOW_SECONDS", "60", 18446744073709551615, "RATE_LIMIT_WINDOW_SECONDS must be a number")?;
        let burst = number_var(env, "RATE_LIMIT_BURST", "150", 4294967295, "RATE_LIMIT_BURST must be a number")?;
        Ok(RateLimitConfig { per_ip: per_ip as u32, window_seconds: window, burst: burst as u32 })
    }
}

/// Image hosting credentials.
#[derive(Debug, Clone, PartialEq, Eq)]
pub struct CloudinaryConfig {
    pub cloud_name: String,
    pub api_key: String,
    pub api_secret: String,
}

/// Why the image hosting credentials cannot be read, if they cannot.
pub open spec fn cloudinary_config_error(vars: Seq<(String, String)>) -> Option<Seq<char>> {
    if env_lookup(vars, "CLOUDINARY_CLOUD_NAME"@) is None {
        Some("CLOUDINARY_CLOUD_NAME must be set"@)
    } else if env_lookup(vars, "CLOUDINARY_API_KEY"@) is None {
        Some("CLOUDINARY_API_KEY must be set"@)
    } else if env_lookup(vars, "CLOUDINARY_API_SECRET"@) is None {
        Some("CLOUDINARY_API_SECRET must be set"@)
    } else {
        None
    }
}

/// The image hosting credentials read from the environment.
pub open spec fn cloudinary_config_matches(vars: Seq<(String, String)>, c: CloudinaryConfig) -> bool {
    &&& env_lookup(vars, "CLOUDINARY_CLOUD_NAME"@) == Some(c.cloud_name@)
    &&& env_lookup(vars, "CLOUDINARY_API_KEY"@) == Some(c.api_key@)
    &&& env_lookup(vars, "CLOUDINARY_API_SECRET"@) == Some(c.api_secret@)
}

impl CloudinaryConfig {
    /// Reads CLOUDINARY_CLOUD_NAME, CLOUDINARY_API_KEY and
    /// CLOUDINARY_API_SECRET, all required.
    pub fn from_env(env: &EnvVars) -> (r: Result<CloudinaryConfig, ConfigError>)
        ensures
            match cloudinary_config_error(env.vars@) {
                None => r matches Ok(c) && cloudinary_config_matches(env.vars@, c),
                Some(m) => r matches Err(e) && e.message@ == m,
            },
    {
        let cloud_name = required_var(env, "CLOUDINARY_CLOUD_NAME", "CLOUDINARY_CLOUD_NAME must be set")?;
        let api_key = required_var(env, "CLOUDINARY_API_KEY", "CLOUDINARY_API_KEY must be set")?;
        let api_secret = required_var(env, "CLOUDINARY_API_SECRET", "CLOUDINARY_API_SECRET must be set")?;
        Ok(CloudinaryConfig { cloud_name, api_key, api_secret })
    }

    /// The image upload endpoint of the account.
    pub fn upload_url(&self) -> (r: String)
        ensures
            r@ == "https://api.cloudinary.com/v1_1/"@ + self.cloud_name@ + "/image/upload"@,
    {
        let mut s = String::new();
        push_str(&mut s, "https://api.cloudinary.com/v1_1/");
        push_str(&mut s, self.cloud_name.as_str());
        push_str(&mut s, "/image/upload");
        assert(s@ =~= "https://api.cloudinary.com/v1_1/"@ + self.cloud_name@ + "/image/upload"@);
        s
    }

    /// The image deletion endpoint of the account.
    pub fn destroy_url(&self) -> (r: String)
        ensures
            r@ == "https://api.cloudinary.com/v1_1/"@ + self.cloud_name@ + "/image/destroy"@,
    {
        let mut s = String::new();
        push_str(&mut s, "https://api.cloudinary.com/v1_1/");
        push_str(&mut s, self.cloud_name.as_str());
        push_str(&mut s, "/image/destroy");
        assert(s@ =~= "https://api.cloudinary.com/v1_1/"@ + self.cloud_name@ + "/image/destroy"@);
        s
    }
}

/// All settings of the service.
#[derive(Debug, Clone, PartialEq, Eq)]
pub struct Config {
    pub app: AppConfig,
    pub database: DatabaseConfig,
    pub redis: RedisConfig,
    pub auth: AuthConfig,
    pub cookie: CookieConfig,
    pub cors: CorsConfig,
    pub rate_limit: RateLimitConfig,
    pub cloudinary: CloudinaryConfig,
}

/// The first problem with the settings, in the order the groups are read.
pub open spec fn config_error(vars: Seq<(String, String)>) -> Option<Seq<char>> {
    if app_config_error(vars) is Some {
        app_config_error(vars)
    } else if database_config_error(vars) is Some {
        database_config_error(vars)
    } else if redis_config_error(vars) is Some {
        redis_config_error(vars)
    } else if auth_config_error(vars) is Some {
        auth_config_error(vars)
    } else if cookie_config_error(vars) is Some {
        cookie_config_error(vars)
    } else if rate_limit_config_error(vars) is Some {
        rate_limit_config_error(vars)
    } else {
        cloudinary_config_error(vars)
    }
}

/// Every settings group read from the environment.
pub open spec fn config_matches(vars: Seq<(String, String)>, c: Config) -> bool {
    &&& app_config_matches(vars, c.app)
    &&& database_config_matches(vars, c.database)
    &&& redis_config_matches(vars, c.redis)
    &&& auth_config_matches(vars, c.auth)
    &&& cookie_config_matches(vars, c.cookie)
    &&& cors_config_matches(vars, c.cors)
    &&& rate_limit_config_matches(vars, c.rate_limit)
    &&& cloudinary_config_matches(vars, c.cloudinary)
}

impl Config {
    /// Reads every settings group; fails with the first problem found.
    pub fn from_env(env: &EnvVars) -> (r: Result<Config, ConfigError>)
        ensures
            match config_error(env.vars@) {
                None => r matches Ok(c) && config_matches(env.vars@, c),
                Some(m) => r matches Err(e) && e.message@ == m,
            },
    {
        let app = AppConfig::from_env(env)?;
        let database = DatabaseConfig::from_env(env)?;
        let redis = RedisConfig::from_env(env)?;
        let auth = AuthConfig::from_env(env)?;
        let cookie = CookieConfig::from_env(env)?;
        let cors = CorsConfig::from_env(env)?;
        let rate_limit = RateLimitConfig::from_env(env)?;
        let cloudinary = CloudinaryConfig::from_env(env)?;
        Ok(Config { app, database, redis, auth, cookie, cors, rate_limit, cloudinary })
    }

    /// Whether the service runs in production.
    pub fn is_production(&self) -> (r: bool)
        ensures
            r == (self.app.env is Production),
    {
        match self.app.env {
            AppEnv::Production => true,
            AppEnv::Development => false,
        }
    }
}

} // verus!

verus! {

/// An unset numeric variable reads as its default's value.
proof fn lemma_number_default(vars: Seq<(String, String)>, key: Seq<char>, default: Seq<char>, n: nat, max: int)
    requires
        env_lookup(vars, key) is None,
        default == decimal_digits(n),
        n <= max,
    ensures
        parse_unsigned(var_or(vars, key, default), max) == Some(n as int),
{
    crate::text::lemma_decimal_round_trip(n, max, 0);
}

/// A numeric variable set to the decimal text of a value in range reads
/// as that value.
proof fn lemma_number_set(vars: Seq<(String, String)>, key: Seq<char>, default: Seq<char>, n: nat, max: int)
    requires
        env_lookup(vars, key) == Some(decimal_digits(n)),
        n <= max,
    ensures
        parse_unsigned(var_or(vars, key, default), max) == Some(n as int),
{
    crate::text::lemma_decimal_round_trip(n, max, 0);
}

/// Unset server, database and cache variables take their defaults: host
/// 0.0.0.0, port 8080, 4 workers, development; 10 database connections
/// with a 5 s timeout; no cache URL, 10 cache connections, a 2 s timeout
/// and no caching. A numeric variable set to a number in range is read
/// as that number.
pub proof fn lemma_server_defaults(vars: Seq<(String, String)>, c: Config, n: nat)
    requires
        config_matches(vars, c),
    ensures
        env_lookup(vars, "HOST"@) is None ==> c.app.host@ == "0.0.0.0"@,
        env_lookup(vars, "PORT"@) is None ==> c.app.port == 8080,
        env_lookup(vars, "WORKERS"@) is None ==> c.app.workers == 4,
        env_lookup(vars, "APP_ENV"@) is None ==> c.app.env == AppEnv::Development,
        env_lookup(vars, "APP_ENV"@) == Some("production"@) ==> c.app.env == AppEnv::Production,
        env_lookup(vars, "DATABASE_POOL_SIZE"@) is None ==> c.database.pool_size == 10,
        env_lookup(vars, "DATABASE_TIMEOUT_SECONDS"@) is None ==> c.database.timeout_secs == 5,
        env_lookup(vars, "REDIS_URL"@) is None ==> c.redis.url@.len() == 0,
        env_lookup(vars, "REDIS_POOL_SIZE"@) is None ==> c.redis.pool_size == 10,
        env_lookup(vars, "REDIS_TIMEOUT_SECONDS"@) is None ==> c.redis.timeout_secs == 2,
        env_lookup(vars, "USE_REDIS_CACHE"@) is None ==> !c.redis.use_cache,
        env_lookup(vars, "PORT"@) == Some(decimal_digits(n)) && n <= 65535 ==> c.app.port == n,
        env_lookup(vars, "DATABASE_POOL_SIZE"@) == Some(decimal_digits(n)) && n <= 4294967295
            ==> c.database.pool_size == n,
{
    reveal_strlit("0.0.0.0");
    reveal_strlit("8080");
    reveal_strlit("4");
    reveal_strlit("10");
    reveal_strlit("5");
    reveal_strlit("2");
    reveal_strlit("");
    reveal_strlit("false");
    reveal_strlit("development");
    reveal_strlit("production");
    reveal_with_fuel(decimal_digits, 5);
    assert(decimal_digits(8080) =~= "8080"@);
    assert(decimal_digits(4) =~= "4"@);
    assert(decimal_digits(10) =~= "10"@);
    assert(decimal_digits(5) =~= "5"@);
    assert(decimal_digits(2) =~= "2"@);
    assert("false"@ =~= seq!['f', 'a', 'l', 's', 'e']);
    assert("development"@ != "production"@) by { assert("development"@[0] != "production"@[0]); }
    if env_lookup(vars, "PORT"@) is None {
        lemma_number_default(vars, "PORT"@, "8080"@, 8080, 65535);
    }
    if env_lookup(vars, "WORKERS"@) is None {
        lemma_number_default(vars, "WORKERS"@, "4"@, 4, usize::MAX as int);
    }
    if env_lookup(vars, "DATABASE_POOL_SIZE"@) is None {
        lemma_number_default(vars, "DATABASE_POOL_SIZE"@, "10"@, 10, 4294967295);
    }
    if env_lookup(vars, "DATABASE_TIMEOUT_SECONDS"@) is None {
        lemma_number_default(vars, "DATABASE_TIMEOUT_SECONDS"@, "5"@, 5, 18446744073709551615);
    }
    if env_lookup(vars, "REDIS_POOL_SIZE"@) is None {
        lemma_number_default(vars, "REDIS_POOL_SIZE"@, "10"@, 10, usize::MAX as int);
    }
    if env_lookup(vars, "REDIS_TIMEOUT_SECONDS"@) is None {
        lemma_number_default(vars, "REDIS_TIMEOUT_SECONDS"@, "2"@, 2, 18446744073709551615);
    }
    if env_lookup(vars, "PORT"@) == Some(decimal_digits(n)) && n <= 65535 {
        lemma_number_set(vars, "PORT"@, "8080"@, n, 65535);
    }
    if env_lookup(vars, "DATABASE_POOL_SIZE"@) == Some(decimal_digits(n)) && n <= 4294967295 {
        lemma_number_set(vars, "DATABASE_POOL_SIZE"@, "10"@, n, 4294967295);
    }
}

/// Unset authentication and rate-limit variables take their defaults:
/// refresh tokens live 7 days and have 32 random bytes, 5 failed logins
/// lock an account for 15 minutes; 100 requests per IP in a 60 s window,
/// with a burst of 150.
pub proof fn lemma_auth_and_rate_defaults(vars: Seq<(String, String)>, c: Config)
    requires
        config_matches(vars, c),
    ensures
        env_lookup(vars, "REFRESH_TOKEN_TTL_DAYS"@) is None ==> c.auth.refresh_token_ttl_days == 7,
        env_lookup(vars, "REFRESH_TOKEN_LENGTH_BYTES"@) is None ==> c.auth.refresh_token_length_bytes == 32,
        env_lookup(vars, "FAILED_LOGIN_THRESHOLD"@) is None ==> c.auth.failed_login_threshold == 5,
        env_lookup(vars, "FAILED_LOGIN_LOCKOUT_MINUTES"@) is None ==> c.auth.failed_login_lockout_minutes == 15,
        env_lookup(vars, "RATE_LIMIT_PER_IP"@) is None ==> c.rate_limit.per_ip == 100,
        env_lookup(vars, "RATE_LIMIT_WINDOW_SECONDS"@) is None ==> c.rate_limit.window_seconds == 60,
        env_lookup(vars, "RATE_LIMIT_BURST"@) is None ==> c.rate_limit.burst == 150,
{
    reveal_strlit("7");
    reveal_strlit("32");
    reveal_strlit("5");
    reveal_strlit("15");
    reveal_strlit("100");
    reveal_strlit("60");
    reveal_strlit("150");
    reveal_with_fuel(decimal_digits, 4);
    assert(decimal_digits(7) =~= "7"@);
    assert(decimal_digits(32) =~= "32"@);
    assert(decimal_digits(5) =~= "5"@);
    assert(decimal_digits(15) =~= "15"@);
    assert(decimal_digits(100) =~= "100"@);
    assert(decimal_digits(60) =~= "60"@);
    assert(decimal_digits(150) =~= "150"@);
    if env_lookup(vars, "REFRESH_TOKEN_TTL_DAYS"@) is None {
        lemma_number_default(vars, "REFRESH_TOKEN_TTL_DAYS"@, "7"@, 7, 18446744073709551615);
    }
    if env_lookup(vars, "REFRESH_TOKEN_LENGTH_BYTES"@) is None {
        lemma_number_default(vars, "REFRESH_TOKEN_LENGTH_BYTES"@, "32"@, 32, usize::MAX as int);
    }
    if env_lookup(vars, "FAILED_LOGIN_THRESHOLD"@) is None {
        lemma_number_default(vars, "FAILED_LOGIN_THRESHOLD"@, "5"@, 5, 4294967295);
    }
    if env_lookup(vars, "FAILED_LOGIN_LOCKOUT_MINUTES"@) is None {
        lemma_number_default(vars, "FAILED_LOGIN_LOCKOUT_MINUTES"@, "15"@, 15, 18446744073709551615);
    }
    if env_lookup(vars, "RATE_LIMIT_PER_IP"@) is None {
        lemma_number_default(vars, "RATE_LIMIT_PER_IP"@, "100"@, 100, 4294967295);
    }
    if env_lookup(vars, "RATE_LIMIT_WINDOW_SECONDS"@) is None {
        lemma_number_default(vars, "RATE_LIMIT_WINDOW_SECONDS"@, "60"@, 60, 18446744073709551615);
    }
    if env_lookup(vars, "RATE_LIMIT_BURST"@) is None {
        lemma_number_default(vars, "RATE_LIMIT_BURST"@, "150"@, 150, 4294967295);
    }
}

} // verus!

verus! {

/// Unset cookie variables take their defaults: the cookie is named
/// "refresh_token", is secure and HTTP-only, strictly same-site, scoped
/// to "/api/v1/auth/refresh" and kept 604 800 s (7 days). Surrounding
/// double quotes are removed from the name, SameSite and path settings.
pub proof fn lemma_cookie_defaults(vars: Seq<(String, String)>, c: Config, v: Seq<char>)
    requires
        config_matches(vars, c),
    ensures
        env_lookup(vars, "COOKIE_NAME"@) is None ==> c.cookie.name@ == "refresh_token"@,
        env_lookup(vars, "COOKIE_SECURE"@) is None ==> c.cookie.secure,
        env_lookup(vars, "COOKIE_HTTP_ONLY"@) is None ==> c.cookie.http_only,
        env_lookup(vars, "COOKIE_SAME_SITE"@) is None ==> c.cookie.same_site@ == "Strict"@,
        env_lookup(vars, "COOKIE_PATH"@) is None ==> c.cookie.path@ == "/api/v1/auth/refresh"@,
        env_lookup(vars, "COOKIE_MAX_AGE_SECONDS"@) is None ==> c.cookie.max_age_seconds == 604800,
        env_lookup(vars, "COOKIE_DOMAIN"@) is None ==> c.cookie.domain is None,
        env_lookup(vars, "COOKIE_SAME_SITE"@) == Some(seq!['"'] + "Lax"@ + seq!['"'])
            ==> c.cookie.same_site@ == "Lax"@,
{
    reveal_strlit("refresh_token");
    reveal_strlit("true");
    reveal_strlit("Strict");
    reveal_strlit("Lax");
    reveal_strlit("/api/v1/auth/refresh");
    reveal_strlit("604800");
    let q = trim_pred(TrimKind::Quote);
    assert("true"@ =~= seq!['t', 'r', 'u', 'e']);
    assert(strip_front("refresh_token"@, q) == "refresh_token"@);
    assert(strip_back("refresh_token"@, q) == "refresh_token"@);
    assert(strip_front("Strict"@, q) == "Strict"@);
    assert(strip_back("Strict"@, q) == "Strict"@);
    assert(strip_front("/api/v1/auth/refresh"@, q) == "/api/v1/auth/refresh"@);
    assert(strip_back("/api/v1/auth/refresh"@, q) == "/api/v1/auth/refresh"@);
    let quoted = seq!['"'] + "Lax"@ + seq!['"'];
    assert(quoted.drop_first() =~= "Lax"@ + seq!['"']);
    assert(strip_front("Lax"@ + seq!['"'], q) == "Lax"@ + seq!['"']);
    assert(strip_front(quoted, q) == "Lax"@ + seq!['"']);
    assert(("Lax"@ + seq!['"']).drop_last() =~= "Lax"@);
    assert(strip_back("Lax"@, q) == "Lax"@);
    assert(strip_back("Lax"@ + seq!['"'], q) == "Lax"@);
    reveal_with_fuel(decimal_digits, 7);
    assert(decimal_digits(604800) =~= "604800"@);
    crate::text::lemma_decimal_round_trip(0, 0, 604800);
    assert(crate::text::int_decimal(604800) == decimal_digits(604800));
}

} // verus!

verus! {

/// The entries of a comma-separated setting (the allowed origins, the
/// cache URLs) are exactly its non-empty trimmed pieces between commas:
/// each entry is non-empty, holds no comma, and neither starts nor ends
/// with white space, and without a non-blank character there are none.
pub proof fn lemma_comma_list_entries(raw: Seq<char>)
    ensures
        forall|i: int| 0 <= i < comma_list(raw).len() ==> (#[trigger] comma_list(raw)[i]).len() > 0,
        forall|i: int, j: int| 0 <= i < comma_list(raw).len() && 0 <= j < comma_list(raw)[i].len()
            ==> #[trigger] comma_list(raw)[i][j] != ',',
        forall|i: int| 0 <= i < comma_list(raw).len()
            ==> !crate::text::unicode_whitespace((#[trigger] comma_list(raw)[i])[0])
                && !crate::text::unicode_whitespace(comma_list(raw)[i].last()),
        raw.len() == 0 ==> comma_list(raw).len() == 0,
{
    let f = split_by(raw, split_pred(SplitKind::Comma));
    let t = f.map_values(|x: Seq<char>| trim_spec(x, TrimKind::Whitespace));
    let nz = |w: Seq<char>| is_nonempty(w);
    crate::text::lemma_comma_split(raw);
    assert forall|i: int| 0 <= i < comma_list(raw).len() implies (#[trigger] comma_list(raw)[i]).len() > 0
        && t.contains(comma_list(raw)[i]) by {
        t.lemma_filter_pred(nz, i);
        assert(t.filter(nz).contains(t.filter(nz)[i]));
        t.lemma_filter_contains_rev(nz, t.filter(nz)[i]);
    }
    assert forall|i: int| 0 <= i < comma_list(raw).len() implies
        (forall|j: int| 0 <= j < comma_list(raw)[i].len() ==> #[trigger] comma_list(raw)[i][j] != ',')
        && !crate::text::unicode_whitespace(comma_list(raw)[i][0])
        && !crate::text::unicode_whitespace(comma_list(raw)[i].last()) by {
        let e = comma_list(raw)[i];
        let k = choose|k: int| 0 <= k < t.len() && t[k] == e;
        crate::text::lemma_trim_shape(f[k], TrimKind::Whitespace);
        let (a, b) = choose|a: int, b: int| 0 <= a <= b <= f[k].len()
            && trim_spec(f[k], TrimKind::Whitespace) == f[k].subrange(a, b);
        assert forall|j: int| 0 <= j < e.len() implies #[trigger] e[j] != ',' by {
            assert(e[j] == f[k][a + j]);
        }
    }
    if raw.len() == 0 {
        assert(f =~= seq![Seq::<char>::empty()]);
        assert(t =~= seq![trim_spec(Seq::<char>::empty(), TrimKind::Whitespace)]);
        assert(trim_spec(Seq::<char>::empty(), TrimKind::Whitespace).len() == 0);
        if comma_list(raw).len() > 0 {
            let e = comma_list(raw)[0];
            assert(t.contains(e) && e.len() > 0);
            let k = choose|k: int| 0 <= k < t.len() && t[k] == e;
            assert(k == 0);
        }
    }
}

} // verus!
