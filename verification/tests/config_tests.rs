use warehouse_management_system_backend::config::{
    AppConfig, AppEnv, AuthConfig, CloudinaryConfig, Config, CookieConfig, CorsConfig,
    DatabaseConfig, EnvVars, RateLimitConfig, RedisConfig,
};

fn env(pairs: &[(&str, &str)]) -> EnvVars {
    let mut e = EnvVars::new();
    for (k, v) in pairs {
        e.set(k.to_string(), v.to_string());
    }
    e
}

fn required() -> Vec<(&'static str, &'static str)> {
    vec![
        ("DATABASE_URL", "postgres://localhost/wms"),
        ("PASETO_SYMMETRIC_KEY", KEY),
        ("REFRESH_TOKEN_HMAC_SECRET", "secret"),
        ("CLOUDINARY_CLOUD_NAME", "demo"),
        ("CLOUDINARY_API_KEY", "123"),
        ("CLOUDINARY_API_SECRET", "shh"),
    ]
}

#[test]
fn env_lookup_takes_first_value() {
    let e = env(&[("A", "1"), ("B", "2"), ("A", "3")]);
    assert_eq!(e.get("A"), Some("1".to_string()));
    assert_eq!(e.get("B"), Some("2".to_string()));
    assert_eq!(e.get("C"), None);
    assert_eq!(e.var_or("C", "dflt"), "dflt");
}

#[test]
fn app_config_defaults() {
    let c = AppConfig::from_env(&env(&[])).unwrap();
    assert_eq!(c.env, AppEnv::Development);
    assert_eq!(c.host, "0.0.0.0");
    assert_eq!(c.port, 8080);
    assert_eq!(c.workers, 4);
    assert_eq!(c.socket_addr(), "0.0.0.0:8080");
}

#[test]
fn app_config_reads_values() {
    let c = AppConfig::from_env(&env(&[("APP_ENV", "production"), ("HOST", "127.0.0.1"), ("PORT", "3000"), ("WORKERS", "8")])).unwrap();
    assert_eq!(c.env, AppEnv::Production);
    assert_eq!(c.socket_addr(), "127.0.0.1:3000");
    assert_eq!(c.workers, 8);
    let staging = AppConfig::from_env(&env(&[("APP_ENV", "Production")])).unwrap();
    assert_eq!(staging.env, AppEnv::Development);
}

#[test]
fn app_config_rejects_bad_numbers() {
    let e = AppConfig::from_env(&env(&[("PORT", "70000")])).unwrap_err();
    assert_eq!(e.message, "PORT must be a valid number");
    let e = AppConfig::from_env(&env(&[("WORKERS", "four")])).unwrap_err();
    assert_eq!(e.message, "WORKERS must be a valid number");
    let e = AppConfig::from_env(&env(&[("PORT", "x"), ("WORKERS", "y")])).unwrap_err();
    assert_eq!(e.message, "PORT must be a valid number");
}

#[test]
fn database_config_requires_url() {
    let e = DatabaseConfig::from_env(&env(&[])).unwrap_err();
    assert_eq!(e.message, "DATABASE_URL must be set");
    let c = DatabaseConfig::from_env(&env(&[("DATABASE_URL", "pg://x")])).unwrap();
    assert_eq!(c.url, "pg://x");
    assert_eq!(c.pool_size, 10);
    assert_eq!(c.timeout_secs, 5);
    let e = DatabaseConfig::from_env(&env(&[("DATABASE_URL", "pg://x"), ("DATABASE_POOL_SIZE", "-1")])).unwrap_err();
    assert_eq!(e.message, "DATABASE_POOL_SIZE must be a number");
    let e = DatabaseConfig::from_env(&env(&[("DATABASE_URL", "pg://x"), ("DATABASE_TIMEOUT_SECONDS", "1.5")])).unwrap_err();
    assert_eq!(e.message, "DATABASE_TIMEOUT_SECONDS must be a number");
}

#[test]
fn redis_config_defaults_and_flag() {
    let c = RedisConfig::from_env(&env(&[])).unwrap();
    assert_eq!(c.url, "");
    assert_eq!(c.pool_size, 10);
    assert_eq!(c.timeout_secs, 2);
    assert!(!c.use_cache);
    let c = RedisConfig::from_env(&env(&[("USE_REDIS_CACHE", "true"), ("REDIS_URL", "redis://r")])).unwrap();
    assert!(c.use_cache);
    assert_eq!(c.url, "redis://r");
    let c = RedisConfig::from_env(&env(&[("USE_REDIS_CACHE", "yes")])).unwrap();
    assert!(!c.use_cache);
    let e = RedisConfig::from_env(&env(&[("REDIS_TIMEOUT_SECONDS", "")])).unwrap_err();
    assert_eq!(e.message, "REDIS_TIMEOUT_SECONDS must be a number");
}

/// Base64 of "0123456789abcdef0123456789abcdef" (32 bytes).
const KEY: &str = "MDEyMzQ1Njc4OWFiY2RlZjAxMjM0NTY3ODlhYmNkZWY=";

#[test]
fn paseto_key_must_be_base64_of_32_bytes() {
    let with_key = |k: &str| AuthConfig::from_env(&env(&[("PASETO_SYMMETRIC_KEY", k), ("REFRESH_TOKEN_HMAC_SECRET", "s")]));
    let refused = "PASETO_SYMMETRIC_KEY must be exactly 32 bytes, base64-encoded";
    assert_eq!(with_key(KEY).unwrap().paseto_key, KEY);
    assert!(with_key("AAAAAAAAAAAAAAAAAAAAAAAAAAAAAAAAAAAAAAAAAAA=").is_ok());
    for bad in [
        "k",
        "",
        "AAAAAAAAAAAAAAAAAAAAAAAAAAAAAAAAAAAAAAAAAA==",
        "AAAAAAAAAAAAAAAAAAAAAAAAAAAAAAAAAAAAAAAAAAAA",
        "AAAAAAAAAAAAAAAAAAAAAAAAAAAAAAAAAAAAAAAAAAB=",
        "MDEyMzQ1Njc4OWFiY2RlZjAxMjM0NTY3ODlhYmNkZWY",
        "MDEyMzQ1Njc4OWFiY2RlZjAxMjM0NTY3ODlhYmNkZW*=",
        "MDEyMzQ1Njc4OWFiY2RlZjAxMjM0NTY3ODlhYmNkZWY=\n",
    ] {
        assert_eq!(with_key(bad).unwrap_err().message, refused, "{:?}", bad);
    }
    let e = AuthConfig::from_env(&env(&[("PASETO_SYMMETRIC_KEY", "k")])).unwrap_err();
    assert_eq!(e.message, refused);
}

#[test]
fn auth_config_and_durations() {
    let e = AuthConfig::from_env(&env(&[])).unwrap_err();
    assert_eq!(e.message, "PASETO_SYMMETRIC_KEY must be set");
    let e = AuthConfig::from_env(&env(&[("PASETO_SYMMETRIC_KEY", KEY)])).unwrap_err();
    assert_eq!(e.message, "REFRESH_TOKEN_HMAC_SECRET must be set");
    let c = AuthConfig::from_env(&env(&[("PASETO_SYMMETRIC_KEY", KEY), ("REFRESH_TOKEN_HMAC_SECRET", "s")])).unwrap();
    assert_eq!(c.refresh_token_ttl_days, 7);
    assert_eq!(c.refresh_token_length_bytes, 32);
    assert_eq!(c.failed_login_threshold, 5);
    assert_eq!(c.failed_login_lockout_minutes, 15);
    assert_eq!(c.refresh_token_ttl_seconds(), 604800);
    assert_eq!(c.lockout_seconds(), 900);
    let e = AuthConfig::from_env(&env(&[("PASETO_SYMMETRIC_KEY", KEY), ("REFRESH_TOKEN_HMAC_SECRET", "s"), ("FAILED_LOGIN_THRESHOLD", "4294967296")])).unwrap_err();
    assert_eq!(e.message, "FAILED_LOGIN_THRESHOLD must be a number");
}

#[test]
fn cookie_config_trims_quotes() {
    let c = CookieConfig::from_env(&env(&[])).unwrap();
    assert_eq!(c.name, "refresh_token");
    assert!(c.secure);
    assert!(c.http_only);
    assert_eq!(c.same_site, "Strict");
    assert_eq!(c.domain, None);
    assert_eq!(c.path, "/api/v1/auth/refresh");
    assert_eq!(c.max_age_seconds, 604800);
    let c = CookieConfig::from_env(&env(&[
        ("COOKIE_NAME", "\"rt\""),
        ("COOKIE_SECURE", "false"),
        ("COOKIE_HTTP_ONLY", "nope"),
        ("COOKIE_SAME_SITE", "\"Lax\""),
        ("COOKIE_DOMAIN", "\"example.com\""),
        ("COOKIE_PATH", "\"/\""),
        ("COOKIE_MAX_AGE_SECONDS", "-1"),
    ])).unwrap();
    assert_eq!(c.name, "rt");
    assert!(!c.secure);
    assert!(c.http_only);
    assert_eq!(c.same_site, "Lax");
    assert_eq!(c.domain, Some("example.com".to_string()));
    assert_eq!(c.path, "/");
    assert_eq!(c.max_age_seconds, -1);
    let e = CookieConfig::from_env(&env(&[("COOKIE_MAX_AGE_SECONDS", "week")])).unwrap_err();
    assert_eq!(e.message, "COOKIE_MAX_AGE_SECONDS must be a number");
}

#[test]
fn cors_config_splits_and_trims_origins() {
    let c = CorsConfig::from_env(&env(&[("CORS_ALLOWED_ORIGINS", " https://a.com, ,https://b.com ,"), ("CORS_ALLOW_CREDENTIALS", "true")])).unwrap();
    assert_eq!(c.allowed_origins, vec!["https://a.com", "https://b.com"]);
    assert!(c.allow_credentials);
    let c = CorsConfig::from_env(&env(&[])).unwrap();
    assert!(c.allowed_origins.is_empty());
    assert!(!c.allow_credentials);
}

#[test]
fn rate_limit_config() {
    let c = RateLimitConfig::from_env(&env(&[])).unwrap();
    assert_eq!((c.per_ip, c.window_seconds, c.burst), (100, 60, 150));
    let e = RateLimitConfig::from_env(&env(&[("RATE_LIMIT_BURST", "lots")])).unwrap_err();
    assert_eq!(e.message, "RATE_LIMIT_BURST must be a number");
}

#[test]
fn cloudinary_config_and_urls() {
    let e = CloudinaryConfig::from_env(&env(&[("CLOUDINARY_CLOUD_NAME", "demo")])).unwrap_err();
    assert_eq!(e.message, "CLOUDINARY_API_KEY must be set");
    let c = CloudinaryConfig::from_env(&env(&[("CLOUDINARY_CLOUD_NAME", "demo"), ("CLOUDINARY_API_KEY", "k"), ("CLOUDINARY_API_SECRET", "s")])).unwrap();
    assert_eq!(c.upload_url(), "https://api.cloudinary.com/v1_1/demo/image/upload");
    assert_eq!(c.destroy_url(), "https://api.cloudinary.com/v1_1/demo/image/destroy");
}

#[test]
fn full_config_from_required_variables() {
    let c = Config::from_env(&env(&required())).unwrap();
    assert!(!c.is_production());
    assert_eq!(c.database.url, "postgres://localhost/wms");
    assert_eq!(c.auth.paseto_key, KEY);
    assert_eq!(c.cloudinary.api_secret, "shh");
    assert_eq!(c.cookie.name, "refresh_token");
}

#[test]
fn full_config_reports_first_problem() {
    let e = Config::from_env(&env(&[])).unwrap_err();
    assert_eq!(e.message, "DATABASE_URL must be set");
    let mut vars = required();
    vars.push(("PORT", "http"));
    vars.push(("RATE_LIMIT_PER_IP", "x"));
    let e = Config::from_env(&env(&vars)).unwrap_err();
    assert_eq!(e.message, "PORT must be a valid number");
    let mut vars = required();
    vars.push(("RATE_LIMIT_PER_IP", "x"));
    let e = Config::from_env(&env(&vars)).unwrap_err();
    assert_eq!(e.message, "RATE_LIMIT_PER_IP must be a number");
    let mut vars = required();
    vars.push(("APP_ENV", "production"));
    assert!(Config::from_env(&env(&vars)).unwrap().is_production());
}
