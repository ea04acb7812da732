use warehouse_management_system_backend::config::RedisConfig;
use warehouse_management_system_backend::errors::AppError;
use warehouse_management_system_backend::redis::keys::{failed_login, lockout, rate_limit, refresh_token, token_blacklist};
use warehouse_management_system_backend::redis::{deleted_any, pool_precheck};

#[test]
fn key_names() {
    assert_eq!(refresh_token("abc"), "wms:refresh_token:abc");
    assert_eq!(failed_login("a@b.c"), "wms:failed_login:a@b.c");
    assert_eq!(lockout("a@b.c"), "wms:lockout:a@b.c");
    assert_eq!(rate_limit("10.0.0.1"), "wms:rate_limit:10.0.0.1");
    assert_eq!(token_blacklist("jti-1"), "wms:blacklist:jti-1");
}

#[test]
fn keys_of_different_kinds_differ() {
    let inputs = ["", "x", "refresh_token:x", "lockout:", "wms:"];
    for a in inputs {
        for b in inputs {
            let keys = [refresh_token(a), failed_login(b), lockout(b), rate_limit(b), token_blacklist(b)];
            for k in &keys[1..] {
                assert_ne!(&keys[0], k);
            }
        }
    }
}

#[test]
fn pool_needs_a_url() {
    let empty = RedisConfig { url: String::new(), pool_size: 10, timeout_secs: 2, use_cache: false };
    assert_eq!(
        pool_precheck(&empty),
        Err(AppError::Internal("REDIS_URLS is empty — at least one Redis URL is required".to_string()))
    );
    let blank = RedisConfig { url: " , ,".to_string(), ..empty.clone() };
    assert_eq!(
        pool_precheck(&blank),
        Err(AppError::Internal("REDIS_URLS is empty — at least one Redis URL is required".to_string()))
    );
    let set = RedisConfig { url: "redis://localhost".to_string(), ..empty };
    assert_eq!(pool_precheck(&set), Ok(vec!["redis://localhost".to_string()]));
}

#[test]
fn redis_url_list_is_split() {
    let c = RedisConfig {
        url: " redis://a:6379 ,redis://b:6379,, redis://c:6379".to_string(),
        pool_size: 10,
        timeout_secs: 2,
        use_cache: false,
    };
    assert_eq!(c.urls(), vec!["redis://a:6379", "redis://b:6379", "redis://c:6379"]);
    assert_eq!(pool_precheck(&c).unwrap().len(), 3);
    let one = RedisConfig { url: "redis://a:6379".to_string(), ..c };
    assert_eq!(one.urls(), vec!["redis://a:6379"]);
}

#[test]
fn deletion_count() {
    assert!(deleted_any(1));
    assert!(!deleted_any(0));
    assert!(!deleted_any(-1));
}
