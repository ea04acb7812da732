use warehouse_management_system_backend::access::AuthUser;
use warehouse_management_system_backend::config::{Config, EnvVars};
use warehouse_management_system_backend::errors::AppError;
use warehouse_management_system_backend::handlers::{
    authorize, cleared_cookie, cors_policy, delete_mode, health_outcome, logged_request_id,
    missing_photo_error, photo_field_decision, photo_size_check, refresh_cookie,
    refresh_token_from_cookie, same_site_policy, user_delete_message, warehouse_delete_action, warehouse_delete_message,
    CorsPolicy, DeleteMode, PhotoDecision, Route, SameSitePolicy,
};
use warehouse_management_system_backend::access::RequestId;

fn user(roles: &[&str]) -> AuthUser {
    AuthUser { id: 1, roles: roles.iter().map(|r| r.to_string()).collect() }
}

#[test]
fn route_access_by_role() {
    let open = [Route::GetProfile, Route::ListWarehouses, Route::GetWarehouse, Route::ListRoles, Route::GetRole, Route::DeleteUserPhoto];
    for r in open {
        assert!(authorize(&r, user(&[])).is_ok(), "{:?}", r);
        assert!(authorize(&r, user(&["VIEWER"])).is_ok());
    }
    for r in [Route::ListUsers, Route::GetUser] {
        assert!(authorize(&r, user(&["MANAGER"])).is_ok());
        assert_eq!(authorize(&r, user(&["STAFF"])), Err(AppError::Forbidden));
    }
    let admin_only = [
        Route::CreateUser, Route::UpdateUser, Route::DeleteUser, Route::AssignRole, Route::AssignWarehouse,
        Route::CreateRole, Route::UpdateRole, Route::DeleteRole, Route::CreateWarehouse, Route::UpdateWarehouse,
        Route::DeleteWarehouse, Route::UploadWarehousePhoto, Route::DeleteWarehousePhoto,
    ];
    for r in admin_only {
        assert!(authorize(&r, user(&["ADMIN"])).is_ok());
        assert_eq!(authorize(&r, user(&["MANAGER", "STAFF", "VIEWER"])), Err(AppError::Forbidden), "{:?}", r);
    }
}

#[test]
fn delete_modes() {
    assert_eq!(delete_mode(Some("hard")), DeleteMode::Hard);
    assert_eq!(delete_mode(Some("HARD")), DeleteMode::Soft);
    assert_eq!(delete_mode(Some("soft")), DeleteMode::Soft);
    assert_eq!(delete_mode(None), DeleteMode::Soft);
    assert_eq!(user_delete_message(&DeleteMode::Hard), "Permanently deleted user successfully");
    assert_eq!(user_delete_message(&DeleteMode::Soft), "Soft deleted user successfully");
    assert_eq!(warehouse_delete_message(&DeleteMode::Hard), "Warehouse permanenlty deleted successfully");
    assert_eq!(warehouse_delete_message(&DeleteMode::Soft), "Warehouse soft deleted successfully");
    assert_eq!(warehouse_delete_action(&delete_mode(Some("hard"))), DeleteMode::Soft);
    assert_eq!(warehouse_delete_action(&delete_mode(Some("soft"))), DeleteMode::Hard);
    assert_eq!(warehouse_delete_action(&delete_mode(None)), DeleteMode::Hard);
}

#[test]
fn same_site() {
    assert_eq!(same_site_policy("Strict"), SameSitePolicy::Strict);
    assert_eq!(same_site_policy("Lax"), SameSitePolicy::Lax);
    assert_eq!(same_site_policy("None"), SameSitePolicy::NoRestriction);
    assert_eq!(same_site_policy("lax"), SameSitePolicy::Strict);
    assert_eq!(same_site_policy(""), SameSitePolicy::Strict);
}

fn config(extra: &[(&str, &str)]) -> Config {
    let mut e = EnvVars::new();
    for (k, v) in [
        ("DATABASE_URL", "pg://x"), ("PASETO_SYMMETRIC_KEY", "MDEyMzQ1Njc4OWFiY2RlZjAxMjM0NTY3ODlhYmNkZWY="), ("REFRESH_TOKEN_HMAC_SECRET", "s"),
        ("CLOUDINARY_CLOUD_NAME", "c"), ("CLOUDINARY_API_KEY", "k"), ("CLOUDINARY_API_SECRET", "s"),
    ] {
        e.set(k.to_string(), v.to_string());
    }
    for (k, v) in extra {
        e.set(k.to_string(), v.to_string());
    }
    Config::from_env(&e).unwrap()
}

#[test]
fn cors() {
    assert_eq!(cors_policy(&config(&[])), CorsPolicy::Permissive);
    assert_eq!(cors_policy(&config(&[("APP_ENV", "production")])), CorsPolicy::DenyAll);
    assert_eq!(
        cors_policy(&config(&[("CORS_ALLOWED_ORIGINS", "https://a.com"), ("CORS_ALLOW_CREDENTIALS", "true")])),
        CorsPolicy::AllowList { origins: vec!["https://a.com".to_string()], allow_credentials: true }
    );
}

#[test]
fn photo_fields() {
    assert_eq!(photo_field_decision(Some("avatar"), None, None), PhotoDecision::Skip);
    assert_eq!(photo_field_decision(None, None, None), PhotoDecision::Skip);
    assert_eq!(
        photo_field_decision(Some("photo"), None, None),
        PhotoDecision::Read { file_name: "upload.jpg".to_string(), content_type: "image/jpeg".to_string() }
    );
    assert_eq!(
        photo_field_decision(Some("photo"), Some("a.png".to_string()), Some("image/png".to_string())),
        PhotoDecision::Read { file_name: "a.png".to_string(), content_type: "image/png".to_string() }
    );
    assert_eq!(
        photo_field_decision(Some("photo"), None, Some("text/plain".to_string())),
        PhotoDecision::Reject(AppError::Validation(
            "File type 'text/plain' is not allowed. Allowed types: image/jpeg, image/png, image/webp".to_string()
        ))
    );
}

#[test]
fn photo_sizes() {
    assert_eq!(photo_size_check(0), Err(AppError::Validation("File is empty".to_string())));
    assert_eq!(photo_size_check(1), Ok(()));
    assert_eq!(photo_size_check(5 * 1024 * 1024), Ok(()));
    assert_eq!(
        photo_size_check(6 * 1024 * 1024),
        Err(AppError::Validation("File size 6MB exceeds the 5MB limit".to_string()))
    );
    assert_eq!(missing_photo_error(), AppError::Validation("Missing 'photo' field in multipart form".to_string()));
}

#[test]
fn health() {
    assert_eq!(health_outcome(true), Ok("healthy"));
    assert_eq!(health_outcome(false), Err(AppError::ServiceUnavailable("Database connection failed".to_string())));
}

#[test]
fn refresh_and_cleared_cookies() {
    let cfg = config(&[("COOKIE_SAME_SITE", "Lax"), ("COOKIE_DOMAIN", "example.com"), ("COOKIE_MAX_AGE_SECONDS", "60")]);
    let c = refresh_cookie(&cfg.cookie, "tok".to_string());
    assert_eq!(c.name, cfg.cookie.name);
    assert_eq!(c.value, "tok");
    assert_eq!(c.path, cfg.cookie.path);
    assert_eq!(c.max_age_seconds, 60);
    assert_eq!(c.same_site, Some(SameSitePolicy::Lax));
    assert_eq!(c.domain, Some("example.com".to_string()));
    let d = cleared_cookie(&cfg.cookie);
    assert_eq!(d.name, c.name);
    assert_eq!(d.path, c.path);
    assert_eq!(d.value, "");
    assert_eq!(d.max_age_seconds, 0);
    assert!(d.http_only);
    assert_eq!(d.same_site, None);
    assert_eq!(d.domain, None);
}

#[test]
fn refresh_token_cookie_required() {
    assert_eq!(refresh_token_from_cookie(Some("abc".to_string())), Ok("abc".to_string()));
    assert_eq!(refresh_token_from_cookie(None), Err(AppError::Unauthorized));
}

#[test]
fn request_id_in_log() {
    assert_eq!(logged_request_id(Some(&RequestId("r-1".to_string()))), "r-1");
    assert_eq!(logged_request_id(None), "unknown");
}
