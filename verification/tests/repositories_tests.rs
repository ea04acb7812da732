use warehouse_management_system_backend::errors::AppError;
use warehouse_management_system_backend::repositories::{
    any_rows_affected, fts_query, like_pattern, rack_sort_column, require_role_exists,
    role_id_or_not_found, user_sort_column,
};

#[test]
fn full_text_query() {
    assert_eq!(fts_query(None), None);
    assert_eq!(fts_query(Some("Gudang  Utama")), Some("gudang:* & utama:*".to_string()));
    assert_eq!(fts_query(Some("JAKARTA")), Some("jakarta:*".to_string()));
    assert_eq!(fts_query(Some("   ")), Some(String::new()));
}

#[test]
fn like_patterns() {
    assert_eq!(like_pattern(Some("R-A")), Some("%r-a%".to_string()));
    assert_eq!(like_pattern(None), None);
}

#[test]
fn sort_columns() {
    assert_eq!(rack_sort_column("code"), "r.code");
    assert_eq!(rack_sort_column("zone"), "r.zone");
    assert_eq!(rack_sort_column("level"), "r.level");
    assert_eq!(rack_sort_column("updated_at"), "r.updated_at");
    assert_eq!(rack_sort_column("name"), "r.created_at");
    assert_eq!(user_sort_column("name"), "w.name");
    assert_eq!(user_sort_column("email"), "w.email");
    assert_eq!(user_sort_column("updated_at"), "w.updated_at");
    assert_eq!(user_sort_column("zone"), "w.created_at");
}

#[test]
fn role_checks() {
    assert_eq!(require_role_exists("ADMIN", true), Ok(()));
    assert_eq!(require_role_exists("BOSS", false), Err(AppError::Validation("Role 'BOSS' does not exist".to_string())));
    assert_eq!(role_id_or_not_found("STAFF", Some(3)), Ok(3));
    assert_eq!(role_id_or_not_found("BOSS", None), Err(AppError::NotFound("Role name BOSS".to_string())));
}

#[test]
fn row_counts() {
    assert!(any_rows_affected(2));
    assert!(!any_rows_affected(0));
}
