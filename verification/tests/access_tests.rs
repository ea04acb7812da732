use warehouse_management_system_backend::access::{
    auth_user_from_claims, extract_bearer_token, request_id_from, require_roles, AuthUser, RequestId,
};
use warehouse_management_system_backend::constants::{
    all_roles, can_approve, can_create_transaction, can_manage_master, can_manage_users, ADMIN,
    MANAGER, STAFF, VIEWER,
};
use warehouse_management_system_backend::errors::AppError;

fn user(roles: &[&str]) -> AuthUser {
    AuthUser { id: 7, roles: roles.iter().map(|r| r.to_string()).collect() }
}

#[test]
fn permission_groups_hold_the_documented_roles() {
    assert_eq!(can_approve(), vec![ADMIN, MANAGER]);
    assert_eq!(can_manage_master(), vec![ADMIN, MANAGER]);
    assert_eq!(can_manage_users(), vec![ADMIN]);
    assert_eq!(can_create_transaction(), vec![ADMIN, MANAGER, STAFF]);
    assert_eq!(all_roles(), vec![ADMIN, MANAGER, STAFF, VIEWER]);
}

#[test]
fn require_roles_lets_allowed_users_through_unchanged() {
    let u = user(&["VIEWER", "ADMIN"]);
    assert_eq!(require_roles(&can_manage_users(), u.clone()), Ok(u));
}

#[test]
fn require_roles_forbids_others() {
    assert_eq!(require_roles(&can_manage_users(), user(&["MANAGER"])), Err(AppError::Forbidden));
    assert_eq!(require_roles(&can_manage_users(), user(&[])), Err(AppError::Forbidden));
    assert_eq!(require_roles(&can_manage_users(), user(&["admin"])), Err(AppError::Forbidden));
    assert_eq!(require_roles(&[], user(&["ADMIN"])), Err(AppError::Forbidden));
}

#[test]
fn access_matrix_by_role() {
    let groups = [can_manage_users(), can_manage_master(), can_approve(), can_create_transaction(), all_roles()];
    let expect = [
        ("ADMIN", [true, true, true, true, true]),
        ("MANAGER", [false, true, true, true, true]),
        ("STAFF", [false, false, false, true, true]),
        ("VIEWER", [false, false, false, false, true]),
    ];
    for (role, allowed) in expect {
        for (g, ok) in groups.iter().zip(allowed) {
            assert_eq!(require_roles(g, user(&[role])).is_ok(), ok, "{} in {:?}", role, g);
        }
    }
}

#[test]
fn bearer_token_extraction() {
    assert_eq!(extract_bearer_token(Some("Bearer abc.def")), Ok("abc.def".to_string()));
    assert_eq!(extract_bearer_token(Some("Bearer ")), Ok(String::new()));
    assert_eq!(extract_bearer_token(Some("bearer abc")), Err(AppError::Unauthorized));
    assert_eq!(extract_bearer_token(Some("Basic xyz")), Err(AppError::Unauthorized));
    assert_eq!(extract_bearer_token(None), Err(AppError::Unauthorized));
}

#[test]
fn claims_subject_must_be_an_id() {
    let u = auth_user_from_claims("42", vec!["STAFF".to_string()]).unwrap();
    assert_eq!(u.id, 42);
    assert_eq!(u.roles, vec!["STAFF"]);
    assert_eq!(auth_user_from_claims("abc", vec![]), Err(AppError::InvalidToken));
    assert_eq!(auth_user_from_claims("", vec![]), Err(AppError::InvalidToken));
}

#[test]
fn request_id_prefers_the_client_value() {
    assert_eq!(request_id_from(Some("req-1".to_string()), "gen".to_string()), RequestId("req-1".to_string()));
    let r = request_id_from(None, "gen".to_string());
    assert_eq!(r.as_str(), "gen");
}
