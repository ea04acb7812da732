use warehouse_management_system_backend::dtos::{
    check_indonesian_phone, AuthResponse, CreateUserRequest, CreateWarehouseRequest, LoginRequest,
    RackResponse, RackSummary, UpdatePasswordRequest, UpdateUserRequest,
    UpdateWarehouseRequest, UserResponse, WarehouseResponse, WarehouseSummary,
};
use warehouse_management_system_backend::errors::AppError;
use warehouse_management_system_backend::models::{
    Rack, RackWithStats, UpdateRackParams, UserWithRole, Warehouse, WarehouseWithStats,
};

fn s(x: &str) -> Option<String> {
    Some(x.to_string())
}

fn update(name: Option<String>, address: Option<String>, phone: Option<String>, photo: Option<String>) -> UpdateWarehouseRequest {
    UpdateWarehouseRequest { name, address, phone, photo }
}

#[test]
fn update_user_must_change_something() {
    let empty = UpdateUserRequest { name: None, email: None, phone: None };
    assert_eq!(empty.validate_is_empty(), Err(AppError::Validation("At least one field must be provided".to_string())));
    let one = UpdateUserRequest { name: None, email: s("a@b.c"), phone: None };
    assert_eq!(one.validate_is_empty(), Ok(()));
}

#[test]
fn warehouse_update_emptiness() {
    assert!(update(None, None, None, None).is_empty());
    assert!(!update(None, None, None, s("p.png")).is_empty());
}

#[test]
fn warehouse_update_validation() {
    assert_eq!(update(s("Gudang A"), None, None, None).validate(), Ok(()));
    assert_eq!(update(None, None, None, s("http://x/p.png")).validate(), Ok(()));
    assert_eq!(
        update(s("A"), None, None, None).validate(),
        Err(AppError::Validation("Name must be between 2 and 100 characters".to_string()))
    );
    assert_eq!(
        update(None, None, None, None).validate(),
        Err(AppError::Validation("At least one field must be provided for update".to_string()))
    );
    assert_eq!(
        update(s(&"n".repeat(101)), s("Jl."), s("12345"), None).validate(),
        Err(AppError::Validation(
            "Name must be between 2 and 100 characters, Address must be between 5 and 500 characters, \
Phone must be a valid Indonesian number (+62xxx or 08xxx) and between 10 - 15 digits".to_string()
        ))
    );
    assert_eq!(update(s("Gudang"), s("Jl. Sudirman 1"), s("081234567890"), None).validate(), Ok(()));
}

#[test]
fn lengths_count_bytes() {
    // "éé" is 2 characters but 4 bytes
    assert_eq!(update(s("é"), None, None, None).validate(), Ok(()));
    assert!(update(s(&"é".repeat(51)), None, None, None).validate().is_err());
    assert_eq!(update(s(&"é".repeat(50)), None, None, None).validate(), Ok(()));
}

#[test]
fn phone_rule() {
    assert!(check_indonesian_phone("081234567890"));
    assert!(check_indonesian_phone("+6281234567"));
    assert!(!check_indonesian_phone("0812345"));
    assert!(!check_indonesian_phone("0812345678901234"));
    assert!(!check_indonesian_phone("0712345678"));
    assert!(!check_indonesian_phone("+6181234567"));
    assert!(!check_indonesian_phone("08123x5678"));
    assert!(!check_indonesian_phone("08+2345678"));
}

fn user(roles: Option<Vec<String>>) -> UserWithRole {
    UserWithRole {
        id: 1,
        name: "Ana".to_string(),
        email: "ana@example.com".to_string(),
        password: "hash".to_string(),
        photo: None,
        phone: s("0811111111"),
        roles,
        deleted_at: None,
        created_at: 1_700_000_000_000_000,
        updated_at: 1_700_000_000_000_001,
    }
}

#[test]
fn user_response_hides_password_and_defaults_roles() {
    let r = UserResponse::from(user(None));
    assert_eq!(r.roles, Vec::<String>::new());
    assert_eq!(r.email, "ana@example.com");
    assert_eq!(r.created_at, 1_700_000_000_000_000);
    let r = UserResponse::from(user(Some(vec!["ADMIN".to_string()])));
    assert_eq!(r.roles, vec!["ADMIN"]);
}

#[test]
fn auth_response_is_bearer() {
    let a = AuthResponse::new("tok".to_string(), user(None));
    assert_eq!(a.token_type, "Bearer");
    assert_eq!(a.access_token, "tok");
    assert_eq!(a.user.id, 1);
}

#[test]
fn warehouse_conversions() {
    let w = Warehouse { id: 2, name: "G".to_string(), address: "Jl".to_string(), photo: None, phone: None, deleted_at: Some(5), created_at: 1, updated_at: 2 };
    let r = WarehouseResponse::from(w);
    assert_eq!((r.id, r.created_at, r.updated_at), (2, 1, 2));
    let ws = WarehouseWithStats { id: 3, name: "H".to_string(), address: "A".to_string(), photo: None, phone: None, deleted_at: None, created_at: 1, updated_at: 1, total_products: None, total_racks: Some(4) };
    let sm = WarehouseSummary::from(ws);
    assert_eq!((sm.total_products, sm.total_racks), (0, 4));
}

#[test]
fn rack_conversions() {
    let r = Rack { id: 1, warehouse_id: 2, code: "R-1".to_string(), zone: s("A"), level: Some(3), description: None, capacity: Some(10), deleted_at: None, created_at: 7, updated_at: 8 };
    let out = RackResponse::from(r);
    assert_eq!((out.code.as_str(), out.level, out.capacity), ("R-1", Some(3), Some(10)));
    let rs = RackWithStats { id: 1, warehouse_id: 2, code: "R-2".to_string(), zone: None, level: None, description: s("d"), capacity: None, deleted_at: None, created_at: 7, updated_at: 8, used_capacity: 5, total_products: 2 };
    let out = RackSummary::from(rs);
    assert_eq!((out.used_capacity, out.total_products), (5, 2));
}

#[test]
fn rack_update_emptiness() {
    let empty = UpdateRackParams { code: None, zone: None, level: None, capacity: None, description: None };
    assert!(empty.is_empty());
    let one = UpdateRackParams { level: Some(2), ..empty };
    assert!(!one.is_empty());
}

#[test]
fn login_body_checks() {
    let ok = LoginRequest { email: "budi@gudang.co.id".to_string(), password: "x".to_string() };
    assert_eq!(ok.validate(), Ok(()));
    let bad = LoginRequest { email: "not-an-email".to_string(), password: String::new() };
    assert_eq!(
        bad.validate(),
        Err(AppError::Validation("email: Invalid email address!\npassword: Password is required!".to_string()))
    );
    let no_at = LoginRequest { email: "budi.gudang.co.id".to_string(), password: "x".to_string() };
    assert_eq!(no_at.validate(), Err(AppError::Validation("email: Invalid email address!".to_string())));
}

#[test]
fn password_change_checks() {
    let ok = UpdatePasswordRequest {
        old_password: "old".to_string(),
        new_password: "Secret123!".to_string(),
        confirm_new_password: "Secret123!".to_string(),
    };
    assert_eq!(ok.validate(), Ok(()));
    let bad = UpdatePasswordRequest {
        old_password: String::new(),
        new_password: "Secret123!".to_string(),
        confirm_new_password: "short".to_string(),
    };
    assert_eq!(
        bad.validate(),
        Err(AppError::Validation(
            "old_password: Old Password is required!\nconfirm_new_password: Confirm New Password must at least 8 characters, New Password and Confirm New Password doesn't match!".to_string()
        ))
    );
}

#[test]
fn new_user_checks() {
    let ok = CreateUserRequest {
        name: "Budi".to_string(),
        email: "budi@gudang.co.id".to_string(),
        phone: None,
        role: "STAFF".to_string(),
        password: "Secret123!".to_string(),
        password_confirm: "Secret123!".to_string(),
    };
    assert_eq!(ok.validate(), Ok(()));
    let bad = CreateUserRequest { name: "B".to_string(), password_confirm: "Secret123?".to_string(), ..ok.clone() };
    assert_eq!(
        bad.validate(),
        Err(AppError::Validation(
            "name: Name must be between 2 and 100 characters!\npassword_confirm: Password and Confirm Password doesn't match!".to_string()
        ))
    );
    // Lengths count characters, not bytes.
    let wide = CreateUserRequest { name: "é".repeat(100), ..ok };
    assert_eq!(wide.validate(), Ok(()));
}

#[test]
fn user_update_checks() {
    let none = UpdateUserRequest { name: None, email: None, phone: None };
    assert_eq!(none.validate(), Ok(()));
    let bad = UpdateUserRequest { name: Some("x".repeat(101)), email: Some("@".to_string()), phone: None };
    assert_eq!(
        bad.validate(),
        Err(AppError::Validation(
            "name: Name must be between 2 and 100 characters!\nemail: Invalid email address!".to_string()
        ))
    );
}

#[test]
fn new_warehouse_checks() {
    let ok = CreateWarehouseRequest {
        name: "Gudang Utama".to_string(),
        address: "Jl. Merdeka 1".to_string(),
        phone: Some("081234567890".to_string()),
        photo: None,
    };
    assert_eq!(ok.validate(), Ok(()));
    let bad = CreateWarehouseRequest {
        name: "G".to_string(),
        address: "Jl.".to_string(),
        phone: Some("12345".to_string()),
        photo: None,
    };
    assert_eq!(
        bad.validate(),
        Err(AppError::Validation(
            "name: Name must be between 2 and 100 characters\naddress: Address must be between 5 and 500 characters\nphone: Phone must be between 10 and 15 digits!, Phone must be a valid Indonesian number (+62xxx or 08xxx)".to_string()
        ))
    );
    let wrong_prefix = CreateWarehouseRequest { phone: Some("0712345678".to_string()), ..ok };
    assert_eq!(
        wrong_prefix.validate(),
        Err(AppError::Validation("phone: Phone must be a valid Indonesian number (+62xxx or 08xxx)".to_string()))
    );
}
