//! The decisions request handlers make: who may call which route, how
//! deletions are done, how uploads are accepted, and how the refresh
//! cookie and cross-origin policy are set.

use vstd::prelude::*;
use crate::access::{has_any_role, require_roles, AuthUser};
use crate::cloudinary::{file_too_large_message, file_type_message, mime_types_spec};
use crate::config::{Config, CorsConfig};
use crate::constants::{
    admin, all_roles_spec, can_manage_master_spec, can_manage_users_spec, manager, staff, viewer,
    can_manage_master, can_manage_users, allowed_mime_types, MAX_FILE_SIZE, PHOTO_FIELD,
};
use crate::errors::AppError;
use crate::text::{contains_str, decimal_digits, join_spec, push_str, str_eq, str_views, views};

verus! {

/// The protected routes of the interface.
#[derive(Debug, Clone, PartialEq, Eq)]
pub enum Route {
    GetProfile,
    UpdateProfile,
    ChangePassword,
    UploadUserPhoto,
    DeleteUserPhoto,
    ListUsers,
    GetUser,
    CreateUser,
    UpdateUser,
    DeleteUser,
    AssignRole,
    AssignWarehouse,
    ListRoles,
    GetRole,
    CreateRole,
    UpdateRole,
    DeleteRole,
    ListWarehouses,
    GetWarehouse,
    CreateWarehouse,
    UpdateWarehouse,
    DeleteWarehouse,
    UploadWarehousePhoto,
    DeleteWarehousePhoto,
}

/// The roles a route requires (`None`: any authenticated caller).
/// User management is ADMIN's, reading users also MANAGER's; warehouses
/// are read by everyone and changed by ADMIN; roles are read by everyone
/// and changed by ADMIN; the caller's own profile is open to the caller.
pub open spec fn route_roles_spec(route: Route) -> Option<Seq<Seq<char>>> {
    match route {
        Route::GetProfile | Route::UpdateProfile | Route::ChangePassword
            | Route::UploadUserPhoto | Route::DeleteUserPhoto => None,
        Route::ListUsers | Route::GetUser => Some(can_manage_master_spec()),
        Route::CreateUser | Route::UpdateUser | Route::DeleteUser
            | Route::AssignRole | Route::AssignWarehouse => Some(can_manage_users_spec()),
        Route::ListRoles | Route::GetRole => None,
        Route::CreateRole | Route::UpdateRole | Route::DeleteRole => Some(can_manage_users_spec()),
        Route::ListWarehouses | Route::GetWarehouse => None,
        Route::CreateWarehouse | Route::UpdateWarehouse | Route::DeleteWarehouse
            | Route::UploadWarehousePhoto | Route::DeleteWarehousePhoto => Some(can_manage_users_spec()),
    }
}

/// Whether a caller with `roles` may use `route`.
pub open spec fn may_use(route: Route, roles: Seq<Seq<char>>) -> bool {
    match route_roles_spec(route) {
        None => true,
        Some(allowed) => has_any_role(roles, allowed),
    }
}

/// The roles a route requires.
pub fn route_roles(route: &Route) -> (r: Option<Vec<&'static str>>)
    ensures
        match route_roles_spec(*route) {
            None => r is None,
            Some(g) => r matches Some(v) && str_views(v@) == g,
        },
{
    match route {
        Route::GetProfile | Route::UpdateProfile | Route::ChangePassword
            | Route::UploadUserPhoto | Route::DeleteUserPhoto => None,
        Route::ListUsers | Route::GetUser => Some(can_manage_master()),
        Route::CreateUser | Route::UpdateUser | Route::DeleteUser
            | Route::AssignRole | Route::AssignWarehouse => Some(can_manage_users()),
        Route::ListRoles | Route::GetRole => None,
        Route::CreateRole | Route::UpdateRole | Route::DeleteRole => Some(can_manage_users()),
        Route::ListWarehouses | Route::GetWarehouse => None,
        Route::CreateWarehouse | Route::UpdateWarehouse | Route::DeleteWarehouse
            | Route::UploadWarehousePhoto | Route::DeleteWarehousePhoto => Some(can_manage_users()),
    }
}

/// Lets a caller use a route, or refuses with `Forbidden`.
pub fn authorize(route: &Route, user: AuthUser) -> (r: Result<AuthUser, AppError>)
    ensures
        may_use(*route, views(user.roles@)) ==> r == Ok::<AuthUser, AppError>(user),
        !may_use(*route, views(user.roles@)) ==> r == Err::<AuthUser, AppError>(AppError::Forbidden),
{
    match route_roles(route) {
        None => Ok(user),
        Some(allowed) => require_roles(allowed.as_slice(), user),
    }
}

/// The access matrix for the roles alone: ADMIN may use every route;
/// MANAGER reads users but changes no user, role or warehouse; STAFF and
/// VIEWER read warehouses and roles and their own profile, and nothing of
/// other users.
pub proof fn lemma_route_access(route: Route)
    ensures
        may_use(route, seq![admin()]),
        may_use(route, seq![manager()]) <==> (route_roles_spec(route) is None
            || route == Route::ListUsers || route == Route::GetUser),
        may_use(route, seq![staff()]) <==> route_roles_spec(route) is None,
        may_use(route, seq![viewer()]) <==> route_roles_spec(route) is None,
{
    crate::access::lemma_access_matrix();
}

/// How a record is deleted.
#[derive(Debug, Clone, PartialEq, Eq)]
pub enum DeleteMode {
    /// Marked deleted, kept in the database.
    Soft,
    /// Removed from the database.
    Hard,
}

/// The deletion mode a request asks for: hard only for "hard".
pub open spec fn delete_mode_spec(mode: Option<Seq<char>>) -> DeleteMode {
    if mode == Some("hard"@) { DeleteMode::Hard } else { DeleteMode::Soft }
}

/// The deletion mode of a request's `mode` parameter (soft by default).
pub fn delete_mode(mode: Option<&str>) -> (r: DeleteMode)
    ensures
        r == delete_mode_spec(match mode { Some(m) => Some(m@), None => None }),
{
    match mode {
        Some(m) => if str_eq(m, "hard") { DeleteMode::Hard } else { DeleteMode::Soft },
        None => DeleteMode::Soft,
    }
}

/// The deletion a warehouse delete request carries out: the opposite of
/// the requested mode. A "hard" request marks the warehouse deleted and
/// keeps it; any other request removes it from the database. (The reply
/// message, `warehouse_delete_message`, follows the requested mode.)
pub fn warehouse_delete_action(requested: &DeleteMode) -> (r: DeleteMode)
    ensures
        r == match *requested {
            DeleteMode::Hard => DeleteMode::Soft,
            DeleteMode::Soft => DeleteMode::Hard,
        },
{
    match requested {
        DeleteMode::Hard => DeleteMode::Soft,
        DeleteMode::Soft => DeleteMode::Hard,
    }
}

/// The reply message for a deleted user.
pub fn user_delete_message(mode: &DeleteMode) -> (r: &'static str)
    ensures
        r@ == match *mode {
            DeleteMode::Hard => "Permanently deleted user successfully"@,
            DeleteMode::Soft => "Soft deleted user successfully"@,
        },
{
    match mode {
        DeleteMode::Hard => "Permanently deleted user successfully",
        DeleteMode::Soft => "Soft deleted user successfully",
    }
}

/// The reply message for a deleted warehouse, by the requested mode.
pub fn warehouse_delete_message(mode: &DeleteMode) -> (r: &'static str)
    ensures
        r@ == match *mode {
            DeleteMode::Hard => "Warehouse permanenlty deleted successfully"@,
            DeleteMode::Soft => "Warehouse soft deleted successfully"@,
        },
{
    match mode {
        DeleteMode::Hard => "Warehouse permanenlty deleted successfully",
        DeleteMode::Soft => "Warehouse soft deleted successfully",
    }
}

/// The `SameSite` policy of the refresh cookie.
#[derive(Debug, Clone, PartialEq, Eq)]
pub enum SameSitePolicy {
    Strict,
    Lax,
    NoRestriction,
}

/// The policy named by the setting: "Strict", "Lax" or "None"; anything
/// else is strict.
pub open spec fn same_site_spec(s: Seq<char>) -> SameSitePolicy {
    if s == "Lax"@ { SameSitePolicy::Lax }
    else if s == "None"@ { SameSitePolicy::NoRestriction }
    else { SameSitePolicy::Strict }
}

/// The `SameSite` policy of a setting.
pub fn same_site_policy(s: &str) -> (r: SameSitePolicy)
    ensures
        r == same_site_spec(s@),
{
    proof {
        reveal_strlit("Strict");
        reveal_strlit("Lax");
        reveal_strlit("None");
        assert("Strict"@.len() == 6);
        assert("Lax"@.len() == 3);
        assert("None"@.len() == 4);
        assert("Strict"@ != "Lax"@);
        assert("Strict"@ != "None"@);
        assert("Lax"@ != "None"@);
    }
    if str_eq(s, "Strict") {
        SameSitePolicy::Strict
    } else if str_eq(s, "Lax") {
        SameSitePolicy::Lax
    } else if str_eq(s, "None") {
        SameSitePolicy::NoRestriction
    } else {
        SameSitePolicy::Strict
    }
}

/// The cross-origin policy.
#[derive(Debug, Clone, PartialEq, Eq)]
pub enum CorsPolicy {
    /// No cross-origin requests.
    DenyAll,
    /// Any origin, method and header.
    Permissive,
    /// The listed origins, any method and header; credentials when allowed.
    AllowList { origins: Vec<String>, allow_credentials: bool },
}

/// The cross-origin policy: without configured origins, none in
/// production and any in development; otherwise the configured list.
pub fn cors_policy(config: &Config) -> (r: CorsPolicy)
    ensures
        config.cors.allowed_origins@.len() == 0 && config.app.env is Production ==> r is DenyAll,
        config.cors.allowed_origins@.len() == 0 && config.app.env is Development ==> r is Permissive,
        config.cors.allowed_origins@.len() != 0 ==> (r matches CorsPolicy::AllowList { origins, allow_credentials }
            && origins@ == config.cors.allowed_origins@
            && allow_credentials == config.cors.allow_credentials),
{
    if config.cors.allowed_origins.len() == 0 {
        if config.is_production() {
            return CorsPolicy::DenyAll;
        } else {
            return CorsPolicy::Permissive;
        }
    }
    CorsPolicy::AllowList {
        origins: config.cors.allowed_origins.clone(),
        allow_credentials: config.cors.allow_credentials,
    }
}

/// What to do with one field of a multipart upload.
#[derive(Debug, Clone, PartialEq, Eq)]
pub enum PhotoDecision {
    /// Not the photo field: go on to the next field.
    Skip,
    /// The photo field, of an accepted type: read its bytes.
    Read { file_name: String, content_type: String },
    /// The photo field, of a refused type.
    Reject(AppError),
}

/// Decides on a multipart field from its name, file name and content
/// type: fields other than "photo" are skipped; the photo's file name
/// defaults to "upload.jpg" and its type to "image/jpeg"; a type that is
/// not an accepted image type is refused.
pub fn photo_field_decision(name: Option<&str>, file_name: Option<String>, content_type: Option<String>) -> (r: PhotoDecision)
    ensures
        (match name { Some(n) => n@, None => Seq::<char>::empty() }) != PHOTO_FIELD@ ==> r is Skip,
        (match name { Some(n) => n@, None => Seq::<char>::empty() }) == PHOTO_FIELD@ ==> {
            let ct = match content_type { Some(c) => c@, None => "image/jpeg"@ };
            let fname = match file_name { Some(f) => f@, None => "upload.jpg"@ };
            if mime_types_spec().contains(ct) {
                r matches PhotoDecision::Read { file_name: f, content_type: c } && f@ == fname && c@ == ct
            } else {
                r matches PhotoDecision::Reject(AppError::Validation(m)) && m@ == "File type '"@ + ct
                    + "' is not allowed. Allowed types: "@ + join_spec(mime_types_spec(), ", "@)
            }
        },
{
    proof {
        reveal_strlit("");
        assert(""@ =~= Seq::<char>::empty());
    }
    let field_name: &str = match name { Some(n) => n, None => "" };
    if !str_eq(field_name, PHOTO_FIELD) {
        return PhotoDecision::Skip;
    }
    let fname = match file_name { Some(f) => f, None => "upload.jpg".to_owned() };
    let ct = match content_type { Some(c) => c, None => "image/jpeg".to_owned() };
    let mimes = allowed_mime_types();
    if !contains_str(mimes.as_slice(), ct.as_str()) {
        return PhotoDecision::Reject(AppError::Validation(file_type_message(ct.as_str())));
    }
    PhotoDecision::Read { file_name: fname, content_type: ct }
}

/// Checks the size of an uploaded photo: not empty, and at most
/// `MAX_FILE_SIZE` bytes.
pub fn photo_size_check(len: usize) -> (r: Result<(), AppError>)
    ensures
        len == 0 ==> (r matches Err(AppError::Validation(m)) && m@ == "File is empty"@),
        len > MAX_FILE_SIZE ==> (r matches Err(AppError::Validation(m)) && m@ == "File size "@
            + decimal_digits((len / 1024 / 1024) as nat) + "MB exceeds the "@
            + decimal_digits((MAX_FILE_SIZE / 1024 / 1024) as nat) + "MB limit"@),
        0 < len <= MAX_FILE_SIZE ==> r is Ok,
{
    if len == 0 {
        return Err(AppError::Validation("File is empty".to_owned()));
    }
    if len > MAX_FILE_SIZE {
        return Err(AppError::Validation(file_too_large_message(len)));
    }
    Ok(())
}

/// The error when a multipart form has no photo field.
pub fn missing_photo_error() -> (r: AppError)
    ensures
        r matches AppError::Validation(m) && m@ == "Missing '"@ + PHOTO_FIELD@ + "' field in multipart form"@,
{
    let mut m = String::new();
    push_str(&mut m, "Missing '");
    push_str(&mut m, PHOTO_FIELD);
    push_str(&mut m, "' field in multipart form");
    assert(m@ =~= "Missing '"@ + PHOTO_FIELD@ + "' field in multipart form"@);
    AppError::Validation(m)
}

/// The outcome of the database health check: healthy when the database
/// answered, otherwise the service is unavailable.
pub fn health_outcome(db_ok: bool) -> (r: Result<&'static str, AppError>)
    ensures
        db_ok ==> (r matches Ok(s) && s@ == "healthy"@),
        !db_ok ==> (r matches Err(AppError::ServiceUnavailable(m)) && m@ == "Database connection failed"@),
{
    if !db_ok {
        return Err(AppError::ServiceUnavailable("Database connection failed".to_owned()));
    }
    Ok("healthy")
}

} // verus!

verus! {

/// A cookie to set on the client.
#[derive(Debug, Clone, PartialEq, Eq)]
pub struct CookieSpec {
    pub name: String,
    pub value: String,
    pub path: String,
    pub max_age_seconds: i64,
    pub http_only: bool,
    pub secure: bool,
    /// `None`: no `SameSite` attribute.
    pub same_site: Option<SameSitePolicy>,
    /// `None`: no `Domain` attribute.
    pub domain: Option<String>,
}

/// `c` is the refresh-token cookie for `token`: named and scoped as
/// configured, holding the token.
pub open spec fn is_refresh_cookie(cfg: crate::config::CookieConfig, token: String, c: CookieSpec) -> bool {
    &&& c.name@ == cfg.name@
    &&& c.value == token
    &&& c.path@ == cfg.path@
    &&& c.max_age_seconds == cfg.max_age_seconds
    &&& c.http_only == cfg.http_only
    &&& c.secure == cfg.secure
    &&& c.same_site == Some(same_site_spec(cfg.same_site@))
    &&& match cfg.domain {
        Some(d) => c.domain matches Some(cd) && cd@ == d@,
        None => c.domain is None,
    }
}

/// `c` is the cookie set at logout: the configured name and path, empty,
/// expired at once, HTTP-only, without `SameSite` or `Domain`.
pub open spec fn is_cleared_cookie(cfg: crate::config::CookieConfig, c: CookieSpec) -> bool {
    &&& c.name@ == cfg.name@
    &&& c.value@.len() == 0
    &&& c.path@ == cfg.path@
    &&& c.max_age_seconds == 0
    &&& c.http_only
    &&& c.secure == cfg.secure
    &&& c.same_site is None
    &&& c.domain is None
}

/// The refresh-token cookie set at login and refresh.
pub fn refresh_cookie(cfg: &crate::config::CookieConfig, refresh_token: String) -> (r: CookieSpec)
    ensures
        is_refresh_cookie(*cfg, refresh_token, r),
{
    CookieSpec {
        name: cfg.name.clone(),
        value: refresh_token,
        path: cfg.path.clone(),
        max_age_seconds: cfg.max_age_seconds,
        http_only: cfg.http_only,
        secure: cfg.secure,
        same_site: Some(same_site_policy(cfg.same_site.as_str())),
        domain: match &cfg.domain {
            Some(d) => Some(d.clone()),
            None => None,
        },
    }
}

/// The cookie set at logout.
pub fn cleared_cookie(cfg: &crate::config::CookieConfig) -> (r: CookieSpec)
    ensures
        is_cleared_cookie(*cfg, r),
{
    CookieSpec {
        name: cfg.name.clone(),
        value: String::new(),
        path: cfg.path.clone(),
        max_age_seconds: 0,
        http_only: true,
        secure: cfg.secure,
        same_site: None,
        domain: None,
    }
}

/// Logout undoes login's cookie: whatever token login stored, the cookie
/// logout sets has the same name and path, so it replaces that cookie,
/// and it is empty and expires immediately.
pub proof fn lemma_logout_clears_refresh_cookie(
    cfg: crate::config::CookieConfig,
    token: String,
    set: CookieSpec,
    cleared: CookieSpec,
)
    requires
        is_refresh_cookie(cfg, token, set),
        is_cleared_cookie(cfg, cleared),
    ensures
        cleared.name@ == set.name@,
        cleared.path@ == set.path@,
        cleared.value@.len() == 0,
        cleared.max_age_seconds == 0,
{
}

/// The refresh token a refresh request carries in its cookie; without
/// one, the caller is unauthenticated.
pub fn refresh_token_from_cookie(cookie: Option<String>) -> (r: Result<String, AppError>)
    ensures
        match cookie {
            Some(t) => r == Ok::<String, AppError>(t),
            None => r == Err::<String, AppError>(AppError::Unauthorized),
        },
{
    match cookie {
        Some(t) => Ok(t),
        None => Err(AppError::Unauthorized),
    }
}

/// The request id shown in the request log ("unknown" without one).
pub fn logged_request_id(id: Option<&crate::access::RequestId>) -> (r: String)
    ensures
        match id {
            Some(i) => r@ == i.0@,
            None => r@ == "unknown"@,
        },
{
    match id {
        Some(i) => i.0.clone(),
        None => "unknown".to_owned(),
    }
}

} // verus!

verus! {

/// Who may use each route, by role name: the caller's own profile (read,
/// update, password change, photo upload and removal) and the reading of
/// roles and warehouses are open to every authenticated caller whatever
/// its roles; listing and reading users needs ADMIN or MANAGER; every
/// other route (changing users, their roles and warehouses, roles and
/// warehouses) needs ADMIN.
pub proof fn lemma_route_table(route: Route, roles: Seq<Seq<char>>)
    ensures
        (route == Route::GetProfile || route == Route::UpdateProfile || route == Route::ChangePassword
            || route == Route::UploadUserPhoto || route == Route::DeleteUserPhoto
            || route == Route::ListRoles || route == Route::GetRole
            || route == Route::ListWarehouses || route == Route::GetWarehouse) ==> may_use(route, roles),
        (route == Route::ListUsers || route == Route::GetUser) ==> (may_use(route, roles)
            <==> (roles.contains("ADMIN"@) || roles.contains("MANAGER"@))),
        (route == Route::CreateUser || route == Route::UpdateUser || route == Route::DeleteUser
            || route == Route::AssignRole || route == Route::AssignWarehouse
            || route == Route::CreateRole || route == Route::UpdateRole || route == Route::DeleteRole
            || route == Route::CreateWarehouse || route == Route::UpdateWarehouse
            || route == Route::DeleteWarehouse || route == Route::UploadWarehousePhoto
            || route == Route::DeleteWarehousePhoto) ==> (may_use(route, roles) <==> roles.contains("ADMIN"@)),
{
    reveal_strlit("ADMIN");
    reveal_strlit("MANAGER");
    crate::constants::lemma_role_names_distinct();
    let m = can_manage_master_spec();
    let u = can_manage_users_spec();
    assert(m[0] == "ADMIN"@ && m[1] == "MANAGER"@ && m.len() == 2);
    assert(u[0] == "ADMIN"@ && u.len() == 1);
    if has_any_role(roles, m) {
        let i = choose|i: int| 0 <= i < roles.len() && m.contains(#[trigger] roles[i]);
        let j = choose|j: int| 0 <= j < m.len() && m[j] == roles[i];
        assert(j == 0 || j == 1);
        assert(roles.contains(roles[i]));
    }
    if roles.contains("ADMIN"@) {
        let i = choose|i: int| 0 <= i < roles.len() && roles[i] == "ADMIN"@;
        assert(m.contains(roles[i]) && u.contains(roles[i])) by {
            assert(m[0] == roles[i]);
            assert(u[0] == roles[i]);
        }
    }
    if roles.contains("MANAGER"@) {
        let i = choose|i: int| 0 <= i < roles.len() && roles[i] == "MANAGER"@;
        assert(m.contains(roles[i])) by { assert(m[1] == roles[i]); }
    }
    if has_any_role(roles, u) {
        let i = choose|i: int| 0 <= i < roles.len() && u.contains(#[trigger] roles[i]);
        let j = choose|j: int| 0 <= j < u.len() && u[j] == roles[i];
        assert(j == 0);
        assert(roles.contains(roles[i]));
    }
}

} // verus!

verus! {

/// Only the exact word "hard" asks for a permanent deletion; any other
/// mode, in any letter case, and no mode at all ask for a soft one. The
/// cookie's SameSite policy is Lax or None only for those exact
/// settings, and strict for every other setting.
pub proof fn lemma_modes_and_policies(mode: Option<Seq<char>>, setting: Seq<char>)
    ensures
        delete_mode_spec(mode) == DeleteMode::Hard <==> mode == Some("hard"@),
        delete_mode_spec(Some("HARD"@)) == DeleteMode::Soft,
        same_site_spec(setting) == SameSitePolicy::Lax <==> setting == "Lax"@,
        same_site_spec(setting) == SameSitePolicy::NoRestriction <==> setting == "None"@,
        same_site_spec(setting) == SameSitePolicy::Strict <==> (setting != "Lax"@ && setting != "None"@),
{
    reveal_strlit("hard");
    reveal_strlit("HARD");
    reveal_strlit("Lax");
    reveal_strlit("None");
    assert("HARD"@ != "hard"@) by { assert("HARD"@[0] != "hard"@[0]); }
    assert("Lax"@ != "None"@) by { assert("Lax"@[0] != "None"@[0]); }
}

} // verus!
