//! Role names, permission groups and limits shared across the service.

use vstd::prelude::*;
use crate::text::str_views;

verus! {

/// Full access to all features.
pub const ADMIN: &'static str = "ADMIN";
/// Day-to-day warehouse operations; no user management.
pub const MANAGER: &'static str = "MANAGER";
/// Warehouse operator: draft transactions in assigned warehouses.
pub const STAFF: &'static str = "STAFF";
/// Read-only access.
pub const VIEWER: &'static str = "VIEWER";

pub open spec fn admin() -> Seq<char> { ADMIN@ }
pub open spec fn manager() -> Seq<char> { MANAGER@ }
pub open spec fn staff() -> Seq<char> { STAFF@ }
pub open spec fn viewer() -> Seq<char> { VIEWER@ }

/// The four role names are pairwise different.
pub proof fn lemma_role_names_distinct()
    ensures
        admin() != manager(),
        admin() != staff(),
        admin() != viewer(),
        manager() != staff(),
        manager() != viewer(),
        staff() != viewer(),
{
    reveal_strlit("ADMIN");
    reveal_strlit("MANAGER");
    reveal_strlit("STAFF");
    reveal_strlit("VIEWER");
    assert(admin().len() != manager().len());
    assert(admin()[0] != staff()[0]);
    assert(admin()[0] != viewer()[0]);
    assert(manager()[0] != staff()[0]);
    assert(manager()[0] != viewer()[0]);
    assert(staff()[0] != viewer()[0]);
}

/// Roles that may approve transactions: ADMIN and MANAGER.
pub open spec fn can_approve_spec() -> Seq<Seq<char>> { seq![admin(), manager()] }
/// Roles that may manage master data: ADMIN and MANAGER.
pub open spec fn can_manage_master_spec() -> Seq<Seq<char>> { seq![admin(), manager()] }
/// Roles that may manage users: ADMIN only.
pub open spec fn can_manage_users_spec() -> Seq<Seq<char>> { seq![admin()] }
/// Roles that may create (draft) transactions: ADMIN, MANAGER and STAFF.
pub open spec fn can_create_transaction_spec() -> Seq<Seq<char>> { seq![admin(), manager(), staff()] }
/// Every role.
pub open spec fn all_roles_spec() -> Seq<Seq<char>> { seq![admin(), manager(), staff(), viewer()] }

/// The `CAN_APPROVE` permission group.
pub fn can_approve() -> (r: Vec<&'static str>)
    ensures
        str_views(r@) == can_approve_spec(),
{
    let r = vec![ADMIN, MANAGER];
    assert(str_views(r@) =~= can_approve_spec());
    r
}

/// The `CAN_MANAGE_MASTER` permission group.
pub fn can_manage_master() -> (r: Vec<&'static str>)
    ensures
        str_views(r@) == can_manage_master_spec(),
{
    let r = vec![ADMIN, MANAGER];
    assert(str_views(r@) =~= can_manage_master_spec());
    r
}

/// The `CAN_MANAGE_USERS` permission group.
pub fn can_manage_users() -> (r: Vec<&'static str>)
    ensures
        str_views(r@) == can_manage_users_spec(),
{
    let r = vec![ADMIN];
    assert(str_views(r@) =~= can_manage_users_spec());
    r
}

/// The `CAN_CREATE_TRANSACTION` permission group.
pub fn can_create_transaction() -> (r: Vec<&'static str>)
    ensures
        str_views(r@) == can_create_transaction_spec(),
{
    let r = vec![ADMIN, MANAGER, STAFF];
    assert(str_views(r@) =~= can_create_transaction_spec());
    r
}

/// The `ALL_ROLES` permission group.
pub fn all_roles() -> (r: Vec<&'static str>)
    ensures
        str_views(r@) == all_roles_spec(),
{
    let r = vec![ADMIN, MANAGER, STAFF, VIEWER];
    assert(str_views(r@) =~= all_roles_spec());
    r
}

/// Default page number of a list request.
pub const DEFAULT_PAGE: i64 = 1;
/// Default page size of a list request.
pub const DEFAULT_PER_PAGE: i64 = 20;
/// Largest page size a list request may ask for.
pub const MAX_PER_PAGE: i64 = 100;

/// Largest accepted upload, in bytes (5 MiB).
pub const MAX_FILE_SIZE: usize = 5242880;
/// Name of the multipart field that carries an uploaded photo.
pub const PHOTO_FIELD: &'static str = "photo";

/// Image MIME types accepted for upload.
pub fn allowed_mime_types() -> (r: Vec<&'static str>)
    ensures
        str_views(r@) == seq!["image/jpeg"@, "image/png"@, "image/webp"@],
{
    let r = vec!["image/jpeg", "image/png", "image/webp"];
    assert(str_views(r@) =~= seq!["image/jpeg"@, "image/png"@, "image/webp"@]);
    r
}

/// File extensions accepted for upload.
pub fn allowed_extensions() -> (r: Vec<&'static str>)
    ensures
        str_views(r@) == seq!["jpg"@, "jpeg"@, "png"@, "webp"@],
{
    let r = vec!["jpg", "jpeg", "png", "webp"];
    assert(str_views(r@) =~= seq!["jpg"@, "jpeg"@, "png"@, "webp"@]);
    r
}

/// Request header that carries the request id.
pub const REQUEST_ID: &'static str = "x-request-id";
/// Response header that echoes the request id.
pub const REQUEST_ID_RESPONSE: &'static str = "x-request-id";

} // verus!
