//! Records as stored in the database. Times are microseconds since the
//! Unix epoch (UTC), the precision the database keeps.

use vstd::prelude::*;

verus! {

/// A point in time: microseconds since 1970-01-01T00:00:00Z.
pub type Timestamp = i64;

/// A user account.
#[derive(Debug, Clone, PartialEq, Eq)]
pub struct User {
    pub id: i64,
    pub name: String,
    pub email: String,
    pub password: String,
    pub photo: Option<String>,
    pub phone: Option<String>,
    pub deleted_at: Option<Timestamp>,
    pub created_at: Timestamp,
    pub updated_at: Timestamp,
}

/// A role.
#[derive(Debug, Clone, PartialEq, Eq)]
pub struct Role {
    pub id: i64,
    pub name: String,
    pub created_at: Timestamp,
}

/// A user together with the names of its roles (none when it has no role).
#[derive(Debug, Clone, PartialEq, Eq)]
pub struct UserWithRole {
    pub id: i64,
    pub name: String,
    pub email: String,
    pub password: String,
    pub photo: Option<String>,
    pub phone: Option<String>,
    pub roles: Option<Vec<String>>,
    pub deleted_at: Option<Timestamp>,
    pub created_at: Timestamp,
    pub updated_at: Timestamp,
}

/// A user's membership in a role.
#[derive(Debug, Clone, PartialEq, Eq)]
pub struct UserRoles {
    pub id: i64,
    pub user_id: i64,
    pub role_id: i64,
    pub created_at: Timestamp,
    pub updated_at: Timestamp,
}

/// A warehouse.
#[derive(Debug, Clone, PartialEq, Eq)]
pub struct Warehouse {
    pub id: i64,
    pub name: String,
    pub address: String,
    pub photo: Option<String>,
    pub phone: Option<String>,
    pub deleted_at: Option<Timestamp>,
    pub created_at: Timestamp,
    pub updated_at: Timestamp,
}

/// A warehouse with its product and rack counts.
#[derive(Debug, Clone, PartialEq, Eq)]
pub struct WarehouseWithStats {
    pub id: i64,
    pub name: String,
    pub address: String,
    pub photo: Option<String>,
    pub phone: Option<String>,
    pub deleted_at: Option<Timestamp>,
    pub created_at: Timestamp,
    pub updated_at: Timestamp,
    /// Number of distinct products stored in the warehouse.
    pub total_products: Option<i64>,
    /// Number of racks.
    pub total_racks: Option<i64>,
}

/// A rack of a warehouse.
#[derive(Debug, Clone, PartialEq, Eq)]
pub struct Rack {
    pub id: i64,
    pub warehouse_id: i64,
    pub code: String,
    pub zone: Option<String>,
    pub level: Option<i32>,
    pub description: Option<String>,
    pub capacity: Option<i64>,
    pub deleted_at: Option<Timestamp>,
    pub created_at: Timestamp,
    pub updated_at: Timestamp,
}

/// A rack with the quantity it holds and its number of products.
#[derive(Debug, Clone, PartialEq, Eq)]
pub struct RackWithStats {
    pub id: i64,
    pub warehouse_id: i64,
    pub code: String,
    pub zone: Option<String>,
    pub level: Option<i32>,
    pub description: Option<String>,
    pub capacity: Option<i64>,
    pub deleted_at: Option<Timestamp>,
    pub created_at: Timestamp,
    pub updated_at: Timestamp,
    pub used_capacity: i64,
    pub total_products: i64,
}

/// Values of a new rack.
#[derive(Debug, Clone, PartialEq, Eq)]
pub struct CreateRackParams<'a> {
    pub warehouse_id: i64,
    pub code: &'a str,
    pub zone: Option<&'a str>,
    pub level: Option<i32>,
    pub capacity: Option<i64>,
    pub description: Option<&'a str>,
}

/// Changes to a rack; `None` leaves a value as it is.
#[derive(Debug, Clone, PartialEq, Eq)]
pub struct UpdateRackParams<'a> {
    pub code: Option<&'a str>,
    pub zone: Option<&'a str>,
    pub level: Option<i32>,
    pub capacity: Option<i64>,
    pub description: Option<&'a str>,
}

impl<'a> UpdateRackParams<'a> {
    /// Whether no change is given.
    pub fn is_empty(&self) -> (r: bool)
        ensures
            r == (self.code is None && self.zone is None && self.level is None
                && self.capacity is None && self.description is None),
    {
        self.code.is_none() && self.zone.is_none() && self.level.is_none()
            && self.capacity.is_none() && self.description.is_none()
    }
}

} // verus!
