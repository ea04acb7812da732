//! Request and response bodies of the HTTP interface, and the checks
//! written by hand for them.

use vstd::prelude::*;
use vstd::string::StringSliceAdditionalSpecFns;
use crate::errors::AppError;
use crate::models::{Rack, RackWithStats, Timestamp, UserWithRole, Warehouse, WarehouseWithStats};
use crate::text::{join, join_spec, push_str, str_eq, views};
use validator::ValidateEmail;

verus! {

/// Change of the caller's password.
#[derive(Debug, Clone, PartialEq, Eq)]
pub struct UpdatePasswordRequest {
    pub old_password: String,
    pub new_password: String,
    pub confirm_new_password: String,
}

/// Login with email and password.
#[derive(Debug, Clone, PartialEq, Eq)]
pub struct LoginRequest {
    pub email: String,
    pub password: String,
}

/// A user as the interface shows it.
#[derive(Debug, Clone, PartialEq, Eq)]
pub struct UserResponse {
    pub id: i64,
    pub name: String,
    pub email: String,
    pub phone: Option<String>,
    pub photo: Option<String>,
    pub roles: Vec<String>,
    pub created_at: Timestamp,
}

impl UserResponse {
    /// The shown form of a user: its role list is empty when it has none;
    /// the password and deletion time are not shown.
    pub fn from(u: UserWithRole) -> (r: UserResponse)
        ensures
            r.id == u.id,
            r.name == u.name,
            r.email == u.email,
            r.phone == u.phone,
            r.photo == u.photo,
            r.roles@ == match u.roles { Some(v) => v@, None => Seq::<String>::empty() },
            r.created_at == u.created_at,
    {
        let roles = match u.roles {
            Some(v) => v,
            None => Vec::new(),
        };
        UserResponse {
            id: u.id,
            name: u.name,
            email: u.email,
            phone: u.phone,
            photo: u.photo,
            roles,
            created_at: u.created_at,
        }
    }
}

/// The reply to a login or token refresh.
#[derive(Debug, Clone, PartialEq, Eq)]
pub struct AuthResponse {
    pub access_token: String,
    pub token_type: String,
    pub user: UserResponse,
}

impl AuthResponse {
    /// A bearer token reply for a user.
    pub fn new(token: String, user: UserWithRole) -> (r: AuthResponse)
        ensures
            r.access_token == token,
            r.token_type@ == "Bearer"@,
            r.user.id == user.id,
            r.user.name == user.name,
            r.user.email == user.email,
            r.user.phone == user.phone,
            r.user.photo == user.photo,
            r.user.roles@ == match user.roles { Some(v) => v@, None => Seq::<String>::empty() },
            r.user.created_at == user.created_at,
    {
        AuthResponse { access_token: token, token_type: "Bearer".to_owned(), user: UserResponse::from(user) }
    }
}

/// A new user.
#[derive(Debug, Clone, PartialEq, Eq)]
pub struct CreateUserRequest {
    pub name: String,
    pub email: String,
    pub phone: Option<String>,
    pub role: String,
    pub password: String,
    pub password_confirm: String,
}

/// Changes to a user; `None` leaves a value as it is.
#[derive(Debug, Clone, PartialEq, Eq)]
pub struct UpdateUserRequest {
    pub name: Option<String>,
    pub email: Option<String>,
    pub phone: Option<String>,
}

impl UpdateUserRequest {
    /// Refuses an update that changes nothing.
    pub fn validate_is_empty(&self) -> (r: Result<(), AppError>)
        ensures
            (self.name is None && self.email is None && self.phone is None) ==> (
                r matches Err(AppError::Validation(m)) && m@ == "At least one field must be provided"@),
            !(self.name is None && self.email is None && self.phone is None) ==> r is Ok,
    {
        if self.name.is_none() && self.email.is_none() && self.phone.is_none() {
            return Err(AppError::Validation("At least one field must be provided".to_owned()));
        }
        Ok(())
    }
}

/// How a user is deleted: "hard" or (by default) soft.
#[derive(Debug, Clone, PartialEq, Eq)]
pub struct DeleteUserQuery {
    pub mode: Option<String>,
}

/// A role to add to a user, by name.
#[derive(Debug, Clone, PartialEq, Eq)]
pub struct AddRoleRequest {
    pub user_id: i64,
    pub role: String,
}

/// A role to assign to a user, by id.
#[derive(Debug, Clone, PartialEq, Eq)]
pub struct AssignRoleRequest {
    pub role_id: i64,
}

/// A warehouse to assign to a user, by id.
#[derive(Debug, Clone, PartialEq, Eq)]
pub struct AssignWarehouseRequest {
    pub warehouse_id: i64,
}

/// A new warehouse.
#[derive(Debug, Clone, PartialEq, Eq)]
pub struct CreateWarehouseRequest {
    pub name: String,
    pub address: String,
    pub phone: Option<String>,
    pub photo: Option<String>,
}

/// Changes to a warehouse; `None` leaves a value as it is.
#[derive(Debug, Clone, PartialEq, Eq)]
pub struct UpdateWarehouseRequest {
    pub name: Option<String>,
    pub address: Option<String>,
    pub phone: Option<String>,
    pub photo: Option<String>,
}

/// The phone number rule for warehouses, as this crate defines it: an
/// Indonesian number written "+62…" or "08…", digits after the prefix,
/// 10 to 15 characters long. The rule is this crate's own reading of the
/// messages that name it ("+62xxx or 08xxx", "between 10 - 15 digits").
pub open spec fn is_indonesian_phone(s: Seq<char>) -> bool {
    &&& 10 <= s.len() <= 15
    &&& (s.take(3) == "+62"@ || s.take(2) == "08"@)
    &&& forall|i: int| 1 <= i < s.len() ==> crate::text::is_digit(#[trigger] s[i])
}

/// Whether `s` follows the warehouse phone number rule.
pub fn check_indonesian_phone(s: &str) -> (r: bool)
    ensures
        r == is_indonesian_phone(s@),
{
    proof {
        reveal_strlit("+62");
        reveal_strlit("08");
    }
    let n = s.unicode_len();
    if n < 10 || n > 15 {
        return false;
    }
    let plus = s.get_char(0) == '+' && s.get_char(1) == '6' && s.get_char(2) == '2';
    let zero = s.get_char(0) == '0' && s.get_char(1) == '8';
    assert(plus == (s@.take(3) == "+62"@)) by {
        if plus {
            assert(s@.take(3) =~= "+62"@);
        } else {
            if s@.take(3) == "+62"@ {
                assert(s@.take(3)[0] == s@[0]);
                assert(s@.take(3)[1] == s@[1]);
                assert(s@.take(3)[2] == s@[2]);
            }
        }
    }
    assert(zero == (s@.take(2) == "08"@)) by {
        if zero {
            assert(s@.take(2) =~= "08"@);
        } else {
            if s@.take(2) == "08"@ {
                assert(s@.take(2)[0] == s@[0]);
                assert(s@.take(2)[1] == s@[1]);
            }
        }
    }
    if !plus && !zero {
        return false;
    }
    let mut i: usize = 1;
    while i < n
        invariant
            n == s@.len(),
            1 <= i <= n,
            forall|k: int| 1 <= k < i ==> crate::text::is_digit(#[trigger] s@[k]),
        decreases n - i,
    {
        let c = s.get_char(i);
        if !('0' <= c && c <= '9') {
            return false;
        }
        i = i + 1;
    }
    true
}

/// UTF-8 length in bytes (what `str::len` counts).
pub open spec fn byte_len(s: Seq<char>) -> int {
    vstd::utf8::encode_utf8(s).len() as int
}

/// The problem with a warehouse name, if any: 2 to 100 bytes.
pub open spec fn name_problem(name: Option<String>) -> Seq<Seq<char>> {
    match name {
        Some(n) => if byte_len(n@) < 2 || byte_len(n@) > 100 {
            seq!["Name must be between 2 and 100 characters"@]
        } else {
            Seq::empty()
        },
        None => Seq::empty(),
    }
}

/// The problem with a warehouse address, if any: 5 to 500 bytes.
pub open spec fn address_problem(address: Option<String>) -> Seq<Seq<char>> {
    match address {
        Some(a) => if byte_len(a@) < 5 || byte_len(a@) > 500 {
            seq!["Address must be between 5 and 500 characters"@]
        } else {
            Seq::empty()
        },
        None => Seq::empty(),
    }
}

/// The problem with a warehouse phone number, if any.
pub open spec fn phone_problem(phone: Option<String>) -> Seq<Seq<char>> {
    match phone {
        Some(p) => if !is_indonesian_phone(p@) {
            seq!["Phone must be a valid Indonesian number (+62xxx or 08xxx) and between 10 - 15 digits"@]
        } else {
            Seq::empty()
        },
        None => Seq::empty(),
    }
}

/// The problems with a warehouse update, in the order they are checked.
pub open spec fn warehouse_update_problems(req: UpdateWarehouseRequest) -> Seq<Seq<char>> {
    name_problem(req.name) + address_problem(req.address) + phone_problem(req.phone)
        + (if req.name is None && req.address is None && req.phone is None && req.photo is None {
        seq!["At least one field must be provided for update"@]
    } else {
        Seq::empty()
    })
}

fn text(s: &str) -> (r: String)
    ensures
        r@ == s@,
{
    s.to_owned()
}

impl UpdateWarehouseRequest {
    /// Whether no change is given.
    pub fn is_empty(&self) -> (r: bool)
        ensures
            r == (self.name is None && self.address is None && self.phone is None && self.photo is None),
    {
        self.name.is_none() && self.address.is_none() && self.phone.is_none() && self.photo.is_none()
    }

    /// Checks the update: a name of 2 to 100 bytes, an address of 5 to
    /// 500 bytes, a valid phone number, and at least one change. All
    /// problems are reported together, separated by ", ".
    pub fn validate(&self) -> (r: Result<(), AppError>)
        ensures
            warehouse_update_problems(*self).len() == 0 ==> r is Ok,
            warehouse_update_problems(*self).len() > 0 ==> (r matches Err(AppError::Validation(m))
                && m@ == join_spec(warehouse_update_problems(*self), ", "@)),
    {
        let mut errors: Vec<String> = Vec::new();
        if let Some(name) = &self.name {
            let l = name.as_str().as_bytes().len();
            if l < 2 || l > 100 {
                errors.push(text("Name must be between 2 and 100 characters"));
            }
        }
        assert(views(errors@) =~= name_problem(self.name));
        if let Some(address) = &self.address {
            let l = address.as_str().as_bytes().len();
            if l < 5 || l > 500 {
                errors.push(text("Address must be between 5 and 500 characters"));
            }
        }
        assert(views(errors@) =~= name_problem(self.name) + address_problem(self.address));
        if let Some(phone) = &self.phone {
            if !check_indonesian_phone(phone.as_str()) {
                errors.push(text("Phone must be a valid Indonesian number (+62xxx or 08xxx) and between 10 - 15 digits"));
            }
        }
        assert(views(errors@) =~= name_problem(self.name) + address_problem(self.address) + phone_problem(self.phone));
        if self.is_empty() {
            errors.push(text("At least one field must be provided for update"));
        }
        assert(views(errors@) =~= warehouse_update_problems(*self));
        if errors.len() == 0 {
            Ok(())
        } else {
            Err(AppError::Validation(join(&errors, ", ")))
        }
    }
}

/// A warehouse as the interface shows it.
#[derive(Debug, Clone, PartialEq, Eq)]
pub struct WarehouseResponse {
    pub id: i64,
    pub name: String,
    pub address: String,
    pub photo: Option<String>,
    pub phone: Option<String>,
    pub created_at: Timestamp,
    pub updated_at: Timestamp,
}

impl WarehouseResponse {
    /// The shown form of a warehouse (without its deletion time).
    pub fn from(w: Warehouse) -> (r: WarehouseResponse)
        ensures
            r.id == w.id,
            r.name == w.name,
            r.address == w.address,
            r.photo == w.photo,
            r.phone == w.phone,
            r.created_at == w.created_at,
            r.updated_at == w.updated_at,
    {
        WarehouseResponse {
            id: w.id,
            name: w.name,
            address: w.address,
            photo: w.photo,
            phone: w.phone,
            created_at: w.created_at,
            updated_at: w.updated_at,
        }
    }
}

/// A warehouse with its counts, as the interface shows it.
#[derive(Debug, Clone, PartialEq, Eq)]
pub struct WarehouseSummary {
    pub id: i64,
    pub name: String,
    pub address: String,
    pub photo: Option<String>,
    pub phone: Option<String>,
    pub total_products: i64,
    pub total_racks: i64,
    pub created_at: Timestamp,
    pub updated_at: Timestamp,
}

impl WarehouseSummary {
    /// The shown form of a warehouse with counts; a missing count is 0.
    pub fn from(w: WarehouseWithStats) -> (r: WarehouseSummary)
        ensures
            r.id == w.id,
            r.name == w.name,
            r.address == w.address,
            r.photo == w.photo,
            r.phone == w.phone,
            r.total_products == match w.total_products { Some(n) => n, None => 0 },
            r.total_racks == match w.total_racks { Some(n) => n, None => 0 },
            r.created_at == w.created_at,
            r.updated_at == w.updated_at,
    {
        WarehouseSummary {
            id: w.id,
            name: w.name,
            address: w.address,
            photo: w.photo,
            phone: w.phone,
            total_products: match w.total_products { Some(n) => n, None => 0 },
            total_racks: match w.total_racks { Some(n) => n, None => 0 },
            created_at: w.created_at,
            updated_at: w.updated_at,
        }
    }
}

/// A rack as the interface shows it.
#[derive(Debug, Clone, PartialEq, Eq)]
pub struct RackResponse {
    pub id: i64,
    pub warehouse_id: i64,
    pub code: String,
    pub zone: Option<String>,
    pub level: Option<i32>,
    pub description: Option<String>,
    pub capacity: Option<i64>,
    pub created_at: Timestamp,
    pub updated_at: Timestamp,
}

impl RackResponse {
    /// The shown form of a rack (without its deletion time).
    pub fn from(r: Rack) -> (out: RackResponse)
        ensures
            out.id == r.id,
            out.warehouse_id == r.warehouse_id,
            out.code == r.code,
            out.zone == r.zone,
            out.level == r.level,
            out.description == r.description,
            out.capacity == r.capacity,
            out.created_at == r.created_at,
            out.updated_at == r.updated_at,
    {
        RackResponse {
            id: r.id,
            warehouse_id: r.warehouse_id,
            code: r.code,
            zone: r.zone,
            level: r.level,
            description: r.description,
            capacity: r.capacity,
            created_at: r.created_at,
            updated_at: r.updated_at,
        }
    }
}

/// A rack with its stock figures, as the interface shows it.
#[derive(Debug, Clone, PartialEq, Eq)]
pub struct RackSummary {
    pub id: i64,
    pub warehouse_id: i64,
    pub code: String,
    pub zone: Option<String>,
    pub level: Option<i32>,
    pub description: Option<String>,
    pub capacity: Option<i64>,
    pub created_at: Timestamp,
    pub updated_at: Timestamp,
    pub used_capacity: i64,
    pub total_products: i64,
}

impl RackSummary {
    /// The shown form of a rack with stock figures.
    pub fn from(r: RackWithStats) -> (out: RackSummary)
        ensures
            out.id == r.id,
            out.warehouse_id == r.warehouse_id,
            out.code == r.code,
            out.zone == r.zone,
            out.level == r.level,
            out.description == r.description,
            out.capacity == r.capacity,
            out.created_at == r.created_at,
            out.updated_at == r.updated_at,
            out.used_capacity == r.used_capacity,
            out.total_products == r.total_products,
    {
        RackSummary {
            id: r.id,
            warehouse_id: r.warehouse_id,
            code: r.code,
            zone: r.zone,
            level: r.level,
            description: r.description,
            capacity: r.capacity,
            created_at: r.created_at,
            updated_at: r.updated_at,
            used_capacity: r.used_capacity,
            total_products: r.total_products,
        }
    }
}

} // verus!

verus! {

/// The problems found with one field of a request body, as the error
/// text shows them: the field's name, ": " and its messages separated by
/// ", "; nothing when the field has no problem.
pub open spec fn field_line(field: Seq<char>, msgs: Seq<Seq<char>>) -> Seq<Seq<char>> {
    if msgs.len() == 0 { Seq::empty() } else { seq![field + ": "@ + join_spec(msgs, ", "@)] }
}

/// `msg` when `bad`, otherwise nothing.
pub open spec fn problem_when(bad: bool, msg: Seq<char>) -> Seq<Seq<char>> {
    if bad { seq![msg] } else { Seq::empty() }
}

/// A length rule on text: fewer than `min` or more than `max` characters
/// is a problem.
pub open spec fn out_of_range(s: Seq<char>, min: int, max: int) -> bool {
    s.len() < min || s.len() > max
}

/// The result of checking a request body: success without problem
/// lines, otherwise a validation error listing them one per line.
pub open spec fn body_outcome(lines: Seq<Seq<char>>, r: Result<(), AppError>) -> bool {
    if lines.len() == 0 {
        r is Ok
    } else {
        r matches Err(AppError::Validation(m)) && m@ == join_spec(lines, "\n"@)
    }
}

/// Whether the e-mail address check of the `validator` crate accepts `s`;
/// a function of the text alone.
pub uninterp spec fn valid_email(s: Seq<char>) -> bool;

/// Calls `validator::ValidateEmail::validate_email` on the text: its
/// verdict is named `valid_email`.
#[verifier::external_body]
fn email_is_valid(s: &str) -> (b: bool)
    ensures
        b == valid_email(s@),
{
    s.validate_email()
}

/// `msg` as a one-element list when `bad`, otherwise an empty list.
fn problem_if(bad: bool, msg: &str) -> (r: Vec<String>)
    ensures
        views(r@) == problem_when(bad, msg@),
{
    let mut v: Vec<String> = Vec::new();
    if bad {
        v.push(msg.to_owned());
    }
    assert(views(v@) =~= problem_when(bad, msg@));
    v
}

/// Adds a further problem to a field's list when `bad`.
fn add_problem_if(msgs: &mut Vec<String>, bad: bool, msg: &str)
    ensures
        views(final(msgs)@) == views(old(msgs)@) + problem_when(bad, msg@),
{
    let ghost before = msgs@;
    if bad {
        msgs.push(msg.to_owned());
    }
    assert(views(msgs@) =~= views(before) + problem_when(bad, msg@));
}

/// Adds the line of a field to the lines of a body.
fn push_line(lines: &mut Vec<String>, field: &str, msgs: Vec<String>)
    ensures
        views(final(lines)@) == views(old(lines)@) + field_line(field@, views(msgs@)),
{
    let ghost before = lines@;
    if msgs.len() > 0 {
        let mut line = String::new();
        push_str(&mut line, field);
        push_str(&mut line, ": ");
        let joined = join(&msgs, ", ");
        push_str(&mut line, joined.as_str());
        lines.push(line);
        assert(views(lines@) =~= views(before) + field_line(field@, views(msgs@)));
    } else {
        assert(views(lines@) =~= views(before) + field_line(field@, views(msgs@)));
    }
}

/// The outcome of a body check from its problem lines.
fn body_result(lines: Vec<String>) -> (r: Result<(), AppError>)
    ensures
        body_outcome(views(lines@), r),
{
    if lines.len() == 0 {
        Ok(())
    } else {
        Err(AppError::Validation(join(&lines, "\n")))
    }
}

/// The problems of a login body.
pub open spec fn login_lines(req: LoginRequest) -> Seq<Seq<char>> {
    field_line("email"@, problem_when(!valid_email(req.email@), "Invalid email address!"@))
        + field_line("password"@, problem_when(req.password@.len() < 1, "Password is required!"@))
}

impl LoginRequest {
    /// Checks a login body: a valid e-mail address and a non-empty
    /// password. Each field with problems gives one line.
    pub fn validate(&self) -> (r: Result<(), AppError>)
        ensures
            body_outcome(login_lines(*self), r),
    {
        let mut lines: Vec<String> = Vec::new();
        push_line(&mut lines, "email", problem_if(!email_is_valid(self.email.as_str()), "Invalid email address!"));
        push_line(&mut lines, "password", problem_if(self.password.unicode_len() < 1, "Password is required!"));
        assert(views(lines@) =~= login_lines(*self));
        body_result(lines)
    }
}

/// The problems of a password change body that this crate checks.
pub open spec fn update_password_lines(req: UpdatePasswordRequest) -> Seq<Seq<char>> {
    field_line("old_password"@, problem_when(req.old_password@.len() < 1, "Old Password is required!"@))
        + field_line("confirm_new_password"@,
            problem_when(req.confirm_new_password@.len() < 8, "Confirm New Password must at least 8 characters"@)
            + problem_when(req.confirm_new_password@ != req.new_password@,
                "New Password and Confirm New Password doesn't match!"@))
}

impl UpdatePasswordRequest {
    /// Checks a password change: the old password is given, and the
    /// confirmation has at least 8 characters and equals the new password.
    /// The strength rule for the new password is not checked here: its
    /// definition is not part of this crate.
    pub fn validate(&self) -> (r: Result<(), AppError>)
        ensures
            body_outcome(update_password_lines(*self), r),
    {
        let mut lines: Vec<String> = Vec::new();
        push_line(&mut lines, "old_password", problem_if(self.old_password.unicode_len() < 1, "Old Password is required!"));
        let mut confirm = problem_if(self.confirm_new_password.unicode_len() < 8, "Confirm New Password must at least 8 characters");
        add_problem_if(&mut confirm, !str_eq(self.confirm_new_password.as_str(), self.new_password.as_str()),
            "New Password and Confirm New Password doesn't match!");
        push_line(&mut lines, "confirm_new_password", confirm);
        assert(views(lines@) =~= update_password_lines(*self));
        body_result(lines)
    }
}

/// The problems of a new-user body that this crate checks.
pub open spec fn create_user_lines(req: CreateUserRequest) -> Seq<Seq<char>> {
    field_line("name"@, problem_when(out_of_range(req.name@, 2, 100), "Name must be between 2 and 100 characters!"@))
        + field_line("email"@, problem_when(!valid_email(req.email@), "Invalid email address!"@))
        + field_line("password_confirm"@,
            problem_when(req.password_confirm@.len() < 8, "Password must at least 8"@)
            + problem_when(req.password_confirm@ != req.password@, "Password and Confirm Password doesn't match!"@))
}

impl CreateUserRequest {
    /// Checks a new user: a name of 2 to 100 characters, a valid e-mail
    /// address, and a password confirmation of at least 8 characters equal
    /// to the password. The phone, role and password-strength rules are not
    /// checked here: their definitions are not part of this crate.
    pub fn validate(&self) -> (r: Result<(), AppError>)
        ensures
            body_outcome(create_user_lines(*self), r),
    {
        let mut lines: Vec<String> = Vec::new();
        let n = self.name.unicode_len();
        push_line(&mut lines, "name", problem_if(n < 2 || n > 100, "Name must be between 2 and 100 characters!"));
        push_line(&mut lines, "email", problem_if(!email_is_valid(self.email.as_str()), "Invalid email address!"));
        let mut confirm = problem_if(self.password_confirm.unicode_len() < 8, "Password must at least 8");
        add_problem_if(&mut confirm, !str_eq(self.password_confirm.as_str(), self.password.as_str()),
            "Password and Confirm Password doesn't match!");
        push_line(&mut lines, "password_confirm", confirm);
        assert(views(lines@) =~= create_user_lines(*self));
        body_result(lines)
    }
}

/// The problems of a user update body that this crate checks.
pub open spec fn update_user_lines(req: UpdateUserRequest) -> Seq<Seq<char>> {
    field_line("name"@, match req.name {
        Some(n) => problem_when(out_of_range(n@, 2, 100), "Name must be between 2 and 100 characters!"@),
        None => Seq::empty(),
    }) + field_line("email"@, match req.email {
        Some(e) => problem_when(!valid_email(e@), "Invalid email address!"@),
        None => Seq::empty(),
    })
}

impl UpdateUserRequest {
    /// Checks the given changes: a name of 2 to 100 characters and a valid
    /// e-mail address; absent fields are not checked. The phone rule is
    /// not checked here: its definition is not part of this crate.
    pub fn validate(&self) -> (r: Result<(), AppError>)
        ensures
            body_outcome(update_user_lines(*self), r),
    {
        let mut lines: Vec<String> = Vec::new();
        let name_bad = match &self.name {
            Some(n) => { let l = n.unicode_len(); l < 2 || l > 100 },
            None => false,
        };
        push_line(&mut lines, "name", problem_if(name_bad, "Name must be between 2 and 100 characters!"));
        let email_bad = match &self.email {
            Some(e) => !email_is_valid(e.as_str()),
            None => false,
        };
        push_line(&mut lines, "email", problem_if(email_bad, "Invalid email address!"));
        assert(views(lines@) =~= update_user_lines(*self));
        body_result(lines)
    }
}

/// The problems of a new-warehouse body.
pub open spec fn create_warehouse_lines(req: CreateWarehouseRequest) -> Seq<Seq<char>> {
    field_line("name"@, problem_when(out_of_range(req.name@, 2, 100), "Name must be between 2 and 100 characters"@))
        + field_line("address"@, problem_when(out_of_range(req.address@, 5, 500), "Address must be between 5 and 500 characters"@))
        + field_line("phone"@, match req.phone {
            Some(p) => problem_when(out_of_range(p@, 10, 15), "Phone must be between 10 and 15 digits!"@)
                + problem_when(!is_indonesian_phone(p@), "Phone must be a valid Indonesian number (+62xxx or 08xxx)"@),
            None => Seq::empty(),
        })
}

impl CreateWarehouseRequest {
    /// Checks a new warehouse: a name of 2 to 100 characters, an address
    /// of 5 to 500 characters and, when given, a phone number of 10 to 15
    /// characters that follows the phone rule (`is_indonesian_phone`).
    pub fn validate(&self) -> (r: Result<(), AppError>)
        ensures
            body_outcome(create_warehouse_lines(*self), r),
    {
        let mut lines: Vec<String> = Vec::new();
        let n = self.name.unicode_len();
        push_line(&mut lines, "name", problem_if(n < 2 || n > 100, "Name must be between 2 and 100 characters"));
        let a = self.address.unicode_len();
        push_line(&mut lines, "address", problem_if(a < 5 || a > 500, "Address must be between 5 and 500 characters"));
        let phone_msgs = match &self.phone {
            Some(p) => {
                let l = p.unicode_len();
                let mut m = problem_if(l < 10 || l > 15, "Phone must be between 10 and 15 digits!");
                add_problem_if(&mut m, !check_indonesian_phone(p.as_str()),
                    "Phone must be a valid Indonesian number (+62xxx or 08xxx)");
                m
            },
            None => problem_if(false, ""),
        };
        push_line(&mut lines, "phone", phone_msgs);
        assert(views(lines@) =~= create_warehouse_lines(*self));
        body_result(lines)
    }
}

} // verus!

verus! {

/// A new warehouse is accepted exactly when its name has 2 to 100
/// characters, its address 5 to 500 characters and its phone number, if
/// given, 10 to 15 characters and follows the phone rule. With a single
/// faulty field the error names just that field and its problems.
pub proof fn lemma_new_warehouse_checks(req: CreateWarehouseRequest, r: Result<(), AppError>)
    requires
        body_outcome(create_warehouse_lines(req), r),
    ensures
        ({
            let name_ok = 2 <= req.name@.len() <= 100;
            let address_ok = 5 <= req.address@.len() <= 500;
            let phone_ok = match req.phone {
                None => true,
                Some(p) => 10 <= p@.len() <= 15 && is_indonesian_phone(p@),
            };
            &&& (r is Ok <==> (name_ok && address_ok && phone_ok))
            &&& (!name_ok && address_ok && req.phone is None ==> (r matches Err(AppError::Validation(m))
                && m@ == "name: Name must be between 2 and 100 characters"@))
            &&& (name_ok && !address_ok && req.phone is None ==> (r matches Err(AppError::Validation(m))
                && m@ == "address: Address must be between 5 and 500 characters"@))
            &&& (name_ok && address_ok ==> match req.phone {
                Some(p) => (!(10 <= p@.len() <= 15) ==> (r matches Err(AppError::Validation(m))
                    && m@ == "phone: Phone must be between 10 and 15 digits!, Phone must be a valid Indonesian number (+62xxx or 08xxx)"@))
                    && (10 <= p@.len() <= 15 && !is_indonesian_phone(p@) ==> (r matches Err(AppError::Validation(m))
                    && m@ == "phone: Phone must be a valid Indonesian number (+62xxx or 08xxx)"@)),
                None => true,
            })
        }),
{
    reveal_strlit("name: Name must be between 2 and 100 characters");
    reveal_strlit("address: Address must be between 5 and 500 characters");
    reveal_strlit("phone: Phone must be between 10 and 15 digits!, Phone must be a valid Indonesian number (+62xxx or 08xxx)");
    reveal_strlit("phone: Phone must be a valid Indonesian number (+62xxx or 08xxx)");
    reveal_strlit("name");
    reveal_strlit("address");
    reveal_strlit("phone");
    reveal_strlit(": ");
    reveal_strlit(", ");
    reveal_strlit("Name must be between 2 and 100 characters");
    reveal_strlit("Address must be between 5 and 500 characters");
    reveal_strlit("Phone must be between 10 and 15 digits!");
    reveal_strlit("Phone must be a valid Indonesian number (+62xxx or 08xxx)");
    let nl = field_line("name"@, problem_when(out_of_range(req.name@, 2, 100), "Name must be between 2 and 100 characters"@));
    let al = field_line("address"@, problem_when(out_of_range(req.address@, 5, 500), "Address must be between 5 and 500 characters"@));
    let pm = match req.phone {
        Some(p) => problem_when(out_of_range(p@, 10, 15), "Phone must be between 10 and 15 digits!"@)
            + problem_when(!is_indonesian_phone(p@), "Phone must be a valid Indonesian number (+62xxx or 08xxx)"@),
        None => Seq::<Seq<char>>::empty(),
    };
    let pl = field_line("phone"@, pm);
    let lines = create_warehouse_lines(req);
    assert(lines == nl + al + pl);
    assert(nl.len() <= 1 && al.len() <= 1 && pl.len() <= 1);
    if let Some(p) = req.phone {
        if out_of_range(p@, 10, 15) {
            assert(!is_indonesian_phone(p@));
            let two = seq!["Phone must be between 10 and 15 digits!"@,
                "Phone must be a valid Indonesian number (+62xxx or 08xxx)"@];
            assert(pm =~= two);
            assert(two.drop_last() =~= seq!["Phone must be between 10 and 15 digits!"@]);
            assert(join_spec(two.drop_last(), ", "@) == "Phone must be between 10 and 15 digits!"@);
            assert(join_spec(two, ", "@) == join_spec(two.drop_last(), ", "@) + ", "@ + two.last());
            assert(two.last() == "Phone must be a valid Indonesian number (+62xxx or 08xxx)"@);
            assert("phone"@ + ": "@ + ("Phone must be between 10 and 15 digits!"@ + ", "@
                + "Phone must be a valid Indonesian number (+62xxx or 08xxx)"@)
                =~= "phone: Phone must be between 10 and 15 digits!, Phone must be a valid Indonesian number (+62xxx or 08xxx)"@);
            assert("phone"@ + ": "@ + join_spec(two, ", "@) =~= "phone: Phone must be between 10 and 15 digits!, Phone must be a valid Indonesian number (+62xxx or 08xxx)"@);
        } else if !is_indonesian_phone(p@) {
            assert(pm =~= seq!["Phone must be a valid Indonesian number (+62xxx or 08xxx)"@]);
            assert("phone"@ + ": "@ + "Phone must be a valid Indonesian number (+62xxx or 08xxx)"@
                =~= "phone: Phone must be a valid Indonesian number (+62xxx or 08xxx)"@);
        } else {
            assert(pm =~= Seq::<Seq<char>>::empty());
        }
    }
    assert("name"@ + ": "@ + "Name must be between 2 and 100 characters"@
        =~= "name: Name must be between 2 and 100 characters"@);
    assert("address"@ + ": "@ + "Address must be between 5 and 500 characters"@
        =~= "address: Address must be between 5 and 500 characters"@);
    if nl.len() == 0 && pl.len() == 0 {
        assert(lines =~= al);
    }
    if al.len() == 0 && pl.len() == 0 {
        assert(lines =~= nl);
    }
    if nl.len() == 0 && al.len() == 0 {
        assert(lines =~= pl);
    }
}

} // verus!

verus! {

/// A body check succeeds exactly when it finds no problem line.
proof fn lemma_body_outcome_ok(lines: Seq<Seq<char>>, r: Result<(), AppError>)
    requires
        body_outcome(lines, r),
    ensures
        r is Ok <==> lines.len() == 0,
{
}

/// A login is accepted exactly when the e-mail address is valid and a
/// password is given.
pub proof fn lemma_login_checks(req: LoginRequest, r: Result<(), AppError>)
    requires
        body_outcome(login_lines(req), r),
    ensures
        r is Ok <==> (valid_email(req.email@) && req.password@.len() >= 1),
{
    lemma_body_outcome_ok(login_lines(req), r);
}

/// A password change is accepted exactly when the old password is given
/// and the confirmation has at least 8 characters and equals the new
/// password.
pub proof fn lemma_password_change_checks(req: UpdatePasswordRequest, r: Result<(), AppError>)
    requires
        body_outcome(update_password_lines(req), r),
    ensures
        r is Ok <==> (req.old_password@.len() >= 1 && req.confirm_new_password@.len() >= 8
            && req.confirm_new_password@ == req.new_password@),
{
    lemma_body_outcome_ok(update_password_lines(req), r);
}

/// A new user is accepted (by the rules checked here) exactly when the
/// name has 2 to 100 characters, the e-mail address is valid, and the
/// confirmation has at least 8 characters and equals the password.
pub proof fn lemma_new_user_checks(req: CreateUserRequest, r: Result<(), AppError>)
    requires
        body_outcome(create_user_lines(req), r),
    ensures
        r is Ok <==> (2 <= req.name@.len() <= 100 && valid_email(req.email@)
            && req.password_confirm@.len() >= 8 && req.password_confirm@ == req.password@),
{
    lemma_body_outcome_ok(create_user_lines(req), r);
}

/// A user update is accepted (by the rules checked here) exactly when a
/// given name has 2 to 100 characters and a given e-mail address is valid.
pub proof fn lemma_user_update_checks(req: UpdateUserRequest, r: Result<(), AppError>)
    requires
        body_outcome(update_user_lines(req), r),
    ensures
        r is Ok <==> ((match req.name { Some(n) => 2 <= n@.len() <= 100, None => true })
            && (match req.email { Some(e) => valid_email(e@), None => true })),
{
    lemma_body_outcome_ok(update_user_lines(req), r);
}

/// A warehouse update is accepted exactly when it changes something, a
/// given name has 2 to 100 bytes, a given address 5 to 500 bytes and a
/// given phone number follows the phone rule; otherwise the problems are
/// reported.
pub proof fn lemma_warehouse_update_checks(req: UpdateWarehouseRequest)
    ensures
        warehouse_update_problems(req).len() == 0 <==> (
            !(req.name is None && req.address is None && req.phone is None && req.photo is None)
            && (match req.name { Some(n) => 2 <= byte_len(n@) <= 100, None => true })
            && (match req.address { Some(a) => 5 <= byte_len(a@) <= 500, None => true })
            && (match req.phone { Some(p) => is_indonesian_phone(p@), None => true })),
{
}

} // verus!
