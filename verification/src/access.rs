//! Authentication results and role-based access control.

use vstd::prelude::*;
use crate::constants::{admin, manager, staff, viewer, can_manage_users_spec, can_manage_master_spec, can_approve_spec, can_create_transaction_spec, all_roles_spec};
use crate::errors::AppError;
use crate::text::{parse_i64, parse_i64_spec, starts_with, str_views, views, contains_str};

verus! {

/// The authenticated caller of a request.
#[derive(Debug, Clone, PartialEq, Eq)]
pub struct AuthUser {
    /// The user's id.
    pub id: i64,
    /// The names of the user's roles.
    pub roles: Vec<String>,
}

/// Whether some role in `roles` is one of `allowed`.
pub open spec fn has_any_role(roles: Seq<Seq<char>>, allowed: Seq<Seq<char>>) -> bool {
    exists|i: int| 0 <= i < roles.len() && allowed.contains(#[trigger] roles[i])
}

/// Every name in `a` is also in `b`.
pub open spec fn group_within(a: Seq<Seq<char>>, b: Seq<Seq<char>>) -> bool {
    forall|i: int| 0 <= i < a.len() ==> b.contains(#[trigger] a[i])
}

/// Lets the user through when one of its roles is allowed; otherwise
/// the request is refused with `Forbidden`.
pub fn require_roles(allowed: &[&str], user: AuthUser) -> (r: Result<AuthUser, AppError>)
    ensures
        has_any_role(views(user.roles@), str_views(allowed@)) ==> r == Ok::<AuthUser, AppError>(user),
        !has_any_role(views(user.roles@), str_views(allowed@)) ==> r == Err::<AuthUser, AppError>(AppError::Forbidden),
{
    let n = user.roles.len();
    let mut i: usize = 0;
    while i < n
        invariant
            n == user.roles@.len(),
            i <= n,
            forall|k: int| 0 <= k < i ==> !str_views(allowed@).contains(#[trigger] views(user.roles@)[k]),
        decreases n - i,
    {
        if contains_str(allowed, user.roles[i].as_str()) {
            assert(views(user.roles@)[i as int] == user.roles@[i as int]@);
            return Ok(user);
        }
        assert(views(user.roles@)[i as int] == user.roles@[i as int]@);
        i = i + 1;
    }
    Err(AppError::Forbidden)
}

/// A larger permission group lets through everyone a smaller one does.
pub proof fn lemma_require_roles_monotone(roles: Seq<Seq<char>>, small: Seq<Seq<char>>, large: Seq<Seq<char>>)
    requires
        group_within(small, large),
        has_any_role(roles, small),
    ensures
        has_any_role(roles, large),
{
    let i = choose|i: int| 0 <= i < roles.len() && small.contains(#[trigger] roles[i]);
    let j = choose|j: int| 0 <= j < small.len() && small[j] == roles[i];
    assert(large.contains(small[j]));
}

/// The permission groups are nested: managing users is reserved to a
/// subset of those who manage master data, who are exactly those who
/// approve, a subset of those who create transactions, a subset of all
/// roles.
pub proof fn lemma_permission_groups_nested()
    ensures
        group_within(can_manage_users_spec(), can_manage_master_spec()),
        can_approve_spec() == can_manage_master_spec(),
        group_within(can_manage_master_spec(), can_create_transaction_spec()),
        group_within(can_create_transaction_spec(), all_roles_spec()),
{
    assert(can_manage_master_spec()[0] == admin());
    assert(can_create_transaction_spec()[0] == admin());
    assert(can_create_transaction_spec()[1] == manager());
    assert(all_roles_spec()[0] == admin());
    assert(all_roles_spec()[1] == manager());
    assert(all_roles_spec()[2] == staff());
}

/// The roles of the access matrix: ADMIN passes every group; MANAGER
/// passes every group but user management; STAFF only creates
/// transactions (and is in the group of all roles); VIEWER is in no
/// group but that of all roles.
pub proof fn lemma_access_matrix()
    ensures
        has_any_role(seq![admin()], can_manage_users_spec()),
        has_any_role(seq![admin()], can_manage_master_spec()),
        has_any_role(seq![admin()], can_approve_spec()),
        has_any_role(seq![admin()], can_create_transaction_spec()),
        has_any_role(seq![admin()], all_roles_spec()),
        !has_any_role(seq![manager()], can_manage_users_spec()),
        has_any_role(seq![manager()], can_manage_master_spec()),
        has_any_role(seq![manager()], can_approve_spec()),
        has_any_role(seq![manager()], can_create_transaction_spec()),
        !has_any_role(seq![staff()], can_manage_users_spec()),
        !has_any_role(seq![staff()], can_manage_master_spec()),
        !has_any_role(seq![staff()], can_approve_spec()),
        has_any_role(seq![staff()], can_create_transaction_spec()),
        has_any_role(seq![staff()], all_roles_spec()),
        !has_any_role(seq![viewer()], can_manage_users_spec()),
        !has_any_role(seq![viewer()], can_manage_master_spec()),
        !has_any_role(seq![viewer()], can_approve_spec()),
        !has_any_role(seq![viewer()], can_create_transaction_spec()),
        has_any_role(seq![viewer()], all_roles_spec()),
{
    crate::constants::lemma_role_names_distinct();
    assert(seq![admin()][0] == admin());
    assert(seq![manager()][0] == manager());
    assert(seq![staff()][0] == staff());
    assert(seq![viewer()][0] == viewer());
    assert(can_manage_users_spec()[0] == admin());
    assert(can_manage_master_spec()[0] == admin());
    assert(can_manage_master_spec()[1] == manager());
    assert(can_create_transaction_spec()[1] == manager());
    assert(can_create_transaction_spec()[2] == staff());
    assert(all_roles_spec()[0] == admin());
    assert(all_roles_spec()[2] == staff());
    assert(all_roles_spec()[3] == viewer());
    assert(!can_manage_users_spec().contains(manager()));
    assert(!can_manage_users_spec().contains(staff()));
    assert(!can_manage_users_spec().contains(viewer()));
    assert(!can_manage_master_spec().contains(staff()));
    assert(!can_manage_master_spec().contains(viewer()));
    assert(!can_create_transaction_spec().contains(viewer()));
}

/// The bearer token of an `Authorization` header value: the text after
/// "Bearer ". A missing or unreadable header, or one without that
/// prefix, means the request is unauthenticated.
pub fn extract_bearer_token(header: Option<&str>) -> (r: Result<String, AppError>)
    ensures
        match header {
            Some(h) => {
                let prefix = "Bearer "@;
                if prefix.len() <= h@.len() && h@.take(prefix.len() as int) == prefix {
                    r matches Ok(t) && t@ == h@.skip(prefix.len() as int)
                } else {
                    r == Err::<String, AppError>(AppError::Unauthorized)
                }
            },
            None => r == Err::<String, AppError>(AppError::Unauthorized),
        },
{
    match header {
        None => Err(AppError::Unauthorized),
        Some(h) => {
            let prefix = "Bearer ";
            if starts_with(h, prefix) {
                let n = h.unicode_len();
                let m = prefix.unicode_len();
                Ok(h.substring_char(m, n).to_owned())
            } else {
                Err(AppError::Unauthorized)
            }
        },
    }
}

/// The caller named by verified token claims: the subject must be a
/// decimal user id, otherwise the token is invalid.
pub fn auth_user_from_claims(sub: &str, roles: Vec<String>) -> (r: Result<AuthUser, AppError>)
    ensures
        match parse_i64_spec(sub@) {
            Some(id) => r matches Ok(u) && u.id == id && u.roles == roles,
            None => r == Err::<AuthUser, AppError>(AppError::InvalidToken),
        },
{
    match parse_i64(sub) {
        Some(id) => Ok(AuthUser { id, roles }),
        None => Err(AppError::InvalidToken),
    }
}

/// The id of a request, kept in the request's extensions.
#[derive(Debug, Clone, PartialEq, Eq)]
pub struct RequestId(pub String);

impl RequestId {
    /// The id's text (what `Display` shows).
    pub fn as_str(&self) -> (r: &str)
        ensures
            r@ == self.0@,
    {
        self.0.as_str()
    }
}

/// The request id: the one the client sent, when it sent a readable
/// one, and the freshly generated one otherwise.
pub fn request_id_from(header: Option<String>, generated: String) -> (r: RequestId)
    ensures
        match header {
            Some(h) => r.0 == h,
            None => r.0 == generated,
        },
{
    match header {
        Some(h) => RequestId(h),
        None => RequestId(generated),
    }
}

} // verus!

verus! {

/// A caller passes a role check when any one of its roles is allowed: a
/// caller without roles never passes, and adding a role passes exactly
/// when the caller passed already or the added role is allowed.
pub proof fn lemma_any_role_suffices(roles: Seq<Seq<char>>, role: Seq<char>, allowed: Seq<Seq<char>>)
    ensures
        !has_any_role(Seq::<Seq<char>>::empty(), allowed),
        has_any_role(roles.push(role), allowed) <==> (has_any_role(roles, allowed) || allowed.contains(role)),
        has_any_role(seq![role], allowed) <==> allowed.contains(role),
{
    let p = roles.push(role);
    if has_any_role(p, allowed) {
        let i = choose|i: int| 0 <= i < p.len() && allowed.contains(#[trigger] p[i]);
        if i < roles.len() {
            assert(p[i] == roles[i]);
        }
    }
    if has_any_role(roles, allowed) {
        let i = choose|i: int| 0 <= i < roles.len() && allowed.contains(#[trigger] roles[i]);
        assert(p[i] == roles[i]);
    }
    if allowed.contains(role) {
        assert(p[roles.len() as int] == role);
        assert(seq![role][0] == role);
    }
}

} // verus!
