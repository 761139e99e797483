//! What the permission endpoints compute once the services are at hand.

use vstd::prelude::*;

use crate::error::AppError;
use crate::models::{Permission, UserPermission};
use crate::permissions::{
    find_id, find_name, grant_outcome, grants_of, revoke_outcome, answered, PermissionsService,
    PermissionsState,
};
use crate::token::texts;
use crate::users::{find_username, UsersService};

verus! {

/// The names of the permissions that `grants` refer to, in order, skipping grants of ids that
/// name no permission.
pub open spec fn names_of_grants(perms: Seq<Permission>, grants: Seq<UserPermission>) -> Seq<Seq<char>>
    decreases grants.len(),
{
    if grants.len() == 0 {
        Seq::empty()
    } else {
        let rest = names_of_grants(perms, grants.drop_last());
        let k = find_id(perms, grants.last().permission_id, 0);
        if k >= 0 {
            rest.push(perms[k].name@)
        } else {
            rest
        }
    }
}

/// The names of the permissions held by user `user_id`.
pub open spec fn permission_names_of(s: PermissionsState, user_id: i64) -> Seq<Seq<char>> {
    names_of_grants(s.permissions, grants_of(s.user_permissions, user_id))
}

/// The names of the permissions held by user `user_id`, in the order of the grants.
pub fn permission_names(permissions: &PermissionsService, user_id: i64) -> (r: Vec<String>)
    ensures
        texts(r@) == permission_names_of(permissions@, user_id),
{
    let grants = permissions.clone().get_permissions_for_user(user_id);
    let mut names: Vec<String> = Vec::new();
    let mut i: usize = 0;
    while i < grants.len()
        invariant
            0 <= i <= grants@.len(),
            grants@ == grants_of(permissions@.user_permissions, user_id),
            texts(names@) == names_of_grants(permissions@.permissions, grants@.take(i as int)),
        decreases grants@.len() - i,
    {
        assert(grants@.take(i + 1).drop_last() =~= grants@.take(i as int));
        match permissions.get_by_id(grants[i].permission_id) {
            Some(permission) => {
                names.push(permission.name.clone());
                assert(texts(names@) =~= names_of_grants(permissions@.permissions, grants@.take(i as int)).push(permission.name@));
            },
            None => {},
        }
        i += 1;
    }
    assert(grants@.take(i as int) =~= grants@);
    names
}

/// The permission with id `id`.
pub fn get_by_id(permissions: &PermissionsService, id: i64) -> (r: Result<Permission, AppError>)
    ensures
        ({
            let k = find_id(permissions@.permissions, id, 0);
            if k < 0 {
                r == Err::<Permission, AppError>(AppError::PermissionNotFound)
            } else {
                r == Ok::<Permission, AppError>(permissions@.permissions[k])
            }
        }),
{
    match permissions.get_by_id(id) {
        Some(permission) => Ok(permission.clone()),
        None => Err(AppError::PermissionNotFound),
    }
}

/// The permission named `permission_name` up to case.
pub fn get_by_name(permissions: &PermissionsService, permission_name: &str) -> (r: Result<Permission, AppError>)
    ensures
        ({
            let k = find_name(permissions@.permissions, permission_name@, 0);
            if k < 0 {
                r == Err::<Permission, AppError>(AppError::PermissionNotFound)
            } else {
                r == Ok::<Permission, AppError>(permissions@.permissions[k])
            }
        }),
{
    match permissions.get_by_name(permission_name) {
        Some(permission) => Ok(permission.clone()),
        None => Err(AppError::PermissionNotFound),
    }
}

/// The names of the permissions of user `username` (matched up to case).
pub fn get_permissions_for_user(
    users: &UsersService,
    permissions: &PermissionsService,
    username: &str,
) -> (r: Result<Vec<String>, AppError>)
    ensures
        ({
            let k = find_username(users@, username@, 0);
            if k < 0 {
                r == Err::<Vec<String>, AppError>(AppError::UserNotFound)
            } else {
                r matches Ok(names) && texts(names@) == permission_names_of(permissions@, users@[k].id)
            }
        }),
{
    match users.get_by_username(username) {
        None => Err(AppError::UserNotFound),
        Some(user) => Ok(permission_names(permissions, user.id)),
    }
}

/// Grants permission `permission_name` to user `username` (both matched up to case).
pub fn grant_permission(
    users: &UsersService,
    permissions: &mut PermissionsService,
    username: &str,
    permission_name: &str,
) -> (r: Result<(), AppError>)
    ensures
        ({
            let k = find_username(users@, username@, 0);
            if k < 0 {
                &&& r == Err::<(), AppError>(AppError::UserNotFound)
                &&& final(permissions)@ == old(permissions)@
            } else {
                answered(r, old(permissions)@, final(permissions)@, grant_outcome(old(permissions)@, users@[k].id, permission_name@))
            }
        }),
{
    match users.get_by_username(username) {
        None => Err(AppError::UserNotFound),
        Some(user) => permissions.grant_permission(user.id, permission_name),
    }
}

/// Withdraws permission `permission_name` from user `username` (both matched up to case).
pub fn revoke_permission(
    users: &UsersService,
    permissions: &mut PermissionsService,
    username: &str,
    permission_name: &str,
) -> (r: Result<(), AppError>)
    ensures
        ({
            let k = find_username(users@, username@, 0);
            if k < 0 {
                &&& r == Err::<(), AppError>(AppError::UserNotFound)
                &&& final(permissions)@ == old(permissions)@
            } else {
                answered(r, old(permissions)@, final(permissions)@, revoke_outcome(old(permissions)@, users@[k].id, permission_name@))
            }
        }),
{
    match users.get_by_username(username) {
        None => Err(AppError::UserNotFound),
        Some(user) => permissions.revoke_permission(user.id, permission_name),
    }
}

} // verus!
