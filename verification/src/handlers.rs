//! What each endpoint answers for a signed-in caller: the permission it asks for, the checks it
//! makes, and the service call it makes.

use vstd::prelude::*;

use crate::auth_controller;
use crate::error::AppError;
use crate::models::{AuthResponse, CreatePermissionBody, Permission, SignUpBody, User};
use crate::permissions::{
    answered, created, delete_outcome, find_id, find_name, max_id, PermissionsService,
};
use crate::permissions_controller;
use crate::text::{integer_value, names_match, parse_i64, parses_as_i64, same_name};
use crate::otp::{code_accepted, qr_png_of};
use crate::token::{clock_reading, holds_any, slice_texts, texts, AccessTokenPayload, JwtEncryption};
use crate::users::{
    find_user_id, find_username, max_user_id, UsersService,
};
use crate::users_controller;

verus! {

/// The permissions that allow reading users.
pub open spec fn user_readers() -> Seq<Seq<char>> {
    seq!["users_read"@, "users_full"@]
}

/// The permissions that allow changing users.
pub open spec fn user_writers() -> Seq<Seq<char>> {
    seq!["users_write"@, "users_full"@]
}

/// The permissions that allow reading permissions.
pub open spec fn permission_readers() -> Seq<Seq<char>> {
    seq!["permissions_read"@, "permissions_full"@]
}

/// The permissions that allow changing permissions.
pub open spec fn permission_writers() -> Seq<Seq<char>> {
    seq!["permissions_write"@, "permissions_full"@]
}

/// The permission that allows granting permissions.
pub open spec fn granters() -> Seq<Seq<char>> {
    seq!["grant_permission"@]
}

/// The permission that allows revoking permissions.
pub open spec fn revokers() -> Seq<Seq<char>> {
    seq!["revoke_permission"@]
}

/// The caller's token carries one of the `required` permissions.
pub open spec fn allowed(current_user: &AccessTokenPayload, required: Seq<Seq<char>>) -> bool {
    holds_any(current_user@.permissions, required)
}

/// Checks that the caller holds one of two permissions.
fn require_one_of(current_user: &AccessTokenPayload, first: &str, second: &str) -> (r: Result<(), AppError>)
    ensures
        r is Ok <==> allowed(current_user, seq![first@, second@]),
        r is Err ==> r == Err::<(), AppError>(AppError::UnAuthorized),
{
    let required = vec![first, second];
    assert(slice_texts(required@) =~= seq![first@, second@]);
    current_user.check_permissions(required)
}

/// Checks that the caller holds one permission.
fn require(current_user: &AccessTokenPayload, permission: &str) -> (r: Result<(), AppError>)
    ensures
        r is Ok <==> allowed(current_user, seq![permission@]),
        r is Err ==> r == Err::<(), AppError>(AppError::UnAuthorized),
{
    let required = vec![permission];
    assert(slice_texts(required@) =~= seq![permission@]);
    current_user.check_permissions(required)
}

/// The id written in the token's subject.
pub open spec fn subject_id(current_user: &AccessTokenPayload) -> i64 {
    integer_value(current_user.sub@)->Some_0 as i64
}

/// The caller's id, read from the token's subject.
fn caller_id(current_user: &AccessTokenPayload) -> (r: i64)
    requires
        parses_as_i64(current_user.sub@),
    ensures
        r == subject_id(current_user),
{
    match parse_i64(current_user.sub.as_str()) {
        Ok(id) => id,
        Err(_) => {
            assert(false);
            0
        },
    }
}

/// Whether `sign_up` can run for this body: it cannot only when the body passes the rules, the
/// name is free, and the highest user id leaves no room for the next one.
pub fn sign_up_fits(users: &UsersService, data: &SignUpBody) -> (r: bool)
    ensures
        r == (data.failures().len() == 0 && find_username(users@, data.username@, 0) == -1
            ==> max_user_id(users@) < i64::MAX),
{
    if data.validate().is_err() {
        return true;
    }
    if users.get_by_username(data.username.as_str()).is_some() {
        return true;
    }
    users.max_id() < i64::MAX
}

/// Whether `create_permission` can run for this caller and body: it cannot only when the body
/// passes the rules, the caller may change permissions, the name is free, and the highest id
/// leaves no room for the next one.
pub fn create_permission_fits(
    current_user: &AccessTokenPayload,
    permissions: &PermissionsService,
    data: &CreatePermissionBody,
) -> (r: bool)
    ensures
        r == (data.failures().len() == 0 && allowed(current_user, permission_writers()) && find_name(
            permissions@.permissions,
            data.name@,
            0,
        ) == -1 ==> max_id(permissions@.permissions) < i64::MAX),
{
    if data.validate().is_err() {
        return true;
    }
    if require_one_of(current_user, "permissions_write", "permissions_full").is_err() {
        return true;
    }
    if permissions.get_by_name(data.name.as_str()).is_some() {
        return true;
    }
    permissions.max_id() < i64::MAX
}

/// Whether `delete_permission` runs to its end for this caller: it does unless the caller may
/// change permissions and the removal of the permission's grants runs past the end of the list.
pub fn delete_permission_completes(
    current_user: &AccessTokenPayload,
    permissions: &PermissionsService,
    permission_name: &str,
) -> (r: bool)
    ensures
        r == (allowed(current_user, permission_writers()) ==> permissions@.delete_completes(
            permission_name@,
        )),
{
    if require_one_of(current_user, "permissions_write", "permissions_full").is_err() {
        return true;
    }
    permissions.delete_completes(permission_name)
}

/// Signs up: the body is checked against the account rules first.
pub fn sign_up(
    users: &mut UsersService,
    permissions: &PermissionsService,
    jwt: &JwtEncryption,
    data: SignUpBody,
) -> (r: Result<AuthResponse, AppError>)
    requires
        data.failures().len() == 0 && find_username(old(users)@, data.username@, 0) == -1
            ==> max_user_id(old(users)@) < i64::MAX,
    ensures
        data.failures().len() > 0 ==> final(users)@ == old(users)@ && r matches Err(AppError::ValidationError(_)),
        data.failures().len() == 0 ==> exists|now: i64|
            #[trigger] clock_reading(now) && auth_controller::signed_up_answer(
                old(users)@,
                final(users)@,
                permissions@,
                data.username@,
                data.password@,
                now,
                r,
            ),
{
    match data.validate() {
        Ok(()) => {},
        Err(e) => {
            return Err(e);
        },
    }
    auth_controller::sign_up(users, permissions, jwt, data)
}

/// The QR code of the caller's one-time password generator, for a caller who has not set up a
/// second factor yet.
pub fn get_otp_qr_code(current_user: &AccessTokenPayload, users: &UsersService) -> (r: Result<
    Vec<u8>,
    AppError,
>)
    requires
        current_user.otp_enabled || current_user.otp_passed || parses_as_i64(current_user.sub@),
    ensures
        current_user.otp_enabled || current_user.otp_passed ==> r == Err::<Vec<u8>, AppError>(
            AppError::UnAuthorized,
        ),
        !(current_user.otp_enabled || current_user.otp_passed) ==> {
            let k = find_user_id(users@, subject_id(current_user), 0);
            if k < 0 {
                r == Err::<Vec<u8>, AppError>(AppError::UserNotFound)
            } else {
                auth_controller::png_answer(r, qr_png_of(users@[k].otp@))
            }
        },
{
    if current_user.otp_enabled || current_user.otp_passed {
        return Err(AppError::UnAuthorized);
    }
    let user_id = caller_id(current_user);
    auth_controller::get_otp_qr_code(users, user_id)
}

/// Turns the second factor on for a caller who has not set it up, given a valid code.
pub fn enable_otp(
    current_user: &AccessTokenPayload,
    users: &mut UsersService,
    permissions: &PermissionsService,
    jwt: &JwtEncryption,
    otp_code: &str,
) -> (r: Result<AuthResponse, AppError>)
    requires
        current_user.otp_enabled || current_user.otp_passed || parses_as_i64(current_user.sub@),
    ensures
        current_user.otp_enabled || current_user.otp_passed ==> r == Err::<AuthResponse, AppError>(
            AppError::UnAuthorized,
        ) && final(users)@ == old(users)@,
        !(current_user.otp_enabled || current_user.otp_passed) ==> {
            let k = find_user_id(old(users)@, subject_id(current_user), 0);
            if k < 0 {
                r == Err::<AuthResponse, AppError>(AppError::UserNotFound) && final(users)@ == old(users)@
            } else {
                ||| (r == Err::<AuthResponse, AppError>(AppError::InvalidOTP) && final(users)@ == old(users)@)
                ||| exists|time: u64, now: i64|
                    #![trigger code_accepted(old(users)@[k].otp@, otp_code@, time), clock_reading(now)]
                    clock_reading(now) && auth_controller::otp_outcome(
                        old(users)@,
                        final(users)@,
                        permissions@,
                        k,
                        true,
                        code_accepted(old(users)@[k].otp@, otp_code@, time),
                        now,
                        r,
                    )
            }
        },
{
    if current_user.otp_enabled || current_user.otp_passed {
        return Err(AppError::UnAuthorized);
    }
    let user_id = caller_id(current_user);
    auth_controller::verify_otp_code(users, permissions, jwt, user_id, otp_code, true)
}

/// Checks the second factor of a caller who has it on and has not passed it yet.
pub fn verify_otp_code(
    current_user: &AccessTokenPayload,
    users: &mut UsersService,
    permissions: &PermissionsService,
    jwt: &JwtEncryption,
    otp_code: &str,
) -> (r: Result<AuthResponse, AppError>)
    requires
        !current_user.otp_enabled || current_user.otp_passed || parses_as_i64(current_user.sub@),
    ensures
        !current_user.otp_enabled || current_user.otp_passed ==> r == Err::<AuthResponse, AppError>(
            AppError::UnAuthorized,
        ) && final(users)@ == old(users)@,
        !(!current_user.otp_enabled || current_user.otp_passed) ==> {
            let k = find_user_id(old(users)@, subject_id(current_user), 0);
            if k < 0 {
                r == Err::<AuthResponse, AppError>(AppError::UserNotFound) && final(users)@ == old(users)@
            } else {
                ||| (r == Err::<AuthResponse, AppError>(AppError::InvalidOTP) && final(users)@ == old(users)@)
                ||| exists|time: u64, now: i64|
                    #![trigger code_accepted(old(users)@[k].otp@, otp_code@, time), clock_reading(now)]
                    clock_reading(now) && auth_controller::otp_outcome(
                        old(users)@,
                        final(users)@,
                        permissions@,
                        k,
                        false,
                        code_accepted(old(users)@[k].otp@, otp_code@, time),
                        now,
                        r,
                    )
            }
        },
{
    if !current_user.otp_enabled || current_user.otp_passed {
        return Err(AppError::UnAuthorized);
    }
    let user_id = caller_id(current_user);
    auth_controller::verify_otp_code(users, permissions, jwt, user_id, otp_code, false)
}

/// The caller's own account.
pub fn me(current_user: &AccessTokenPayload, users: &UsersService) -> (r: Result<User, AppError>)
    ensures
        ({
            let k = find_username(users@, current_user.username@, 0);
            if k < 0 {
                r == Err::<User, AppError>(AppError::UserNotFound)
            } else {
                r == Ok::<User, AppError>(users@[k])
            }
        }),
{
    users_controller::get_by_username(users, current_user.username.as_str())
}

/// Creates a permission: the body is checked against the permission rules, then the caller must
/// be allowed to change permissions.
pub fn create_permission(
    current_user: &AccessTokenPayload,
    permissions: &mut PermissionsService,
    data: CreatePermissionBody,
) -> (r: Result<Permission, AppError>)
    requires
        data.failures().len() == 0 && allowed(current_user, permission_writers()) && find_name(
            old(permissions)@.permissions,
            data.name@,
            0,
        ) == -1 ==> max_id(old(permissions)@.permissions) < i64::MAX,
    ensures
        data.failures().len() > 0 ==> final(permissions)@ == old(permissions)@ && r matches Err(
            AppError::ValidationError(_),
        ),
        data.failures().len() == 0 && !allowed(current_user, permission_writers()) ==> r == Err::<
            Permission,
            AppError,
        >(AppError::UnAuthorized) && final(permissions)@ == old(permissions)@,
        data.failures().len() == 0 && allowed(current_user, permission_writers()) ==> match r {
            Ok(p) => created(old(permissions)@, data.name@, data.description@, final(permissions)@, p),
            Err(e) => {
                &&& e == AppError::PermissionAlreadyExists
                &&& find_name(old(permissions)@.permissions, data.name@, 0) >= 0
                &&& final(permissions)@ == old(permissions)@
            },
        },
{
    match data.validate() {
        Ok(()) => {},
        Err(e) => {
            return Err(e);
        },
    }
    match require_one_of(current_user, "permissions_write", "permissions_full") {
        Ok(()) => {},
        Err(e) => {
            return Err(e);
        },
    }
    permissions.create(data.name.as_str(), data.description.as_str())
}

/// All permissions, for a caller allowed to read them.
pub fn get_permissions(current_user: &AccessTokenPayload, permissions: &PermissionsService) -> (r: Result<
    Vec<Permission>,
    AppError,
>)
    ensures
        !allowed(current_user, permission_readers()) ==> r == Err::<Vec<Permission>, AppError>(
            AppError::UnAuthorized,
        ),
        allowed(current_user, permission_readers()) ==> (r matches Ok(all) && all@ == permissions@.permissions),
{
    match require_one_of(current_user, "permissions_read", "permissions_full") {
        Ok(()) => {},
        Err(e) => {
            return Err(e);
        },
    }
    Ok(permissions.get_all())
}

/// The permission with id `id`, for a caller allowed to read permissions.
pub fn get_permission_by_id(
    current_user: &AccessTokenPayload,
    permissions: &PermissionsService,
    id: i64,
) -> (r: Result<Permission, AppError>)
    ensures
        !allowed(current_user, permission_readers()) ==> r == Err::<Permission, AppError>(
            AppError::UnAuthorized,
        ),
        allowed(current_user, permission_readers()) ==> {
            let k = find_id(permissions@.permissions, id, 0);
            if k < 0 {
                r == Err::<Permission, AppError>(AppError::PermissionNotFound)
            } else {
                r == Ok::<Permission, AppError>(permissions@.permissions[k])
            }
        },
{
    match require_one_of(current_user, "permissions_read", "permissions_full") {
        Ok(()) => {},
        Err(e) => {
            return Err(e);
        },
    }
    permissions_controller::get_by_id(permissions, id)
}

/// The permission named `permission_name`, for a caller allowed to read permissions.
pub fn get_permission_by_name(
    current_user: &AccessTokenPayload,
    permissions: &PermissionsService,
    permission_name: &str,
) -> (r: Result<Permission, AppError>)
    ensures
        !allowed(current_user, permission_readers()) ==> r == Err::<Permission, AppError>(
            AppError::UnAuthorized,
        ),
        allowed(current_user, permission_readers()) ==> {
            let k = find_name(permissions@.permissions, permission_name@, 0);
            if k < 0 {
                r == Err::<Permission, AppError>(AppError::PermissionNotFound)
            } else {
                r == Ok::<Permission, AppError>(permissions@.permissions[k])
            }
        },
{
    match require_one_of(current_user, "permissions_read", "permissions_full") {
        Ok(()) => {},
        Err(e) => {
            return Err(e);
        },
    }
    permissions_controller::get_by_name(permissions, permission_name)
}

/// Deletes permission `permission_name`, for a caller allowed to change permissions.
pub fn delete_permission(
    current_user: &AccessTokenPayload,
    permissions: &mut PermissionsService,
    permission_name: &str,
) -> (r: Result<(), AppError>)
    requires
        allowed(current_user, permission_writers()) ==> old(permissions)@.delete_completes(
            permission_name@,
        ),
    ensures
        !allowed(current_user, permission_writers()) ==> r == Err::<(), AppError>(
            AppError::UnAuthorized,
        ) && final(permissions)@ == old(permissions)@,
        allowed(current_user, permission_writers()) ==> answered(
            r,
            old(permissions)@,
            final(permissions)@,
            delete_outcome(old(permissions)@, permission_name@),
        ),
{
    match require_one_of(current_user, "permissions_write", "permissions_full") {
        Ok(()) => {},
        Err(e) => {
            return Err(e);
        },
    }
    permissions.delete(permission_name)
}

/// All users, for a caller allowed to read users.
pub fn get_users(current_user: &AccessTokenPayload, users: &UsersService) -> (r: Result<Vec<User>, AppError>)
    ensures
        !allowed(current_user, user_readers()) ==> r == Err::<Vec<User>, AppError>(
            AppError::UnAuthorized,
        ),
        allowed(current_user, user_readers()) ==> (r matches Ok(all) && all@ == users@),
{
    match require_one_of(current_user, "users_read", "users_full") {
        Ok(()) => {},
        Err(e) => {
            return Err(e);
        },
    }
    Ok(users.get_all())
}

/// The user with id `id`, for a caller allowed to read users.
pub fn get_user_by_id(current_user: &AccessTokenPayload, users: &UsersService, id: i64) -> (r: Result<
    User,
    AppError,
>)
    ensures
        !allowed(current_user, user_readers()) ==> r == Err::<User, AppError>(AppError::UnAuthorized),
        allowed(current_user, user_readers()) ==> {
            let k = find_user_id(users@, id, 0);
            if k < 0 {
                r == Err::<User, AppError>(AppError::UserNotFound)
            } else {
                r == Ok::<User, AppError>(users@[k])
            }
        },
{
    match require_one_of(current_user, "users_read", "users_full") {
        Ok(()) => {},
        Err(e) => {
            return Err(e);
        },
    }
    users_controller::get_by_id(users, id)
}

/// The user named `username`, for a caller allowed to read users.
pub fn get_user_by_username(
    current_user: &AccessTokenPayload,
    users: &UsersService,
    username: &str,
) -> (r: Result<User, AppError>)
    ensures
        !allowed(current_user, user_readers()) ==> r == Err::<User, AppError>(AppError::UnAuthorized),
        allowed(current_user, user_readers()) ==> {
            let k = find_username(users@, username@, 0);
            if k < 0 {
                r == Err::<User, AppError>(AppError::UserNotFound)
            } else {
                r == Ok::<User, AppError>(users@[k])
            }
        },
{
    match require_one_of(current_user, "users_read", "users_full") {
        Ok(()) => {},
        Err(e) => {
            return Err(e);
        },
    }
    users_controller::get_by_username(users, username)
}

/// Deletes user `username`, for a caller allowed to change users who is not that user.
pub fn delete_user(current_user: &AccessTokenPayload, users: &mut UsersService, username: &str) -> (r: Result<
    (),
    AppError,
>)
    ensures
        !allowed(current_user, user_writers()) ==> r == Err::<(), AppError>(AppError::UnAuthorized)
            && final(users)@ == old(users)@,
        allowed(current_user, user_writers()) && same_name(current_user.username@, username@)
            ==> r == Err::<(), AppError>(AppError::UserNotDeletable) && final(users)@ == old(users)@,
        allowed(current_user, user_writers()) && !same_name(current_user.username@, username@)
            ==> {
            let k = find_username(old(users)@, username@, 0);
            if k < 0 {
                r == Err::<(), AppError>(AppError::UserNotFound) && final(users)@ == old(users)@
            } else {
                r == Ok::<(), AppError>(()) && final(users)@ == old(users)@.remove(k)
            }
        },
{
    match require_one_of(current_user, "users_write", "users_full") {
        Ok(()) => {},
        Err(e) => {
            return Err(e);
        },
    }
    if names_match(current_user.username.as_str(), username) {
        return Err(AppError::UserNotDeletable);
    }
    users.delete(username)
}

/// The names of the permissions of user `username`, for a caller allowed to read users.
pub fn get_permissions_for_user(
    current_user: &AccessTokenPayload,
    users: &UsersService,
    permissions: &PermissionsService,
    username: &str,
) -> (r: Result<Vec<String>, AppError>)
    ensures
        !allowed(current_user, user_readers()) ==> r == Err::<Vec<String>, AppError>(
            AppError::UnAuthorized,
        ),
        allowed(current_user, user_readers()) ==> {
            let k = find_username(users@, username@, 0);
            if k < 0 {
                r == Err::<Vec<String>, AppError>(AppError::UserNotFound)
            } else {
                r matches Ok(names) && texts(names@) == permissions_controller::permission_names_of(
                    permissions@,
                    users@[k].id,
                )
            }
        },
{
    match require_one_of(current_user, "users_read", "users_full") {
        Ok(()) => {},
        Err(e) => {
            return Err(e);
        },
    }
    permissions_controller::get_permissions_for_user(users, permissions, username)
}

/// Grants permission `permission_name` to user `username`, for a caller allowed to grant.
pub fn grant_permission(
    current_user: &AccessTokenPayload,
    users: &UsersService,
    permissions: &mut PermissionsService,
    username: &str,
    permission_name: &str,
) -> (r: Result<(), AppError>)
    ensures
        !allowed(current_user, granters()) ==> r == Err::<(), AppError>(AppError::UnAuthorized)
            && final(permissions)@ == old(permissions)@,
        allowed(current_user, granters()) ==> {
            let k = find_username(users@, username@, 0);
            if k < 0 {
                r == Err::<(), AppError>(AppError::UserNotFound) && final(permissions)@ == old(permissions)@
            } else {
                answered(
                    r,
                    old(permissions)@,
                    final(permissions)@,
                    crate::permissions::grant_outcome(old(permissions)@, users@[k].id, permission_name@),
                )
            }
        },
{
    match require(current_user, "grant_permission") {
        Ok(()) => {},
        Err(e) => {
            return Err(e);
        },
    }
    permissions_controller::grant_permission(users, permissions, username, permission_name)
}

/// Withdraws permission `permission_name` from user `username`, for a caller allowed to revoke
/// who is not that user.
pub fn revoke_permission(
    current_user: &AccessTokenPayload,
    users: &UsersService,
    permissions: &mut PermissionsService,
    username: &str,
    permission_name: &str,
) -> (r: Result<(), AppError>)
    ensures
        !allowed(current_user, revokers()) ==> r == Err::<(), AppError>(AppError::UnAuthorized)
            && final(permissions)@ == old(permissions)@,
        allowed(current_user, revokers()) && same_name(current_user.username@, username@) ==> r
            == Err::<(), AppError>(AppError::CannotRevokeUserPermission) && final(permissions)@
            == old(permissions)@,
        allowed(current_user, revokers()) && !same_name(current_user.username@, username@) ==> {
            let k = find_username(users@, username@, 0);
            if k < 0 {
                r == Err::<(), AppError>(AppError::UserNotFound) && final(permissions)@ == old(permissions)@
            } else {
                answered(
                    r,
                    old(permissions)@,
                    final(permissions)@,
                    crate::permissions::revoke_outcome(old(permissions)@, users@[k].id, permission_name@),
                )
            }
        },
{
    match require(current_user, "revoke_permission") {
        Ok(()) => {},
        Err(e) => {
            return Err(e);
        },
    }
    if names_match(current_user.username.as_str(), username) {
        return Err(AppError::CannotRevokeUserPermission);
    }
    permissions_controller::revoke_permission(users, permissions, username, permission_name)
}

/// Who may call which endpoint: reading users takes `users_read` or `users_full`; changing users
/// takes `users_write` or `users_full`; reading permissions takes `permissions_read` or
/// `permissions_full`; changing permissions takes `permissions_write` or `permissions_full`;
/// granting takes `grant_permission`; revoking takes `revoke_permission`.
pub proof fn law_endpoint_guards(caller: AccessTokenPayload)
    ensures
        allowed(&caller, user_readers()) <==> (caller@.permissions.contains("users_read"@)
            || caller@.permissions.contains("users_full"@)),
        allowed(&caller, user_writers()) <==> (caller@.permissions.contains("users_write"@)
            || caller@.permissions.contains("users_full"@)),
        allowed(&caller, permission_readers()) <==> (caller@.permissions.contains(
            "permissions_read"@,
        ) || caller@.permissions.contains("permissions_full"@)),
        allowed(&caller, permission_writers()) <==> (caller@.permissions.contains(
            "permissions_write"@,
        ) || caller@.permissions.contains("permissions_full"@)),
        allowed(&caller, granters()) <==> caller@.permissions.contains("grant_permission"@),
        allowed(&caller, revokers()) <==> caller@.permissions.contains("revoke_permission"@),
{
    let held = caller@.permissions;
    lemma_holds_any_of_two(held, "users_read"@, "users_full"@);
    lemma_holds_any_of_two(held, "users_write"@, "users_full"@);
    lemma_holds_any_of_two(held, "permissions_read"@, "permissions_full"@);
    lemma_holds_any_of_two(held, "permissions_write"@, "permissions_full"@);
    lemma_holds_any_of_one(held, "grant_permission"@);
    lemma_holds_any_of_one(held, "revoke_permission"@);
}

proof fn lemma_holds_any_of_two(held: Seq<Seq<char>>, a: Seq<char>, b: Seq<char>)
    ensures
        holds_any(held, seq![a, b]) <==> (held.contains(a) || held.contains(b)),
{
    let required = seq![a, b];
    if held.contains(a) {
        assert(held.contains(required[0]));
    }
    if held.contains(b) {
        assert(held.contains(required[1]));
    }
}

proof fn lemma_holds_any_of_one(held: Seq<Seq<char>>, a: Seq<char>)
    ensures
        holds_any(held, seq![a]) <==> held.contains(a),
{
    let required = seq![a];
    if held.contains(a) {
        assert(held.contains(required[0]));
    }
}

} // verus!
