//! What the sign-in endpoints compute once the services are at hand.

use vstd::prelude::*;

use crate::error::AppError;
use crate::models::{AuthResponse, LogInBody, SignUpBody, User};
use crate::otp::{check_current, code_accepted, drawing, qr_png, qr_png_of};
use crate::permissions::{PermissionsService, PermissionsState};
use crate::permissions_controller::{permission_names, permission_names_of};
use crate::token::{
    clock_reading, issued_claims, now_timestamp, signed_token, signing_secret, AccessTokenPayload,
    ClaimsView, JwtEncryption, TOKEN_LIFETIME_SECONDS,
};
use crate::users::{
    find_user_id, find_username, max_user_id,
    otp_toggled, signed_up, UsersService,
};

verus! {

/// An answer that carries the token signed over `claims` with the service's key.
pub open spec fn token_answer(r: Result<AuthResponse, AppError>, claims: ClaimsView) -> bool {
    r matches Ok(response) && response.access_token@ == signed_token(claims, signing_secret())
}

/// The claims of a token issued at `now` to the user at index `k`, carrying the names of the
/// user's permissions.
pub open spec fn user_claims(
    users: Seq<User>,
    permissions: PermissionsState,
    k: int,
    otp_passed: bool,
    now: i64,
) -> ClaimsView {
    issued_claims(
        users[k].id,
        users[k].username@,
        permission_names_of(permissions, users[k].id),
        users[k].otp_enabled,
        otp_passed,
        now,
    )
}

/// A signed token for a user, issued at `now`, carrying the names of the user's permissions.
fn issue_token(
    jwt: &JwtEncryption,
    permissions: &PermissionsService,
    user_id: i64,
    username: &str,
    otp_enabled: bool,
    otp_passed: bool,
    now: i64,
) -> (r: Result<AuthResponse, AppError>)
    requires
        now <= i64::MAX - TOKEN_LIFETIME_SECONDS,
    ensures
        token_answer(
            r,
            issued_claims(user_id, username@, permission_names_of(permissions@, user_id), otp_enabled, otp_passed, now),
        ),
{
    let names = permission_names(permissions, user_id);
    let payload = AccessTokenPayload::issued_at(user_id, username, names, otp_enabled, otp_passed, now);
    let access_token = match jwt.generate_access_token(payload) {
        Ok(token) => token,
        Err(e) => {
            return Err(e);
        },
    };
    Ok(AuthResponse { access_token })
}

/// What signing in answers at time `now`: the first user named as in the request (up to case)
/// whose password is the one given gets a token without a passed second factor.
pub open spec fn log_in_answer(
    users: Seq<User>,
    permissions: PermissionsState,
    username: Seq<char>,
    password: Seq<char>,
    now: i64,
    r: Result<AuthResponse, AppError>,
) -> bool {
    let k = find_username(users, username, 0);
    if k < 0 || users[k].password@ != password {
        r == Err::<AuthResponse, AppError>(AppError::UserWrongAuthentication)
    } else {
        token_answer(r, user_claims(users, permissions, k, false, now))
    }
}

/// Signs in at time `now`: the first user named as in `data` (up to case) whose password is the
/// one given gets a token without a passed second factor.
pub fn log_in_at(
    users: &UsersService,
    permissions: &PermissionsService,
    jwt: &JwtEncryption,
    data: LogInBody,
    now: i64,
) -> (r: Result<AuthResponse, AppError>)
    requires
        now <= i64::MAX - TOKEN_LIFETIME_SECONDS,
    ensures
        log_in_answer(users@, permissions@, data.username@, data.password@, now, r),
{
    let user = match users.get_by_username(data.username.as_str()) {
        None => {
            return Err(AppError::UserWrongAuthentication);
        },
        Some(user) => user,
    };
    if user.password != data.password {
        return Err(AppError::UserWrongAuthentication);
    }
    issue_token(jwt, permissions, user.id, user.username.as_str(), user.otp_enabled, false, now)
}

/// Signs in now: as `log_in_at` with the time that the clock gives.
pub fn log_in(
    users: &UsersService,
    permissions: &PermissionsService,
    jwt: &JwtEncryption,
    data: LogInBody,
) -> (r: Result<AuthResponse, AppError>)
    ensures
        exists|now: i64|
            #[trigger] clock_reading(now) && log_in_answer(
                users@,
                permissions@,
                data.username@,
                data.password@,
                now,
                r,
            ),
{
    let now = now_timestamp();
    log_in_at(users, permissions, jwt, data, now)
}

/// What opening an account answers at time `now`: a refused name leaves the users alone;
/// otherwise the account is added and gets a token without a passed second factor.
pub open spec fn signed_up_answer(
    before: Seq<User>,
    after: Seq<User>,
    permissions: PermissionsState,
    username: Seq<char>,
    password: Seq<char>,
    now: i64,
    r: Result<AuthResponse, AppError>,
) -> bool {
    let k = find_username(before, username, 0);
    if k >= 0 {
        &&& r == Err::<AuthResponse, AppError>(AppError::UserAlreadyExists)
        &&& after == before
    } else if username.contains(':') {
        &&& r == Err::<AuthResponse, AppError>(AppError::InternalServerError)
        &&& after == before
    } else {
        &&& after.len() == before.len() + 1
        &&& signed_up(before, username, password, after, after.last())
        &&& token_answer(r, user_claims(after, permissions, before.len() as int, false, now))
    }
}

/// Opens an account and signs it in at time `now` without a second factor.
pub fn sign_up_at(
    users: &mut UsersService,
    permissions: &PermissionsService,
    jwt: &JwtEncryption,
    data: SignUpBody,
    now: i64,
) -> (r: Result<AuthResponse, AppError>)
    requires
        find_username(old(users)@, data.username@, 0) == -1 ==> max_user_id(old(users)@) < i64::MAX,
        now <= i64::MAX - TOKEN_LIFETIME_SECONDS,
    ensures
        signed_up_answer(old(users)@, final(users)@, permissions@, data.username@, data.password@, now, r),
{
    let user = match users.create(data.username.as_str(), data.password.as_str()) {
        Ok(user) => user,
        Err(e) => {
            return Err(e);
        },
    };
    issue_token(jwt, permissions, user.id, user.username.as_str(), false, false, now)
}

/// Opens an account and signs it in now: as `sign_up_at` with the time that the clock gives.
pub fn sign_up(
    users: &mut UsersService,
    permissions: &PermissionsService,
    jwt: &JwtEncryption,
    data: SignUpBody,
) -> (r: Result<AuthResponse, AppError>)
    requires
        find_username(old(users)@, data.username@, 0) == -1 ==> max_user_id(old(users)@) < i64::MAX,
    ensures
        exists|now: i64|
            #[trigger] clock_reading(now) && signed_up_answer(
                old(users)@,
                final(users)@,
                permissions@,
                data.username@,
                data.password@,
                now,
                r,
            ),
{
    let now = now_timestamp();
    sign_up_at(users, permissions, jwt, data, now)
}

/// What a QR request answers once the image is drawn: the image, or an internal error when it
/// could not be drawn.
pub open spec fn png_answer(r: Result<Vec<u8>, AppError>, drawn: Result<Seq<u8>, Seq<char>>) -> bool {
    match drawn {
        Ok(png) => r matches Ok(image) && image@ == png,
        Err(_) => r == Err::<Vec<u8>, AppError>(AppError::InternalServerError),
    }
}

/// The answer to a QR request whose drawing gave `drawn`.
pub fn qr_answer(drawn: Result<Vec<u8>, String>) -> (r: Result<Vec<u8>, AppError>)
    ensures
        png_answer(r, drawing(drawn)),
{
    match drawn {
        Ok(png) => Ok(png),
        Err(_) => Err(AppError::InternalServerError),
    }
}

/// The PNG image of the QR code of user `user_id`'s one-time password generator. A failure to draw
/// the image is an internal error.
pub fn get_otp_qr_code(users: &UsersService, user_id: i64) -> (r: Result<Vec<u8>, AppError>)
    ensures
        ({
            let k = find_user_id(users@, user_id, 0);
            if k < 0 {
                r == Err::<Vec<u8>, AppError>(AppError::UserNotFound)
            } else {
                png_answer(r, qr_png_of(users@[k].otp@))
            }
        }),
{
    let user = match users.get_by_id(user_id) {
        None => {
            return Err(AppError::UserNotFound);
        },
        Some(user) => user,
    };
    qr_answer(qr_png(&user.otp))
}

/// What a passed second factor gives at time `now`: user `user_id` (at index `k`) has its flag
/// switched when `change_status` asks for it, and gets a token whose second factor is passed.
pub open spec fn otp_verified(
    before: Seq<User>,
    after: Seq<User>,
    permissions: PermissionsState,
    k: int,
    change_status: bool,
    now: i64,
    r: Result<AuthResponse, AppError>,
) -> bool {
    &&& if change_status {
        otp_toggled(before, k, after)
    } else {
        after == before
    }
    &&& token_answer(r, user_claims(after, permissions, k, true, now))
}

/// What a second-factor check of the user at index `k` answers when the code was `accepted` or
/// not: an accepted code is verified, any other is invalid and changes nothing.
pub open spec fn otp_outcome(
    before: Seq<User>,
    after: Seq<User>,
    permissions: PermissionsState,
    k: int,
    change_status: bool,
    accepted: bool,
    now: i64,
    r: Result<AuthResponse, AppError>,
) -> bool {
    if accepted {
        otp_verified(before, after, permissions, k, change_status, now, r)
    } else {
        &&& r == Err::<AuthResponse, AppError>(AppError::InvalidOTP)
        &&& after == before
    }
}

/// Checks `otp_code` against user `user_id`'s generator at the time the clock gives, then answers
/// as `finish_otp_verification` does with the outcome of the check. A clock that cannot be read
/// makes the code invalid.
pub fn verify_otp_code(
    users: &mut UsersService,
    permissions: &PermissionsService,
    jwt: &JwtEncryption,
    user_id: i64,
    otp_code: &str,
    change_status: bool,
) -> (r: Result<AuthResponse, AppError>)
    ensures
        ({
            let k = find_user_id(old(users)@, user_id, 0);
            if k < 0 {
                &&& r == Err::<AuthResponse, AppError>(AppError::UserNotFound)
                &&& final(users)@ == old(users)@
            } else {
                ||| (r == Err::<AuthResponse, AppError>(AppError::InvalidOTP) && final(users)@ == old(users)@)
                ||| exists|time: u64, now: i64|
                    #![trigger code_accepted(old(users)@[k].otp@, otp_code@, time), clock_reading(now)]
                    clock_reading(now) && otp_outcome(
                        old(users)@,
                        final(users)@,
                        permissions@,
                        k,
                        change_status,
                        code_accepted(old(users)@[k].otp@, otp_code@, time),
                        now,
                        r,
                    )
            }
        }),
{
    proof {
        use_type_invariant(&*users);
    }
    let ghost before = users@;
    let check = match users.get_by_id(user_id) {
        None => {
            return Err(AppError::UserNotFound);
        },
        Some(user) => check_current(&user.otp, otp_code),
    };
    let now = now_timestamp();
    let ghost outcome = check;
    let r = finish_otp_verification(users, permissions, jwt, user_id, check, change_status, now);
    proof {
        let k = find_user_id(before, user_id, 0);
        if let Ok(b) = outcome {
            let time = choose|time: u64| b == #[trigger] code_accepted(before[k].otp@, otp_code@, time);
            assert(clock_reading(now));
            assert(b == code_accepted(before[k].otp@, otp_code@, time));
        }
    }
    r
}

/// Answers, at time `now`, a second-factor check of user `user_id` whose outcome is `check`: a
/// code that did not match, or a clock that could not be read, is an invalid code; a matching code
/// switches the user's flag when `change_status` asks for it and gives a token whose second factor
/// is passed.
pub fn finish_otp_verification(
    users: &mut UsersService,
    permissions: &PermissionsService,
    jwt: &JwtEncryption,
    user_id: i64,
    check: Result<bool, std::time::SystemTimeError>,
    change_status: bool,
    now: i64,
) -> (r: Result<AuthResponse, AppError>)
    requires
        find_user_id(old(users)@, user_id, 0) >= 0,
        now <= i64::MAX - TOKEN_LIFETIME_SECONDS,
    ensures
        match check {
            Ok(accepted) => otp_outcome(
                old(users)@,
                final(users)@,
                permissions@,
                find_user_id(old(users)@, user_id, 0),
                change_status,
                accepted,
                now,
                r,
            ),
            Err(_) => r == Err::<AuthResponse, AppError>(AppError::InvalidOTP) && final(users)@ == old(users)@,
        },
{
    match check {
        Ok(true) => {},
        _ => {
            return Err(AppError::InvalidOTP);
        },
    }
    if change_status {
        match users.change_otp_status_for_user(user_id) {
            Ok(user) => issue_token(jwt, permissions, user.id, user.username.as_str(), user.otp_enabled, true, now),
            Err(e) => Err(e),
        }
    } else {
        match users.get_by_id(user_id) {
            Some(user) => issue_token(jwt, permissions, user.id, user.username.as_str(), user.otp_enabled, true, now),
            None => Err(AppError::UserNotFound),
        }
    }
}

} // verus!
