use rust_auth::error::AppError;
use rust_auth::handlers;
use rust_auth::logger::Logger;
use rust_auth::models::{CreatePermissionBody, SignUpBody};
use rust_auth::permissions::PermissionsService;
use rust_auth::token::{AccessTokenPayload, JwtEncryption};
use rust_auth::users::UsersService;
use rust_auth::otp::{OtpAlgorithm, OtpGenerator};

fn totp(g: &OtpGenerator) -> totp_rs::TOTP {
    assert_eq!(g.algorithm, OtpAlgorithm::Sha1);
    totp_rs::TOTP::new(
        totp_rs::Algorithm::SHA1,
        g.digits,
        g.skew,
        g.step,
        g.secret.to_vec(),
        g.issuer.clone(),
        g.account_name.clone(),
    )
    .unwrap()
}


fn caller(id: i64, username: &str, permissions: &[&str], otp_enabled: bool, otp_passed: bool) -> AccessTokenPayload {
    AccessTokenPayload::issued_at(
        id,
        username,
        permissions.iter().map(|p| p.to_string()).collect(),
        otp_enabled,
        otp_passed,
        1_700_000_000,
    )
}

fn admin() -> AccessTokenPayload {
    caller(1, "admin", &["users_full", "permissions_full", "grant_permission", "revoke_permission"], false, false)
}

fn reader() -> AccessTokenPayload {
    caller(2, "dsolarte", &["users_read", "permissions_read"], false, false)
}

fn services() -> (UsersService, PermissionsService) {
    (UsersService::new(&Logger::new()), PermissionsService::new(&Logger::new()))
}

#[test]
fn readers_read_but_do_not_write() {
    let (mut users, mut permissions) = services();
    assert_eq!(handlers::get_users(&reader(), &users).unwrap().len(), 2);
    assert_eq!(handlers::get_permissions(&reader(), &permissions).unwrap().len(), 8);
    assert_eq!(handlers::get_user_by_id(&reader(), &users, 1).unwrap().username, "admin");
    assert_eq!(handlers::get_user_by_username(&reader(), &users, "ADMIN").unwrap().id, 1);
    assert_eq!(handlers::get_permission_by_id(&reader(), &permissions, 3).unwrap().name, "users_write");
    assert_eq!(handlers::get_permission_by_name(&reader(), &permissions, "users_write").unwrap().id, 3);
    assert_eq!(handlers::delete_user(&reader(), &mut users, "admin"), Err(AppError::UnAuthorized));
    assert_eq!(handlers::delete_permission(&reader(), &mut permissions, "users_full"), Err(AppError::UnAuthorized));
    let body = CreatePermissionBody { name: "reports".to_string(), description: "r".to_string() };
    assert_eq!(handlers::create_permission(&reader(), &mut permissions, body).err(), Some(AppError::UnAuthorized));
    assert_eq!(
        handlers::grant_permission(&reader(), &users, &mut permissions, "admin", "users_read"),
        Err(AppError::UnAuthorized)
    );
    assert_eq!(
        handlers::revoke_permission(&reader(), &users, &mut permissions, "admin", "users_full"),
        Err(AppError::UnAuthorized)
    );
    assert_eq!(users.get_all().len(), 2);
    assert_eq!(permissions.get_all().len(), 8);
}

#[test]
fn callers_without_permissions_are_refused() {
    let (users, permissions) = services();
    let nobody = caller(3, "nobody", &[], false, false);
    assert_eq!(handlers::get_users(&nobody, &users).err(), Some(AppError::UnAuthorized));
    assert_eq!(handlers::get_permissions(&nobody, &permissions).err(), Some(AppError::UnAuthorized));
    assert_eq!(
        handlers::get_permissions_for_user(&nobody, &users, &permissions, "admin").err(),
        Some(AppError::UnAuthorized)
    );
    assert_eq!(handlers::me(&nobody, &users).err(), Some(AppError::UserNotFound));
    assert_eq!(handlers::me(&reader(), &users).unwrap().id, 2);
}

#[test]
fn nobody_deletes_or_revokes_themselves() {
    let (mut users, mut permissions) = services();
    assert_eq!(handlers::delete_user(&admin(), &mut users, "Admin"), Err(AppError::UserNotDeletable));
    assert_eq!(
        handlers::revoke_permission(&admin(), &users, &mut permissions, "ADMIN", "users_full"),
        Err(AppError::CannotRevokeUserPermission)
    );
    assert_eq!(handlers::delete_user(&admin(), &mut users, "dsolarte"), Ok(()));
    assert_eq!(handlers::delete_user(&admin(), &mut users, "dsolarte"), Err(AppError::UserNotFound));
}

#[test]
fn admin_manages_permissions() {
    let (users, mut permissions) = services();
    let body = CreatePermissionBody { name: "reports".to_string(), description: "r".to_string() };
    let p = handlers::create_permission(&admin(), &mut permissions, body).unwrap();
    assert_eq!(p.id, 9);
    assert_eq!(handlers::grant_permission(&admin(), &users, &mut permissions, "dsolarte", "reports"), Ok(()));
    assert_eq!(
        handlers::get_permissions_for_user(&admin(), &users, &permissions, "dsolarte").unwrap(),
        vec!["users_read", "permissions_read", "reports"]
    );
    assert_eq!(handlers::revoke_permission(&admin(), &users, &mut permissions, "dsolarte", "reports"), Ok(()));
    assert_eq!(handlers::delete_permission(&admin(), &mut permissions, "reports"), Ok(()));
    assert_eq!(
        handlers::delete_permission(&admin(), &mut permissions, "reports"),
        Err(AppError::PermissionNotFound)
    );
}

#[test]
fn bodies_are_checked_before_permissions() {
    let (mut users, mut permissions) = services();
    let bad = CreatePermissionBody { name: "r".to_string(), description: "r".to_string() };
    assert!(matches!(
        handlers::create_permission(&reader(), &mut permissions, bad),
        Err(AppError::ValidationError(_))
    ));
    let jwt = JwtEncryption::new();
    let short = SignUpBody { username: "ab".to_string(), password: "password1".to_string() };
    assert!(matches!(handlers::sign_up(&mut users, &permissions, &jwt, short), Err(AppError::ValidationError(_))));
    let fine = SignUpBody { username: "abcd".to_string(), password: "password1".to_string() };
    assert!(handlers::sign_up(&mut users, &permissions, &jwt, fine).is_ok());
    assert_eq!(users.get_all().len(), 3);
}

#[test]
fn otp_endpoints_check_the_token_state() {
    let (mut users, permissions) = services();
    let jwt = JwtEncryption::new();
    let enabled = caller(2, "dsolarte", &[], true, false);
    let passed = caller(2, "dsolarte", &[], true, true);
    let fresh = caller(2, "dsolarte", &[], false, false);
    assert_eq!(handlers::get_otp_qr_code(&enabled, &users).err(), Some(AppError::UnAuthorized));
    assert_eq!(handlers::get_otp_qr_code(&passed, &users).err(), Some(AppError::UnAuthorized));
    assert!(handlers::get_otp_qr_code(&fresh, &users).is_ok());
    assert_eq!(
        handlers::enable_otp(&enabled, &mut users, &permissions, &jwt, "000000").err(),
        Some(AppError::UnAuthorized)
    );
    assert_eq!(
        handlers::verify_otp_code(&fresh, &mut users, &permissions, &jwt, "000000").err(),
        Some(AppError::UnAuthorized)
    );
    assert_eq!(
        handlers::verify_otp_code(&passed, &mut users, &permissions, &jwt, "000000").err(),
        Some(AppError::UnAuthorized)
    );
    let code = totp(&users.get_by_id(2).unwrap().otp).generate_current().unwrap();
    assert!(handlers::enable_otp(&fresh, &mut users, &permissions, &jwt, &code).is_ok());
    assert!(users.get_by_id(2).unwrap().otp_enabled);
    let code = totp(&users.get_by_id(2).unwrap().otp).generate_current().unwrap();
    assert!(handlers::verify_otp_code(&enabled, &mut users, &permissions, &jwt, &code).is_ok());
    let stranger = caller(42, "ghost", &[], false, false);
    assert_eq!(handlers::get_otp_qr_code(&stranger, &users).err(), Some(AppError::UserNotFound));
}
