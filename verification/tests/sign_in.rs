use rust_auth::auth_controller;
use rust_auth::error::AppError;
use rust_auth::logger::Logger;
use rust_auth::models::{LogInBody, SignUpBody};
use rust_auth::permissions::PermissionsService;
use rust_auth::permissions_controller;
use rust_auth::token::{self, AccessTokenPayload, JwtEncryption, TokenSource};
use rust_auth::users::UsersService;
use rust_auth::otp::{OtpAlgorithm, OtpGenerator};

fn totp(g: &OtpGenerator) -> totp_rs::TOTP {
    assert_eq!(g.algorithm, OtpAlgorithm::Sha1);
    totp_rs::TOTP::new(
        totp_rs::Algorithm::SHA1,
        g.digits,
        g.skew,
        g.step,
        g.secret.to_vec(),
        g.issuer.clone(),
        g.account_name.clone(),
    )
    .unwrap()
}


/// A fixed issuing time, late enough that tokens issued at it have not expired.
const NOW: i64 = 4_000_000_000;

fn services() -> (UsersService, PermissionsService, JwtEncryption) {
    let logger = Logger::new();
    (UsersService::new(&logger), PermissionsService::new(&logger), JwtEncryption::new())
}

fn claims(token: &str) -> serde_json::Value {
    jsonwebtoken::decode::<serde_json::Value>(
        token,
        &jsonwebtoken::DecodingKey::from_secret(b"Abecedario"),
        &jsonwebtoken::Validation::default(),
    )
    .unwrap()
    .claims
}

fn names(v: &serde_json::Value) -> Vec<String> {
    v["permissions"].as_array().unwrap().iter().map(|x| x.as_str().unwrap().to_string()).collect()
}

fn login(username: &str, password: &str) -> LogInBody {
    LogInBody { username: username.to_string(), password: password.to_string() }
}

#[test]
fn log_in_gives_a_token_with_the_permission_names() {
    let (users, permissions, jwt) = services();
    let r = auth_controller::log_in(&users, &permissions, &jwt, login("ADMIN", "admin")).unwrap();
    let c = claims(&r.access_token);
    assert_eq!(c["sub"], "1");
    assert_eq!(c["username"], "admin");
    assert_eq!(names(&c), vec!["users_full", "permissions_full", "grant_permission", "revoke_permission"]);
    assert_eq!(c["otp_enabled"], false);
    assert_eq!(c["otp_passed"], false);
}

#[test]
fn log_in_refuses_wrong_password_and_unknown_user() {
    let (users, permissions, jwt) = services();
    assert_eq!(
        auth_controller::log_in(&users, &permissions, &jwt, login("admin", "Admin")).err(),
        Some(AppError::UserWrongAuthentication)
    );
    assert_eq!(
        auth_controller::log_in(&users, &permissions, &jwt, login("ghost", "admin")).err(),
        Some(AppError::UserWrongAuthentication)
    );
}

#[test]
fn sign_up_then_log_in() {
    let (mut users, permissions, jwt) = services();
    let body = SignUpBody { username: "carol".to_string(), password: "password1".to_string() };
    let r = auth_controller::sign_up(&mut users, &permissions, &jwt, body).unwrap();
    let c = claims(&r.access_token);
    assert_eq!(c["sub"], "3");
    assert_eq!(names(&c), Vec::<String>::new());
    let again = auth_controller::log_in(&users, &permissions, &jwt, login("carol", "password1")).unwrap();
    assert_eq!(claims(&again.access_token)["username"], "carol");
    let dup = SignUpBody { username: "CAROL".to_string(), password: "password1".to_string() };
    assert_eq!(
        auth_controller::sign_up(&mut users, &permissions, &jwt, dup).err(),
        Some(AppError::UserAlreadyExists)
    );
}

#[test]
fn a_reused_user_id_inherits_old_grants() {
    let (mut users, mut permissions, jwt) = services();
    let body = SignUpBody { username: "carol".to_string(), password: "password1".to_string() };
    auth_controller::sign_up(&mut users, &permissions, &jwt, body).unwrap();
    permissions_controller::grant_permission(&users, &mut permissions, "carol", "users_read").unwrap();
    users.delete("carol").unwrap();
    let body = SignUpBody { username: "dave".to_string(), password: "password1".to_string() };
    let r = auth_controller::sign_up(&mut users, &permissions, &jwt, body).unwrap();
    let c = claims(&r.access_token);
    assert_eq!(c["sub"], "3");
    assert_eq!(names(&c), vec!["users_read"]);
}

#[test]
fn otp_flow_with_the_current_code() {
    let (mut users, permissions, jwt) = services();
    let code = totp(&users.get_by_id(2).unwrap().otp).generate_current().unwrap();
    let r = auth_controller::verify_otp_code(&mut users, &permissions, &jwt, 2, &code, true).unwrap();
    let c = claims(&r.access_token);
    assert_eq!(c["otp_enabled"], true);
    assert_eq!(c["otp_passed"], true);
    assert_eq!(names(&c), vec!["users_read", "permissions_read"]);
    assert!(users.get_by_id(2).unwrap().otp_enabled);
    let code = totp(&users.get_by_id(2).unwrap().otp).generate_current().unwrap();
    let r = auth_controller::verify_otp_code(&mut users, &permissions, &jwt, 2, &code, false).unwrap();
    assert_eq!(claims(&r.access_token)["otp_enabled"], true);
    assert!(users.get_by_id(2).unwrap().otp_enabled);
}

#[test]
fn otp_refuses_a_wrong_code_and_an_unknown_user() {
    let (mut users, permissions, jwt) = services();
    let code = totp(&users.get_by_id(1).unwrap().otp).generate_current().unwrap();
    let wrong = if code == "000000" { "111111".to_string() } else { "000000".to_string() };
    let wrong = if totp(&users.get_by_id(1).unwrap().otp).check_current(&wrong).unwrap() { "abc".to_string() } else { wrong };
    assert_eq!(
        auth_controller::verify_otp_code(&mut users, &permissions, &jwt, 1, &wrong, true).err(),
        Some(AppError::InvalidOTP)
    );
    assert!(!users.get_by_id(1).unwrap().otp_enabled);
    assert_eq!(
        auth_controller::verify_otp_code(&mut users, &permissions, &jwt, 9, "123456", true).err(),
        Some(AppError::UserNotFound)
    );
}

#[test]
fn finish_otp_verification_answers_each_outcome() {
    let (mut users, permissions, jwt) = services();
    assert_eq!(
        auth_controller::finish_otp_verification(&mut users, &permissions, &jwt, 1, Ok(false), true, NOW).err(),
        Some(AppError::InvalidOTP)
    );
    assert!(!users.get_by_id(1).unwrap().otp_enabled);
    let r = auth_controller::finish_otp_verification(&mut users, &permissions, &jwt, 1, Ok(true), true, NOW).unwrap();
    assert!(users.get_by_id(1).unwrap().otp_enabled);
    let c = claims(&r.access_token);
    assert_eq!(c["otp_passed"], true);
    assert_eq!(c["otp_enabled"], true);
    assert_eq!(c["exp"], NOW + 3600);
}

#[test]
fn qr_code_is_a_png_for_known_users() {
    let (users, _, _) = services();
    let png = auth_controller::get_otp_qr_code(&users, 1).unwrap();
    assert_eq!(&png[1..4], b"PNG");
    assert_eq!(auth_controller::get_otp_qr_code(&users, 3).err(), Some(AppError::UserNotFound));
}

#[test]
fn permission_names_for_users() {
    let (users, mut permissions, _) = services();
    assert_eq!(
        permissions_controller::get_permissions_for_user(&users, &permissions, "DSolarte").unwrap(),
        vec!["users_read", "permissions_read"]
    );
    assert_eq!(
        permissions_controller::get_permissions_for_user(&users, &permissions, "ghost").err(),
        Some(AppError::UserNotFound)
    );
    permissions.create("reports", "r").unwrap();
    permissions_controller::grant_permission(&users, &mut permissions, "dsolarte", "reports").unwrap();
    assert_eq!(
        permissions_controller::get_permissions_for_user(&users, &permissions, "dsolarte").unwrap(),
        vec!["users_read", "permissions_read", "reports"]
    );
    assert_eq!(
        permissions_controller::revoke_permission(&users, &mut permissions, "ghost", "reports").err(),
        Some(AppError::UserNotFound)
    );
    assert_eq!(permissions_controller::get_by_id(&permissions, 9).unwrap().name, "reports");
    assert_eq!(permissions_controller::get_by_name(&permissions, "nope").err(), Some(AppError::PermissionNotFound));
}

#[test]
fn grants_of_a_deleted_permission_name_nothing() {
    let (users, mut permissions, _) = services();
    permissions.create("reports", "r").unwrap();
    permissions_controller::grant_permission(&users, &mut permissions, "admin", "reports").unwrap();
    permissions_controller::grant_permission(&users, &mut permissions, "dsolarte", "reports").unwrap();
    permissions_controller::grant_permission(&users, &mut permissions, "admin", "users_read").unwrap();
    permissions.delete("reports").unwrap();
    // The walk removed admin's "users_read" grant in place of dsolarte's grant of the deleted permission.
    assert_eq!(
        permissions_controller::get_permissions_for_user(&users, &permissions, "admin").unwrap(),
        vec!["users_full", "permissions_full", "grant_permission", "revoke_permission"]
    );
    assert_eq!(
        permissions_controller::permission_names(&permissions, 2),
        vec!["users_read", "permissions_read"]
    );
}

#[test]
fn log_in_at_a_given_time_sets_the_expiry() {
    let (users, permissions, jwt) = services();
    let r = auth_controller::log_in_at(&users, &permissions, &jwt, login("dsolarte", "1234"), NOW).unwrap();
    let c = claims(&r.access_token);
    assert_eq!(c["exp"], NOW + 3600);
    assert_eq!(c["sub"], "2");
    assert_eq!(c["username"], "dsolarte");
    assert_eq!(names(&c), vec!["users_read", "permissions_read"]);
    let again = auth_controller::log_in_at(&users, &permissions, &jwt, login("dsolarte", "1234"), NOW).unwrap();
    assert_eq!(again.access_token, r.access_token);
    assert_eq!(
        auth_controller::log_in_at(&users, &permissions, &jwt, login("dsolarte", "4321"), NOW).err(),
        Some(AppError::UserWrongAuthentication)
    );
}

#[test]
fn sign_up_at_a_given_time_gives_the_new_account_a_token() {
    let (mut users, permissions, jwt) = services();
    let body = SignUpBody { username: "erin".to_string(), password: "password1".to_string() };
    let r = auth_controller::sign_up_at(&mut users, &permissions, &jwt, body, NOW).unwrap();
    let c = claims(&r.access_token);
    assert_eq!(c["exp"], NOW + 3600);
    assert_eq!(c["sub"], "3");
    assert_eq!(c["username"], "erin");
    assert_eq!(c["otp_enabled"], false);
    let colon = SignUpBody { username: "a:b".to_string(), password: "password1".to_string() };
    assert_eq!(
        auth_controller::sign_up_at(&mut users, &permissions, &jwt, colon, NOW).err(),
        Some(AppError::InternalServerError)
    );
    assert_eq!(users.get_all().len(), 3);
}

#[test]
fn finish_otp_verification_without_a_switch_keeps_the_flag() {
    let (mut users, permissions, jwt) = services();
    let r = auth_controller::finish_otp_verification(&mut users, &permissions, &jwt, 2, Ok(true), false, NOW).unwrap();
    assert!(!users.get_by_id(2).unwrap().otp_enabled);
    let c = claims(&r.access_token);
    assert_eq!(c["otp_passed"], true);
    assert_eq!(c["otp_enabled"], false);
    assert_eq!(c["sub"], "2");
}

#[test]
fn qr_answer_passes_the_image_or_fails_internally() {
    assert_eq!(auth_controller::qr_answer(Ok(vec![1, 2, 3])), Ok(vec![1, 2, 3]));
    assert_eq!(
        auth_controller::qr_answer(Err("too long".to_string())),
        Err(AppError::InternalServerError)
    );
}

#[test]
fn qr_code_is_the_image_of_the_users_own_generator() {
    let (users, _, _) = services();
    let png = auth_controller::get_otp_qr_code(&users, 2).unwrap();
    let expected = totp(&users.get_by_id(2).unwrap().otp).get_qr_png().unwrap();
    assert_eq!(png, expected);
    let other = totp(&users.get_by_id(1).unwrap().otp).get_qr_png().unwrap();
    assert_ne!(png, other);
}

#[test]
fn current_user_reads_back_a_token_from_log_in() {
    let (users, permissions, jwt) = services();
    let r = auth_controller::log_in_at(&users, &permissions, &jwt, login("admin", "admin"), NOW).unwrap();
    let p = token::current_user(TokenSource::Header(r.access_token.clone())).unwrap();
    assert_eq!(p.sub, "1");
    assert_eq!(p.exp, (NOW + 3600) as usize);
    assert_eq!(p.username, "admin");
    assert_eq!(p.permissions, vec!["users_full", "permissions_full", "grant_permission", "revoke_permission"]);
    assert!(!p.otp_enabled && !p.otp_passed);
    let q = token::current_user(TokenSource::Query(Some(r.access_token.clone()))).unwrap();
    assert_eq!(q, p);
}

#[test]
fn current_user_refuses_missing_forged_and_expired_tokens() {
    let (users, permissions, jwt) = services();
    assert_eq!(token::current_user(TokenSource::HeaderMalformed).err(), Some(AppError::UnAuthorized));
    assert_eq!(token::current_user(TokenSource::Query(None)).err(), Some(AppError::UnAuthorized));
    assert_eq!(
        token::current_user(TokenSource::Header("not.a.token".to_string())).err(),
        Some(AppError::UnAuthorized)
    );
    let r = auth_controller::log_in_at(&users, &permissions, &jwt, login("admin", "admin"), NOW).unwrap();
    let mut forged = r.access_token.clone();
    let last = forged.pop().unwrap();
    forged.push(if last == 'A' { 'B' } else { 'A' });
    assert_eq!(token::current_user(TokenSource::Header(forged)).err(), Some(AppError::UnAuthorized));
    let old = auth_controller::log_in_at(&users, &permissions, &jwt, login("admin", "admin"), 1_000_000).unwrap();
    assert_eq!(
        token::current_user(TokenSource::Header(old.access_token)).err(),
        Some(AppError::UnAuthorized)
    );
}

#[test]
fn accept_decoded_maps_every_failure_to_unauthorized() {
    let p = AccessTokenPayload::issued_at(5, "eve", vec![], false, false, NOW);
    let same = AccessTokenPayload::issued_at(5, "eve", vec![], false, false, NOW);
    assert_eq!(token::accept_decoded(Ok(p)), Ok(same));
    let err = jsonwebtoken::errors::Error::from(jsonwebtoken::errors::ErrorKind::InvalidSignature);
    assert_eq!(token::accept_decoded(Err(err)), Err(AppError::UnAuthorized));
}
