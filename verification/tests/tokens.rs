use rust_auth::error::AppError;
use rust_auth::token::{bearer_token, AccessTokenPayload, JwtEncryption, TokenSource};

fn payload(permissions: &[&str]) -> AccessTokenPayload {
    AccessTokenPayload::issued_at(
        7,
        "alice",
        permissions.iter().map(|p| p.to_string()).collect(),
        false,
        false,
        1_700_000_000,
    )
}

fn decode(token: &str) -> serde_json::Value {
    jsonwebtoken::decode::<serde_json::Value>(
        token,
        &jsonwebtoken::DecodingKey::from_secret(b"Abecedario"),
        &jsonwebtoken::Validation::default(),
    )
    .unwrap()
    .claims
}

#[test]
fn issued_at_sets_claims_and_an_hour_of_validity() {
    let p = payload(&["users_read"]);
    assert_eq!(p.sub, "7");
    assert_eq!(p.exp, 1_700_003_600);
    assert_eq!(p.username, "alice");
    assert_eq!(p.permissions, vec!["users_read".to_string()]);
    assert!(!p.otp_enabled && !p.otp_passed);
    let negative = AccessTokenPayload::issued_at(-12, "bob", vec![], true, true, 0);
    assert_eq!(negative.sub, "-12");
    assert_eq!(negative.exp, 3600);
}

#[test]
fn new_expires_about_an_hour_from_now() {
    let now = chrono::Utc::now().timestamp() as usize;
    let p = AccessTokenPayload::new(1, "admin", vec![], true, false);
    assert!(p.exp >= now + 3600 && p.exp <= now + 3700);
    assert_eq!(p.sub, "1");
    assert!(p.otp_enabled);
}

#[test]
fn check_permissions_needs_one_of_the_required() {
    let p = payload(&["users_read", "permissions_full"]);
    assert_eq!(p.check_permissions(vec!["users_read", "users_full"]), Ok(()));
    assert_eq!(p.check_permissions(vec!["permissions_write", "permissions_full"]), Ok(()));
    assert_eq!(p.check_permissions(vec!["grant_permission"]), Err(AppError::UnAuthorized));
    assert_eq!(p.check_permissions(vec!["USERS_READ"]), Err(AppError::UnAuthorized));
}

#[test]
fn check_permissions_refuses_an_empty_requirement_and_an_empty_token() {
    assert_eq!(payload(&["users_read"]).check_permissions(vec![]), Err(AppError::UnAuthorized));
    assert_eq!(payload(&[]).check_permissions(vec!["users_read"]), Err(AppError::UnAuthorized));
    assert_eq!(payload(&[]).check_permissions(vec![]), Err(AppError::UnAuthorized));
}

#[test]
fn generated_token_decodes_to_the_claims() {
    let p = AccessTokenPayload::new(7, "alice", vec!["users_read".to_string()], true, false);
    let exp = p.exp;
    let token = JwtEncryption::new().generate_access_token(p).unwrap();
    let claims = decode(&token);
    assert_eq!(claims["sub"], "7");
    assert_eq!(claims["exp"].as_u64(), Some(exp as u64));
    assert_eq!(claims["username"], "alice");
    assert_eq!(claims["permissions"], serde_json::Value::Array(vec![serde_json::Value::String("users_read".to_string())]));
    assert_eq!(claims["otp_enabled"], true);
    assert_eq!(claims["otp_passed"], false);
}

#[test]
fn generated_token_differs_from_its_claims_text() {
    let token = JwtEncryption::new().generate_access_token(payload(&[])).unwrap();
    assert_eq!(token.split('.').count(), 3);
    assert_ne!(token, "alice");
}

#[test]
fn bearer_token_prefers_the_header_and_falls_back_to_the_query() {
    assert_eq!(bearer_token(TokenSource::Header("abc".to_string())), Ok("abc".to_string()));
    assert_eq!(bearer_token(TokenSource::Query(Some("xyz".to_string()))), Ok("xyz".to_string()));
    assert_eq!(bearer_token(TokenSource::HeaderMalformed), Err(AppError::UnAuthorized));
    assert_eq!(bearer_token(TokenSource::Query(None)), Err(AppError::UnAuthorized));
}

#[test]
fn subject_is_the_decimal_id_at_the_extremes() {
    let low = AccessTokenPayload::issued_at(i64::MIN, "x", vec![], false, false, 0);
    assert_eq!(low.sub, "-9223372036854775808");
    let high = AccessTokenPayload::issued_at(i64::MAX, "x", vec![], false, false, 0);
    assert_eq!(high.sub, "9223372036854775807");
    assert_eq!(AccessTokenPayload::issued_at(0, "x", vec![], false, false, 0).sub, "0");
    assert_eq!(AccessTokenPayload::issued_at(10, "x", vec![], false, false, 0).sub, "10");
}
