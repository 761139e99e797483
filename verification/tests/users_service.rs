use rust_auth::error::AppError;
use rust_auth::logger::Logger;
use rust_auth::users::UsersService;

fn service() -> UsersService {
    UsersService::new(&Logger::new())
}

#[test]
fn starts_with_admin_and_dsolarte() {
    let all = service().get_all();
    assert_eq!(all.len(), 2);
    assert_eq!((all[0].id, all[0].username.as_str(), all[0].password.as_str()), (1, "admin", "admin"));
    assert_eq!((all[1].id, all[1].username.as_str(), all[1].password.as_str()), (2, "dsolarte", "1234"));
    assert!(!all[0].otp_enabled && !all[1].otp_enabled);
    assert_eq!(all[0].otp.account_name, "admin");
    assert_eq!(all[0].otp.issuer.as_deref(), Some("Rust Auth"));
    assert_eq!(all[0].otp.secret.len(), 20);
    assert_eq!(all[0].otp.digits, 6);
    assert_eq!(all[0].otp.step, 30);
}

#[test]
fn create_gives_the_next_id_and_no_second_factor() {
    let mut s = service();
    let u = s.create("alice", "secret123").unwrap();
    assert_eq!(u.id, 3);
    assert_eq!(u.username, "alice");
    assert_eq!(u.password, "secret123");
    assert!(!u.otp_enabled);
    assert_eq!(u.otp.account_name, "alice");
    assert_eq!(s.get_by_username("ALICE").map(|x| x.id), Some(3));
    assert_eq!(s.get_by_id(3).map(|x| x.username.clone()), Some("alice".to_string()));
}

#[test]
fn create_refuses_a_taken_name_up_to_case() {
    let mut s = service();
    assert_eq!(s.create("Admin", "whatever").err(), Some(AppError::UserAlreadyExists));
    assert_eq!(s.get_all().len(), 2);
}

#[test]
fn create_refuses_a_name_with_a_colon() {
    let mut s = service();
    assert_eq!(s.create("a:b", "whatever").err(), Some(AppError::InternalServerError));
    assert_eq!(s.get_all().len(), 2);
}

#[test]
fn delete_removes_the_first_match() {
    let mut s = service();
    assert_eq!(s.delete("DSOLARTE"), Ok(()));
    assert!(s.get_by_username("dsolarte").is_none());
    assert_eq!(s.delete("dsolarte"), Err(AppError::UserNotFound));
    assert_eq!(s.get_all().len(), 1);
}

#[test]
fn change_otp_status_toggles() {
    let mut s = service();
    assert!(s.change_otp_status_for_user(2).unwrap().otp_enabled);
    assert!(s.get_by_id(2).unwrap().otp_enabled);
    assert!(!s.change_otp_status_for_user(2).unwrap().otp_enabled);
    assert!(!s.get_by_id(2).unwrap().otp_enabled);
    assert_eq!(s.change_otp_status_for_user(7).err(), Some(AppError::UserNotFound));
}

#[test]
fn lookups_miss() {
    let s = service();
    assert!(s.get_by_id(5).is_none());
    assert!(s.get_by_username("nobody").is_none());
}
