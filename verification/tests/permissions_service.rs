use rust_auth::error::AppError;
use rust_auth::logger::Logger;
use rust_auth::models::UserPermission;
use rust_auth::permissions::PermissionsService;

fn service() -> PermissionsService {
    PermissionsService::new(&Logger::new())
}

fn grant(user_id: i64, permission_id: i64) -> UserPermission {
    UserPermission { user_id, permission_id }
}

#[test]
fn starts_with_eight_undeletable_permissions() {
    let all = service().get_all();
    let names: Vec<&str> = all.iter().map(|p| p.name.as_str()).collect();
    assert_eq!(
        names,
        vec![
            "users_full",
            "users_read",
            "users_write",
            "permissions_full",
            "permissions_read",
            "permissions_write",
            "grant_permission",
            "revoke_permission"
        ]
    );
    let ids: Vec<i64> = all.iter().map(|p| p.id).collect();
    assert_eq!(ids, vec![1, 2, 3, 4, 5, 6, 7, 8]);
    assert!(all.iter().all(|p| !p.deletable));
    assert_eq!(all[0].description, "Full access to users endpoints");
}

#[test]
fn starts_with_grants_of_the_two_users() {
    assert_eq!(
        service().get_permissions_for_user(1),
        vec![grant(1, 1), grant(1, 4), grant(1, 7), grant(1, 8)]
    );
    assert_eq!(service().get_permissions_for_user(2), vec![grant(2, 2), grant(2, 5)]);
    assert_eq!(service().get_permissions_for_user(3), vec![]);
}

#[test]
fn get_by_name_ignores_case() {
    let s = service();
    assert_eq!(s.get_by_name("USERS_READ").map(|p| p.id), Some(2));
    assert_eq!(s.get_by_name("Grant_Permission").map(|p| p.id), Some(7));
    assert!(s.get_by_name("nothing").is_none());
}

#[test]
fn get_by_id_finds_or_not() {
    let s = service();
    assert_eq!(s.get_by_id(4).map(|p| p.name.clone()), Some("permissions_full".to_string()));
    assert!(s.get_by_id(9).is_none());
    assert!(s.get_by_id(0).is_none());
}

#[test]
fn create_gives_the_next_id() {
    let mut s = service();
    let p = s.create("reports_read", "Read reports").unwrap();
    assert_eq!(p.id, 9);
    assert_eq!(p.name, "reports_read");
    assert_eq!(p.description, "Read reports");
    assert!(p.deletable);
    assert_eq!(s.get_all().len(), 9);
    assert_eq!(s.get_by_name("REPORTS_READ"), Some(&p));
    assert_eq!(s.get_by_id(9), Some(&p));
    let q = s.create("reports_write", "Write reports").unwrap();
    assert_eq!(q.id, 10);
}

#[test]
fn create_refuses_a_name_in_use_up_to_case() {
    let mut s = service();
    assert_eq!(s.create("Users_Full", "again"), Err(AppError::PermissionAlreadyExists));
    assert_eq!(s.get_all().len(), 8);
}

#[test]
fn create_reuses_the_id_of_a_deleted_highest_permission() {
    let mut s = service();
    s.create("a_perm", "a").unwrap();
    assert_eq!(s.delete("a_perm"), Ok(()));
    assert_eq!(s.create("b_perm", "b").unwrap().id, 9);
}

#[test]
fn delete_refuses_built_in_and_unknown_permissions() {
    let mut s = service();
    assert_eq!(s.delete("users_full"), Err(AppError::PermissionNotDeletable));
    assert_eq!(s.delete("missing"), Err(AppError::PermissionNotFound));
    assert_eq!(s.get_all().len(), 8);
}

#[test]
fn delete_removes_the_permission_and_its_single_grant() {
    let mut s = service();
    s.create("reports", "r").unwrap();
    s.grant_permission(3, "reports").unwrap();
    assert!(s.delete_completes("REPORTS"));
    assert_eq!(s.delete("REPORTS"), Ok(()));
    assert!(s.get_by_name("reports").is_none());
    assert!(!s.user_has_permission(3, 9));
    assert_eq!(s.clone().get_permissions_for_user(3), vec![]);
}

#[test]
fn delete_removes_grants_at_their_former_indices() {
    let mut s = service();
    s.create("reports", "r").unwrap();
    s.grant_permission(3, "reports").unwrap();
    s.grant_permission(4, "reports").unwrap();
    s.grant_permission(5, "users_full").unwrap();
    assert!(s.delete_completes("reports"));
    assert_eq!(s.delete("reports"), Ok(()));
    // The grant at index 6 goes; the walk then removes index 7 of the shrunk list, which is the
    // grant of user 5, and the grant of user 4 stays.
    assert_eq!(s.clone().get_permissions_for_user(4), vec![grant(4, 9)]);
    assert_eq!(s.clone().get_permissions_for_user(5), vec![]);
}

#[test]
fn delete_completes_is_false_when_the_walk_runs_past_the_end() {
    let mut s = service();
    s.create("reports", "r").unwrap();
    s.grant_permission(3, "reports").unwrap();
    s.grant_permission(4, "reports").unwrap();
    assert!(!s.delete_completes("reports"));
    assert!(s.delete_completes("users_full"));
    assert!(s.delete_completes("missing"));
}

#[test]
fn grant_then_has_then_refused_twice() {
    let mut s = service();
    assert!(!s.user_has_permission(2, 3));
    assert_eq!(s.grant_permission(2, "USERS_WRITE"), Ok(()));
    assert!(s.user_has_permission(2, 3));
    assert_eq!(s.grant_permission(2, "users_write"), Err(AppError::UserAlreadyHasPermission));
    assert_eq!(s.grant_permission(2, "nope"), Err(AppError::PermissionNotFound));
    assert_eq!(s.clone().get_permissions_for_user(2), vec![grant(2, 2), grant(2, 5), grant(2, 3)]);
}

#[test]
fn revoke_undoes_grant() {
    let mut s = service();
    s.grant_permission(2, "users_write").unwrap();
    assert_eq!(s.revoke_permission(2, "users_write"), Ok(()));
    assert!(!s.user_has_permission(2, 3));
    assert_eq!(s.clone().get_permissions_for_user(2), vec![grant(2, 2), grant(2, 5)]);
    assert_eq!(s.revoke_permission(2, "users_write"), Err(AppError::UserPermissionNotFound));
    assert_eq!(s.revoke_permission(2, "unknown"), Err(AppError::PermissionNotFound));
}

#[test]
fn clone_keeps_the_state() {
    let mut s = service();
    s.create("extra", "e").unwrap();
    let c = s.clone();
    assert_eq!(c.get_all(), s.get_all());
}
