use rust_auth::error::{AppError, FieldError};
use rust_auth::models::{CreatePermissionBody, SignUpBody};

fn parts(e: AppError) -> (u16, &'static str, &'static str) {
    let r = e.response();
    (r.status_code, r.code, r.message)
}

#[test]
fn each_error_has_its_answer() {
    assert_eq!(parts(AppError::UnAuthorized), (401, "unauthorized_user", "No tienes permitido consumir esta url"));
    assert_eq!(parts(AppError::UserWrongAuthentication).0, 400);
    assert_eq!(parts(AppError::UserAlreadyExists), (409, "user_already_exists", "El nombre de usuario ya está en uso"));
    assert_eq!(parts(AppError::UserNotFound), (404, "user_not_found", "El usuario no existe"));
    assert_eq!(parts(AppError::UserNotDeletable).1, "cannot_delete_user");
    assert_eq!(parts(AppError::PermissionAlreadyExists).1, "permission_already_exists");
    assert_eq!(parts(AppError::PermissionNotFound), (404, "permission_not_found", "El permiso no existe"));
    assert_eq!(parts(AppError::PermissionNotDeletable), (409, "permission_not_deletable", "No puedes eliminar este permiso"));
    assert_eq!(parts(AppError::UserAlreadyHasPermission), (409, "user_has_permission", "El usuario ya posee este permiso"));
    assert_eq!(parts(AppError::UserPermissionNotFound), (400, "user_not_has_permission", "El usuario no posee este permiso"));
    assert_eq!(parts(AppError::CannotRevokeUserPermission).0, 409);
    assert_eq!(parts(AppError::InternalServerError), (500, "internal_server_error", "Error interno"));
    assert_eq!(parts(AppError::InvalidOTP), (500, "internal_server_error", "Error interno"));
    assert_eq!(
        parts(AppError::ValidationError(vec![])),
        (400, "validation_error", "Ha ocurrido un error validando la información")
    );
}

fn sign_up(username: &str, password: &str) -> SignUpBody {
    SignUpBody { username: username.to_string(), password: password.to_string() }
}

#[test]
fn sign_up_body_rules() {
    assert_eq!(sign_up("alice", "password1").validate(), Ok(()));
    assert_eq!(sign_up("abcd", "12345678").validate(), Ok(()));
    assert_eq!(sign_up("abcdefghijklmno", &"x".repeat(40)).validate(), Ok(()));
    assert_eq!(
        sign_up("abc", "password1").validate(),
        Err(AppError::ValidationError(vec![FieldError {
            field: "username".to_string(),
            message: "El nombre de usuario debe contener entre 4 y 15 caracteres".to_string(),
        }]))
    );
    assert_eq!(
        sign_up("abcdefghijklmnop", "short").validate(),
        Err(AppError::ValidationError(vec![
            FieldError {
                field: "username".to_string(),
                message: "El nombre de usuario debe contener entre 4 y 15 caracteres".to_string(),
            },
            FieldError {
                field: "password".to_string(),
                message: "La contraseña debe contener entre 8 y 40 caracteres".to_string(),
            },
        ]))
    );
}

#[test]
fn lengths_count_characters_not_bytes() {
    assert_eq!(sign_up("ñañá", "contraseña").validate(), Ok(()));
    assert!(sign_up("ñañ", "contraseña").validate().is_err());
}

#[test]
fn permission_body_rules() {
    let ok = CreatePermissionBody { name: "reports".to_string(), description: "d".to_string() };
    assert_eq!(ok.validate(), Ok(()));
    let empty = CreatePermissionBody { name: "rep".to_string(), description: String::new() };
    assert_eq!(
        empty.validate(),
        Err(AppError::ValidationError(vec![
            FieldError {
                field: "name".to_string(),
                message: "El nombre del permiso debe contener entre 4 y 50 caracteres".to_string(),
            },
            FieldError {
                field: "description".to_string(),
                message: "La descripción sólo puede contener hasta 100 caracteres".to_string(),
            },
        ]))
    );
    let long = CreatePermissionBody { name: "n".repeat(50), description: "d".repeat(101) };
    assert_eq!(
        long.validate(),
        Err(AppError::ValidationError(vec![FieldError {
            field: "description".to_string(),
            message: "La descripción sólo puede contener hasta 100 caracteres".to_string(),
        }]))
    );
}
