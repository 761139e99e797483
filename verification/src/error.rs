//! Errors of the service and the HTTP answer that each one gets.

use vstd::prelude::*;

verus! {

/// One failed rule of a request body: the field and the message shown for it.
#[derive(Debug, PartialEq, Eq)]
pub struct FieldError {
    pub field: String,
    pub message: String,
}

/// Everything that can go wrong while serving a request.
#[derive(Debug, PartialEq, Eq)]
pub enum AppError {
    InternalServerError,
    ValidationError(Vec<FieldError>),
    UnAuthorized,
    // Users
    UserWrongAuthentication,
    UserAlreadyExists,
    UserNotFound,
    UserNotDeletable,
    // Permissions
    PermissionAlreadyExists,
    PermissionNotFound,
    PermissionNotDeletable,
    // User permissions
    UserAlreadyHasPermission,
    UserPermissionNotFound,
    CannotRevokeUserPermission,
    // One-time passwords
    InvalidOTP,
}

/// The status, code and message of the answer to an error.
pub struct ErrorResponse {
    pub status_code: u16,
    pub code: &'static str,
    pub message: &'static str,
}

/// The HTTP status of the answer to an error.
pub open spec fn status_of(e: AppError) -> u16 {
    match e {
        AppError::ValidationError(_) => 400,
        AppError::UnAuthorized => 401,
        AppError::UserWrongAuthentication => 400,
        AppError::UserAlreadyExists => 409,
        AppError::UserNotFound => 404,
        AppError::UserNotDeletable => 409,
        AppError::PermissionAlreadyExists => 409,
        AppError::PermissionNotFound => 404,
        AppError::PermissionNotDeletable => 409,
        AppError::UserAlreadyHasPermission => 409,
        AppError::UserPermissionNotFound => 400,
        AppError::CannotRevokeUserPermission => 409,
        _ => 500,
    }
}

/// The machine-readable code of the answer to an error.
pub open spec fn code_of(e: AppError) -> Seq<char> {
    match e {
        AppError::ValidationError(_) => "validation_error"@,
        AppError::UnAuthorized => "unauthorized_user"@,
        AppError::UserWrongAuthentication => "wrong_authentication"@,
        AppError::UserAlreadyExists => "user_already_exists"@,
        AppError::UserNotFound => "user_not_found"@,
        AppError::UserNotDeletable => "cannot_delete_user"@,
        AppError::PermissionAlreadyExists => "permission_already_exists"@,
        AppError::PermissionNotFound => "permission_not_found"@,
        AppError::PermissionNotDeletable => "permission_not_deletable"@,
        AppError::UserAlreadyHasPermission => "user_has_permission"@,
        AppError::UserPermissionNotFound => "user_not_has_permission"@,
        AppError::CannotRevokeUserPermission => "cannot_revoke_permission"@,
        _ => "internal_server_error"@,
    }
}

/// The human-readable message of the answer to an error.
pub open spec fn message_of(e: AppError) -> Seq<char> {
    match e {
        AppError::ValidationError(_) => "Ha ocurrido un error validando la información"@,
        AppError::UnAuthorized => "No tienes permitido consumir esta url"@,
        AppError::UserWrongAuthentication => "El usuario o la contraseña no son correctos"@,
        AppError::UserAlreadyExists => "El nombre de usuario ya está en uso"@,
        AppError::UserNotFound => "El usuario no existe"@,
        AppError::UserNotDeletable => "No puedes eliminar el usuario con el que estás autenticado"@,
        AppError::PermissionAlreadyExists => "El nombre del permiso ya está en uso"@,
        AppError::PermissionNotFound => "El permiso no existe"@,
        AppError::PermissionNotDeletable => "No puedes eliminar este permiso"@,
        AppError::UserAlreadyHasPermission => "El usuario ya posee este permiso"@,
        AppError::UserPermissionNotFound => "El usuario no posee este permiso"@,
        AppError::CannotRevokeUserPermission => "No puedes eliminarle un permiso al usuario con el que estás autenticado"@,
        _ => "Error interno"@,
    }
}

impl AppError {
    /// The status, code and message of the answer to this error.
    pub fn response(&self) -> (r: ErrorResponse)
        ensures
            r.status_code == status_of(*self),
            r.code@ == code_of(*self),
            r.message@ == message_of(*self),
    {
        match self {
            AppError::ValidationError(_) => ErrorResponse {
                status_code: 400,
                code: "validation_error",
                message: "Ha ocurrido un error validando la información",
            },
            AppError::UnAuthorized => ErrorResponse {
                status_code: 401,
                code: "unauthorized_user",
                message: "No tienes permitido consumir esta url",
            },
            AppError::UserWrongAuthentication => ErrorResponse {
                status_code: 400,
                code: "wrong_authentication",
                message: "El usuario o la contraseña no son correctos",
            },
            AppError::UserAlreadyExists => ErrorResponse {
                status_code: 409,
                code: "user_already_exists",
                message: "El nombre de usuario ya está en uso",
            },
            AppError::UserNotFound => ErrorResponse {
                status_code: 404,
                code: "user_not_found",
                message: "El usuario no existe",
            },
            AppError::UserNotDeletable => ErrorResponse {
                status_code: 409,
                code: "cannot_delete_user",
                message: "No puedes eliminar el usuario con el que estás autenticado",
            },
            AppError::PermissionAlreadyExists => ErrorResponse {
                status_code: 409,
                code: "permission_already_exists",
                message: "El nombre del permiso ya está en uso",
            },
            AppError::PermissionNotFound => ErrorResponse {
                status_code: 404,
                code: "permission_not_found",
                message: "El permiso no existe",
            },
            AppError::PermissionNotDeletable => ErrorResponse {
                status_code: 409,
                code: "permission_not_deletable",
                message: "No puedes eliminar este permiso",
            },
            AppError::UserAlreadyHasPermission => ErrorResponse {
                status_code: 409,
                code: "user_has_permission",
                message: "El usuario ya posee este permiso",
            },
            AppError::UserPermissionNotFound => ErrorResponse {
                status_code: 400,
                code: "user_not_has_permission",
                message: "El usuario no posee este permiso",
            },
            AppError::CannotRevokeUserPermission => ErrorResponse {
                status_code: 409,
                code: "cannot_revoke_permission",
                message: "No puedes eliminarle un permiso al usuario con el que estás autenticado",
            },
            _ => ErrorResponse {
                status_code: 500,
                code: "internal_server_error",
                message: "Error interno",
            },
        }
    }
}

} // verus!
