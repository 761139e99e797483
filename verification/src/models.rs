//! The records that the services keep and the bodies that requests carry.

use vstd::prelude::*;
use vstd::string::StrSliceExecFns;

use crate::error::{AppError, FieldError};
use crate::otp::OtpGenerator;

verus! {

/// A named permission that can be granted to users.
#[derive(Debug, PartialEq, Eq)]
pub struct Permission {
    pub id: i64,
    pub name: String,
    pub description: String,
    pub deletable: bool,
}

impl Clone for Permission {
    fn clone(&self) -> (r: Self)
        ensures
            r == *self,
    {
        Permission {
            id: self.id,
            name: self.name.clone(),
            description: self.description.clone(),
            deletable: self.deletable,
        }
    }
}

/// The grant of one permission to one user.
#[derive(Clone, Copy, Debug, PartialEq, Eq, Structural)]
pub struct UserPermission {
    pub user_id: i64,
    pub permission_id: i64,
}

/// A user account. `otp` generates and checks the user's one-time passwords.
#[derive(Debug)]
pub struct User {
    pub id: i64,
    pub username: String,
    pub password: String,
    pub otp_enabled: bool,
    pub otp: OtpGenerator,
}

impl Clone for User {
    fn clone(&self) -> (r: Self)
        ensures
            r == *self,
    {
        User {
            id: self.id,
            username: self.username.clone(),
            password: self.password.clone(),
            otp_enabled: self.otp_enabled,
            otp: self.otp.clone(),
        }
    }
}

/// The credentials sent to sign in.
#[derive(Debug, PartialEq, Eq)]
pub struct LogInBody {
    pub username: String,
    pub password: String,
}

/// The credentials sent to open an account.
#[derive(Debug, PartialEq, Eq)]
pub struct SignUpBody {
    pub username: String,
    pub password: String,
}

/// What a successful sign-in answers: a signed access token.
#[derive(Debug, PartialEq, Eq)]
pub struct AuthResponse {
    pub access_token: String,
}

/// The name and description sent to create a permission.
#[derive(Debug, PartialEq, Eq)]
pub struct CreatePermissionBody {
    pub name: String,
    pub description: String,
}

/// A text has between `min` and `max` characters.
pub open spec fn length_within(text: Seq<char>, min: int, max: int) -> bool {
    min <= text.len() <= max
}

/// The field names and messages of a list of field errors.
pub open spec fn error_texts(errors: Seq<FieldError>) -> Seq<(Seq<char>, Seq<char>)> {
    errors.map_values(|e: FieldError| (e.field@, e.message@))
}

/// The error for `field` when its length is out of bounds, if it is.
pub open spec fn length_error(
    text: Seq<char>,
    min: int,
    max: int,
    field: Seq<char>,
    message: Seq<char>,
) -> Seq<(Seq<char>, Seq<char>)> {
    if length_within(text, min, max) {
        Seq::empty()
    } else {
        seq![(field, message)]
    }
}

/// What a validation answers: success when no rule fails, else the failed rules.
pub open spec fn validated(r: Result<(), AppError>, failures: Seq<(Seq<char>, Seq<char>)>) -> bool {
    if failures.len() == 0 {
        r is Ok
    } else {
        r matches Err(AppError::ValidationError(errors)) && error_texts(errors@) == failures
    }
}

/// Adds the error for a field whose length is out of bounds.
fn check_length(
    errors: &mut Vec<FieldError>,
    text: &str,
    min: usize,
    max: usize,
    field: &str,
    message: &str,
)
    ensures
        error_texts(final(errors)@) == error_texts(old(errors)@) + length_error(
            text@,
            min as int,
            max as int,
            field@,
            message@,
        ),
{
    let len = text.unicode_len();
    if len < min || len > max {
        errors.push(FieldError { field: field.to_owned(), message: message.to_owned() });
        assert(error_texts(errors@) =~= error_texts(old(errors)@).push((field@, message@)));
    } else {
        assert(error_texts(errors@) =~= error_texts(old(errors)@));
    }
}

/// Turns the collected field errors into the answer of a validation.
fn validation_answer(errors: Vec<FieldError>) -> (r: Result<(), AppError>)
    ensures
        validated(r, error_texts(errors@)),
{
    if errors.len() == 0 {
        Ok(())
    } else {
        Err(AppError::ValidationError(errors))
    }
}

impl SignUpBody {
    /// The rules of an account: a username of 4 to 15 characters and a password of 8 to 40.
    pub open spec fn failures(&self) -> Seq<(Seq<char>, Seq<char>)> {
        length_error(
            self.username@,
            4,
            15,
            "username"@,
            "El nombre de usuario debe contener entre 4 y 15 caracteres"@,
        ) + length_error(
            self.password@,
            8,
            40,
            "password"@,
            "La contraseña debe contener entre 8 y 40 caracteres"@,
        )
    }

    /// Checks the rules of an account, answering each failed rule with its field and message.
    pub fn validate(&self) -> (r: Result<(), AppError>)
        ensures
            validated(r, self.failures()),
    {
        let mut errors: Vec<FieldError> = Vec::new();
        assert(error_texts(errors@) =~= Seq::empty());
        check_length(
            &mut errors,
            self.username.as_str(),
            4,
            15,
            "username",
            "El nombre de usuario debe contener entre 4 y 15 caracteres",
        );
        check_length(
            &mut errors,
            self.password.as_str(),
            8,
            40,
            "password",
            "La contraseña debe contener entre 8 y 40 caracteres",
        );
        assert(error_texts(errors@) =~= self.failures());
        validation_answer(errors)
    }
}

impl CreatePermissionBody {
    /// The rules of a permission: a name of 4 to 50 characters and a description of 1 to 100.
    pub open spec fn failures(&self) -> Seq<(Seq<char>, Seq<char>)> {
        length_error(
            self.name@,
            4,
            50,
            "name"@,
            "El nombre del permiso debe contener entre 4 y 50 caracteres"@,
        ) + length_error(
            self.description@,
            1,
            100,
            "description"@,
            "La descripción sólo puede contener hasta 100 caracteres"@,
        )
    }

    /// Checks the rules of a permission, answering each failed rule with its field and message.
    pub fn validate(&self) -> (r: Result<(), AppError>)
        ensures
            validated(r, self.failures()),
    {
        let mut errors: Vec<FieldError> = Vec::new();
        assert(error_texts(errors@) =~= Seq::empty());
        check_length(
            &mut errors,
            self.name.as_str(),
            4,
            50,
            "name",
            "El nombre del permiso debe contener entre 4 y 50 caracteres",
        );
        check_length(
            &mut errors,
            self.description.as_str(),
            1,
            100,
            "description",
            "La descripción sólo puede contener hasta 100 caracteres",
        );
        assert(error_texts(errors@) =~= self.failures());
        validation_answer(errors)
    }
}

} // verus!
