//! What the user endpoints compute once the users service is at hand.

use vstd::prelude::*;

use crate::error::AppError;
use crate::models::User;
use crate::users::{find_user_id, find_username, UsersService};

verus! {

/// The user with id `id`.
pub fn get_by_id(users: &UsersService, id: i64) -> (r: Result<User, AppError>)
    ensures
        ({
            let k = find_user_id(users@, id, 0);
            if k < 0 {
                r == Err::<User, AppError>(AppError::UserNotFound)
            } else {
                r == Ok::<User, AppError>(users@[k])
            }
        }),
{
    match users.get_by_id(id) {
        Some(user) => Ok(user.clone()),
        None => Err(AppError::UserNotFound),
    }
}

/// The user named `username` up to case.
pub fn get_by_username(users: &UsersService, username: &str) -> (r: Result<User, AppError>)
    ensures
        ({
            let k = find_username(users@, username@, 0);
            if k < 0 {
                r == Err::<User, AppError>(AppError::UserNotFound)
            } else {
                r == Ok::<User, AppError>(users@[k])
            }
        }),
{
    match users.get_by_username(username) {
        Some(user) => Ok(user.clone()),
        None => Err(AppError::UserNotFound),
    }
}

} // verus!
