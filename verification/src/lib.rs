//! Users, permissions and sign-in rules of an authentication service.

pub mod auth_controller;
pub mod error;
pub mod handlers;
pub mod logger;
pub mod models;
pub mod otp;
pub mod permission_laws;
pub mod permissions;
pub mod permissions_controller;
pub mod text;
pub mod token;
pub mod user_laws;
pub mod users;
pub mod users_controller;
