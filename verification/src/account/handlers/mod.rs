//! The operations: authentication, password reset, and the current user.

pub mod auth;
pub mod forgot_password;
pub mod user;
