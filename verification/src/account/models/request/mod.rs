//! The bodies of the requests.

pub mod auth;
pub mod forgot_password;
