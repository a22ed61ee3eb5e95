//! The bodies of the answers.

pub mod auth;
pub mod forgot_password;
pub mod user;
