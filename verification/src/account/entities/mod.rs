//! The rows of the three tables, and the values from which rows are made.

pub mod forgot_password;
pub mod session;
pub mod user;
