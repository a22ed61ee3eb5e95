//! Accounts: the rows, the tables, the engines that move them and the guard
//! that guards them.

pub mod database;
pub mod entities;
pub mod error;
pub mod handlers;
pub mod models;
pub mod utils;
