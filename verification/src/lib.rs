//! An account-authentication engine with machine-checked contracts:
//! registration, login with lockout, session issuance, rotation and
//! revocation, role checks, and a password reset by one-time passcode.
//!
//! The engine keeps its three tables (users, sessions, reset transactions)
//! in memory, under the constraints of their schema. Every operation takes
//! the state, the request, the reading of the clock and whatever random
//! material it needs as arguments, and its contract states the new state and
//! the answer as functions of these. Laws that relate several operations
//! (a session is renewed at most once, a passcode verifies once, three
//! failures lock the account, and so on) are proved beside the operations.
//!
//! A service that keeps the tables elsewhere performs the reads and writes
//! itself and asks the `*_step`, `*_answer` and `from_lookup` functions what
//! to do with what it read: they hold every decision of the operations.
//!
//! - [`account::entities`]: the rows and the values that rows are made from
//! - [`account::database`]: the tables and their operations
//! - [`account::handlers`]: the operations and their laws
//! - [`account::utils`]: hashes, tokens and passcodes; the access checks
//! - [`validators`], [`error`], [`models`], [`config`], [`types`]: the
//!   validation of fields, the errors and their reports, paging, the
//!   configuration, and the timestamp

pub mod account;
pub mod config;
pub mod constants;
pub mod error;
pub mod models;
pub mod state;
pub mod types;
pub mod utils;
pub mod validators;
