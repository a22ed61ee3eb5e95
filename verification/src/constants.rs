//! Names and limits shared by the whole crate.

use vstd::prelude::*;

verus! {

/// Name of the security scheme under which the session header is documented.
pub const DEFAULT_SECURITY_SCHEME: &'static str = "Session ID";

/// Documentation tag of the authentication routes.
pub const AUTH_TAG: &'static str = "Auth";

/// Documentation tag of the password-reset routes.
pub const FORGOT_PASSWORD_TAG: &'static str = "Forgot Password";

/// Documentation tag of the user routes.
pub const USER_TAG: &'static str = "Users";

/// Documentation tag of the administrative user routes.
pub const ADMIN_USER_TAG: &'static str = "Users (Admin)";

/// The one header that carries the session token.
pub const SESSION_HEADER_KEY: &'static str = "X-Session-Id";

/// The account whose password is exempt from the strength policy at login.
pub const ADMIN_EMAIL: &'static str = "admin@localhost";

/// A login is refused once this many failed attempts are on record.
pub const MAX_LOGIN_ATTEMPTS: i64 = 3;

/// Number of digits in a one-time passcode.
pub const DEFAULT_OTP_LENGTH: usize = 6;

} // verus!
