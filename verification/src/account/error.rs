//! What the account engines refuse, and how each refusal is reported.

use vstd::prelude::*;
use vstd::string::StringExecFns;
use crate::constants::SESSION_HEADER_KEY;
use crate::error::{
    AppErrorResponse, ErrorCode, IntoAppErrorResponse, BAD_REQUEST, FORBIDDEN, NOT_FOUND,
    UNAUTHORIZED,
};
use crate::utils::{i64_to_string, signed_decimal};

verus! {

/// The refusals of the account engines.
#[derive(Debug)]
pub enum AccountError {
    /// Registration of an address that is taken.
    UserExistsByEmail(String),
    /// No user has this address.
    UserDoesNotExistByEmail(String),
    /// No user has this id.
    UserDoesNotExistById(i64),
    /// The password does not match.
    InvalidCredentials,
    /// Too many failed logins are on record.
    MaxLoginAttempts,
    /// The request carries no session header.
    MissingTokenInHeader,
    /// No usable session has the token presented.
    InvalidOrExpiredToken,
    /// No usable reset transaction matches what was presented.
    InvalidOrExpiredOtp,
    /// The refresh token is not that of the session.
    TokenPairMismatch,
    /// The user's role is not the one required.
    InsufficientPrivilege,
}

impl AccountError {
    /// The sentence that reports the refusal.
    pub open spec fn spec_message(&self) -> Seq<char> {
        match self {
            AccountError::UserExistsByEmail(email) => "User "@ + email@ + " already exists."@,
            AccountError::UserDoesNotExistByEmail(email) => "User "@ + email@
                + " does not exist."@,
            AccountError::UserDoesNotExistById(id) => "User "@ + signed_decimal(*id as int)
                + " does not exist."@,
            AccountError::InvalidCredentials => "Email or password is incorrect."@,
            AccountError::MaxLoginAttempts =>
                "Account locked. You have entered an invalid password too many times."@,
            AccountError::MissingTokenInHeader => "Missing session token in header."@,
            AccountError::InvalidOrExpiredToken => "Session token is invalid or expired."@,
            AccountError::InvalidOrExpiredOtp => "OTP is invalid or expired."@,
            AccountError::TokenPairMismatch => "Session and refresh tokens do not match."@,
            AccountError::InsufficientPrivilege =>
                "Insufficient privilege to access this resource."@,
        }
    }

    /// The status with which the refusal is answered.
    pub open spec fn spec_status_code(&self) -> u16 {
        match self {
            AccountError::UserExistsByEmail(_)
            | AccountError::InvalidCredentials
            | AccountError::MaxLoginAttempts
            | AccountError::InvalidOrExpiredOtp => BAD_REQUEST,
            AccountError::UserDoesNotExistByEmail(_) | AccountError::UserDoesNotExistById(_) =>
                NOT_FOUND,
            AccountError::MissingTokenInHeader
            | AccountError::InvalidOrExpiredToken
            | AccountError::TokenPairMismatch => UNAUTHORIZED,
            AccountError::InsufficientPrivilege => FORBIDDEN,
        }
    }

    /// What the refusal adds for the developer: only a missing header is
    /// explained further.
    pub open spec fn spec_debug_description(&self) -> Option<Seq<char>> {
        match self {
            AccountError::MissingTokenInHeader => Some(
                "Missing token ("@ + SESSION_HEADER_KEY@ + ") in header."@,
            ),
            _ => None,
        }
    }

    /// The sentence that reports the refusal.
    pub fn message(&self) -> (r: String)
        ensures
            r@ == self.spec_message(),
    {
        match self {
            AccountError::UserExistsByEmail(email) => {
                let mut s = String::from_str("User ");
                s.append(email.as_str());
                s.append(" already exists.");
                s
            },
            AccountError::UserDoesNotExistByEmail(email) => {
                let mut s = String::from_str("User ");
                s.append(email.as_str());
                s.append(" does not exist.");
                s
            },
            AccountError::UserDoesNotExistById(id) => {
                let mut s = String::from_str("User ");
                let numeral = i64_to_string(*id);
                s.append(numeral.as_str());
                s.append(" does not exist.");
                s
            },
            AccountError::InvalidCredentials => String::from_str("Email or password is incorrect."),
            AccountError::MaxLoginAttempts => String::from_str(
                "Account locked. You have entered an invalid password too many times.",
            ),
            AccountError::MissingTokenInHeader => String::from_str(
                "Missing session token in header.",
            ),
            AccountError::InvalidOrExpiredToken => String::from_str(
                "Session token is invalid or expired.",
            ),
            AccountError::InvalidOrExpiredOtp => String::from_str("OTP is invalid or expired."),
            AccountError::TokenPairMismatch => String::from_str(
                "Session and refresh tokens do not match.",
            ),
            AccountError::InsufficientPrivilege => String::from_str(
                "Insufficient privilege to access this resource.",
            ),
        }
    }

    /// Whether the refusal is that of a password that does not match.
    pub fn is_invalid_credentials(&self) -> (r: bool)
        ensures
            r == (self is InvalidCredentials),
    {
        matches!(self, AccountError::InvalidCredentials)
    }

    /// Whether the refusal is that of an address that is taken.
    pub fn is_user_exists_by_email(&self) -> (r: bool)
        ensures
            r == (self is UserExistsByEmail),
    {
        matches!(self, AccountError::UserExistsByEmail(_))
    }

    /// Whether the refusal is that of an address that no user has.
    pub fn is_user_does_not_exist_by_email(&self) -> (r: bool)
        ensures
            r == (self is UserDoesNotExistByEmail),
    {
        matches!(self, AccountError::UserDoesNotExistByEmail(_))
    }

    /// Whether the refusal is that of a number that no user has.
    pub fn is_user_does_not_exist_by_id(&self) -> (r: bool)
        ensures
            r == (self is UserDoesNotExistById),
    {
        matches!(self, AccountError::UserDoesNotExistById(_))
    }

    /// Whether the refusal is that of a lockout.
    pub fn is_max_login_attempts(&self) -> (r: bool)
        ensures
            r == (self is MaxLoginAttempts),
    {
        matches!(self, AccountError::MaxLoginAttempts)
    }

    /// Whether the refusal is that of a missing session header.
    pub fn is_missing_token_in_header(&self) -> (r: bool)
        ensures
            r == (self is MissingTokenInHeader),
    {
        matches!(self, AccountError::MissingTokenInHeader)
    }

    /// Whether the refusal is that of a token without a usable session.
    pub fn is_invalid_or_expired_token(&self) -> (r: bool)
        ensures
            r == (self is InvalidOrExpiredToken),
    {
        matches!(self, AccountError::InvalidOrExpiredToken)
    }

    /// Whether the refusal is that of a passcode or reset token without a usable transaction.
    pub fn is_invalid_or_expired_otp(&self) -> (r: bool)
        ensures
            r == (self is InvalidOrExpiredOtp),
    {
        matches!(self, AccountError::InvalidOrExpiredOtp)
    }

    /// Whether the refusal is that of a refresh token that is not the session's.
    pub fn is_token_pair_mismatch(&self) -> (r: bool)
        ensures
            r == (self is TokenPairMismatch),
    {
        matches!(self, AccountError::TokenPairMismatch)
    }

    /// Whether the refusal is that of a role that is not the one required.
    pub fn is_insufficient_privilege(&self) -> (r: bool)
        ensures
            r == (self is InsufficientPrivilege),
    {
        matches!(self, AccountError::InsufficientPrivilege)
    }
}

impl ErrorCode for AccountError {
    open spec fn spec_code(&self) -> Seq<char> {
        match self {
            AccountError::UserExistsByEmail(_) => "ACC0001"@,
            AccountError::UserDoesNotExistByEmail(_) => "ACC0002"@,
            AccountError::UserDoesNotExistById(_) => "ACC0003"@,
            AccountError::InvalidCredentials => "ACC0004"@,
            AccountError::MaxLoginAttempts => "ACC0005"@,
            AccountError::MissingTokenInHeader => "ACC0006"@,
            AccountError::InvalidOrExpiredToken => "ACC0007"@,
            AccountError::InvalidOrExpiredOtp => "ACC0008"@,
            AccountError::TokenPairMismatch => "ACC0009"@,
            AccountError::InsufficientPrivilege => "ACC0010"@,
        }
    }

    fn code(&self) -> (r: &str) {
        match self {
            AccountError::UserExistsByEmail(_) => "ACC0001",
            AccountError::UserDoesNotExistByEmail(_) => "ACC0002",
            AccountError::UserDoesNotExistById(_) => "ACC0003",
            AccountError::InvalidCredentials => "ACC0004",
            AccountError::MaxLoginAttempts => "ACC0005",
            AccountError::MissingTokenInHeader => "ACC0006",
            AccountError::InvalidOrExpiredToken => "ACC0007",
            AccountError::InvalidOrExpiredOtp => "ACC0008",
            AccountError::TokenPairMismatch => "ACC0009",
            AccountError::InsufficientPrivilege => "ACC0010",
        }
    }
}

impl IntoAppErrorResponse for AccountError {
    open spec fn spec_response_status(&self) -> u16 {
        self.spec_status_code()
    }

    open spec fn spec_response_message(&self) -> Seq<char> {
        self.spec_message()
    }

    open spec fn spec_response_debug(&self) -> Option<Option<Seq<char>>> {
        Some(self.spec_debug_description())
    }

    open spec fn spec_response_failures(&self) -> Seq<(Seq<char>, Seq<Seq<char>>)> {
        Seq::empty()
    }

    fn into_app_error_response(&self) -> (r: AppErrorResponse) {
        let status_code = match self {
            AccountError::UserExistsByEmail(_)
            | AccountError::InvalidCredentials
            | AccountError::MaxLoginAttempts
            | AccountError::InvalidOrExpiredOtp => BAD_REQUEST,
            AccountError::UserDoesNotExistByEmail(_) | AccountError::UserDoesNotExistById(_) =>
                NOT_FOUND,
            AccountError::MissingTokenInHeader
            | AccountError::InvalidOrExpiredToken
            | AccountError::TokenPairMismatch => UNAUTHORIZED,
            AccountError::InsufficientPrivilege => FORBIDDEN,
        };
        let debug_description = match self {
            AccountError::MissingTokenInHeader => {
                let mut s = String::from_str("Missing token (");
                s.append(SESSION_HEADER_KEY);
                s.append(") in header.");
                Some(s)
            },
            _ => None,
        };
        AppErrorResponse {
            status_code,
            code: String::from_str(self.code()),
            message: self.message(),
            debug_description,
            validation_errors: Vec::new(),
        }
    }
}

} // verus!
