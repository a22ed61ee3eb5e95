//! The error of every operation, and the response that reports it.

use vstd::prelude::*;
use vstd::std_specs::convert::FromSpecImpl;
use vstd::string::StringExecFns;
use crate::account::error::AccountError;
use crate::utils::texts;
use crate::validators::{failure_views, ValidationError};

verus! {

/// The status of a request that is at fault.
pub const BAD_REQUEST: u16 = 400;

/// The status of a request without a usable session.
pub const UNAUTHORIZED: u16 = 401;

/// The status of a request whose user lacks the privilege.
pub const FORBIDDEN: u16 = 403;

/// The status of a request for what is not there.
pub const NOT_FOUND: u16 = 404;

/// The status of a failure that is not the caller's.
pub const INTERNAL_SERVER_ERROR: u16 = 500;

/// What is said of a failure that is not the caller's.
pub const UNKNOWN_ERROR_MESSAGE: &'static str = "An unknown error has occured.";

/// What is said where fields fail validation.
pub const VALIDATION_ERROR_MESSAGE: &'static str = "One or more validation errors has occured.";

/// What an operation gives: its answer, or why it failed.
pub type AppResult<T> = Result<T, AppError>;

/// The error of the password hasher.
#[verifier::external_type_specification]
#[verifier::external_body]
pub struct ExPasswordHashError(argon2::password_hash::Error);

/// Why an operation failed.
#[derive(Debug)]
pub enum AppError {
    /// The store failed; the text says how.
    SqlxError(String),
    /// The password hasher failed.
    Argon2PasswordHashError(argon2::password_hash::Error),
    /// The session header is not text; the text says why.
    HeaderToStrError(String),
    /// The body is not the JSON expected: the status to answer with, and why.
    JsonDeserializeError(u16, String),
    /// Fields failed validation.
    ValidationError(Vec<ValidationError>),
    /// An account engine refused.
    AccountError(AccountError),
}

/// An error with a stable, machine-readable code.
pub trait ErrorCode {
    spec fn spec_code(&self) -> Seq<char>;

    fn code(&self) -> (r: &str)
        ensures
            r@ == self.spec_code(),
    ;
}

/// What the hasher's error says of itself.
///
/// Trusted: formats an `argon2::password_hash::Error` with its `Display`.
/// Nothing is claimed of the text.
#[verifier::external_body]
fn describe_password_hash_error(error: &argon2::password_hash::Error) -> String {
    format!("{}", error)
}

impl AppError {
    /// The sentence that reports the error.
    pub open spec fn spec_message(&self) -> Seq<char> {
        match self {
            AppError::SqlxError(_) => UNKNOWN_ERROR_MESSAGE@,
            AppError::Argon2PasswordHashError(_) => UNKNOWN_ERROR_MESSAGE@,
            AppError::HeaderToStrError(_) => UNKNOWN_ERROR_MESSAGE@,
            AppError::JsonDeserializeError(_, reason) => reason@,
            AppError::ValidationError(_) => VALIDATION_ERROR_MESSAGE@,
            AppError::AccountError(error) => error.spec_message(),
        }
    }

    /// The status with which the error is answered.
    pub open spec fn spec_status_code(&self) -> u16 {
        match self {
            AppError::SqlxError(_) => INTERNAL_SERVER_ERROR,
            AppError::Argon2PasswordHashError(_) => INTERNAL_SERVER_ERROR,
            AppError::HeaderToStrError(_) => BAD_REQUEST,
            AppError::JsonDeserializeError(status, _) => *status,
            AppError::ValidationError(_) => BAD_REQUEST,
            AppError::AccountError(error) => error.spec_status_code(),
        }
    }

    /// The sentence that reports the error.
    pub fn message(&self) -> (r: String)
        ensures
            r@ == self.spec_message(),
    {
        match self {
            AppError::SqlxError(_) => String::from_str(UNKNOWN_ERROR_MESSAGE),
            AppError::Argon2PasswordHashError(_) => String::from_str(UNKNOWN_ERROR_MESSAGE),
            AppError::HeaderToStrError(_) => String::from_str(UNKNOWN_ERROR_MESSAGE),
            AppError::JsonDeserializeError(_, reason) => reason.clone(),
            AppError::ValidationError(_) => String::from_str(VALIDATION_ERROR_MESSAGE),
            AppError::AccountError(error) => error.message(),
        }
    }
}

impl ErrorCode for AppError {
    open spec fn spec_code(&self) -> Seq<char> {
        match self {
            AppError::SqlxError(_) => "GBL9999"@,
            AppError::Argon2PasswordHashError(_) => "GBL9998"@,
            AppError::HeaderToStrError(_) => "GBL0001"@,
            AppError::JsonDeserializeError(_, _) => "GBL0002"@,
            AppError::ValidationError(_) => "GBL0003"@,
            AppError::AccountError(error) => error.spec_code(),
        }
    }

    fn code(&self) -> (r: &str) {
        match self {
            AppError::SqlxError(_) => "GBL9999",
            AppError::Argon2PasswordHashError(_) => "GBL9998",
            AppError::HeaderToStrError(_) => "GBL0001",
            AppError::JsonDeserializeError(_, _) => "GBL0002",
            AppError::ValidationError(_) => "GBL0003",
            AppError::AccountError(error) => error.code(),
        }
    }
}

/// An error that can be turned into the response that reports it.
pub trait IntoAppErrorResponse: ErrorCode {
    /// The status of the response.
    spec fn spec_response_status(&self) -> u16;

    /// The message of the response.
    spec fn spec_response_message(&self) -> Seq<char>;

    /// The developer's note of the response, where the error fixes it:
    /// `Some(None)` for no note, `Some(Some(..))` for a note with a known
    /// text, `None` for a note whose text a collaborator supplies.
    spec fn spec_response_debug(&self) -> Option<Option<Seq<char>>>;

    /// The field failures of the response.
    spec fn spec_response_failures(&self) -> Seq<(Seq<char>, Seq<Seq<char>>)>;

    fn into_app_error_response(&self) -> (r: AppErrorResponse)
        ensures
            r.status_code == self.spec_response_status(),
            r.code@ == self.spec_code(),
            r.message@ == self.spec_response_message(),
            match self.spec_response_debug() {
                Some(Some(note)) => r.debug_description matches Some(d) && d@ == note,
                Some(None) => r.debug_description is None,
                None => r.debug_description is Some,
            },
            response_failure_views(r.validation_errors@) == self.spec_response_failures(),
    ;
}

impl IntoAppErrorResponse for AppError {
    open spec fn spec_response_status(&self) -> u16 {
        self.spec_status_code()
    }

    open spec fn spec_response_message(&self) -> Seq<char> {
        self.spec_message()
    }

    open spec fn spec_response_debug(&self) -> Option<Option<Seq<char>>> {
        match self {
            AppError::SqlxError(reason) => Some(Some(reason@)),
            AppError::Argon2PasswordHashError(_) => None,
            AppError::HeaderToStrError(reason) => Some(Some(reason@)),
            AppError::JsonDeserializeError(_, reason) => Some(Some(reason@)),
            AppError::ValidationError(_) => Some(None),
            AppError::AccountError(error) => Some(error.spec_debug_description()),
        }
    }

    open spec fn spec_response_failures(&self) -> Seq<(Seq<char>, Seq<Seq<char>>)> {
        match self {
            AppError::ValidationError(errors) => failure_views(errors@),
            _ => Seq::empty(),
        }
    }

    fn into_app_error_response(&self) -> (r: AppErrorResponse) {
        match self {
            AppError::SqlxError(reason) => AppErrorResponse {
                status_code: INTERNAL_SERVER_ERROR,
                code: String::from_str(self.code()),
                message: self.message(),
                debug_description: Some(reason.clone()),
                validation_errors: Vec::new(),
            },
            AppError::Argon2PasswordHashError(error) => AppErrorResponse {
                status_code: INTERNAL_SERVER_ERROR,
                code: String::from_str(self.code()),
                message: self.message(),
                debug_description: Some(describe_password_hash_error(error)),
                validation_errors: Vec::new(),
            },
            AppError::HeaderToStrError(reason) => AppErrorResponse {
                status_code: BAD_REQUEST,
                code: String::from_str(self.code()),
                message: self.message(),
                debug_description: Some(reason.clone()),
                validation_errors: Vec::new(),
            },
            AppError::JsonDeserializeError(status, reason) => AppErrorResponse {
                status_code: *status,
                code: String::from_str(self.code()),
                message: self.message(),
                debug_description: Some(reason.clone()),
                validation_errors: Vec::new(),
            },
            AppError::ValidationError(errors) => AppErrorResponse {
                status_code: BAD_REQUEST,
                code: String::from_str(self.code()),
                message: self.message(),
                debug_description: None,
                validation_errors: AppValidationErrorResponse::from_errors(errors),
            },
            AppError::AccountError(error) => error.into_app_error_response(),
        }
    }
}

/// The response that reports an error: the status to answer with, the code,
/// the message, a note for the developer, and the failures field by field.
#[derive(Debug)]
pub struct AppErrorResponse {
    pub status_code: u16,
    pub code: String,
    pub message: String,
    pub debug_description: Option<String>,
    pub validation_errors: Vec<AppValidationErrorResponse>,
}

/// The failures of one field, as the response lists them.
#[derive(Debug)]
pub struct AppValidationErrorResponse {
    pub property: String,
    pub errors: Vec<String>,
}

/// What each entry of a response's list says: the field and the messages.
pub open spec fn response_failure_views(entries: Seq<AppValidationErrorResponse>) -> Seq<
    (Seq<char>, Seq<Seq<char>>),
> {
    entries.map_values(|e: AppValidationErrorResponse| (e.property@, texts(e.errors@)))
}

impl From<ValidationError> for AppValidationErrorResponse {
    fn from(value: ValidationError) -> (r: Self) {
        AppValidationErrorResponse { property: value.property, errors: value.errors }
    }
}

impl FromSpecImpl<ValidationError> for AppValidationErrorResponse {
    open spec fn obeys_from_spec() -> bool {
        true
    }

    /// The entry that lists the failures of one field.
    open spec fn from_spec(value: ValidationError) -> Self {
        AppValidationErrorResponse { property: value.property, errors: value.errors }
    }
}

impl From<AccountError> for AppError {
    fn from(value: AccountError) -> (r: Self) {
        AppError::AccountError(value)
    }
}

impl FromSpecImpl<AccountError> for AppError {
    open spec fn obeys_from_spec() -> bool {
        true
    }

    open spec fn from_spec(value: AccountError) -> Self {
        AppError::AccountError(value)
    }
}

impl From<Vec<ValidationError>> for AppError {
    fn from(value: Vec<ValidationError>) -> (r: Self) {
        AppError::ValidationError(value)
    }
}

impl FromSpecImpl<Vec<ValidationError>> for AppError {
    open spec fn obeys_from_spec() -> bool {
        true
    }

    open spec fn from_spec(value: Vec<ValidationError>) -> Self {
        AppError::ValidationError(value)
    }
}

impl From<argon2::password_hash::Error> for AppError {
    fn from(value: argon2::password_hash::Error) -> (r: Self) {
        AppError::Argon2PasswordHashError(value)
    }
}

impl FromSpecImpl<argon2::password_hash::Error> for AppError {
    open spec fn obeys_from_spec() -> bool {
        true
    }

    open spec fn from_spec(value: argon2::password_hash::Error) -> Self {
        AppError::Argon2PasswordHashError(value)
    }
}

impl AppValidationErrorResponse {
    /// One entry for each failure, in the same order.
    pub fn from_errors(errors: &Vec<ValidationError>) -> (r: Vec<Self>)
        ensures
            response_failure_views(r@) == failure_views(errors@),
    {
        let mut entries: Vec<AppValidationErrorResponse> = Vec::new();
        let mut i: usize = 0;
        while i < errors.len()
            invariant
                i <= errors.len(),
                entries.len() == i,
                forall|j: int|
                    0 <= j < i ==> (#[trigger] entries[j]).property@ == errors[j].property@
                        && texts(entries[j].errors@) == texts(errors[j].errors@),
            decreases errors.len() - i,
        {
            entries.push(AppValidationErrorResponse::from(errors[i].clone()));
            i += 1;
        }
        assert(response_failure_views(entries@) =~= failure_views(errors@));
        entries
    }
}

} // verus!
