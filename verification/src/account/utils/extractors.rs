//! The guard: from the session header to the principal of a request.

use vstd::prelude::*;
use crate::account::database::session_repository::{
    find_session_by_token_ignoring_expiration, find_user_by_token,
};
use crate::account::entities::session::SessionEntity;
use crate::account::entities::user::{UserEntity, UserRole};
use crate::account::error::AccountError;
use crate::error::{AppError, AppResult};
use crate::state::AppState;
use crate::types::DbDateTime;

verus! {

/// Reads the session token from what the request holds under the session
/// header: nothing, a value that is no text (with the reason), or the token.
pub fn session_token(header: Option<Result<String, String>>) -> (r: AppResult<String>)
    ensures
        match header {
            None => r matches Err(AppError::AccountError(AccountError::MissingTokenInHeader)),
            Some(Err(reason)) => r == Err::<String, AppError>(AppError::HeaderToStrError(reason)),
            Some(Ok(token)) => r == Ok::<String, AppError>(token),
        },
{
    match header {
        None => Err(AppError::AccountError(AccountError::MissingTokenInHeader)),
        Some(Err(reason)) => Err(AppError::HeaderToStrError(reason)),
        Some(Ok(token)) => Ok(token),
    }
}

/// A session that can be renewed, though its session token may have
/// expired. Only a renewal takes it.
#[derive(Debug)]
pub struct PossiblyExpiredSession(pub SessionEntity);

impl PossiblyExpiredSession {
    /// The session that the store found under the token, or, without one,
    /// the refusal of a token that is invalid or expired.
    pub fn from_lookup(session: Option<SessionEntity>) -> (r: AppResult<Self>)
        ensures
            match session {
                Some(found) => r matches Ok(resolved) && resolved.0 == found,
                None => r matches Err(AppError::AccountError(AccountError::InvalidOrExpiredToken)),
            },
    {
        match session {
            Some(found) => Ok(PossiblyExpiredSession(found)),
            None => Err(AppError::AccountError(AccountError::InvalidOrExpiredToken)),
        }
    }

    /// Resolves the header to the session that carries its token, provided
    /// the session is not revoked and its refresh token has not expired at
    /// `now`. A request without the header is refused as such; a token with
    /// no such session is refused as invalid or expired.
    pub fn from_request_parts(header: Option<&str>, state: &AppState, now: DbDateTime) -> (r:
        AppResult<Self>)
        ensures
            match header {
                None => r matches Err(AppError::AccountError(AccountError::MissingTokenInHeader)),
                Some(token) => match state.db@.renewable_session(token@, now) {
                    Some(session) => r matches Ok(resolved) && resolved.0 == session,
                    None => r matches Err(
                        AppError::AccountError(AccountError::InvalidOrExpiredToken),
                    ),
                },
            },
    {
        let Some(token) = header else {
            return Err(AppError::AccountError(AccountError::MissingTokenInHeader));
        };
        Self::from_lookup(find_session_by_token_ignoring_expiration(&state.db, token, now))
    }
}

/// The user of a session that grants access.
#[derive(Debug)]
pub struct CurrentUser(pub UserEntity);

impl CurrentUser {
    /// The user that the store found under the token, or, without one, the
    /// refusal of a token that is invalid or expired.
    pub fn from_lookup(user: Option<UserEntity>) -> (r: AppResult<Self>)
        ensures
            match user {
                Some(found) => r matches Ok(resolved) && resolved.0 == found,
                None => r matches Err(AppError::AccountError(AccountError::InvalidOrExpiredToken)),
            },
    {
        match user {
            Some(found) => Ok(CurrentUser(found)),
            None => Err(AppError::AccountError(AccountError::InvalidOrExpiredToken)),
        }
    }

    /// Resolves the header to the user who owns the session that carries its
    /// token, provided the session is not revoked and its session token has
    /// not expired at `now`. A request without the header is refused as
    /// such; a token with no such session, or whose user is gone, is refused
    /// as invalid or expired.
    pub fn from_request_parts(header: Option<&str>, state: &AppState, now: DbDateTime) -> (r:
        AppResult<Self>)
        requires
            state.wf(),
        ensures
            match header {
                None => r matches Err(AppError::AccountError(AccountError::MissingTokenInHeader)),
                Some(token) => match state.db@.user_by_token(token@, now) {
                    Some(user) => r matches Ok(resolved) && resolved.0 == user,
                    None => r matches Err(
                        AppError::AccountError(AccountError::InvalidOrExpiredToken),
                    ),
                },
            },
    {
        let Some(token) = header else {
            return Err(AppError::AccountError(AccountError::MissingTokenInHeader));
        };
        Self::from_lookup(find_user_by_token(&state.db, token, now))
    }
}

/// A role that an operation can require. A new role is a new marker type
/// with its tag; the guard stays as it is.
pub trait Role: Sized {
    /// The role that the marker stands for.
    spec fn spec_role() -> UserRole;

    fn get_self() -> Self;

    fn role() -> (r: UserRole)
        ensures
            r == Self::spec_role(),
    ;
}

/// Whether `user` has the role `expected`; if not, the privilege is
/// insufficient.
pub fn require_role(user: &UserEntity, expected: UserRole) -> (r: AppResult<()>)
    ensures
        user.role == expected ==> r is Ok,
        user.role != expected ==> r matches Err(
            AppError::AccountError(AccountError::InsufficientPrivilege),
        ),
{
    if user.role == expected {
        Ok(())
    } else {
        Err(AppError::AccountError(AccountError::InsufficientPrivilege))
    }
}

/// Proof that the user of the request has the role `T`.
#[derive(Debug)]
pub struct CurrentRole<T: Role>(pub T);

impl<T: Role> CurrentRole<T> {
    /// The proof of the role `T` for the user that the store found under
    /// the token: without a user the token is refused as invalid or
    /// expired, and a user with another role lacks the privilege.
    pub fn from_lookup(user: Option<UserEntity>) -> (r: AppResult<Self>)
        ensures
            match user {
                Some(found) => if found.role == T::spec_role() {
                    r is Ok
                } else {
                    r matches Err(AppError::AccountError(AccountError::InsufficientPrivilege))
                },
                None => r matches Err(AppError::AccountError(AccountError::InvalidOrExpiredToken)),
            },
    {
        let Some(found) = user else {
            return Err(AppError::AccountError(AccountError::InvalidOrExpiredToken));
        };
        match require_role(&found, T::role()) {
            Ok(()) => Ok(CurrentRole(T::get_self())),
            Err(error) => Err(error),
        }
    }

    /// Resolves the header as for the current user, then requires the role
    /// `T` of that user.
    pub fn from_request_parts(header: Option<&str>, state: &AppState, now: DbDateTime) -> (r:
        AppResult<Self>)
        requires
            state.wf(),
        ensures
            match header {
                None => r matches Err(AppError::AccountError(AccountError::MissingTokenInHeader)),
                Some(token) => match state.db@.user_by_token(token@, now) {
                    Some(user) => if user.role == T::spec_role() {
                        r is Ok
                    } else {
                        r matches Err(AppError::AccountError(AccountError::InsufficientPrivilege))
                    },
                    None => r matches Err(
                        AppError::AccountError(AccountError::InvalidOrExpiredToken),
                    ),
                },
            },
    {
        let Some(token) = header else {
            return Err(AppError::AccountError(AccountError::MissingTokenInHeader));
        };
        Self::from_lookup(find_user_by_token(&state.db, token, now))
    }
}

/// The marker of the role of an ordinary user.
#[derive(Debug)]
pub struct User;

impl Role for User {
    open spec fn spec_role() -> UserRole {
        UserRole::User
    }

    fn get_self() -> Self {
        User
    }

    fn role() -> (r: UserRole) {
        UserRole::User
    }
}

/// The marker of the role of an administrator.
#[derive(Debug)]
pub struct Admin;

impl Role for Admin {
    open spec fn spec_role() -> UserRole {
        UserRole::Admin
    }

    fn get_self() -> Self {
        Admin
    }

    fn role() -> (r: UserRole) {
        UserRole::Admin
    }
}

} // verus!
