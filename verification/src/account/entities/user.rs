//! Users: identity and credential.

use vstd::prelude::*;
use crate::types::DbDateTime;

verus! {

/// What a user may do.
#[derive(Clone, Copy, Debug, PartialEq, Eq, Structural)]
pub enum UserRole {
    User,
    Admin,
}

/// A row of the users table.
#[derive(Debug)]
pub struct UserEntity {
    pub id: i64,
    pub email: String,
    pub password: String,
    pub role: UserRole,
    pub login_attempts: i64,
    pub last_failed_login_attempt: Option<DbDateTime>,
}

impl Clone for UserEntity {
    fn clone(&self) -> (r: Self)
        ensures
            r == *self,
    {
        UserEntity {
            id: self.id,
            email: self.email.clone(),
            password: self.password.clone(),
            role: self.role,
            login_attempts: self.login_attempts,
            last_failed_login_attempt: self.last_failed_login_attempt,
        }
    }
}

/// What registration stores: the address and the hash of the password.
#[derive(Debug)]
pub struct CreateUserEntity {
    pub email: String,
    pub password: String,
}

/// The bookkeeping of one failed login: the new count and when it happened.
#[derive(Clone, Copy, Debug)]
pub struct FailedLoginAttempt {
    pub login_attempts: i64,
    pub last_failed_login_attempt: Option<DbDateTime>,
}

impl FailedLoginAttempt {
    /// One more failure than `login_attempts`, stamped `now`.
    pub open spec fn spec_after(login_attempts: i64, now: DbDateTime) -> FailedLoginAttempt {
        FailedLoginAttempt {
            login_attempts: (login_attempts + 1) as i64,
            last_failed_login_attempt: Some(now),
        }
    }

    /// The record of a failure of `user` at `now`.
    pub fn after(user: &UserEntity, now: DbDateTime) -> (r: Self)
        requires
            user.login_attempts < i64::MAX,
        ensures
            r == Self::spec_after(user.login_attempts, now),
            r.login_attempts == user.login_attempts + 1,
    {
        FailedLoginAttempt {
            login_attempts: user.login_attempts + 1,
            last_failed_login_attempt: Some(now),
        }
    }
}

} // verus!
