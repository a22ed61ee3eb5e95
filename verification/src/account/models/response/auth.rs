//! What a login or a renewal answers.

use vstd::prelude::*;
use crate::account::entities::session::SessionEntity;
use crate::account::entities::user::UserEntity;
use crate::account::models::response::user::UserResponse;
use crate::types::DbDateTime;

verus! {

/// The token pair of the session granted, its two deadlines, and the user.
#[derive(Debug)]
pub struct AuthenticatedResponse {
    pub session_token: String,
    pub refresh_token: String,
    pub session_token_expiry: DbDateTime,
    pub refresh_token_expiry: DbDateTime,
    pub user: UserResponse,
}

impl AuthenticatedResponse {
    /// The answer that tells of `session` and `user`.
    pub open spec fn spec_new(session: SessionEntity, user: UserEntity) -> AuthenticatedResponse {
        AuthenticatedResponse {
            session_token: session.token,
            refresh_token: session.refresh_token,
            session_token_expiry: session.token_expiry,
            refresh_token_expiry: session.refresh_token_expiry,
            user: UserResponse { id: user.id, email: user.email },
        }
    }

    /// The answer that tells of `session` and `user`.
    pub fn new(session: SessionEntity, user: UserEntity) -> (r: Self)
        ensures
            r == Self::spec_new(session, user),
    {
        AuthenticatedResponse {
            session_token: session.token,
            refresh_token: session.refresh_token,
            session_token_expiry: session.token_expiry,
            refresh_token_expiry: session.refresh_token_expiry,
            user: UserResponse::from(user),
        }
    }
}

} // verus!
