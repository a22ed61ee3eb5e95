//! What is told of a user.

use vstd::prelude::*;
use vstd::std_specs::convert::FromSpecImpl;
use crate::account::entities::user::UserEntity;

verus! {

/// The public face of a user: the number and the address. The hash of the
/// password, the role and the failed logins are not told.
#[derive(Debug)]
pub struct UserResponse {
    pub id: i64,
    pub email: String,
}

impl From<UserEntity> for UserResponse {
    fn from(value: UserEntity) -> (r: Self) {
        UserResponse { id: value.id, email: value.email }
    }
}

impl FromSpecImpl<UserEntity> for UserResponse {
    open spec fn obeys_from_spec() -> bool {
        true
    }

    open spec fn from_spec(value: UserEntity) -> Self {
        UserResponse { id: value.id, email: value.email }
    }
}

} // verus!
