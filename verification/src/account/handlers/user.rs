//! What a user may ask of themselves.

use vstd::prelude::*;
use crate::account::models::response::user::UserResponse;
use crate::account::utils::extractors::CurrentUser;

verus! {

/// Tells the user of the request who they are.
pub fn get_current_user(user: CurrentUser) -> (r: UserResponse)
    ensures
        r == (UserResponse { id: user.0.id, email: user.0.email }),
{
    UserResponse::from(user.0)
}

} // verus!
