//! What a verified passcode answers.

use vstd::prelude::*;

verus! {

/// The reset token that authorises the final step.
#[derive(Debug)]
pub struct VerifyOtpResponse {
    pub token: String,
}

} // verus!
