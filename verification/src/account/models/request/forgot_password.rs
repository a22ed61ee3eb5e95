//! The requests of the three steps of a password reset.

use vstd::prelude::*;
use vstd::string::StringExecFns;
use crate::utils::str_equal;
use crate::utils::texts;
use crate::validators::{
    failures_among, is_password_valid, spec_is_password_valid, Validatable,
};

verus! {

/// Asks for a passcode for the account with this address.
#[derive(Debug)]
pub struct RequestOtpRequest {
    pub email: String,
}

/// Presents the passcode of the account with this address.
#[derive(Debug)]
pub struct VerifyOtpRequest {
    pub email: String,
    pub otp: String,
}

/// Presents the reset token and the new password.
#[derive(Debug)]
pub struct ResetPasswordRequest {
    pub token: String,
    pub password: String,
}

/// The failures of a new password: the password where it fails the policy.
pub open spec fn new_password_failures(password: Seq<char>) -> Seq<(Seq<char>, Seq<Seq<char>>)> {
    match spec_is_password_valid(password) {
        Some(errors) => seq![("password"@, errors)],
        None => seq![],
    }
}

/// Checking the one field of a reset request finds the failures of the new
/// password.
pub proof fn lemma_new_password_failures(
    password: Seq<char>,
    findings: Seq<Option<Seq<Seq<char>>>>,
)
    requires
        findings.len() == 1,
        findings[0] == spec_is_password_valid(password),
    ensures
        failures_among(seq!["password"@], findings) == new_password_failures(password),
{
    let properties = seq!["password"@];
    assert(properties.drop_last() =~= Seq::<Seq<char>>::empty());
    assert(findings.drop_last() =~= Seq::<Option<Seq<Seq<char>>>>::empty());
    assert(failures_among(properties.drop_last(), findings.drop_last()) =~= Seq::empty());
    assert(failures_among(properties, findings) =~= new_password_failures(password));
}

impl Validatable for ResetPasswordRequest {
    open spec fn spec_validated_properties() -> Seq<Seq<char>> {
        seq!["password"@]
    }

    open spec fn spec_validate_property(&self, property: Seq<char>) -> Option<Seq<Seq<char>>> {
        if property == "password"@ {
            spec_is_password_valid(self.password@)
        } else {
            None
        }
    }

    fn validated_properties() -> (r: Vec<String>) {
        let mut names: Vec<String> = Vec::new();
        names.push(String::from_str("password"));
        assert(texts(names@) =~= seq!["password"@]);
        names
    }

    fn validate_property(&self, property: &str) -> (r: Option<Vec<String>>) {
        if str_equal(property, "password") {
            is_password_valid(self.password.as_str())
        } else {
            None
        }
    }
}

} // verus!
