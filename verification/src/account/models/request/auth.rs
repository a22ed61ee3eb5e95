//! The requests of registration, login and session renewal.

use vstd::prelude::*;
use vstd::string::StringExecFns;
use crate::constants::ADMIN_EMAIL;
use crate::utils::str_equal;
use crate::utils::texts;
use crate::validators::{
    failures_among, is_email_valid, is_password_valid, spec_is_email_valid,
    spec_is_password_valid, Validatable,
};

verus! {

/// What the check of a credential pair finds of the field `property`: the
/// address must be well formed; the password must meet the policy, unless
/// the address is the administrator's; no other field is checked.
pub open spec fn spec_validate_credentials(
    email: Seq<char>,
    password: Seq<char>,
    property: Seq<char>,
) -> Option<Seq<Seq<char>>> {
    if property == "email"@ {
        spec_is_email_valid(email)
    } else if property == "password"@ {
        if email == ADMIN_EMAIL@ {
            None
        } else {
            spec_is_password_valid(password)
        }
    } else {
        None
    }
}

/// The failures of a credential pair, field by field: the address where it
/// is not well formed, then the password where it fails the policy and the
/// address is not the administrator's.
pub open spec fn credential_failures(email: Seq<char>, password: Seq<char>) -> Seq<
    (Seq<char>, Seq<Seq<char>>),
> {
    let of_email = match spec_is_email_valid(email) {
        Some(errors) => seq![("email"@, errors)],
        None => seq![],
    };
    let of_password = if email == ADMIN_EMAIL@ {
        seq![]
    } else {
        match spec_is_password_valid(password) {
            Some(errors) => seq![("password"@, errors)],
            None => seq![],
        }
    };
    of_email + of_password
}

/// Checking the two fields of a credential pair in turn finds the failures
/// of the pair.
pub proof fn lemma_credential_failures(
    email: Seq<char>,
    password: Seq<char>,
    findings: Seq<Option<Seq<Seq<char>>>>,
)
    requires
        findings.len() == 2,
        findings[0] == spec_validate_credentials(email, password, "email"@),
        findings[1] == spec_validate_credentials(email, password, "password"@),
    ensures
        failures_among(seq!["email"@, "password"@], findings) == credential_failures(
            email,
            password,
        ),
{
    reveal_strlit("email");
    reveal_strlit("password");
    let properties = seq!["email"@, "password"@];
    assert("password"@ != "email"@) by {
        assert("password"@.len() == 8);
        assert("email"@.len() == 5);
    }
    assert(properties.drop_last() =~= seq!["email"@]);
    assert(findings.drop_last() =~= seq![findings[0]]);
    assert(properties.drop_last().drop_last() =~= Seq::<Seq<char>>::empty());
    assert(findings.drop_last().drop_last() =~= Seq::<Option<Seq<Seq<char>>>>::empty());
    let first = failures_among(properties.drop_last(), findings.drop_last());
    assert(failures_among(properties.drop_last().drop_last(), findings.drop_last().drop_last())
        =~= Seq::empty());
    assert(first =~= (match spec_is_email_valid(email) {
        Some(errors) => seq![("email"@, errors)],
        None => seq![],
    }));
    assert(failures_among(properties, findings) =~= credential_failures(email, password));
}

/// Checks the field `property` of a credential pair.
pub fn validate_credentials(email: &str, password: &str, property: &str) -> (r: Option<
    Vec<String>,
>)
    ensures
        (match r {
            Some(errors) => Some(texts(errors@)),
            None => None,
        }) == spec_validate_credentials(email@, password@, property@),
{
    if str_equal(property, "email") {
        is_email_valid(email)
    } else if str_equal(property, "password") {
        if str_equal(email, ADMIN_EMAIL) {
            None
        } else {
            is_password_valid(password)
        }
    } else {
        None
    }
}

/// The names of the two fields of a credential pair.
pub fn credential_properties() -> (r: Vec<String>)
    ensures
        texts(r@) == seq!["email"@, "password"@],
{
    let mut names: Vec<String> = Vec::new();
    names.push(String::from_str("email"));
    names.push(String::from_str("password"));
    assert(texts(names@) =~= seq!["email"@, "password"@]);
    names
}

/// A login: the address and the password.
#[derive(Debug)]
pub struct AuthenticateRequest {
    pub email: String,
    pub password: String,
}

impl Validatable for AuthenticateRequest {
    open spec fn spec_validated_properties() -> Seq<Seq<char>> {
        seq!["email"@, "password"@]
    }

    open spec fn spec_validate_property(&self, property: Seq<char>) -> Option<Seq<Seq<char>>> {
        spec_validate_credentials(self.email@, self.password@, property)
    }

    fn validated_properties() -> (r: Vec<String>) {
        credential_properties()
    }

    fn validate_property(&self, property: &str) -> (r: Option<Vec<String>>) {
        validate_credentials(self.email.as_str(), self.password.as_str(), property)
    }
}

/// A registration: the address and the password.
#[derive(Debug)]
pub struct CreateUserRequest {
    pub email: String,
    pub password: String,
}

impl Validatable for CreateUserRequest {
    open spec fn spec_validated_properties() -> Seq<Seq<char>> {
        seq!["email"@, "password"@]
    }

    open spec fn spec_validate_property(&self, property: Seq<char>) -> Option<Seq<Seq<char>>> {
        spec_validate_credentials(self.email@, self.password@, property)
    }

    fn validated_properties() -> (r: Vec<String>) {
        credential_properties()
    }

    fn validate_property(&self, property: &str) -> (r: Option<Vec<String>>) {
        validate_credentials(self.email.as_str(), self.password.as_str(), property)
    }
}

/// A renewal: the refresh token of the session that is presented.
#[derive(Debug)]
pub struct ExtendSessionRequest {
    pub refresh_token: String,
}

} // verus!
