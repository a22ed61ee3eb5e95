//! Field validation: the address format, the password policy, and the
//! protocol by which a request reports what is wrong with its fields.

use vstd::prelude::*;
use vstd::string::{StrSliceExecFns, StringExecFns};
use crate::utils::{clone_texts, texts};

verus! {

/// What a password that fails the policy is told.
pub const INVALID_PASSWORD_MESSAGE: &'static str =
    "Password must contain a minimum of 8-12 characters, with at least 1 uppercase letter, 1 lowercase letter, 1 number and 1 special character.";

/// What follows the address in the message about an invalid address.
pub const INVALID_EMAIL_SUFFIX: &'static str = " is not a valid email address.";

/// The failures of one field.
#[derive(Debug)]
pub struct ValidationError {
    pub property: String,
    pub errors: Vec<String>,
}

impl Clone for ValidationError {
    fn clone(&self) -> (r: Self)
        ensures
            r.property == self.property,
            texts(r.errors@) == texts(self.errors@),
    {
        ValidationError { property: self.property.clone(), errors: clone_texts(&self.errors) }
    }
}

/// What a failure says: the field, and each message about it.
pub open spec fn failure_view(error: ValidationError) -> (Seq<char>, Seq<Seq<char>>) {
    (error.property@, texts(error.errors@))
}

/// What each failure says.
pub open spec fn failure_views(errors: Seq<ValidationError>) -> Seq<(Seq<char>, Seq<Seq<char>>)> {
    errors.map_values(|e: ValidationError| failure_view(e))
}

/// The failures among `properties`, where `findings` holds for each
/// property what its check found: each property that a fault was found with,
/// in the order given, with the messages about it.
pub open spec fn failures_among(
    properties: Seq<Seq<char>>,
    findings: Seq<Option<Seq<Seq<char>>>>,
) -> Seq<(Seq<char>, Seq<Seq<char>>)>
    decreases properties.len(),
{
    if properties.len() == 0 || findings.len() != properties.len() {
        Seq::empty()
    } else {
        let earlier = failures_among(properties.drop_last(), findings.drop_last());
        match findings.last() {
            Some(errors) => earlier.push((properties.last(), errors)),
            None => earlier,
        }
    }
}

/// A value whose fields can be checked one by one.
pub trait Validatable: Sized {
    /// The names of the fields that are checked, in the order of checking.
    spec fn spec_validated_properties() -> Seq<Seq<char>>;

    /// What the check of the field `property` finds: nothing, or messages.
    spec fn spec_validate_property(&self, property: Seq<char>) -> Option<Seq<Seq<char>>>;

    /// The names of the fields that are checked, in the order of checking.
    fn validated_properties() -> (r: Vec<String>)
        ensures
            texts(r@) == Self::spec_validated_properties(),
    ;

    /// Checks the field `property`: `None` where nothing is wrong with it or
    /// where it is not a checked field, else the messages.
    fn validate_property(&self, property: &str) -> (r: Option<Vec<String>>)
        ensures
            (match r {
                Some(errors) => Some(texts(errors@)),
                None => None,
            }) == self.spec_validate_property(property@),
    ;

    /// Checks every field: `Ok` where none fails, else one entry for each
    /// field that fails, in the order of checking.
    fn validate(&self) -> (r: Result<(), Vec<ValidationError>>)
        ensures
            r is Ok <==> failures_among(
                Self::spec_validated_properties(),
                Seq::new(
                    Self::spec_validated_properties().len(),
                    |i: int| self.spec_validate_property(Self::spec_validated_properties()[i]),
                ),
            ).len() == 0,
            r matches Err(errors) ==> failure_views(errors@) == failures_among(
                Self::spec_validated_properties(),
                Seq::new(
                    Self::spec_validated_properties().len(),
                    |i: int| self.spec_validate_property(Self::spec_validated_properties()[i]),
                ),
            ),
    {
        let properties = Self::validated_properties();
        let ghost names = Self::spec_validated_properties();
        let ghost findings = Seq::new(
            names.len(),
            |i: int| self.spec_validate_property(names[i]),
        );
        let mut errors: Vec<ValidationError> = Vec::new();
        let mut i: usize = 0;
        while i < properties.len()
            invariant
                i <= properties.len(),
                texts(properties@) == names,
                names == Self::spec_validated_properties(),
                findings == Seq::new(names.len(), |i: int| self.spec_validate_property(names[i])),
                failure_views(errors@) == failures_among(
                    names.take(i as int),
                    findings.take(i as int),
                ),
            decreases properties.len() - i,
        {
            let found = self.validate_property(properties[i].as_str());
            proof {
                assert(names.take(i + 1).drop_last() =~= names.take(i as int));
                assert(findings.take(i + 1).drop_last() =~= findings.take(i as int));
                assert(names.take(i + 1).last() == properties[i as int]@);
                assert(findings.take(i + 1).last() == self.spec_validate_property(
                    properties[i as int]@,
                ));
            }
            if let Some(messages) = found {
                let ghost before = errors@;
                errors.push(ValidationError { property: properties[i].clone(), errors: messages });
                assert(failure_views(errors@) =~= failure_views(before).push(
                    (properties[i as int]@, texts(messages@)),
                ));
            }
            i += 1;
        }
        assert(names.take(properties.len() as int) =~= names);
        assert(findings.take(properties.len() as int) =~= findings);
        if errors.len() == 0 {
            Ok(())
        } else {
            Err(errors)
        }
    }
}

/// A lower-case letter of the Latin alphabet.
pub open spec fn is_lowercase(c: char) -> bool {
    'a' <= c <= 'z'
}

/// An upper-case letter of the Latin alphabet.
pub open spec fn is_uppercase(c: char) -> bool {
    'A' <= c <= 'Z'
}

/// Whether the pattern for one decimal digit matches the text that holds
/// `c` alone.
pub uninterp spec fn regex_decimal_digit(c: char) -> bool;

/// Whether the pattern for one decimal digit matches the text that holds
/// `c` alone.
///
/// Trusted: compiles the pattern `^\d$` with `fancy_regex::Regex::new` and
/// asks `is_match` of the one-character text. The pattern has no
/// look-around, so the engine hands the question to the `regex` crate and
/// returns its answer; which characters are decimal digits is a table of
/// the Unicode standard. The answer depends on the character alone and is
/// given the name `regex_decimal_digit`.
#[verifier::external_body]
fn matches_digit_pattern(c: char) -> (r: bool)
    ensures
        r == regex_decimal_digit(c),
{
    let mut buffer = [0u8; 4];
    let text: &str = c.encode_utf8(&mut buffer);
    match fancy_regex::Regex::new(r"^\d$") {
        Ok(digit) => matches!(digit.is_match(text), Ok(true)),
        Err(_) => false,
    }
}

/// A decimal digit: one of `0` to `9`, or a digit of another script.
pub open spec fn is_number(c: char) -> bool {
    '0' <= c <= '9' || (c as u32 > 127 && regex_decimal_digit(c))
}

/// One of the seven special characters that a password may hold.
pub open spec fn is_special(c: char) -> bool {
    c == '@' || c == '$' || c == '!' || c == '%' || c == '*' || c == '?' || c == '&'
}

/// A character that a password may hold.
pub open spec fn is_password_char(c: char) -> bool {
    is_lowercase(c) || is_uppercase(c) || is_number(c) || is_special(c)
}

/// The password policy: 8 to 12 characters, each a Latin letter, a decimal
/// digit or a special character, with at least one lower-case letter, one
/// upper-case letter, one digit and one special character.
pub open spec fn password_policy(password: Seq<char>) -> bool {
    &&& 8 <= password.len() <= 12
    &&& forall|i: int| 0 <= i < password.len() ==> is_password_char(#[trigger] password[i])
    &&& exists|i: int| 0 <= i < password.len() && is_lowercase(#[trigger] password[i])
    &&& exists|i: int| 0 <= i < password.len() && is_uppercase(#[trigger] password[i])
    &&& exists|i: int| 0 <= i < password.len() && is_number(#[trigger] password[i])
    &&& exists|i: int| 0 <= i < password.len() && is_special(#[trigger] password[i])
}

/// What a password is told: nothing where it meets the policy, else the one
/// message that states the policy.
pub open spec fn spec_is_password_valid(password: Seq<char>) -> Option<Seq<Seq<char>>> {
    if password_policy(password) {
        None
    } else {
        Some(seq![INVALID_PASSWORD_MESSAGE@])
    }
}

/// Checks a password against the policy.
pub fn is_password_valid(password: &str) -> (r: Option<Vec<String>>)
    ensures
        r is None <==> password_policy(password@),
        (match r {
            Some(errors) => Some(texts(errors@)),
            None => None,
        }) == spec_is_password_valid(password@),
{
    let n = password.unicode_len();
    let mut allowed = true;
    let mut lower = false;
    let mut upper = false;
    let mut number = false;
    let mut special = false;
    if 8 <= n && n <= 12 {
        let mut i: usize = 0;
        while i < n
            invariant
                n == password@.len(),
                i <= n,
                allowed <==> forall|j: int| 0 <= j < i ==> is_password_char(#[trigger] password@[j]),
                lower <==> exists|j: int| 0 <= j < i && is_lowercase(#[trigger] password@[j]),
                upper <==> exists|j: int| 0 <= j < i && is_uppercase(#[trigger] password@[j]),
                number <==> exists|j: int| 0 <= j < i && is_number(#[trigger] password@[j]),
                special <==> exists|j: int| 0 <= j < i && is_special(#[trigger] password@[j]),
            decreases n - i,
        {
            let c = password.get_char(i);
            let c_lower = 'a' <= c && c <= 'z';
            let c_upper = 'A' <= c && c <= 'Z';
            let c_number = ('0' <= c && c <= '9') || (c as u32 > 127 && matches_digit_pattern(c));
            let c_special = c == '@' || c == '$' || c == '!' || c == '%' || c == '*' || c == '?'
                || c == '&';
            if !(c_lower || c_upper || c_number || c_special) {
                allowed = false;
            }
            lower = lower || c_lower;
            upper = upper || c_upper;
            number = number || c_number;
            special = special || c_special;
            i += 1;
        }
    }
    if 8 <= n && n <= 12 && allowed && lower && upper && number && special {
        None
    } else {
        let mut errors: Vec<String> = Vec::new();
        errors.push(String::from_str(INVALID_PASSWORD_MESSAGE));
        assert(texts(errors@) =~= seq![INVALID_PASSWORD_MESSAGE@]);
        Some(errors)
    }
}

/// Whether the text is a well-formed email address.
pub uninterp spec fn email_address_is_valid(address: Seq<char>) -> bool;

/// Whether `address` is a well-formed email address.
///
/// Trusted: calls `email_address::EmailAddress::is_valid`, which parses the
/// text as an address and says whether that succeeded. The answer depends on
/// the text alone and is given the name `email_address_is_valid`.
#[verifier::external_body]
fn check_email_address(address: &str) -> (r: bool)
    ensures
        r == email_address_is_valid(address@),
{
    email_address::EmailAddress::is_valid(address)
}

/// What an address is told: nothing where it is well formed, else the one
/// message that names it.
pub open spec fn spec_is_email_valid(email: Seq<char>) -> Option<Seq<Seq<char>>> {
    if email_address_is_valid(email) {
        None
    } else {
        Some(seq![email + INVALID_EMAIL_SUFFIX@])
    }
}

/// What `check` says of an address whose format check gave `well_formed`.
pub fn email_verdict(email: &str, well_formed: bool) -> (r: Option<Vec<String>>)
    ensures
        r is None <==> well_formed,
        r matches Some(errors) ==> texts(errors@) == seq![email@ + INVALID_EMAIL_SUFFIX@],
{
    if well_formed {
        None
    } else {
        let mut message = String::from_str(email);
        message.append(INVALID_EMAIL_SUFFIX);
        let mut errors: Vec<String> = Vec::new();
        errors.push(message);
        assert(texts(errors@) =~= seq![email@ + INVALID_EMAIL_SUFFIX@]);
        Some(errors)
    }
}

/// Checks the format of an email address.
pub fn is_email_valid(email: &str) -> (r: Option<Vec<String>>)
    ensures
        r is None <==> email_address_is_valid(email@),
        (match r {
            Some(errors) => Some(texts(errors@)),
            None => None,
        }) == spec_is_email_valid(email@),
{
    email_verdict(email, check_email_address(email))
}

} // verus!
