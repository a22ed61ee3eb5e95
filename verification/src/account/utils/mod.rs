//! What the engines draw from outside: password hashes, random tokens and
//! passcodes.

use vstd::prelude::*;
use vstd::string::StringExecFns;
use argon2::{PasswordHasher, PasswordVerifier};
use rand::seq::SliceRandom;
use crate::error::{AppError, AppResult};
use crate::utils::{decimal, digit_char, is_digit, u64_to_string};

pub mod extractors;

verus! {

/// A fresh random token.
///
/// Trusted: calls `uuid::Uuid::new_v4` and renders the identifier in its
/// hyphenated form. The value is random, so nothing is claimed of it.
#[verifier::external_body]
pub(crate) fn new_token() -> String {
    uuid::Uuid::new_v4().to_string()
}

/// What verifying `password` against the stored `hash` gives: `Some(true)`
/// where it matches, `Some(false)` where it does not, `None` where the hash
/// cannot be read or computed.
pub uninterp spec fn argon2_verify(password: Seq<char>, hash: Seq<char>) -> Option<bool>;

/// The hash of `password` under a fresh random salt, as a PHC string.
///
/// Trusted: calls `argon2::password_hash::SaltString::generate` with the
/// operating system's generator and `Argon2::default().hash_password`. The
/// salt is random, so the hash is not named; what is claimed is that a hash
/// made here verifies against the password it was made from, as the hasher's
/// documentation shows: verification recomputes the hash under the
/// algorithm, version, parameters and salt that the string records, and
/// compares.
#[verifier::external_body]
fn argon2_hash(password: &str) -> (r: Result<String, argon2::password_hash::Error>)
    ensures
        r matches Ok(hash) ==> argon2_verify(password@, hash@) == Some(true),
{
    let salt = argon2::password_hash::SaltString::generate(&mut rand::rngs::OsRng);
    match argon2::Argon2::default().hash_password(password.as_bytes(), &salt) {
        Ok(hash) => Ok(hash.to_string()),
        Err(error) => Err(error),
    }
}

/// Verifies `password` against the stored `hash`.
///
/// Trusted: calls `argon2::PasswordHash::new` on the hash and
/// `Argon2::default().verify_password`. `Ok(true)` stands for a match,
/// `Ok(false)` for the verifier's error `Password`, and any other error is
/// handed on. The outcome depends on the two texts alone and is given the
/// name `argon2_verify`.
#[verifier::external_body]
fn argon2_check(password: &str, hash: &str) -> (r: Result<bool, argon2::password_hash::Error>)
    ensures
        match r {
            Ok(matches) => argon2_verify(password@, hash@) == Some(matches),
            Err(_) => argon2_verify(password@, hash@) is None,
        },
{
    let parsed = argon2::PasswordHash::new(hash)?;
    match argon2::Argon2::default().verify_password(password.as_bytes(), &parsed) {
        Ok(()) => Ok(true),
        Err(argon2::password_hash::Error::Password) => Ok(false),
        Err(error) => Err(error),
    }
}

/// Hashes a password for storage. Every hash returned verifies against the
/// password; a failure of the hasher is reported as such.
pub fn hash_password(password: &str) -> (r: AppResult<String>)
    ensures
        r matches Ok(hash) ==> argon2_verify(password@, hash@) == Some(true),
        r matches Err(e) ==> e is Argon2PasswordHashError,
{
    match argon2_hash(password) {
        Ok(hash) => Ok(hash),
        Err(error) => Err(AppError::from(error)),
    }
}

/// Verifies a password against a stored hash: `Ok(true)` where it matches,
/// `Ok(false)` where it does not, and the hasher's failure otherwise.
pub fn verify_password(password: &str, hash: &str) -> (r: AppResult<bool>)
    ensures
        match argon2_verify(password@, hash@) {
            Some(matches) => r == Ok::<bool, AppError>(matches),
            None => r matches Err(e) && e is Argon2PasswordHashError,
        },
{
    match argon2_check(password, hash) {
        Ok(matches) => Ok(matches),
        Err(error) => Err(AppError::from(error)),
    }
}

/// The same values in a random order.
///
/// Trusted: calls `rand::seq::SliceRandom::shuffle` with the thread's
/// generator. The order is random; what is claimed is that shuffling only
/// swaps elements, so that each value occurs as often as before.
#[verifier::external_body]
fn shuffle(values: Vec<u8>) -> (r: Vec<u8>)
    ensures
        r@.to_multiset() == values@.to_multiset(),
{
    let mut values = values;
    values.shuffle(&mut rand::thread_rng());
    values
}

/// The numerals of `values`, written one after the other.
pub open spec fn spec_digits_text(values: Seq<u8>) -> Seq<char>
    decreases values.len(),
{
    if values.len() == 0 {
        Seq::empty()
    } else {
        spec_digits_text(values.drop_last()) + decimal(values.last() as nat)
    }
}

/// A passcode of `length` characters: digits, no digit twice. No passcode is
/// longer than the ten digits there are.
pub open spec fn is_otp(code: Seq<char>, length: nat) -> bool {
    &&& code.len() == (if length <= 10 { length } else { 10 })
    &&& forall|i: int| 0 <= i < code.len() ==> is_digit(#[trigger] code[i])
    &&& code.no_duplicates()
}

/// Where every value is a single digit, the text has one character per
/// value: the digit's own.
pub proof fn lemma_digits_text_of_digits(values: Seq<u8>)
    requires
        forall|i: int| 0 <= i < values.len() ==> #[trigger] values[i] < 10,
    ensures
        spec_digits_text(values).len() == values.len(),
        forall|i: int|
            0 <= i < values.len() ==> #[trigger] spec_digits_text(values)[i] == digit_char(
                values[i] as nat,
            ),
    decreases values.len(),
{
    if values.len() > 0 {
        let front = values.drop_last();
        lemma_digits_text_of_digits(front);
        assert(decimal(values.last() as nat) =~= seq![digit_char(values.last() as nat)]);
        assert forall|i: int| 0 <= i < values.len() implies #[trigger] spec_digits_text(values)[i]
            == digit_char(values[i] as nat) by {
            if i < front.len() {
                assert(values[i] == front[i]);
            }
        }
    }
}

/// Writes the first `length` of `values` (all of them where there are
/// fewer), each as its decimal numeral, one after the other.
pub fn otp_from_digits(values: &Vec<u8>, length: usize) -> (r: String)
    ensures
        r@ == spec_digits_text(
            values@.take(
                if length <= values.len() {
                    length as int
                } else {
                    values.len() as int
                },
            ),
        ),
{
    let n = if length <= values.len() {
        length
    } else {
        values.len()
    };
    let mut text = String::new();
    let mut i: usize = 0;
    while i < n
        invariant
            i <= n <= values.len(),
            text@ == spec_digits_text(values@.take(i as int)),
        decreases n - i,
    {
        let numeral = u64_to_string(values[i] as u64);
        text.append(numeral.as_str());
        proof {
            let next = values@.take(i + 1);
            assert(next.drop_last() =~= values@.take(i as int));
            assert(next.last() == values[i as int]);
        }
        i += 1;
    }
    text
}

/// A random passcode: the ten digits are shuffled and the first `length` of
/// them are written down, so no digit occurs twice.
pub fn generate_otp(length: usize) -> (r: String)
    ensures
        is_otp(r@, length as nat),
{
    let mut values: Vec<u8> = Vec::new();
    let mut d: u8 = 0;
    while d < 10
        invariant
            d <= 10,
            values.len() == d,
            forall|i: int| 0 <= i < d ==> #[trigger] values[i] == i,
        decreases 10 - d,
    {
        values.push(d);
        d += 1;
    }
    let ghost ordered = values@;
    let shuffled = shuffle(values);
    let otp = otp_from_digits(&shuffled, length);
    proof {
        ordered.to_multiset_ensures();
        shuffled@.to_multiset_ensures();
        assert(ordered.no_duplicates());
        ordered.lemma_multiset_has_no_duplicates();
        shuffled@.lemma_multiset_has_no_duplicates_conv();
        assert(shuffled@.len() == 10);
        assert forall|i: int| 0 <= i < shuffled@.len() implies #[trigger] shuffled@[i] < 10 by {
            assert(shuffled@.contains(shuffled@[i]));
            assert(shuffled@.to_multiset().count(shuffled@[i]) > 0);
            assert(ordered.contains(shuffled@[i]));
        }
        let n: int = if length <= 10 {
            length as int
        } else {
            10
        };
        let prefix = shuffled@.take(n);
        lemma_digits_text_of_digits(prefix);
        assert forall|i: int| 0 <= i < otp@.len() implies is_digit(#[trigger] otp@[i]) by {
            assert(otp@[i] == digit_char(prefix[i] as nat));
        }
        assert forall|i: int, j: int| 0 <= i < otp@.len() && 0 <= j < otp@.len() && i != j implies otp@[i]
            != otp@[j] by {
            assert(prefix[i] == shuffled@[i]);
            assert(prefix[j] == shuffled@[j]);
            assert(otp@[i] == digit_char(prefix[i] as nat));
            assert(otp@[j] == digit_char(prefix[j] as nat));
        }
    }
    otp
}

} // verus!
