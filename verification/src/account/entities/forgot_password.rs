//! Password-reset transactions: one passcode challenge each, verified and
//! then used, each at most once and before its deadline.

use vstd::prelude::*;
use crate::account::utils::{generate_otp, is_otp, new_token};
use crate::config::AppConfig;
use crate::constants::DEFAULT_OTP_LENGTH;
use crate::types::DbDateTime;

verus! {

/// A row of the table of password-reset transactions.
#[derive(Debug)]
pub struct ForgotPasswordTransactionEntity {
    pub id: i64,
    pub user_id: i64,
    /// The one-time passcode.
    pub token: String,
    /// The bearer of the final step.
    pub reset_password_token: String,
    pub expires_at: DbDateTime,
    pub verified_at: Option<DbDateTime>,
    pub used_at: Option<DbDateTime>,
}

impl ForgotPasswordTransactionEntity {
    /// Only a verified transaction can have been used.
    pub open spec fn wf(&self) -> bool {
        self.used_at is Some ==> self.verified_at is Some
    }

    /// The passcode `otp`, presented by the user `user_id` at `now`, verifies
    /// this transaction: it is theirs, the passcode is the one issued, the
    /// deadline has not passed, and it is neither verified nor used yet.
    pub open spec fn is_verifiable(&self, user_id: i64, otp: Seq<char>, now: DbDateTime) -> bool {
        &&& self.user_id == user_id
        &&& self.token@ == otp
        &&& now.0 < self.expires_at.0
        &&& self.verified_at is None
        &&& self.used_at is None
    }

    /// The reset token `reset_password_token`, presented at `now`, consumes
    /// this transaction: the token is the one issued, the deadline has not
    /// passed, and it is verified and not used yet.
    pub open spec fn is_consumable(&self, reset_password_token: Seq<char>, now: DbDateTime) -> bool {
        &&& self.reset_password_token@ == reset_password_token
        &&& now.0 < self.expires_at.0
        &&& self.verified_at is Some
        &&& self.used_at is None
    }

    /// The same transaction, verified at `now`.
    pub open spec fn spec_verified(self, now: DbDateTime) -> ForgotPasswordTransactionEntity {
        ForgotPasswordTransactionEntity { verified_at: Some(now), ..self }
    }

    /// The same transaction, used at `now`.
    pub open spec fn spec_used(self, now: DbDateTime) -> ForgotPasswordTransactionEntity {
        ForgotPasswordTransactionEntity { used_at: Some(now), ..self }
    }
}

impl Clone for ForgotPasswordTransactionEntity {
    fn clone(&self) -> (r: Self)
        ensures
            r == *self,
    {
        ForgotPasswordTransactionEntity {
            id: self.id,
            user_id: self.user_id,
            token: self.token.clone(),
            reset_password_token: self.reset_password_token.clone(),
            expires_at: self.expires_at,
            verified_at: self.verified_at,
            used_at: self.used_at,
        }
    }
}

/// A passcode challenge that is about to be stored.
#[derive(Debug)]
pub struct CreateForgotPasswordTransactionEntity {
    pub user_id: i64,
    pub token: String,
    pub reset_password_token: String,
    pub expires_at: DbDateTime,
}

impl CreateForgotPasswordTransactionEntity {
    /// The challenge that `config` issues to `user_id` at `now` under the
    /// given passcode and reset token.
    pub open spec fn spec_at(
        config: AppConfig,
        user_id: i64,
        now: DbDateTime,
        token: String,
        reset_password_token: String,
    ) -> CreateForgotPasswordTransactionEntity {
        CreateForgotPasswordTransactionEntity {
            user_id,
            token,
            reset_password_token,
            expires_at: DbDateTime(now.spec_plus_seconds(config.otp_validity_duration) as i64),
        }
    }

    /// A challenge for `user_id` with a fresh random passcode and reset
    /// token, issued at the clock's present reading: what `issued_at` gives
    /// for that reading, a passcode of six distinct digits and that token,
    /// so `None` exactly where the configuration does not admit the
    /// reading, because a deadline that it counts from there would lie
    /// beyond the last instant that the calendar can name.
    pub fn new(config: &AppConfig, user_id: i64) -> (r: Option<Self>)
        requires
            config.wf(),
        ensures
            exists|now: DbDateTime, token: String, reset_password_token: String|
                now.wf() && is_otp(token@, DEFAULT_OTP_LENGTH as nat) && r
                    == #[trigger] Self::spec_issued_at(
                    *config,
                    user_id,
                    now,
                    token,
                    reset_password_token,
                ),
            r matches Some(t) ==> t.user_id == user_id && is_otp(
                t.token@,
                DEFAULT_OTP_LENGTH as nat,
            ),
    {
        let now = DbDateTime::now();
        let token = generate_otp(DEFAULT_OTP_LENGTH);
        let reset_password_token = new_token();
        let ghost drawn = (token, reset_password_token);
        let r = Self::issued_at(config, user_id, now, token, reset_password_token);
        assert(r == Self::spec_issued_at(*config, user_id, now, drawn.0, drawn.1));
        r
    }

    /// The challenge that `config` issues to `user_id` at `now` under the
    /// given passcode and reset token: it expires after the configured
    /// validity.
    pub fn at(
        config: &AppConfig,
        user_id: i64,
        now: DbDateTime,
        token: String,
        reset_password_token: String,
    ) -> (r: Self)
        requires
            config.wf(),
            config.admits(now),
        ensures
            r == Self::spec_at(*config, user_id, now, token, reset_password_token),
            now.0 < r.expires_at.0,
    {
        CreateForgotPasswordTransactionEntity {
            user_id,
            token,
            reset_password_token,
            expires_at: now.plus_seconds(config.otp_validity_duration),
        }
    }

    /// What `config` issues to `user_id` at `now` under the given passcode
    /// and reset token: the challenge that expires after the configured
    /// validity, or nothing where `config` does not admit `now`.
    pub open spec fn spec_issued_at(
        config: AppConfig,
        user_id: i64,
        now: DbDateTime,
        token: String,
        reset_password_token: String,
    ) -> Option<CreateForgotPasswordTransactionEntity> {
        if config.admits(now) {
            Some(Self::spec_at(config, user_id, now, token, reset_password_token))
        } else {
            None
        }
    }

    /// What `config` issues to `user_id` at `now` under the given passcode
    /// and reset token, whatever the clock read: the challenge, or `None`
    /// where `config` does not admit `now`.
    pub fn issued_at(
        config: &AppConfig,
        user_id: i64,
        now: DbDateTime,
        token: String,
        reset_password_token: String,
    ) -> (r: Option<Self>)
        requires
            config.wf(),
        ensures
            r == Self::spec_issued_at(*config, user_id, now, token, reset_password_token),
            r matches Some(t) ==> now.0 < t.expires_at.0,
    {
        if config.check_admits(now) {
            Some(Self::at(config, user_id, now, token, reset_password_token))
        } else {
            None
        }
    }
}

/// What a passcode submission is checked against: whose it is and the
/// passcode presented.
#[derive(Debug)]
pub struct VerifyForgotPasswordTransaction {
    pub user_id: i64,
    pub token: String,
}

} // verus!
