//! The table of password-reset transactions.

use vstd::prelude::*;
use vstd::string::StringExecFns;
use crate::account::database::{
    next_id, Database, DatabaseView, FOREIGN_KEY_CONSTRAINT_FAILED, TABLE_FULL,
    UNIQUE_CONSTRAINT_FAILED,
};
use crate::utils::{first_true, lemma_first_true};
use crate::account::entities::forgot_password::{
    CreateForgotPasswordTransactionEntity, ForgotPasswordTransactionEntity,
    VerifyForgotPasswordTransaction,
};
use crate::error::{AppError, AppResult};
use crate::types::DbDateTime;
use crate::utils::str_equal;

verus! {

impl DatabaseView {
    /// For each transaction, whether it has the reset token.
    pub open spec fn reset_token_hits(&self, reset_password_token: Seq<char>) -> Seq<bool> {
        Seq::new(
            self.transactions.len(),
            |i: int| self.transactions[i].reset_password_token@ == reset_password_token,
        )
    }

    /// For each transaction, whether the passcode `otp` of the user
    /// `user_id` verifies it at `now`.
    pub open spec fn verifiable_hits(&self, user_id: i64, otp: Seq<char>, now: DbDateTime) -> Seq<
        bool,
    > {
        Seq::new(
            self.transactions.len(),
            |i: int| self.transactions[i].is_verifiable(user_id, otp, now),
        )
    }

    /// For each transaction, whether the reset token consumes it at `now`.
    pub open spec fn consumable_hits(&self, reset_password_token: Seq<char>, now: DbDateTime) -> Seq<
        bool,
    > {
        Seq::new(
            self.transactions.len(),
            |i: int| self.transactions[i].is_consumable(reset_password_token, now),
        )
    }

    /// The row that a passcode request inserts: the next number, neither
    /// verified nor used.
    pub open spec fn new_transaction(
        &self,
        transaction: CreateForgotPasswordTransactionEntity,
    ) -> ForgotPasswordTransactionEntity {
        ForgotPasswordTransactionEntity {
            id: (self.transactions.len() + 1) as i64,
            user_id: transaction.user_id,
            token: transaction.token,
            reset_password_token: transaction.reset_password_token,
            expires_at: transaction.expires_at,
            verified_at: None,
            used_at: None,
        }
    }

    /// The table can take a transaction of `user_id` with this reset token:
    /// the user is there, the token is not in use, and the numbers have not
    /// run out.
    pub open spec fn admits_transaction(&self, user_id: i64, reset_password_token: Seq<char>) -> bool {
        &&& self.has_user(user_id)
        &&& first_true(self.reset_token_hits(reset_password_token)) is None
        &&& self.transactions.len() < i64::MAX
    }

    /// The store with the transaction inserted.
    pub open spec fn with_transaction(
        self,
        transaction: CreateForgotPasswordTransactionEntity,
    ) -> DatabaseView {
        DatabaseView {
            transactions: self.transactions.push(self.new_transaction(transaction)),
            ..self
        }
    }

    /// The first transaction that the passcode `otp` of the user `user_id`
    /// verifies at `now`.
    pub open spec fn verifiable_transaction(
        &self,
        user_id: i64,
        otp: Seq<char>,
        now: DbDateTime,
    ) -> Option<ForgotPasswordTransactionEntity> {
        match first_true(self.verifiable_hits(user_id, otp, now)) {
            Some(i) => Some(self.transactions[i]),
            None => None,
        }
    }

    /// The store after the passcode `otp` of the user `user_id` was
    /// presented at `now`: the first transaction that it verifies is stamped
    /// verified; without one nothing changes.
    pub open spec fn with_otp_verified(self, user_id: i64, otp: Seq<char>, now: DbDateTime) -> DatabaseView {
        match first_true(self.verifiable_hits(user_id, otp, now)) {
            Some(i) => DatabaseView {
                transactions: self.transactions.update(i, self.transactions[i].spec_verified(now)),
                ..self
            },
            None => self,
        }
    }

    /// The transaction that the reset token consumes at `now`.
    pub open spec fn consumable_transaction(
        &self,
        reset_password_token: Seq<char>,
        now: DbDateTime,
    ) -> Option<ForgotPasswordTransactionEntity> {
        match first_true(self.consumable_hits(reset_password_token, now)) {
            Some(i) => Some(self.transactions[i]),
            None => None,
        }
    }

    /// The store after the reset token was presented at `now`: the
    /// transaction that it consumes is stamped used; without one nothing
    /// changes.
    pub open spec fn with_otp_consumed(self, reset_password_token: Seq<char>, now: DbDateTime) -> DatabaseView {
        match first_true(self.consumable_hits(reset_password_token, now)) {
            Some(i) => DatabaseView {
                transactions: self.transactions.update(i, self.transactions[i].spec_used(now)),
                ..self
            },
            None => self,
        }
    }
}

/// Whether some transaction has the reset token.
fn reset_token_in_use(db: &Database, reset_password_token: &str) -> (r: bool)
    ensures
        r == first_true(db@.reset_token_hits(reset_password_token@)) is Some,
{
    let ghost hits = db@.reset_token_hits(reset_password_token@);
    let mut i: usize = 0;
    while i < db.forgot_password_transactions.len()
        invariant
            i <= db.forgot_password_transactions.len(),
            hits == db@.reset_token_hits(reset_password_token@),
            forall|j: int| 0 <= j < i ==> !hits[j],
        decreases db.forgot_password_transactions.len() - i,
    {
        if str_equal(
            db.forgot_password_transactions[i].reset_password_token.as_str(),
            reset_password_token,
        ) {
            proof {
                lemma_first_true(hits);
                assert(hits[i as int]);
            }
            return true;
        }
        i += 1;
    }
    proof {
        lemma_first_true(hits);
    }
    false
}

/// Verifying a passcode keeps the store well formed. The transaction it
/// verifies is the first that the passcode verifies; it keeps its owner,
/// passcode, reset token and deadline, and no other row changes.
pub proof fn lemma_with_otp_verified(db: DatabaseView, user_id: i64, otp: Seq<char>, now: DbDateTime)
    requires
        db.wf(),
    ensures
        db.with_otp_verified(user_id, otp, now).wf(),
        db.with_otp_verified(user_id, otp, now).users == db.users,
        db.with_otp_verified(user_id, otp, now).sessions == db.sessions,
        db.with_otp_verified(user_id, otp, now).transactions.len() == db.transactions.len(),
        match first_true(db.verifiable_hits(user_id, otp, now)) {
            Some(i) => {
                &&& 0 <= i < db.transactions.len()
                &&& db.transactions[i].is_verifiable(user_id, otp, now)
                &&& db.with_otp_verified(user_id, otp, now).transactions == db.transactions.update(
                    i,
                    db.transactions[i].spec_verified(now),
                )
            },
            None => db.with_otp_verified(user_id, otp, now) == db,
        },
{
    lemma_first_true(db.verifiable_hits(user_id, otp, now));
}

/// Consuming a reset token keeps the store well formed. The transaction it
/// consumes is the only one with that reset token; it keeps its owner,
/// passcode, reset token and deadline, and no other row changes.
/// Afterwards the reset token consumes nothing, at whatever time it is
/// presented.
pub proof fn lemma_with_otp_consumed(
    db: DatabaseView,
    reset_password_token: Seq<char>,
    now: DbDateTime,
    later: DbDateTime,
)
    requires
        db.wf(),
    ensures
        db.with_otp_consumed(reset_password_token, now).wf(),
        db.with_otp_consumed(reset_password_token, now).users == db.users,
        db.with_otp_consumed(reset_password_token, now).sessions == db.sessions,
        match db.consumable_transaction(reset_password_token, now) {
            Some(found) => {
                &&& db.has_user(found.user_id)
                &&& db.with_otp_consumed(reset_password_token, now).consumable_transaction(
                    reset_password_token,
                    later,
                ) is None
            },
            None => db.with_otp_consumed(reset_password_token, now) == db,
        },
{
    let after = db.with_otp_consumed(reset_password_token, now);
    lemma_first_true(db.consumable_hits(reset_password_token, now));
    match first_true(db.consumable_hits(reset_password_token, now)) {
        Some(found) => {
            lemma_first_true(after.consumable_hits(reset_password_token, later));
            assert forall|i: int| 0 <= i < after.transactions.len() implies !after.consumable_hits(
                reset_password_token,
                later,
            )[i] by {
                if i != found && db.transactions[i].reset_password_token@ == reset_password_token {
                    if i < found {
                        assert(db.transactions[i].reset_password_token@
                            != db.transactions[found].reset_password_token@);
                    } else {
                        assert(db.transactions[found].reset_password_token@
                            != db.transactions[i].reset_password_token@);
                    }
                }
            }
        },
        None => {},
    }
}

/// Inserts a passcode challenge and returns its passcode. The store refuses
/// a user who is not there, a reset token that is in use, and a row beyond
/// the last number.
pub fn request_otp(db: &mut Database, transaction: CreateForgotPasswordTransactionEntity) -> (r:
    AppResult<String>)
    requires
        old(db)@.wf(),
    ensures
        final(db)@.wf(),
        r is Ok <==> old(db)@.admits_transaction(
            transaction.user_id,
            transaction.reset_password_token@,
        ),
        r matches Ok(otp) ==> final(db)@ == old(db)@.with_transaction(transaction) && otp
            == transaction.token,
        r matches Err(e) ==> final(db)@ == old(db)@ && e is SqlxError,
{
    if !db.user_exists(transaction.user_id) {
        return Err(AppError::SqlxError(String::from_str(FOREIGN_KEY_CONSTRAINT_FAILED)));
    }
    if reset_token_in_use(db, transaction.reset_password_token.as_str()) {
        return Err(AppError::SqlxError(String::from_str(UNIQUE_CONSTRAINT_FAILED)));
    }
    let Some(id) = next_id(db.forgot_password_transactions.len()) else {
        return Err(AppError::SqlxError(String::from_str(TABLE_FULL)));
    };
    proof {
        lemma_first_true(db@.reset_token_hits(transaction.reset_password_token@));
        assert forall|j: int| 0 <= j < db@.transactions.len() implies (
        #[trigger] db@.transactions[j]).reset_password_token@
            != transaction.reset_password_token@ by {
            assert(!db@.reset_token_hits(transaction.reset_password_token@)[j]);
        }
    }
    let otp = transaction.token.clone();
    db.forgot_password_transactions.push(
        ForgotPasswordTransactionEntity {
            id,
            user_id: transaction.user_id,
            token: transaction.token,
            reset_password_token: transaction.reset_password_token,
            expires_at: transaction.expires_at,
            verified_at: None,
            used_at: None,
        },
    );
    Ok(otp)
}

/// Stamps as verified at `now` the first transaction of the user that
/// carries the passcode presented, has not expired, and is neither verified
/// nor used; returns its reset token. Without such a transaction nothing
/// changes and `None` is returned.
pub fn verify_otp_request(
    db: &mut Database,
    transaction: VerifyForgotPasswordTransaction,
    now: DbDateTime,
) -> (r: Option<String>)
    requires
        old(db)@.wf(),
    ensures
        final(db)@.wf(),
        final(db)@ == old(db)@.with_otp_verified(transaction.user_id, transaction.token@, now),
        match old(db)@.verifiable_transaction(transaction.user_id, transaction.token@, now) {
            Some(found) => r == Some(found.reset_password_token),
            None => r is None,
        },
{
    let ghost hits = db@.verifiable_hits(transaction.user_id, transaction.token@, now);
    let mut i: usize = 0;
    while i < db.forgot_password_transactions.len()
        invariant
            i <= db.forgot_password_transactions.len(),
            *db == *old(db),
            db@.wf(),
            hits == db@.verifiable_hits(transaction.user_id, transaction.token@, now),
            forall|j: int| 0 <= j < i ==> !hits[j],
        decreases db.forgot_password_transactions.len() - i,
    {
        let row = &db.forgot_password_transactions[i];
        if row.user_id == transaction.user_id && str_equal(
            row.token.as_str(),
            transaction.token.as_str(),
        ) && now.0 < row.expires_at.0 && row.verified_at.is_none() && row.used_at.is_none() {
            proof {
                lemma_first_true(hits);
                assert(hits[i as int]);
            }
            let mut verified = db.forgot_password_transactions[i].clone();
            let reset_password_token = verified.reset_password_token.clone();
            verified.verified_at = Some(now);
            db.forgot_password_transactions.set(i, verified);
            assert(db@.transactions =~= old(db)@.with_otp_verified(
                transaction.user_id,
                transaction.token@,
                now,
            ).transactions);
            return Some(reset_password_token);
        }
        i += 1;
    }
    proof {
        lemma_first_true(hits);
    }
    None
}

/// Stamps as used at `now` the transaction that carries the reset token, is
/// verified, has not expired and is not used; returns the number of the user
/// it belongs to. Without such a transaction nothing changes and `None` is
/// returned.
pub fn consume_otp_request(db: &mut Database, token: &str, now: DbDateTime) -> (r: Option<i64>)
    requires
        old(db)@.wf(),
    ensures
        final(db)@.wf(),
        final(db)@ == old(db)@.with_otp_consumed(token@, now),
        match old(db)@.consumable_transaction(token@, now) {
            Some(found) => r == Some(found.user_id),
            None => r is None,
        },
{
    let ghost hits = db@.consumable_hits(token@, now);
    let mut i: usize = 0;
    while i < db.forgot_password_transactions.len()
        invariant
            i <= db.forgot_password_transactions.len(),
            *db == *old(db),
            db@.wf(),
            hits == db@.consumable_hits(token@, now),
            forall|j: int| 0 <= j < i ==> !hits[j],
        decreases db.forgot_password_transactions.len() - i,
    {
        let row = &db.forgot_password_transactions[i];
        if str_equal(row.reset_password_token.as_str(), token) && now.0 < row.expires_at.0
            && row.verified_at.is_some() && row.used_at.is_none() {
            proof {
                lemma_first_true(hits);
                assert(hits[i as int]);
            }
            let mut used = db.forgot_password_transactions[i].clone();
            let user_id = used.user_id;
            used.used_at = Some(now);
            db.forgot_password_transactions.set(i, used);
            assert(db@.transactions =~= old(db)@.with_otp_consumed(token@, now).transactions);
            return Some(user_id);
        }
        i += 1;
    }
    proof {
        lemma_first_true(hits);
    }
    None
}

} // verus!
