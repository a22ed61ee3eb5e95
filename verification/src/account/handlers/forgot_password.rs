//! The password-reset engine: a passcode is requested, verified once, and
//! exchanged once for a new password.

use vstd::prelude::*;
use crate::account::database::forgot_password_repository::{
    consume_otp_request, verify_otp_request,
};
use crate::account::database::forgot_password_repository::{
    lemma_with_otp_consumed, lemma_with_otp_verified,
};
use crate::account::database::user_repository::{
    find_user_by_email, lemma_user_by_email_is, lemma_user_by_id, lemma_with_password,
    update_password_by_user_id,
};
use crate::account::database::{forgot_password_repository, DatabaseView};
use crate::utils::{first_true, lemma_first_true};
use crate::account::handlers::auth::{login_verdict, LoginVerdict};
use crate::account::entities::forgot_password::{
    CreateForgotPasswordTransactionEntity, VerifyForgotPasswordTransaction,
};
use crate::account::entities::user::UserEntity;
use crate::account::error::AccountError;
use crate::account::models::request::forgot_password::{
    lemma_new_password_failures, new_password_failures, RequestOtpRequest, ResetPasswordRequest,
    VerifyOtpRequest,
};
use crate::account::models::response::forgot_password::VerifyOtpResponse;
use crate::account::utils::{argon2_verify, hash_password};
use crate::config::AppConfig;
use crate::error::{AppError, AppResult};
use crate::state::AppState;
use crate::types::DbDateTime;
use crate::validators::{failure_views, Validatable};

verus! {

/// How a request for a passcode ends.
#[derive(Clone, Copy, Debug, PartialEq, Eq, Structural)]
pub enum RequestOtpVerdict {
    /// No user has the address.
    UserNotFound,
    /// The store refuses the transaction.
    StoreFailure,
    /// The transaction is stored.
    Issued,
}

/// How a request for a passcode for `email` ends where the transaction
/// would carry the reset token given.
pub open spec fn request_otp_verdict(
    db: DatabaseView,
    email: Seq<char>,
    reset_password_token: Seq<char>,
) -> RequestOtpVerdict {
    if db.user_by_email(email) is None {
        RequestOtpVerdict::UserNotFound
    } else if !db.admits_transaction(db.user_by_email(email)->0.id, reset_password_token) {
        RequestOtpVerdict::StoreFailure
    } else {
        RequestOtpVerdict::Issued
    }
}

/// The store after a request for a passcode for `email` at `now`: where it
/// is issued, one transaction is added for the user, neither verified nor
/// used, that expires after the validity that `config` sets. Transactions
/// that the user has outstanding stay as they are.
pub open spec fn request_otp_effect(
    db: DatabaseView,
    config: AppConfig,
    email: Seq<char>,
    now: DbDateTime,
    otp: String,
    reset_password_token: String,
) -> DatabaseView {
    match request_otp_verdict(db, email, reset_password_token@) {
        RequestOtpVerdict::Issued => db.with_transaction(
            CreateForgotPasswordTransactionEntity::spec_at(
                config,
                db.user_by_email(email)->0.id,
                now,
                otp,
                reset_password_token,
            ),
        ),
        _ => db,
    }
}

/// Who a request for a passcode is for, once the user has been looked up:
/// an unknown address is refused.
pub fn request_otp_step(user: Option<UserEntity>, request: RequestOtpRequest) -> (r: AppResult<i64>)
    ensures
        r == (match user {
            None => Err::<i64, AppError>(
                AppError::AccountError(AccountError::UserDoesNotExistByEmail(request.email)),
            ),
            Some(user) => Ok(user.id),
        }),
{
    match user {
        None => Err(AppError::AccountError(AccountError::UserDoesNotExistByEmail(request.email))),
        Some(user) => Ok(user.id),
    }
}

/// Opens a password reset for the account `request.email` at `now`, under
/// the passcode and the reset token given.
pub fn request_otp(
    state: &mut AppState,
    request: RequestOtpRequest,
    now: DbDateTime,
    otp: String,
    reset_password_token: String,
) -> (r: AppResult<()>)
    requires
        old(state).wf(),
        old(state).config.admits(now),
    ensures
        final(state).wf(),
        final(state).config == old(state).config,
        final(state).db@ == request_otp_effect(
            old(state).db@,
            old(state).config,
            request.email@,
            now,
            otp,
            reset_password_token,
        ),
        match request_otp_verdict(old(state).db@, request.email@, reset_password_token@) {
            RequestOtpVerdict::UserNotFound => {
                &&& r matches Err(AppError::AccountError(AccountError::UserDoesNotExistByEmail(e)))
                &&& e == request.email
            },
            RequestOtpVerdict::StoreFailure => {
                &&& r matches Err(e)
                &&& e is SqlxError
            },
            RequestOtpVerdict::Issued => r is Ok,
        },
{
    let user = find_user_by_email(&state.db, request.email.as_str());
    match request_otp_step(user, request) {
        Ok(user_id) => {
            let transaction = CreateForgotPasswordTransactionEntity::at(
                &state.config,
                user_id,
                now,
                otp,
                reset_password_token,
            );
            match forgot_password_repository::request_otp(&mut state.db, transaction) {
                Ok(_) => Ok(()),
                Err(error) => Err(error),
            }
        },
        Err(error) => Err(error),
    }
}

/// The store after the passcode `otp` was presented for `email` at `now`:
/// where the user exists, the first transaction of theirs that the passcode
/// verifies is stamped verified.
pub open spec fn verify_otp_effect(
    db: DatabaseView,
    email: Seq<char>,
    otp: Seq<char>,
    now: DbDateTime,
) -> DatabaseView {
    match db.user_by_email(email) {
        Some(user) => db.with_otp_verified(user.id, otp, now),
        None => db,
    }
}

/// The reset token that presenting the passcode `otp` for `email` at `now`
/// yields, where it yields one.
pub open spec fn verify_otp_token(
    db: DatabaseView,
    email: Seq<char>,
    otp: Seq<char>,
    now: DbDateTime,
) -> Option<String> {
    match db.user_by_email(email) {
        Some(user) => match db.verifiable_transaction(user.id, otp, now) {
            Some(found) => Some(found.reset_password_token),
            None => None,
        },
        None => None,
    }
}

/// What a passcode submission is checked against, once the user has been
/// looked up: an unknown address is refused; otherwise the passcode is
/// checked against the transactions of that user.
pub fn verify_otp_step(user: Option<UserEntity>, request: VerifyOtpRequest) -> (r: AppResult<
    VerifyForgotPasswordTransaction,
>)
    ensures
        r == (match user {
            None => Err::<VerifyForgotPasswordTransaction, AppError>(
                AppError::AccountError(AccountError::UserDoesNotExistByEmail(request.email)),
            ),
            Some(user) => Ok(
                VerifyForgotPasswordTransaction { user_id: user.id, token: request.otp },
            ),
        }),
{
    match user {
        None => Err(AppError::AccountError(AccountError::UserDoesNotExistByEmail(request.email))),
        Some(user) => Ok(VerifyForgotPasswordTransaction { user_id: user.id, token: request.otp }),
    }
}

/// What a passcode submission answers, once the store has been asked: the
/// reset token of the transaction verified, or, without one, a refusal that
/// does not tell why.
pub fn verify_otp_answer(reset_password_token: Option<String>) -> (r: AppResult<VerifyOtpResponse>)
    ensures
        match reset_password_token {
            Some(token) => r == Ok::<VerifyOtpResponse, AppError>(VerifyOtpResponse { token }),
            None => r matches Err(AppError::AccountError(AccountError::InvalidOrExpiredOtp)),
        },
{
    match reset_password_token {
        Some(token) => Ok(VerifyOtpResponse { token }),
        None => Err(AppError::AccountError(AccountError::InvalidOrExpiredOtp)),
    }
}

/// Verifies a passcode at `now`. The first transaction of the user that
/// carries the passcode, has not expired and is neither verified nor used is
/// stamped verified, and its reset token is answered. Where there is none,
/// the refusal does not tell whether the passcode was wrong, expired, or
/// spent.
pub fn verify_otp(state: &mut AppState, request: VerifyOtpRequest, now: DbDateTime) -> (r:
    AppResult<VerifyOtpResponse>)
    requires
        old(state).wf(),
    ensures
        final(state).wf(),
        final(state).config == old(state).config,
        final(state).db@ == verify_otp_effect(old(state).db@, request.email@, request.otp@, now),
        match old(state).db@.user_by_email(request.email@) {
            None => {
                &&& r matches Err(AppError::AccountError(AccountError::UserDoesNotExistByEmail(e)))
                &&& e == request.email
            },
            Some(_) => match verify_otp_token(old(state).db@, request.email@, request.otp@, now) {
                Some(token) => r == Ok::<VerifyOtpResponse, AppError>(VerifyOtpResponse { token }),
                None => r matches Err(AppError::AccountError(AccountError::InvalidOrExpiredOtp)),
            },
        },
{
    let user = find_user_by_email(&state.db, request.email.as_str());
    match verify_otp_step(user, request) {
        Ok(transaction) => verify_otp_answer(verify_otp_request(&mut state.db, transaction, now)),
        Err(error) => Err(error),
    }
}

/// The store after the reset token was exchanged at `now` for the password
/// hash `hash`: where a transaction is consumed, it is stamped used, and its
/// user gets the hash and a cleared counter of failed logins.
pub open spec fn reset_password_effect(
    db: DatabaseView,
    token: Seq<char>,
    now: DbDateTime,
    hash: String,
) -> DatabaseView {
    match db.consumable_transaction(token, now) {
        Some(found) => db.with_otp_consumed(token, now).with_password(found.user_id, hash),
        None => db,
    }
}

/// Whose password a reset replaces, once the store has been asked to
/// consume the reset token: the user of the transaction consumed, or,
/// without one, a refusal that does not tell why.
pub fn reset_password_answer(user_id: Option<i64>) -> (r: AppResult<i64>)
    ensures
        match user_id {
            Some(id) => r == Ok::<i64, AppError>(id),
            None => r matches Err(AppError::AccountError(AccountError::InvalidOrExpiredOtp)),
        },
{
    match user_id {
        Some(id) => Ok(id),
        None => Err(AppError::AccountError(AccountError::InvalidOrExpiredOtp)),
    }
}

/// Ends a password reset on the outcome `hashed` of hashing the new
/// password. A failure of the hasher is handed on and nothing changes.
/// With a hash, the transaction that the reset token consumes is stamped
/// used and the hash replaces the user's password, both or neither; without
/// such a transaction the reset is refused and nothing changes.
pub fn complete_password_reset(
    state: &mut AppState,
    token: &str,
    hashed: AppResult<String>,
    now: DbDateTime,
) -> (r: AppResult<()>)
    requires
        old(state).wf(),
    ensures
        final(state).wf(),
        final(state).config == old(state).config,
        match hashed {
            Ok(hash) => {
                &&& final(state).db@ == reset_password_effect(old(state).db@, token@, now, hash)
                &&& match old(state).db@.consumable_transaction(token@, now) {
                    Some(_) => r is Ok,
                    None => r matches Err(AppError::AccountError(AccountError::InvalidOrExpiredOtp)),
                }
            },
            Err(error) => {
                &&& final(state).db@ == old(state).db@
                &&& r == Err::<(), AppError>(error)
            },
        },
{
    match hashed {
        Err(error) => Err(error),
        Ok(hash) => match reset_password_answer(consume_otp_request(&mut state.db, token, now)) {
            Ok(user_id) => {
                update_password_by_user_id(&mut state.db, user_id, hash);
                Ok(())
            },
            Err(error) => Err(error),
        },
    }
}

/// Replaces a password at `now`. The new password must meet the policy. The
/// reset token must be that of a transaction that is verified, has not
/// expired and is not used: that transaction is stamped used, the new
/// password's hash replaces the old one, and the user's counter of failed
/// logins is cleared.
pub fn reset_password(state: &mut AppState, request: ResetPasswordRequest, now: DbDateTime) -> (r:
    AppResult<()>)
    requires
        old(state).wf(),
    ensures
        final(state).wf(),
        final(state).config == old(state).config,
        if new_password_failures(request.password@).len() != 0 {
            &&& final(state).db@ == old(state).db@
            &&& r matches Err(AppError::ValidationError(errors))
            &&& failure_views(errors@) == new_password_failures(request.password@)
        } else {
            match r {
                Ok(()) => {
                    &&& old(state).db@.consumable_transaction(request.token@, now) matches Some(
                        found,
                    )
                    &&& final(state).db@.user_by_id(found.user_id) matches Some(user)
                    &&& argon2_verify(request.password@, user.password@) == Some(true)
                    &&& final(state).db@ == reset_password_effect(
                        old(state).db@,
                        request.token@,
                        now,
                        user.password,
                    )
                },
                Err(AppError::Argon2PasswordHashError(_)) => final(state).db@ == old(state).db@,
                Err(e) => {
                    &&& e matches AppError::AccountError(AccountError::InvalidOrExpiredOtp)
                    &&& old(state).db@.consumable_transaction(request.token@, now) is None
                    &&& final(state).db@ == old(state).db@
                },
            }
        },
{
    proof {
        lemma_new_password_failures(
            request.password@,
            Seq::new(
                ResetPasswordRequest::spec_validated_properties().len(),
                |i: int|
                    request.spec_validate_property(
                        ResetPasswordRequest::spec_validated_properties()[i],
                    ),
            ),
        );
    }
    match request.validate() {
        Err(errors) => {
            return Err(AppError::ValidationError(errors));
        },
        Ok(()) => {},
    }
    let hashed = hash_password(request.password.as_str());
    let r = complete_password_reset(state, request.token.as_str(), hashed, now);
    proof {
        if r is Ok {
            let before = old(state).db@;
            lemma_first_true(before.consumable_hits(request.token@, now));
            lemma_user_by_id(state.db@, before.consumable_transaction(request.token@, now)->0.user_id);
        }
    }
    r
}

/// The user has at most one transaction outstanding that carries the
/// passcode `otp`: of any two transactions of theirs with that passcode, one
/// is verified already.
pub open spec fn passcode_is_unambiguous(db: DatabaseView, user_id: i64, otp: Seq<char>) -> bool {
    forall|i: int, j: int|
        0 <= i < j < db.transactions.len() && (#[trigger] db.transactions[i]).user_id == user_id
            && db.transactions[i].token@ == otp && (#[trigger] db.transactions[j]).user_id
            == user_id && db.transactions[j].token@ == otp ==> db.transactions[i].verified_at
            is Some || db.transactions[j].verified_at is Some
}

/// After a reset that consumed a transaction, the user's counter of failed
/// logins is 0 and the hash stored is the new one, so that a login is
/// decided by the new hash alone: it is granted exactly where the password
/// presented verifies against the new hash and the store can take the new
/// session. The new password, from which the hash was made, is therefore
/// let in, and the old one only if it verifies against the new hash as
/// well.
pub proof fn lemma_reset_replaces_the_password(
    db: DatabaseView,
    token: Seq<char>,
    now: DbDateTime,
    hash: String,
    password: Seq<char>,
    session_token: Seq<char>,
    refresh_token: Seq<char>,
)
    requires
        db.wf(),
        db.consumable_transaction(token, now) is Some,
    ensures
        ({
            let after = reset_password_effect(db, token, now, hash);
            let owner = db.consumable_transaction(token, now)->0.user_id;
            &&& after.wf()
            &&& after.user_by_id(owner) matches Some(user)
            &&& user.login_attempts == 0
            &&& user.password == hash
            &&& after.user_by_email(user.email@) == Some(user)
            &&& login_verdict(after, user.email@, password, session_token, refresh_token)
                == LoginVerdict::Granted <==> argon2_verify(password, hash@) == Some(true)
                && after.admits_session(user.id, session_token, refresh_token)
        }),
{
    let found = db.consumable_transaction(token, now)->0;
    let consumed = db.with_otp_consumed(token, now);
    lemma_with_otp_consumed(db, token, now, now);
    lemma_user_by_id(consumed, found.user_id);
    let before = consumed.user_by_id(found.user_id)->0;
    lemma_user_by_email_is(consumed, found.user_id - 1);
    lemma_with_password(consumed, found.user_id, hash, before.email@, found.user_id);
}

/// A passcode verifies once: after it has verified a transaction, the same
/// passcode presented again for the same account is refused, at whatever
/// time. This holds where the user has no second transaction outstanding
/// that carries the same passcode.
pub proof fn lemma_otp_verifies_once(
    db: DatabaseView,
    email: Seq<char>,
    otp: Seq<char>,
    now: DbDateTime,
    later: DbDateTime,
)
    requires
        db.wf(),
        verify_otp_token(db, email, otp, now) is Some,
        passcode_is_unambiguous(db, db.user_by_email(email)->0.id, otp),
    ensures
        ({
            let after = verify_otp_effect(db, email, otp, now);
            &&& after.wf()
            &&& verify_otp_token(after, email, otp, later) is None
            &&& verify_otp_effect(after, email, otp, later) == after
        }),
{
    let user = db.user_by_email(email)->0;
    let after = verify_otp_effect(db, email, otp, now);
    lemma_with_otp_verified(db, user.id, otp, now);
    let found = first_true(db.verifiable_hits(user.id, otp, now))->0;
    lemma_first_true(after.verifiable_hits(user.id, otp, later));
    assert forall|i: int| 0 <= i < after.transactions.len() implies !after.verifiable_hits(
        user.id,
        otp,
        later,
    )[i] by {
        if i != found && after.transactions[i].is_verifiable(user.id, otp, later) {
            if i < found {
                assert(db.transactions[i].user_id == user.id);
                assert(db.transactions[found].user_id == user.id);
            } else {
                assert(db.transactions[found].user_id == user.id);
                assert(db.transactions[i].user_id == user.id);
            }
        }
    }
}

/// A reset token is spent by the reset it authorised: presented again, at
/// whatever time and with whatever new password, it is refused, and nothing
/// changes; the password stays the one that the first reset set.
pub proof fn lemma_reset_token_is_spent(
    db: DatabaseView,
    token: Seq<char>,
    now: DbDateTime,
    hash: String,
    later: DbDateTime,
    other_hash: String,
)
    requires
        db.wf(),
        db.consumable_transaction(token, now) is Some,
    ensures
        ({
            let after = reset_password_effect(db, token, now, hash);
            &&& after.wf()
            &&& after.consumable_transaction(token, later) is None
            &&& reset_password_effect(after, token, later, other_hash) == after
        }),
{
    let found = db.consumable_transaction(token, now)->0;
    let consumed = db.with_otp_consumed(token, now);
    let after = reset_password_effect(db, token, now, hash);
    lemma_with_otp_consumed(db, token, now, later);
    lemma_with_password(consumed, found.user_id, hash, Seq::empty(), 0);
    assert(after.consumable_hits(token, later) =~= consumed.consumable_hits(token, later));
}

/// A transaction moves forward only: verifying stamps a transaction that
/// was neither verified nor used, consuming stamps one that was verified
/// and not used, and neither takes a stamp away.
pub proof fn lemma_transactions_move_forward(
    db: DatabaseView,
    user_id: i64,
    otp: Seq<char>,
    token: Seq<char>,
    now: DbDateTime,
    i: int,
)
    requires
        db.wf(),
        0 <= i < db.transactions.len(),
    ensures
        ({
            let before = db.transactions[i];
            let verified = db.with_otp_verified(user_id, otp, now).transactions[i];
            let consumed = db.with_otp_consumed(token, now).transactions[i];
            &&& verified == before || (before.verified_at is None && before.used_at is None
                && now.0 < before.expires_at.0 && verified == before.spec_verified(now))
            &&& consumed == before || (before.verified_at is Some && before.used_at is None
                && now.0 < before.expires_at.0 && consumed == before.spec_used(now))
        }),
{
    lemma_first_true(db.verifiable_hits(user_id, otp, now));
    lemma_first_true(db.consumable_hits(token, now));
}

} // verus!
