//! The authentication engine: registration, login with lockout, session
//! renewal and logout.

use vstd::prelude::*;
use vstd::string::StringExecFns;
use crate::account::database::session_repository::{
    can_create_session, create_session, lemma_revocation_keeps_tokens, lemma_with_session,
    lemma_with_sessions_revoked, revoke_session_for_user_id,
};
use crate::account::database::user_repository::{
    create_user, find_user_by_email, find_user_by_id, lemma_user_by_email, lemma_user_by_id,
    lemma_with_failed_login, lemma_with_user, update_failed_login, user_exists_by_email,
};
use crate::account::database::{DatabaseView, UNIQUE_CONSTRAINT_FAILED};
use crate::utils::{first_true, lemma_first_true};
use crate::account::entities::session::{CreateSessionEntity, RevocationReason, SessionEntity};
use crate::account::entities::user::{CreateUserEntity, FailedLoginAttempt, UserEntity};
use crate::account::error::AccountError;
use crate::account::models::request::auth::{
    credential_failures, lemma_credential_failures, AuthenticateRequest, CreateUserRequest,
    ExtendSessionRequest,
};
use crate::account::models::response::auth::AuthenticatedResponse;
use crate::account::models::response::user::UserResponse;
use crate::account::utils::extractors::{CurrentUser, PossiblyExpiredSession};
use crate::account::utils::{argon2_verify, hash_password, verify_password};
use crate::config::AppConfig;
use crate::constants::MAX_LOGIN_ATTEMPTS;
use crate::error::{AppError, AppResult};
use crate::state::AppState;
use crate::types::DbDateTime;
use crate::utils::str_equal;
use crate::validators::{failure_views, Validatable};

verus! {

/// Refuses a user with as many failed logins on record as the lockout
/// allows. The password presented plays no part.
pub fn validate_max_login_attempts(user: &UserEntity) -> (r: AppResult<()>)
    ensures
        user.login_attempts >= MAX_LOGIN_ATTEMPTS ==> r matches Err(
            AppError::AccountError(AccountError::MaxLoginAttempts),
        ),
        user.login_attempts < MAX_LOGIN_ATTEMPTS ==> r is Ok,
{
    if user.login_attempts >= MAX_LOGIN_ATTEMPTS {
        Err(AppError::AccountError(AccountError::MaxLoginAttempts))
    } else {
        Ok(())
    }
}

/// What a verification that gave `check` means for a login: a match lets it
/// pass, a mismatch makes the credentials invalid, and a failure of the
/// hasher is handed on.
pub fn password_verdict(check: AppResult<bool>) -> (r: AppResult<()>)
    ensures
        match check {
            Ok(true) => r is Ok,
            Ok(false) => r matches Err(AppError::AccountError(AccountError::InvalidCredentials)),
            Err(error) => r == Err::<(), AppError>(error),
        },
{
    match check {
        Ok(true) => Ok(()),
        Ok(false) => Err(AppError::AccountError(AccountError::InvalidCredentials)),
        Err(error) => Err(error),
    }
}

/// Verifies the password presented against the hash stored.
pub fn validate_user_password(password: &str, user_password: &str) -> (r: AppResult<()>)
    ensures
        match argon2_verify(password@, user_password@) {
            Some(true) => r is Ok,
            Some(false) => r matches Err(AppError::AccountError(AccountError::InvalidCredentials)),
            None => {
                &&& r matches Err(e)
                &&& e is Argon2PasswordHashError
            },
        },
{
    password_verdict(verify_password(password, user_password))
}

/// How a registration ends, before the password is hashed.
#[derive(Clone, Copy, Debug, PartialEq, Eq, Structural)]
pub enum RegisterVerdict {
    /// A field fails validation.
    Invalid,
    /// The address is taken.
    AlreadyExists,
    /// The password is hashed and the user stored.
    Proceed,
}

/// How the registration of `request` ends in the store `db`.
pub open spec fn register_verdict(db: DatabaseView, request: CreateUserRequest) -> RegisterVerdict {
    if credential_failures(request.email@, request.password@).len() != 0 {
        RegisterVerdict::Invalid
    } else if db.user_by_email(request.email@) is Some {
        RegisterVerdict::AlreadyExists
    } else {
        RegisterVerdict::Proceed
    }
}

/// The store after the user `email` was registered with the password hash
/// `hash`.
pub open spec fn registered(db: DatabaseView, email: String, hash: String) -> DatabaseView {
    db.with_user(CreateUserEntity { email, password: hash })
}

/// Stores the user `email` with the outcome `hashed` of hashing the
/// password: a hash is stored with the user and the user is answered; a
/// failure is handed on and nothing is stored.
pub fn complete_registration(state: &mut AppState, email: String, hashed: AppResult<String>) -> (r:
    AppResult<UserResponse>)
    requires
        old(state).wf(),
    ensures
        final(state).wf(),
        final(state).config == old(state).config,
        match hashed {
            Ok(hash) => if old(state).db@.admits_user(email@) {
                &&& final(state).db@ == registered(old(state).db@, email, hash)
                &&& r == Ok::<UserResponse, AppError>(
                    UserResponse { id: (old(state).db@.users.len() + 1) as i64, email },
                )
            } else {
                &&& final(state).db@ == old(state).db@
                &&& r matches Err(e)
                &&& e is SqlxError
            },
            Err(error) => {
                &&& final(state).db@ == old(state).db@
                &&& r == Err::<UserResponse, AppError>(error)
            },
        },
{
    match hashed {
        Ok(hash) => {
            let user = CreateUserEntity { email, password: hash };
            match create_user(&mut state.db, user) {
                Ok(created) => Ok(UserResponse::from(created)),
                Err(error) => Err(error),
            }
        },
        Err(error) => Err(error),
    }
}

/// Prepares what registration stores, once it is known whether the address
/// is taken: a taken address is refused; otherwise the password is hashed,
/// and the hash, which verifies against the password, goes with the address.
pub fn registration_step(request: CreateUserRequest, exists: bool) -> (r: AppResult<
    CreateUserEntity,
>)
    ensures
        exists ==> r == Err::<CreateUserEntity, AppError>(
            AppError::AccountError(AccountError::UserExistsByEmail(request.email)),
        ),
        !exists ==> match r {
            Ok(user) => user.email == request.email && argon2_verify(
                request.password@,
                user.password@,
            ) == Some(true),
            Err(e) => e is Argon2PasswordHashError,
        },
{
    if exists {
        return Err(AppError::AccountError(AccountError::UserExistsByEmail(request.email)));
    }
    match hash_password(request.password.as_str()) {
        Ok(hash) => Ok(CreateUserEntity { email: request.email, password: hash }),
        Err(error) => Err(error),
    }
}

/// Registers a user: the fields are validated, the address must be free,
/// the password is hashed, and the user is stored with no failed login on
/// record. No session is created.
pub fn register(state: &mut AppState, request: CreateUserRequest) -> (r: AppResult<UserResponse>)
    requires
        old(state).wf(),
    ensures
        final(state).wf(),
        final(state).config == old(state).config,
        match register_verdict(old(state).db@, request) {
            RegisterVerdict::Invalid => {
                &&& final(state).db@ == old(state).db@
                &&& r matches Err(AppError::ValidationError(errors))
                &&& failure_views(errors@) == credential_failures(
                    request.email@,
                    request.password@,
                )
            },
            RegisterVerdict::AlreadyExists => {
                &&& final(state).db@ == old(state).db@
                &&& r matches Err(AppError::AccountError(AccountError::UserExistsByEmail(email)))
                &&& email == request.email
            },
            RegisterVerdict::Proceed => match r {
                Ok(user) => {
                    &&& old(state).db@.users.len() < i64::MAX
                    &&& final(state).db@.users.len() == old(state).db@.users.len() + 1
                    &&& final(state).db@ == registered(
                        old(state).db@,
                        request.email,
                        final(state).db@.users.last().password,
                    )
                    &&& argon2_verify(request.password@, final(state).db@.users.last().password@)
                        == Some(true)
                    &&& user == UserResponse {
                        id: (old(state).db@.users.len() + 1) as i64,
                        email: request.email,
                    }
                },
                Err(e) => {
                    &&& final(state).db@ == old(state).db@
                    &&& e is Argon2PasswordHashError || (e is SqlxError && old(
                        state,
                    ).db@.users.len() == i64::MAX)
                },
            },
        },
{
    proof {
        lemma_credential_failures(
            request.email@,
            request.password@,
            Seq::new(
                CreateUserRequest::spec_validated_properties().len(),
                |i: int|
                    request.spec_validate_property(CreateUserRequest::spec_validated_properties()[i]),
            ),
        );
    }
    match request.validate() {
        Err(errors) => {
            return Err(AppError::ValidationError(errors));
        },
        Ok(()) => {},
    }
    let exists = user_exists_by_email(&state.db, request.email.as_str());
    match registration_step(request, exists) {
        Ok(user) => complete_registration(state, user.email, Ok(user.password)),
        Err(error) => Err(error),
    }
}

/// How a login ends.
#[derive(Clone, Copy, Debug, PartialEq, Eq, Structural)]
pub enum LoginVerdict {
    /// No user has the address.
    UserNotFound,
    /// The lockout has tripped.
    AccountLocked,
    /// The password does not match; the failure is recorded.
    InvalidCredentials,
    /// The hasher failed.
    HasherFailure,
    /// The store refuses the new session.
    StoreFailure,
    /// A session is granted.
    Granted,
}

/// How a login of `user` ends where verifying the password gave `check` and
/// the new session would carry the given token pair. The lockout is asked
/// first, then the password, then the store.
pub open spec fn login_verdict_for(
    db: DatabaseView,
    user: UserEntity,
    check: Option<bool>,
    session_token: Seq<char>,
    refresh_token: Seq<char>,
) -> LoginVerdict {
    if user.login_attempts >= MAX_LOGIN_ATTEMPTS {
        LoginVerdict::AccountLocked
    } else {
        match check {
            Some(false) => LoginVerdict::InvalidCredentials,
            None => LoginVerdict::HasherFailure,
            Some(true) => if db.admits_session(user.id, session_token, refresh_token) {
                LoginVerdict::Granted
            } else {
                LoginVerdict::StoreFailure
            },
        }
    }
}

/// How a login with `email` and `password` ends in the store `db`.
pub open spec fn login_verdict(
    db: DatabaseView,
    email: Seq<char>,
    password: Seq<char>,
    session_token: Seq<char>,
    refresh_token: Seq<char>,
) -> LoginVerdict {
    match db.user_by_email(email) {
        None => LoginVerdict::UserNotFound,
        Some(user) => login_verdict_for(
            db,
            user,
            argon2_verify(password, user.password@),
            session_token,
            refresh_token,
        ),
    }
}

/// The store with a session granted to `user_id` at `now`: every session of
/// theirs that was not revoked is revoked for `reason`, and the new one is
/// inserted with the deadlines that `config` sets.
pub open spec fn with_session_granted(
    db: DatabaseView,
    config: AppConfig,
    user_id: i64,
    reason: RevocationReason,
    now: DbDateTime,
    session_token: String,
    refresh_token: String,
) -> DatabaseView {
    db.with_sessions_revoked(user_id, reason, now).with_session(
        user_id,
        CreateSessionEntity::spec_at(config, now, session_token, refresh_token),
    )
}

/// The session that `with_session_granted` inserts.
pub open spec fn session_granted(
    db: DatabaseView,
    config: AppConfig,
    user_id: i64,
    now: DbDateTime,
    session_token: String,
    refresh_token: String,
) -> SessionEntity {
    db.new_session(user_id, CreateSessionEntity::spec_at(config, now, session_token, refresh_token))
}

/// The store after a login of `user` at `now` that ended in `verdict`: a
/// mismatch records one more failed login, stamped `now`; a grant revokes
/// the user's sessions as superseded and inserts the new one; every other
/// ending leaves the store as it was.
pub open spec fn login_effect_for(
    db: DatabaseView,
    config: AppConfig,
    user: UserEntity,
    verdict: LoginVerdict,
    now: DbDateTime,
    session_token: String,
    refresh_token: String,
) -> DatabaseView {
    match verdict {
        LoginVerdict::InvalidCredentials => db.with_failed_login(
            user.id,
            FailedLoginAttempt::spec_after(user.login_attempts, now),
        ),
        LoginVerdict::Granted => with_session_granted(
            db,
            config,
            user.id,
            RevocationReason::NewSession,
            now,
            session_token,
            refresh_token,
        ),
        _ => db,
    }
}

/// The store after a login with `email` and `password` at `now`.
pub open spec fn login_effect(
    db: DatabaseView,
    config: AppConfig,
    email: Seq<char>,
    password: Seq<char>,
    now: DbDateTime,
    session_token: String,
    refresh_token: String,
) -> DatabaseView {
    match db.user_by_email(email) {
        None => db,
        Some(user) => login_effect_for(
            db,
            config,
            user,
            login_verdict(db, email, password, session_token@, refresh_token@),
            now,
            session_token,
            refresh_token,
        ),
    }
}

/// Whether `r` is the answer that a login of `user` owes after ending in
/// `verdict`.
pub open spec fn is_login_answer(
    r: AppResult<AuthenticatedResponse>,
    verdict: LoginVerdict,
    email: String,
    session: SessionEntity,
    user: UserEntity,
) -> bool {
    match verdict {
        LoginVerdict::UserNotFound => {
            &&& r matches Err(AppError::AccountError(AccountError::UserDoesNotExistByEmail(e)))
            &&& e == email
        },
        LoginVerdict::AccountLocked => r matches Err(
            AppError::AccountError(AccountError::MaxLoginAttempts),
        ),
        LoginVerdict::InvalidCredentials => r matches Err(
            AppError::AccountError(AccountError::InvalidCredentials),
        ),
        LoginVerdict::HasherFailure => {
            &&& r matches Err(e)
            &&& e is Argon2PasswordHashError
        },
        LoginVerdict::StoreFailure => {
            &&& r matches Err(e)
            &&& e is SqlxError
        },
        LoginVerdict::Granted => r == Ok::<AuthenticatedResponse, AppError>(
            AuthenticatedResponse::spec_new(session, user),
        ),
    }
}

/// What the outcome of the password check of a login stands for.
pub open spec fn check_of(password_check: AppResult<()>) -> Option<bool> {
    match password_check {
        Ok(()) => Some(true),
        Err(AppError::AccountError(AccountError::InvalidCredentials)) => Some(false),
        Err(_) => None,
    }
}

/// What a login does to the store, once the user has been looked up and
/// the password checked.
#[derive(Debug)]
pub enum LoginStep {
    /// The login is refused and the store is left alone.
    Refuse(AppError),
    /// The failure is recorded on the user, then the login is refused.
    RecordFailure { user_id: i64, failed_login_attempt: FailedLoginAttempt, error: AppError },
    /// The sessions of the user are revoked as superseded and the new
    /// session is stored, both or neither; then both are answered.
    Grant { user: UserEntity, new_session: CreateSessionEntity },
}

/// What the login of `user` does on the outcome `password_check` of
/// checking the password: a match grants the session `new_session`; a
/// mismatch is recorded on the user, one failure more, stamped `now`; any
/// other failure is handed on.
pub fn login_decision(
    user: UserEntity,
    password_check: AppResult<()>,
    now: DbDateTime,
    new_session: CreateSessionEntity,
) -> (r: LoginStep)
    requires
        user.login_attempts < i64::MAX,
    ensures
        r == (match password_check {
            Ok(()) => LoginStep::Grant { user, new_session },
            Err(error) => if check_of(password_check) == Some(false) {
                LoginStep::RecordFailure {
                    user_id: user.id,
                    failed_login_attempt: FailedLoginAttempt::spec_after(user.login_attempts, now),
                    error,
                }
            } else {
                LoginStep::Refuse(error)
            },
        }),
{
    match password_check {
        Ok(()) => LoginStep::Grant { user, new_session },
        Err(error) => {
            let recorded = match &error {
                AppError::AccountError(account_error) => account_error.is_invalid_credentials(),
                _ => false,
            };
            if recorded {
                LoginStep::RecordFailure {
                    user_id: user.id,
                    failed_login_attempt: FailedLoginAttempt::after(&user, now),
                    error,
                }
            } else {
                LoginStep::Refuse(error)
            }
        },
    }
}

/// What a login at `now` does once the user has been looked up. An unknown
/// address is refused at once. A user whose lockout has tripped is refused
/// before the password is looked at. Otherwise the password is verified
/// against the hash stored: a match grants the session `new_session`, and a
/// mismatch is recorded on the user, one failure more, stamped `now`.
pub fn login_step(
    user: Option<UserEntity>,
    request: AuthenticateRequest,
    now: DbDateTime,
    new_session: CreateSessionEntity,
) -> (r: LoginStep)
    ensures
        match user {
            None => r == LoginStep::Refuse(
                AppError::AccountError(AccountError::UserDoesNotExistByEmail(request.email)),
            ),
            Some(user) => if user.login_attempts >= MAX_LOGIN_ATTEMPTS {
                r == LoginStep::Refuse(AppError::AccountError(AccountError::MaxLoginAttempts))
            } else {
                match argon2_verify(request.password@, user.password@) {
                    Some(true) => r == (LoginStep::Grant { user, new_session }),
                    Some(false) => r == (LoginStep::RecordFailure {
                        user_id: user.id,
                        failed_login_attempt: FailedLoginAttempt::spec_after(
                            user.login_attempts,
                            now,
                        ),
                        error: AppError::AccountError(AccountError::InvalidCredentials),
                    }),
                    None => {
                        &&& r matches LoginStep::Refuse(e)
                        &&& e is Argon2PasswordHashError
                    },
                }
            },
        },
{
    let Some(user) = user else {
        return LoginStep::Refuse(
            AppError::AccountError(AccountError::UserDoesNotExistByEmail(request.email)),
        );
    };
    match validate_max_login_attempts(&user) {
        Err(error) => {
            return LoginStep::Refuse(error);
        },
        Ok(()) => {},
    }
    let password_check = validate_user_password(request.password.as_str(), user.password.as_str());
    login_decision(user, password_check, now, new_session)
}

/// Does to the store at `now` what the login decided, and answers. A grant
/// that the store cannot take, because a token of the new session is in
/// use, fails as a whole: nothing is revoked.
pub fn apply_login_step(state: &mut AppState, step: LoginStep, now: DbDateTime) -> (r: AppResult<
    AuthenticatedResponse,
>)
    requires
        old(state).wf(),
        step matches LoginStep::RecordFailure { failed_login_attempt, .. }
            ==> failed_login_attempt.login_attempts >= 0,
        step matches LoginStep::Grant { new_session, .. } ==> new_session.wf(),
    ensures
        final(state).wf(),
        final(state).config == old(state).config,
        match step {
            LoginStep::Refuse(error) => {
                &&& final(state).db@ == old(state).db@
                &&& r == Err::<AuthenticatedResponse, AppError>(error)
            },
            LoginStep::RecordFailure { user_id, failed_login_attempt, error } => {
                &&& final(state).db@ == old(state).db@.with_failed_login(
                    user_id,
                    failed_login_attempt,
                )
                &&& r == Err::<AuthenticatedResponse, AppError>(error)
            },
            LoginStep::Grant { user, new_session } => if old(state).db@.admits_session(
                user.id,
                new_session.token@,
                new_session.refresh_token@,
            ) {
                &&& final(state).db@ == old(state).db@.with_sessions_revoked(
                    user.id,
                    RevocationReason::NewSession,
                    now,
                ).with_session(user.id, new_session)
                &&& r == Ok::<AuthenticatedResponse, AppError>(
                    AuthenticatedResponse::spec_new(
                        old(state).db@.new_session(user.id, new_session),
                        user,
                    ),
                )
            } else {
                &&& final(state).db@ == old(state).db@
                &&& r matches Err(e)
                &&& e is SqlxError
            },
        },
{
    match step {
        LoginStep::Refuse(error) => Err(error),
        LoginStep::RecordFailure { user_id, failed_login_attempt, error } => {
            update_failed_login(&mut state.db, user_id, failed_login_attempt);
            Err(error)
        },
        LoginStep::Grant { user, new_session } => {
            if !can_create_session(
                &state.db,
                user.id,
                new_session.token.as_str(),
                new_session.refresh_token.as_str(),
            ) {
                return Err(AppError::SqlxError(String::from_str(UNIQUE_CONSTRAINT_FAILED)));
            }
            proof {
                lemma_revocation_keeps_tokens(
                    state.db@,
                    user.id,
                    RevocationReason::NewSession,
                    now,
                    new_session.token@,
                    new_session.refresh_token@,
                );
            }
            revoke_session_for_user_id(&mut state.db, user.id, RevocationReason::NewSession, now);
            match create_session(&mut state.db, user.id, new_session) {
                Ok(session) => Ok(AuthenticatedResponse::new(session, user)),
                Err(error) => Err(error),
            }
        },
    }
}

/// Ends the login of `user`, whose lockout has not tripped, on the outcome
/// `password_check` of checking the password. A mismatch is recorded on the
/// user before it is reported. A match revokes the user's sessions and
/// inserts the new one, both or neither. Any other failure is handed on.
pub fn complete_login(
    state: &mut AppState,
    user: UserEntity,
    password_check: AppResult<()>,
    now: DbDateTime,
    session_token: String,
    refresh_token: String,
) -> (r: AppResult<AuthenticatedResponse>)
    requires
        old(state).wf(),
        old(state).config.admits(now),
        old(state).db@.user_by_id(user.id) == Some(user),
        user.login_attempts < MAX_LOGIN_ATTEMPTS,
    ensures
        final(state).wf(),
        final(state).config == old(state).config,
        final(state).db@ == login_effect_for(
            old(state).db@,
            old(state).config,
            user,
            login_verdict_for(
                old(state).db@,
                user,
                check_of(password_check),
                session_token@,
                refresh_token@,
            ),
            now,
            session_token,
            refresh_token,
        ),
        match password_check {
            Ok(()) => is_login_answer(
                r,
                login_verdict_for(
                    old(state).db@,
                    user,
                    Some(true),
                    session_token@,
                    refresh_token@,
                ),
                user.email,
                session_granted(
                    old(state).db@,
                    old(state).config,
                    user.id,
                    now,
                    session_token,
                    refresh_token,
                ),
                user,
            ),
            Err(error) => r == Err::<AuthenticatedResponse, AppError>(error),
        },
{
    proof {
        lemma_user_by_id(state.db@, user.id);
    }
    let new_session = CreateSessionEntity::at(&state.config, now, session_token, refresh_token);
    let step = login_decision(user, password_check, now, new_session);
    apply_login_step(state, step, now)
}

/// Logs a user in at `now`. An unknown address is refused at once. A user
/// whose lockout has tripped is refused before the password is looked at.
/// A password that does not match adds one failed login to the user's
/// record, stamped `now`. A password that matches revokes the user's
/// sessions and grants a new one under the given token pair, with the
/// deadlines that the configuration sets, both or neither; the counter of
/// failed logins stays as it is.
pub fn login(
    state: &mut AppState,
    request: AuthenticateRequest,
    now: DbDateTime,
    session_token: String,
    refresh_token: String,
) -> (r: AppResult<AuthenticatedResponse>)
    requires
        old(state).wf(),
        old(state).config.admits(now),
    ensures
        final(state).wf(),
        final(state).config == old(state).config,
        final(state).db@ == login_effect(
            old(state).db@,
            old(state).config,
            request.email@,
            request.password@,
            now,
            session_token,
            refresh_token,
        ),
        match old(state).db@.user_by_email(request.email@) {
            None => {
                &&& r matches Err(AppError::AccountError(AccountError::UserDoesNotExistByEmail(e)))
                &&& e == request.email
            },
            Some(user) => is_login_answer(
                r,
                login_verdict(
                    old(state).db@,
                    request.email@,
                    request.password@,
                    session_token@,
                    refresh_token@,
                ),
                request.email,
                session_granted(
                    old(state).db@,
                    old(state).config,
                    user.id,
                    now,
                    session_token,
                    refresh_token,
                ),
                user,
            ),
        },
{
    let user = find_user_by_email(&state.db, request.email.as_str());
    proof {
        lemma_user_by_email(state.db@, request.email@);
    }
    let new_session = CreateSessionEntity::at(&state.config, now, session_token, refresh_token);
    let step = login_step(user, request, now, new_session);
    apply_login_step(state, step, now)
}

/// Requires that `presented` is the refresh token of `session`: to hold the
/// session token alone does not suffice for a renewal.
pub fn validate_token_pair(session: &SessionEntity, presented: &str) -> (r: AppResult<()>)
    ensures
        session.refresh_token@ == presented@ ==> r is Ok,
        session.refresh_token@ != presented@ ==> r matches Err(
            AppError::AccountError(AccountError::TokenPairMismatch),
        ),
{
    if str_equal(session.refresh_token.as_str(), presented) {
        Ok(())
    } else {
        Err(AppError::AccountError(AccountError::TokenPairMismatch))
    }
}

/// Who a renewal grants a session, once the owner of the session has been
/// looked up: the refresh token presented must be that of the session, and
/// the owner must be there.
pub fn extend_session_step(
    session: &SessionEntity,
    request: &ExtendSessionRequest,
    owner: Option<UserEntity>,
) -> (r: AppResult<UserEntity>)
    ensures
        if session.refresh_token@ != request.refresh_token@ {
            r matches Err(AppError::AccountError(AccountError::TokenPairMismatch))
        } else {
            match owner {
                None => {
                    &&& r matches Err(
                        AppError::AccountError(AccountError::UserDoesNotExistById(id)),
                    )
                    &&& id == session.user_id
                },
                Some(user) => r == Ok::<UserEntity, AppError>(user),
            }
        },
{
    match validate_token_pair(session, request.refresh_token.as_str()) {
        Err(error) => {
            return Err(error);
        },
        Ok(()) => {},
    }
    match owner {
        Some(user) => Ok(user),
        None => Err(AppError::AccountError(AccountError::UserDoesNotExistById(session.user_id))),
    }
}

/// How a renewal ends.
#[derive(Clone, Copy, Debug, PartialEq, Eq, Structural)]
pub enum ExtendVerdict {
    /// The refresh token presented is not that of the session.
    TokenPairMismatch,
    /// The user who owns the session is gone.
    UserNotFound,
    /// The store refuses the new session.
    StoreFailure,
    /// The session is exchanged for a new one.
    Granted,
}

/// How the renewal of `session` ends where `presented` is the refresh token
/// that the caller holds and the new session would carry the given token
/// pair. The token pair is asked first, then the user, then the store.
pub open spec fn extend_session_verdict(
    db: DatabaseView,
    session: SessionEntity,
    presented: Seq<char>,
    session_token: Seq<char>,
    refresh_token: Seq<char>,
) -> ExtendVerdict {
    if session.refresh_token@ != presented {
        ExtendVerdict::TokenPairMismatch
    } else if db.user_by_id(session.user_id) is None {
        ExtendVerdict::UserNotFound
    } else if !db.admits_session(session.user_id, session_token, refresh_token) {
        ExtendVerdict::StoreFailure
    } else {
        ExtendVerdict::Granted
    }
}

/// The store after the renewal of `session` at `now`: a grant revokes the
/// sessions of the owner as extended and inserts the new one; every other
/// ending leaves the store as it was.
pub open spec fn extend_session_effect(
    db: DatabaseView,
    config: AppConfig,
    session: SessionEntity,
    presented: Seq<char>,
    now: DbDateTime,
    session_token: String,
    refresh_token: String,
) -> DatabaseView {
    match extend_session_verdict(db, session, presented, session_token@, refresh_token@) {
        ExtendVerdict::Granted => with_session_granted(
            db,
            config,
            session.user_id,
            RevocationReason::SessionExtended,
            now,
            session_token,
            refresh_token,
        ),
        _ => db,
    }
}

/// Exchanges a session that the access check has resolved as renewable for a new
/// one. The caller must hold the refresh token of that session: with
/// another one the renewal is refused and nothing is revoked. With the
/// right one, the sessions of the owner are revoked as extended and a new
/// session is granted to the same user under the given token pair, both or
/// neither.
pub fn extend_session(
    state: &mut AppState,
    session: PossiblyExpiredSession,
    request: ExtendSessionRequest,
    now: DbDateTime,
    session_token: String,
    refresh_token: String,
) -> (r: AppResult<AuthenticatedResponse>)
    requires
        old(state).wf(),
        old(state).config.admits(now),
    ensures
        final(state).wf(),
        final(state).config == old(state).config,
        final(state).db@ == extend_session_effect(
            old(state).db@,
            old(state).config,
            session.0,
            request.refresh_token@,
            now,
            session_token,
            refresh_token,
        ),
        session.0.refresh_token@ != request.refresh_token@ ==> {
            &&& final(state).db@ == old(state).db@
            &&& r matches Err(AppError::AccountError(AccountError::TokenPairMismatch))
        },
        match extend_session_verdict(
            old(state).db@,
            session.0,
            request.refresh_token@,
            session_token@,
            refresh_token@,
        ) {
            ExtendVerdict::TokenPairMismatch => r matches Err(
                AppError::AccountError(AccountError::TokenPairMismatch),
            ),
            ExtendVerdict::UserNotFound => {
                &&& r matches Err(AppError::AccountError(AccountError::UserDoesNotExistById(id)))
                &&& id == session.0.user_id
            },
            ExtendVerdict::StoreFailure => {
                &&& r matches Err(e)
                &&& e is SqlxError
            },
            ExtendVerdict::Granted => r == Ok::<AuthenticatedResponse, AppError>(
                AuthenticatedResponse::spec_new(
                    session_granted(
                        old(state).db@,
                        old(state).config,
                        session.0.user_id,
                        now,
                        session_token,
                        refresh_token,
                    ),
                    old(state).db@.user_by_id(session.0.user_id)->0,
                ),
            ),
        },
{
    let PossiblyExpiredSession(session) = session;
    let owner = find_user_by_id(&state.db, session.user_id);
    let user = match extend_session_step(&session, &request, owner) {
        Ok(user) => user,
        Err(error) => {
            return Err(error);
        },
    };
    let new_session = CreateSessionEntity::at(&state.config, now, session_token, refresh_token);
    proof {
        lemma_user_by_id(state.db@, session.user_id);
    }
    if !can_create_session(
        &state.db,
        session.user_id,
        new_session.token.as_str(),
        new_session.refresh_token.as_str(),
    ) {
        return Err(AppError::SqlxError(String::from_str(UNIQUE_CONSTRAINT_FAILED)));
    }
    proof {
        lemma_revocation_keeps_tokens(
            state.db@,
            session.user_id,
            RevocationReason::SessionExtended,
            now,
            new_session.token@,
            new_session.refresh_token@,
        );
    }
    revoke_session_for_user_id(
        &mut state.db,
        session.user_id,
        RevocationReason::SessionExtended,
        now,
    );
    match create_session(&mut state.db, session.user_id, new_session) {
        Ok(created) => Ok(AuthenticatedResponse::new(created, user)),
        Err(error) => Err(error),
    }
}

/// Logs the user out at `now`: every session of theirs that is not revoked
/// is revoked as logged out. Without such a session nothing changes.
pub fn logout(state: &mut AppState, user: CurrentUser, now: DbDateTime)
    requires
        old(state).wf(),
    ensures
        final(state).wf(),
        final(state).config == old(state).config,
        final(state).db@ == old(state).db@.with_sessions_revoked(
            user.0.id,
            RevocationReason::LoggedOut,
            now,
        ),
{
    revoke_session_for_user_id(&mut state.db, user.0.id, RevocationReason::LoggedOut, now);
}

/// Granting a session keeps the store well formed and touches neither the
/// users nor the reset transactions. The session granted is the last row;
/// its session token expires after `now` and its refresh token later
/// still. Every session that the user had before is revoked.
pub proof fn lemma_session_granted(
    db: DatabaseView,
    config: AppConfig,
    user_id: i64,
    reason: RevocationReason,
    now: DbDateTime,
    session_token: String,
    refresh_token: String,
)
    requires
        db.wf(),
        config.wf(),
        config.admits(now),
        db.admits_session(user_id, session_token@, refresh_token@),
    ensures
        ({
            let after = with_session_granted(
                db,
                config,
                user_id,
                reason,
                now,
                session_token,
                refresh_token,
            );
            let session = session_granted(db, config, user_id, now, session_token, refresh_token);
            &&& after.wf()
            &&& after.users == db.users
            &&& after.transactions == db.transactions
            &&& after.sessions.last() == session
            &&& now.0 < session.token_expiry.0 < session.refresh_token_expiry.0
            &&& forall|i: int|
                0 <= i < db.sessions.len() && (#[trigger] db.sessions[i]).user_id == user_id
                    ==> !after.sessions[i].is_active()
        }),
{
    let revoked = db.with_sessions_revoked(user_id, reason, now);
    let new_session = CreateSessionEntity::spec_at(config, now, session_token, refresh_token);
    lemma_with_sessions_revoked(db, user_id, reason, now);
    lemma_revocation_keeps_tokens(db, user_id, reason, now, session_token@, refresh_token@);
    assert(revoked.admits_session(user_id, session_token@, refresh_token@));
    lemma_with_session(revoked, user_id, new_session);
}

/// Registration followed at once by a login with the same credentials is
/// granted a session, and the session token of that session expires after
/// the login, the refresh token later still. Here `hash` is the hash that
/// registration stored, which verifies against the password, and the token
/// pair of the new session is one that the store can take.
pub proof fn lemma_register_then_login(
    db: DatabaseView,
    config: AppConfig,
    request: CreateUserRequest,
    hash: String,
    now: DbDateTime,
    session_token: String,
    refresh_token: String,
)
    requires
        db.wf(),
        config.wf(),
        config.admits(now),
        register_verdict(db, request) == RegisterVerdict::Proceed,
        db.users.len() < i64::MAX,
        argon2_verify(request.password@, hash@) == Some(true),
        registered(db, request.email, hash).admits_session(
            (db.users.len() + 1) as i64,
            session_token@,
            refresh_token@,
        ),
    ensures
        ({
            let after = registered(db, request.email, hash);
            let session = session_granted(
                after,
                config,
                (db.users.len() + 1) as i64,
                now,
                session_token,
                refresh_token,
            );
            &&& after.wf()
            &&& login_verdict(
                after,
                request.email@,
                request.password@,
                session_token@,
                refresh_token@,
            ) == LoginVerdict::Granted
            &&& now.0 < session.token_expiry.0 < session.refresh_token_expiry.0
            &&& login_effect(
                after,
                config,
                request.email@,
                request.password@,
                now,
                session_token,
                refresh_token,
            ).sessions.last() == session
        }),
{
    let user = CreateUserEntity { email: request.email, password: hash };
    let after = registered(db, request.email, hash);
    lemma_with_user(db, user);
    lemma_session_granted(
        after,
        config,
        db.new_user(user).id,
        RevocationReason::NewSession,
        now,
        session_token,
        refresh_token,
    );
}

/// A login that ends on a wrong password adds exactly one to the user's
/// counter of failed logins and stamps the failure with the time of the
/// login. Nothing else changes: not the user's address, hash or role, not
/// another user, no session and no transaction.
pub proof fn lemma_failed_login_is_counted(
    db: DatabaseView,
    config: AppConfig,
    email: Seq<char>,
    password: Seq<char>,
    now: DbDateTime,
    session_token: String,
    refresh_token: String,
)
    requires
        db.wf(),
        login_verdict(db, email, password, session_token@, refresh_token@)
            == LoginVerdict::InvalidCredentials,
    ensures
        ({
            let after = login_effect(
                db,
                config,
                email,
                password,
                now,
                session_token,
                refresh_token,
            );
            &&& after.wf()
            &&& db.user_by_email(email) matches Some(before)
            &&& after.user_by_email(email) == Some(
                UserEntity {
                    login_attempts: (before.login_attempts + 1) as i64,
                    last_failed_login_attempt: Some(now),
                    ..before
                },
            )
            &&& before.login_attempts + 1 <= MAX_LOGIN_ATTEMPTS
            &&& forall|other: Seq<char>|
                other != email ==> after.user_by_email(other) == #[trigger] db.user_by_email(other)
            &&& after.sessions == db.sessions
            &&& after.transactions == db.transactions
        }),
{
    let before = db.user_by_email(email)->0;
    let attempt = FailedLoginAttempt::spec_after(before.login_attempts, now);
    let after = login_effect(db, config, email, password, now, session_token, refresh_token);
    lemma_user_by_email(db, email);
    lemma_with_failed_login(db, before.id, attempt, email);
    assert forall|other: Seq<char>| other != email implies after.user_by_email(other)
        == #[trigger] db.user_by_email(other) by {
        lemma_with_failed_login(db, before.id, attempt, other);
        lemma_user_by_email(db, other);
    }
}

/// A login with a wrong password leaves the user under their address, with
/// the same hash, and with one more failed login on record, unless the
/// lockout had tripped already: then the record stays as it is.
proof fn lemma_wrong_password(
    db: DatabaseView,
    config: AppConfig,
    email: Seq<char>,
    password: Seq<char>,
    now: DbDateTime,
    session_token: String,
    refresh_token: String,
)
    requires
        db.wf(),
        db.user_by_email(email) matches Some(user) && argon2_verify(password, user.password@)
            == Some(false),
    ensures
        ({
            let before = db.user_by_email(email)->0;
            let after = login_effect(
                db,
                config,
                email,
                password,
                now,
                session_token,
                refresh_token,
            );
            &&& after.wf()
            &&& after.user_by_email(email) matches Some(user)
            &&& user.password == before.password
            &&& user.login_attempts == (if before.login_attempts < MAX_LOGIN_ATTEMPTS {
                before.login_attempts + 1
            } else {
                before.login_attempts as int
            })
        }),
{
    let before = db.user_by_email(email)->0;
    lemma_user_by_email(db, email);
    if before.login_attempts < MAX_LOGIN_ATTEMPTS {
        lemma_failed_login_is_counted(
            db,
            config,
            email,
            password,
            now,
            session_token,
            refresh_token,
        );
    }
}

/// After three logins in a row with a wrong password, a fourth login is
/// refused as locked, whatever password it presents, the right one
/// included. Each of the four logins has its own time and its own token
/// pair.
pub proof fn lemma_three_failures_lock_the_account(
    db: DatabaseView,
    config: AppConfig,
    email: Seq<char>,
    wrong: Seq<Seq<char>>,
    times: Seq<DbDateTime>,
    session_tokens: Seq<String>,
    refresh_tokens: Seq<String>,
    password: Seq<char>,
)
    requires
        db.wf(),
        wrong.len() == 3,
        times.len() == 3,
        session_tokens.len() == 4,
        refresh_tokens.len() == 4,
        db.user_by_email(email) matches Some(user) && forall|k: int|
            0 <= k < 3 ==> argon2_verify(#[trigger] wrong[k], user.password@) == Some(false),
    ensures
        ({
            let first = login_effect(
                db,
                config,
                email,
                wrong[0],
                times[0],
                session_tokens[0],
                refresh_tokens[0],
            );
            let second = login_effect(
                first,
                config,
                email,
                wrong[1],
                times[1],
                session_tokens[1],
                refresh_tokens[1],
            );
            let third = login_effect(
                second,
                config,
                email,
                wrong[2],
                times[2],
                session_tokens[2],
                refresh_tokens[2],
            );
            login_verdict(third, email, password, session_tokens[3]@, refresh_tokens[3]@)
                == LoginVerdict::AccountLocked
        }),
{
    let first = login_effect(
        db,
        config,
        email,
        wrong[0],
        times[0],
        session_tokens[0],
        refresh_tokens[0],
    );
    let second = login_effect(
        first,
        config,
        email,
        wrong[1],
        times[1],
        session_tokens[1],
        refresh_tokens[1],
    );
    lemma_user_by_email(db, email);
    lemma_wrong_password(db, config, email, wrong[0], times[0], session_tokens[0], refresh_tokens[0]);
    lemma_wrong_password(
        first,
        config,
        email,
        wrong[1],
        times[1],
        session_tokens[1],
        refresh_tokens[1],
    );
    lemma_wrong_password(
        second,
        config,
        email,
        wrong[2],
        times[2],
        session_tokens[2],
        refresh_tokens[2],
    );
}

/// A session is renewed at most once: after a renewal was granted on its
/// token pair, no renewable session is found under its token any more, at
/// whatever time, so a second renewal on the same pair is refused as
/// invalid or expired before it begins.
pub proof fn lemma_session_is_renewed_once(
    db: DatabaseView,
    config: AppConfig,
    token: Seq<char>,
    presented: Seq<char>,
    now: DbDateTime,
    session_token: String,
    refresh_token: String,
    later: DbDateTime,
)
    requires
        db.wf(),
        config.wf(),
        config.admits(now),
        db.renewable_session(token, now) matches Some(session) && extend_session_verdict(
            db,
            session,
            presented,
            session_token@,
            refresh_token@,
        ) == ExtendVerdict::Granted,
    ensures
        ({
            let after = extend_session_effect(
                db,
                config,
                db.renewable_session(token, now)->0,
                presented,
                now,
                session_token,
                refresh_token,
            );
            &&& after.wf()
            &&& after.renewable_session(token, later) is None
        }),
{
    let session = db.renewable_session(token, now)->0;
    let after = extend_session_effect(
        db,
        config,
        session,
        presented,
        now,
        session_token,
        refresh_token,
    );
    lemma_first_true(db.renewable_hits(token, now));
    let found = first_true(db.renewable_hits(token, now))->0;
    lemma_session_granted(
        db,
        config,
        session.user_id,
        RevocationReason::SessionExtended,
        now,
        session_token,
        refresh_token,
    );
    lemma_first_true(db.token_hits(session_token@));
    assert(!db.token_hits(session_token@)[found]);
    lemma_first_true(after.renewable_hits(token, later));
    assert forall|i: int| 0 <= i < after.sessions.len() implies !after.renewable_hits(
        token,
        later,
    )[i] by {
        if i < db.sessions.len() && i != found && db.sessions[i].token@ == token {
            if i < found {
                assert(db.sessions[i].token@ != db.sessions[found].token@);
            } else {
                assert(db.sessions[found].token@ != db.sessions[i].token@);
            }
        }
    }
}

/// A renewal that presents another refresh token than that of the session
/// is refused and changes nothing: the session stays as it was, not
/// revoked, and can still be renewed by its holder.
pub proof fn lemma_token_pair_mismatch_revokes_nothing(
    db: DatabaseView,
    config: AppConfig,
    session: SessionEntity,
    presented: Seq<char>,
    now: DbDateTime,
    session_token: String,
    refresh_token: String,
)
    requires
        session.refresh_token@ != presented,
    ensures
        extend_session_verdict(db, session, presented, session_token@, refresh_token@)
            == ExtendVerdict::TokenPairMismatch,
        extend_session_effect(db, config, session, presented, now, session_token, refresh_token)
            == db,
{
}

} // verus!
