use auth_backend::account::entities::session::{CreateSessionEntity, RevocationReason, SessionEntity};
use auth_backend::account::entities::user::{UserEntity, UserRole};
use auth_backend::account::error::AccountError;
use auth_backend::account::handlers::auth::{
    apply_login_step, complete_registration, extend_session_step, login_decision, login_step,
    registration_step, LoginStep,
};
use auth_backend::account::handlers::forgot_password::{
    request_otp_step, reset_password_answer, verify_otp_answer, verify_otp_step,
};
use auth_backend::account::models::request::auth::{
    AuthenticateRequest, CreateUserRequest, ExtendSessionRequest,
};
use auth_backend::account::models::request::forgot_password::{RequestOtpRequest, VerifyOtpRequest};
use auth_backend::account::utils::extractors::{
    Admin, CurrentRole, CurrentUser, PossiblyExpiredSession, User,
};
use auth_backend::account::utils::{hash_password, verify_password};
use auth_backend::config::AppConfig;
use auth_backend::error::AppError;
use auth_backend::state::AppState;
use auth_backend::types::DbDateTime;

fn user(attempts: i64, hash: &str) -> UserEntity {
    UserEntity {
        id: 4,
        email: "a@x.com".to_string(),
        password: hash.to_string(),
        role: UserRole::User,
        login_attempts: attempts,
        last_failed_login_attempt: None,
    }
}

fn fresh_session() -> CreateSessionEntity {
    CreateSessionEntity {
        token: "s".to_string(),
        refresh_token: "r".to_string(),
        token_expiry: DbDateTime(10),
        refresh_token_expiry: DbDateTime(20),
    }
}

fn credentials(password: &str) -> AuthenticateRequest {
    AuthenticateRequest { email: "a@x.com".to_string(), password: password.to_string() }
}

#[test]
fn registration_refuses_a_taken_address_and_hashes_otherwise() {
    let request = || CreateUserRequest { email: "a@x.com".to_string(), password: "Abcdef1!".to_string() };
    match registration_step(request(), true) {
        Err(AppError::AccountError(AccountError::UserExistsByEmail(email))) => {
            assert_eq!(email, "a@x.com")
        }
        other => panic!("unexpected: {:?}", other),
    }
    let prepared = registration_step(request(), false).unwrap();
    assert_eq!(prepared.email, "a@x.com");
    assert_ne!(prepared.password, "Abcdef1!");
    assert_eq!(verify_password("Abcdef1!", &prepared.password).unwrap(), true);
}

#[test]
fn a_login_decides_on_the_outcome_of_the_password_check() {
    match login_decision(user(1, "h"), Ok(()), DbDateTime(5), fresh_session()) {
        LoginStep::Grant { user, new_session } => {
            assert_eq!(user.id, 4);
            assert_eq!(new_session.token, "s");
            assert_eq!(new_session.refresh_token_expiry, DbDateTime(20));
        }
        other => panic!("unexpected: {:?}", other),
    }
    match login_decision(
        user(1, "h"),
        Err(AppError::AccountError(AccountError::InvalidCredentials)),
        DbDateTime(5),
        fresh_session(),
    ) {
        LoginStep::RecordFailure { user_id, failed_login_attempt, error } => {
            assert_eq!(user_id, 4);
            assert_eq!(failed_login_attempt.login_attempts, 2);
            assert_eq!(failed_login_attempt.last_failed_login_attempt, Some(DbDateTime(5)));
            assert!(matches!(error, AppError::AccountError(AccountError::InvalidCredentials)));
        }
        other => panic!("unexpected: {:?}", other),
    }
    match login_decision(
        user(1, "h"),
        Err(AppError::AccountError(AccountError::MaxLoginAttempts)),
        DbDateTime(5),
        fresh_session(),
    ) {
        LoginStep::Refuse(AppError::AccountError(AccountError::MaxLoginAttempts)) => {}
        other => panic!("unexpected: {:?}", other),
    }
    match login_decision(
        user(1, "h"),
        Err(AppError::SqlxError("x".to_string())),
        DbDateTime(5),
        fresh_session(),
    ) {
        LoginStep::Refuse(AppError::SqlxError(reason)) => assert_eq!(reason, "x"),
        other => panic!("unexpected: {:?}", other),
    }
}

#[test]
fn a_login_asks_for_the_user_then_the_lockout_then_the_password() {
    match login_step(None, credentials("Abcdef1!"), DbDateTime(5), fresh_session()) {
        LoginStep::Refuse(AppError::AccountError(AccountError::UserDoesNotExistByEmail(email))) => {
            assert_eq!(email, "a@x.com")
        }
        other => panic!("unexpected: {:?}", other),
    }
    let hash = hash_password("Abcdef1!").unwrap();
    match login_step(Some(user(3, &hash)), credentials("Abcdef1!"), DbDateTime(5), fresh_session()) {
        LoginStep::Refuse(AppError::AccountError(AccountError::MaxLoginAttempts)) => {}
        other => panic!("unexpected: {:?}", other),
    }
    match login_step(Some(user(3, "no hash")), credentials("x"), DbDateTime(5), fresh_session()) {
        LoginStep::Refuse(AppError::AccountError(AccountError::MaxLoginAttempts)) => {}
        other => panic!("unexpected: {:?}", other),
    }
    match login_step(Some(user(2, &hash)), credentials("Abcdef1?"), DbDateTime(5), fresh_session()) {
        LoginStep::RecordFailure { user_id, failed_login_attempt, error } => {
            assert_eq!(user_id, 4);
            assert_eq!(failed_login_attempt.login_attempts, 3);
            assert_eq!(failed_login_attempt.last_failed_login_attempt, Some(DbDateTime(5)));
            assert!(matches!(error, AppError::AccountError(AccountError::InvalidCredentials)));
        }
        other => panic!("unexpected: {:?}", other),
    }
    match login_step(Some(user(2, &hash)), credentials("Abcdef1!"), DbDateTime(5), fresh_session()) {
        LoginStep::Grant { user, new_session } => {
            assert_eq!(user.login_attempts, 2);
            assert_eq!(new_session.token, "s");
        }
        other => panic!("unexpected: {:?}", other),
    }
    match login_step(Some(user(0, "no hash")), credentials("x"), DbDateTime(5), fresh_session()) {
        LoginStep::Refuse(AppError::Argon2PasswordHashError(_)) => {}
        other => panic!("unexpected: {:?}", other),
    }
}

#[test]
fn a_login_step_is_applied_to_the_store() {
    let config = AppConfig::new(
        "h".to_string(),
        "p".to_string(),
        "d".to_string(),
        "l".to_string(),
        (0, 0),
        1,
        2,
        3,
    )
    .unwrap();
    let mut state = AppState::new(config);
    complete_registration(&mut state, "a@x.com".to_string(), Ok("h".to_string())).unwrap();
    let owner = state.db.users[0].clone();
    let refused = apply_login_step(
        &mut state,
        LoginStep::Refuse(AppError::AccountError(AccountError::MaxLoginAttempts)),
        DbDateTime(1),
    );
    assert!(matches!(refused, Err(AppError::AccountError(AccountError::MaxLoginAttempts))));
    assert_eq!(state.db.users[0].login_attempts, 0);
    let granted = apply_login_step(
        &mut state,
        LoginStep::Grant { user: owner.clone(), new_session: fresh_session() },
        DbDateTime(2),
    )
    .unwrap();
    assert_eq!(granted.session_token, "s");
    assert_eq!(granted.session_token_expiry, DbDateTime(10));
    assert_eq!(granted.refresh_token_expiry, DbDateTime(20));
    assert_eq!(granted.user.id, 1);
    let repeated = apply_login_step(
        &mut state,
        LoginStep::Grant { user: owner, new_session: fresh_session() },
        DbDateTime(3),
    );
    assert!(matches!(repeated, Err(AppError::SqlxError(_))));
    assert_eq!(state.db.sessions.len(), 1);
    assert!(state.db.sessions[0].revoked_at.is_none());
    assert_ne!(state.db.sessions[0].revocation_reason, Some(RevocationReason::NewSession));
}

#[test]
fn a_renewal_asks_for_the_token_pair_then_the_owner() {
    let session = SessionEntity {
        id: 1,
        user_id: 4,
        token: "s".to_string(),
        refresh_token: "r".to_string(),
        token_expiry: DbDateTime(10),
        refresh_token_expiry: DbDateTime(20),
        revoked_at: None,
        revocation_reason: None,
    };
    let presented = |token: &str| ExtendSessionRequest { refresh_token: token.to_string() };
    assert!(matches!(
        extend_session_step(&session, &presented("x"), Some(user(0, "h"))),
        Err(AppError::AccountError(AccountError::TokenPairMismatch))
    ));
    assert!(matches!(
        extend_session_step(&session, &presented("x"), None),
        Err(AppError::AccountError(AccountError::TokenPairMismatch))
    ));
    match extend_session_step(&session, &presented("r"), None) {
        Err(AppError::AccountError(AccountError::UserDoesNotExistById(id))) => assert_eq!(id, 4),
        other => panic!("unexpected: {:?}", other),
    }
    let owner = extend_session_step(&session, &presented("r"), Some(user(3, "h"))).unwrap();
    assert_eq!(owner.email, "a@x.com");
}

#[test]
fn the_reset_steps_refuse_what_is_not_there() {
    let request = || RequestOtpRequest { email: "a@x.com".to_string() };
    assert_eq!(request_otp_step(Some(user(0, "h")), request()).unwrap(), 4);
    match request_otp_step(None, request()) {
        Err(AppError::AccountError(AccountError::UserDoesNotExistByEmail(email))) => {
            assert_eq!(email, "a@x.com")
        }
        other => panic!("unexpected: {:?}", other),
    }
    let submission = || VerifyOtpRequest { email: "a@x.com".to_string(), otp: "123456".to_string() };
    let transaction = verify_otp_step(Some(user(0, "h")), submission()).unwrap();
    assert_eq!(transaction.user_id, 4);
    assert_eq!(transaction.token, "123456");
    assert!(matches!(
        verify_otp_step(None, submission()),
        Err(AppError::AccountError(AccountError::UserDoesNotExistByEmail(_)))
    ));
    assert_eq!(verify_otp_answer(Some("T".to_string())).unwrap().token, "T");
    assert!(matches!(
        verify_otp_answer(None),
        Err(AppError::AccountError(AccountError::InvalidOrExpiredOtp))
    ));
    assert_eq!(reset_password_answer(Some(9)).unwrap(), 9);
    assert!(matches!(
        reset_password_answer(None),
        Err(AppError::AccountError(AccountError::InvalidOrExpiredOtp))
    ));
}

#[test]
fn a_lookup_resolves_or_refuses() {
    assert!(matches!(
        PossiblyExpiredSession::from_lookup(None),
        Err(AppError::AccountError(AccountError::InvalidOrExpiredToken))
    ));
    assert!(matches!(
        CurrentUser::from_lookup(None),
        Err(AppError::AccountError(AccountError::InvalidOrExpiredToken))
    ));
    assert!(matches!(
        CurrentRole::<Admin>::from_lookup(None),
        Err(AppError::AccountError(AccountError::InvalidOrExpiredToken))
    ));
    assert_eq!(CurrentUser::from_lookup(Some(user(0, "h"))).unwrap().0.id, 4);
    assert!(CurrentRole::<User>::from_lookup(Some(user(0, "h"))).is_ok());
    assert!(matches!(
        CurrentRole::<Admin>::from_lookup(Some(user(0, "h"))),
        Err(AppError::AccountError(AccountError::InsufficientPrivilege))
    ));
    let mut admin = user(0, "h");
    admin.role = UserRole::Admin;
    assert!(CurrentRole::<Admin>::from_lookup(Some(admin)).is_ok());
}
