use auth_backend::account::entities::forgot_password::CreateForgotPasswordTransactionEntity;
use auth_backend::account::entities::session::CreateSessionEntity;
use auth_backend::account::error::AccountError;
use auth_backend::account::handlers::auth::{login, register};
use auth_backend::account::handlers::forgot_password::{request_otp, reset_password, verify_otp};
use auth_backend::account::models::request::auth::{AuthenticateRequest, CreateUserRequest};
use auth_backend::account::models::request::forgot_password::{
    RequestOtpRequest, ResetPasswordRequest, VerifyOtpRequest,
};
use auth_backend::account::models::response::auth::AuthenticatedResponse;
use auth_backend::config::AppConfig;
use auth_backend::error::AppError;
use auth_backend::state::AppState;
use auth_backend::types::DbDateTime;

fn try_login(state: &mut AppState, password: &str) -> Result<AuthenticatedResponse, AppError> {
    let fresh = CreateSessionEntity::new(&state.config).unwrap();
    let now = DbDateTime::now();
    assert!(state.config.check_admits(now));
    login(
        state,
        AuthenticateRequest { email: "a@x.com".to_string(), password: password.to_string() },
        now,
        fresh.token,
        fresh.refresh_token,
    )
}

#[test]
fn lockout_is_cleared_only_by_a_password_reset() {
    let config = AppConfig::new(
        "127.0.0.1".to_string(),
        "8080".to_string(),
        "sqlite::memory:".to_string(),
        "debug".to_string(),
        (500, 600),
        900,
        86_400,
        300,
    )
    .unwrap();
    let mut state = AppState::new(config);
    register(
        &mut state,
        CreateUserRequest { email: "a@x.com".to_string(), password: "Abcdef1!".to_string() },
    )
    .unwrap();
    for attempt in 1..=3 {
        let error = try_login(&mut state, "Wrong123!").unwrap_err();
        assert!(matches!(error, AppError::AccountError(AccountError::InvalidCredentials)));
        assert_eq!(state.db.users[0].login_attempts, attempt);
    }
    let locked = try_login(&mut state, "Abcdef1!").unwrap_err();
    assert!(matches!(locked, AppError::AccountError(AccountError::MaxLoginAttempts)));
    assert_eq!(state.db.users[0].login_attempts, 3);
    assert!(state.db.sessions.is_empty());

    let challenge = CreateForgotPasswordTransactionEntity::new(&state.config, 1).unwrap();
    request_otp(
        &mut state,
        RequestOtpRequest { email: "a@x.com".to_string() },
        DbDateTime::now(),
        challenge.token,
        challenge.reset_password_token,
    )
    .unwrap();
    let otp = state.db.forgot_password_transactions[0].token.clone();
    let verified = verify_otp(
        &mut state,
        VerifyOtpRequest { email: "a@x.com".to_string(), otp },
        DbDateTime::now(),
    )
    .unwrap();
    assert_eq!(verified.token, state.db.forgot_password_transactions[0].reset_password_token);
    reset_password(
        &mut state,
        ResetPasswordRequest { token: verified.token, password: "Newpass1!".to_string() },
        DbDateTime::now(),
    )
    .unwrap();
    assert_eq!(state.db.users[0].login_attempts, 0);

    let response = try_login(&mut state, "Newpass1!").unwrap();
    assert_eq!(response.user.email, "a@x.com");
    assert_eq!(state.db.users[0].login_attempts, 0);
    assert_eq!(state.db.sessions.len(), 1);
    assert!(response.refresh_token_expiry.0 > response.session_token_expiry.0);
}

#[test]
fn a_new_session_has_fresh_tokens_and_ordered_deadlines() {
    let config = AppConfig::new(
        "h".to_string(),
        "p".to_string(),
        "d".to_string(),
        "l".to_string(),
        (0, 0),
        900,
        86_400,
        300,
    )
    .unwrap();
    let before = DbDateTime::now();
    let first = CreateSessionEntity::new(&config).unwrap();
    let second = CreateSessionEntity::new(&config).unwrap();
    assert_eq!(first.token().len(), 36);
    assert_eq!(first.refresh_token().len(), 36);
    assert_ne!(first.token(), first.refresh_token());
    assert_ne!(first.token(), second.token());
    assert_eq!(first.refresh_token_expiry().0 - first.token_expiry().0, (86_400 - 900) * 1000);
    assert!(first.token_expiry().0 >= before.0 + 900_000);
    let fixed = CreateSessionEntity::at(
        &config,
        DbDateTime::from_millis(5).unwrap(),
        "s".to_string(),
        "r".to_string(),
    );
    assert_eq!(fixed.token, "s");
    assert_eq!(fixed.refresh_token, "r");
    assert_eq!(fixed.token_expiry, DbDateTime(900_005));
    assert_eq!(fixed.refresh_token_expiry, DbDateTime(86_400_005));
}

#[test]
fn a_session_is_granted_only_where_its_deadlines_fit_the_calendar() {
    let config = AppConfig::new(
        "h".to_string(),
        "p".to_string(),
        "d".to_string(),
        "l".to_string(),
        (0, 0),
        60,
        120,
        30,
    )
    .unwrap();
    let last = auth_backend::types::MAX_TIMESTAMP_MILLIS;
    let granted =
        CreateSessionEntity::granted_at(&config, DbDateTime(1_000), "s".to_string(), "r".to_string())
            .unwrap();
    assert_eq!(granted.token, "s");
    assert_eq!(granted.refresh_token, "r");
    assert_eq!(granted.token_expiry, DbDateTime(61_000));
    assert_eq!(granted.refresh_token_expiry, DbDateTime(121_000));
    let at_the_edge = CreateSessionEntity::granted_at(
        &config,
        DbDateTime(last - 120_000),
        "s".to_string(),
        "r".to_string(),
    )
    .unwrap();
    assert_eq!(at_the_edge.refresh_token_expiry, DbDateTime(last));
    for now in [last - 119_999, last, last + 1, i64::MAX, i64::MIN] {
        assert!(CreateSessionEntity::granted_at(
            &config,
            DbDateTime(now),
            "s".to_string(),
            "r".to_string()
        )
        .is_none());
    }
}

#[test]
fn a_challenge_is_issued_only_where_its_deadline_fits_the_calendar() {
    let config = AppConfig::new(
        "h".to_string(),
        "p".to_string(),
        "d".to_string(),
        "l".to_string(),
        (0, 0),
        60,
        120,
        300,
    )
    .unwrap();
    let last = auth_backend::types::MAX_TIMESTAMP_MILLIS;
    let issued = CreateForgotPasswordTransactionEntity::issued_at(
        &config,
        7,
        DbDateTime(5),
        "123456".to_string(),
        "T".to_string(),
    )
    .unwrap();
    assert_eq!(issued.user_id, 7);
    assert_eq!(issued.token, "123456");
    assert_eq!(issued.reset_password_token, "T");
    assert_eq!(issued.expires_at, DbDateTime(300_005));
    let at_the_edge = CreateForgotPasswordTransactionEntity::issued_at(
        &config,
        7,
        DbDateTime(last - 300_000),
        "123456".to_string(),
        "T".to_string(),
    )
    .unwrap();
    assert_eq!(at_the_edge.expires_at, DbDateTime(last));
    for now in [last - 299_999, last, i64::MAX] {
        assert!(CreateForgotPasswordTransactionEntity::issued_at(
            &config,
            7,
            DbDateTime(now),
            "123456".to_string(),
            "T".to_string()
        )
        .is_none());
    }
    let drawn = CreateForgotPasswordTransactionEntity::new(&config, 3).unwrap();
    assert_eq!(drawn.user_id, 3);
    assert!(CreateSessionEntity::new(&config).is_some());
}
