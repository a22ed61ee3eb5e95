use auth_backend::account::database::session_repository::{
    can_create_session, create_session, find_live_session_by_token,
    find_session_by_token_ignoring_expiration, find_user_by_token, revoke_session_for_user_id,
};
use auth_backend::account::database::user_repository::{
    create_user, find_user_by_email, find_user_by_id, update_failed_login,
    update_password_by_user_id, user_exists_by_email,
};
use auth_backend::account::database::{next_id, Database};
use auth_backend::account::entities::session::{CreateSessionEntity, RevocationReason};
use auth_backend::account::entities::user::{
    CreateUserEntity, FailedLoginAttempt, UserEntity, UserRole,
};
use auth_backend::account::error::AccountError;
use auth_backend::account::handlers::auth::{complete_login, complete_registration, validate_token_pair};
use auth_backend::account::handlers::user::get_current_user;
use auth_backend::account::utils::extractors::{
    require_role, session_token, Admin, CurrentRole, CurrentUser, PossiblyExpiredSession, Role,
    User,
};
use auth_backend::config::AppConfig;
use auth_backend::error::AppError;
use auth_backend::state::AppState;
use auth_backend::types::DbDateTime;

fn state_with_session() -> AppState {
    let config = AppConfig::new(
        "h".to_string(),
        "p".to_string(),
        "d".to_string(),
        "l".to_string(),
        (0, 0),
        60,
        120,
        30,
    )
    .unwrap();
    let mut state = AppState::new(config);
    complete_registration(&mut state, "user@x.com".to_string(), Ok("hash".to_string())).unwrap();
    complete_registration(&mut state, "root@x.com".to_string(), Ok("hash".to_string())).unwrap();
    state.db.users[1].role = UserRole::Admin;
    let user = state.db.users[0].clone();
    complete_login(&mut state, user, Ok(()), DbDateTime(0), "user-token".to_string(), "ur".to_string())
        .unwrap();
    let root = state.db.users[1].clone();
    complete_login(&mut state, root, Ok(()), DbDateTime(0), "root-token".to_string(), "rr".to_string())
        .unwrap();
    state
}

#[test]
fn the_session_header_is_read_or_refused() {
    assert!(matches!(
        session_token(None),
        Err(AppError::AccountError(AccountError::MissingTokenInHeader))
    ));
    match session_token(Some(Err("opaque bytes".to_string()))) {
        Err(AppError::HeaderToStrError(reason)) => assert_eq!(reason, "opaque bytes"),
        other => panic!("unexpected: {:?}", other),
    }
    assert_eq!(session_token(Some(Ok("abc".to_string()))).unwrap(), "abc");
}

#[test]
fn a_request_without_the_header_is_refused_by_every_accessor() {
    let state = state_with_session();
    assert!(matches!(
        PossiblyExpiredSession::from_request_parts(None, &state, DbDateTime(1)),
        Err(AppError::AccountError(AccountError::MissingTokenInHeader))
    ));
    assert!(matches!(
        CurrentUser::from_request_parts(None, &state, DbDateTime(1)),
        Err(AppError::AccountError(AccountError::MissingTokenInHeader))
    ));
    assert!(matches!(
        CurrentRole::<Admin>::from_request_parts(None, &state, DbDateTime(1)),
        Err(AppError::AccountError(AccountError::MissingTokenInHeader))
    ));
}

#[test]
fn the_current_user_needs_a_live_session() {
    let state = state_with_session();
    let user = CurrentUser::from_request_parts(Some("user-token"), &state, DbDateTime(59_999));
    assert_eq!(user.unwrap().0.email, "user@x.com");
    assert!(matches!(
        CurrentUser::from_request_parts(Some("user-token"), &state, DbDateTime(60_000)),
        Err(AppError::AccountError(AccountError::InvalidOrExpiredToken))
    ));
    assert!(matches!(
        CurrentUser::from_request_parts(Some("ur"), &state, DbDateTime(1)),
        Err(AppError::AccountError(AccountError::InvalidOrExpiredToken))
    ));
    assert!(matches!(
        CurrentUser::from_request_parts(Some(""), &state, DbDateTime(1)),
        Err(AppError::AccountError(AccountError::InvalidOrExpiredToken))
    ));
}

#[test]
fn a_renewal_needs_only_an_unexpired_refresh_token() {
    let state = state_with_session();
    let session =
        PossiblyExpiredSession::from_request_parts(Some("user-token"), &state, DbDateTime(60_000));
    assert_eq!(session.unwrap().0.refresh_token, "ur");
    assert!(PossiblyExpiredSession::from_request_parts(Some("user-token"), &state, DbDateTime(119_999))
        .is_ok());
    assert!(matches!(
        PossiblyExpiredSession::from_request_parts(Some("user-token"), &state, DbDateTime(120_000)),
        Err(AppError::AccountError(AccountError::InvalidOrExpiredToken))
    ));
    assert!(matches!(
        PossiblyExpiredSession::from_request_parts(Some("nope"), &state, DbDateTime(1)),
        Err(AppError::AccountError(AccountError::InvalidOrExpiredToken))
    ));
}

#[test]
fn a_role_is_required_exactly() {
    let state = state_with_session();
    assert!(CurrentRole::<Admin>::from_request_parts(Some("root-token"), &state, DbDateTime(1)).is_ok());
    assert!(CurrentRole::<User>::from_request_parts(Some("user-token"), &state, DbDateTime(1)).is_ok());
    assert!(matches!(
        CurrentRole::<Admin>::from_request_parts(Some("user-token"), &state, DbDateTime(1)),
        Err(AppError::AccountError(AccountError::InsufficientPrivilege))
    ));
    assert!(matches!(
        CurrentRole::<User>::from_request_parts(Some("root-token"), &state, DbDateTime(1)),
        Err(AppError::AccountError(AccountError::InsufficientPrivilege))
    ));
    assert!(matches!(
        CurrentRole::<Admin>::from_request_parts(Some("root-token"), &state, DbDateTime(60_000)),
        Err(AppError::AccountError(AccountError::InvalidOrExpiredToken))
    ));
    assert_eq!(Admin::role(), UserRole::Admin);
    assert_eq!(User::role(), UserRole::User);
    let _admin: Admin = Admin::get_self();
    let _user: User = User::get_self();
    assert!(require_role(&state.db.users[0], UserRole::User).is_ok());
    assert!(matches!(
        require_role(&state.db.users[0], UserRole::Admin),
        Err(AppError::AccountError(AccountError::InsufficientPrivilege))
    ));
}

#[test]
fn the_current_user_is_told_number_and_address_only() {
    let state = state_with_session();
    let user = CurrentUser::from_request_parts(Some("root-token"), &state, DbDateTime(1)).unwrap();
    let response = get_current_user(user);
    assert_eq!(response.id, 2);
    assert_eq!(response.email, "root@x.com");
}

#[test]
fn the_token_pair_must_match() {
    let state = state_with_session();
    assert!(validate_token_pair(&state.db.sessions[0], "ur").is_ok());
    assert!(matches!(
        validate_token_pair(&state.db.sessions[0], "rr"),
        Err(AppError::AccountError(AccountError::TokenPairMismatch))
    ));
    assert!(validate_token_pair(&state.db.sessions[0], "").is_err());
}

#[test]
fn the_user_table_keeps_addresses_unique_and_numbers_rows() {
    let mut db = Database::new();
    let first = create_user(
        &mut db,
        CreateUserEntity { email: "a@x.com".to_string(), password: "h1".to_string() },
    )
    .unwrap();
    assert_eq!(first.id, 1);
    assert_eq!(first.role, UserRole::User);
    assert_eq!(first.login_attempts, 0);
    let second = create_user(
        &mut db,
        CreateUserEntity { email: "b@x.com".to_string(), password: "h2".to_string() },
    )
    .unwrap();
    assert_eq!(second.id, 2);
    let taken = create_user(
        &mut db,
        CreateUserEntity { email: "a@x.com".to_string(), password: "h3".to_string() },
    );
    assert!(matches!(taken, Err(AppError::SqlxError(_))));
    assert_eq!(db.users.len(), 2);
    assert!(user_exists_by_email(&db, "a@x.com"));
    assert!(!user_exists_by_email(&db, "A@x.com"));
    assert_eq!(find_user_by_email(&db, "b@x.com").unwrap().id, 2);
    assert!(find_user_by_email(&db, "c@x.com").is_none());
    assert_eq!(find_user_by_id(&db, 1).unwrap().email, "a@x.com");
    assert!(find_user_by_id(&db, 0).is_none());
    assert!(find_user_by_id(&db, 3).is_none());
    assert!(find_user_by_id(&db, -1).is_none());
    assert!(db.user_exists(2));
    assert!(!db.user_exists(3));
    assert_eq!(next_id(0), Some(1));
    assert_eq!(next_id(41), Some(42));
}

#[test]
fn the_user_table_updates_one_row() {
    let mut db = Database::new();
    for email in ["a@x.com", "b@x.com"] {
        create_user(
            &mut db,
            CreateUserEntity { email: email.to_string(), password: "h".to_string() },
        )
        .unwrap();
    }
    let attempt =
        FailedLoginAttempt { login_attempts: 2, last_failed_login_attempt: Some(DbDateTime(9)) };
    update_failed_login(&mut db, 2, attempt);
    update_failed_login(&mut db, 5, attempt);
    assert_eq!(db.users[0].login_attempts, 0);
    assert_eq!(db.users[1].login_attempts, 2);
    assert_eq!(db.users[1].last_failed_login_attempt, Some(DbDateTime(9)));
    update_password_by_user_id(&mut db, 2, "new".to_string());
    update_password_by_user_id(&mut db, 0, "never".to_string());
    assert_eq!(db.users[1].password, "new");
    assert_eq!(db.users[1].login_attempts, 0);
    assert_eq!(db.users[1].last_failed_login_attempt, Some(DbDateTime(9)));
    assert_eq!(db.users[0].password, "h");
    let user: &UserEntity = &db.users[0];
    let after = FailedLoginAttempt::after(user, DbDateTime(7));
    assert_eq!(after.login_attempts, 1);
    assert_eq!(after.last_failed_login_attempt, Some(DbDateTime(7)));
}

fn new_session(token: &str, refresh: &str) -> CreateSessionEntity {
    CreateSessionEntity {
        token: token.to_string(),
        refresh_token: refresh.to_string(),
        token_expiry: DbDateTime(100),
        refresh_token_expiry: DbDateTime(200),
    }
}

#[test]
fn the_session_table_keeps_tokens_unique_and_owners_real() {
    let mut db = Database::new();
    create_user(&mut db, CreateUserEntity { email: "a@x.com".to_string(), password: "h".to_string() })
        .unwrap();
    assert!(can_create_session(&db, 1, "s1", "r1"));
    assert!(!can_create_session(&db, 2, "s1", "r1"));
    let created = create_session(&mut db, 1, new_session("s1", "r1")).unwrap();
    assert_eq!(created.id, 1);
    assert_eq!(created.user_id, 1);
    assert!(created.revoked_at.is_none());
    assert!(matches!(create_session(&mut db, 1, new_session("s1", "r2")), Err(AppError::SqlxError(_))));
    assert!(matches!(create_session(&mut db, 1, new_session("s2", "r1")), Err(AppError::SqlxError(_))));
    assert!(matches!(create_session(&mut db, 9, new_session("s2", "r2")), Err(AppError::SqlxError(_))));
    assert!(create_session(&mut db, 1, new_session("r1", "s1")).is_ok());
    assert_eq!(db.sessions.len(), 2);
}

#[test]
fn sessions_are_found_while_their_window_is_open_and_revoked_once() {
    let mut db = Database::new();
    create_user(&mut db, CreateUserEntity { email: "a@x.com".to_string(), password: "h".to_string() })
        .unwrap();
    create_user(&mut db, CreateUserEntity { email: "b@x.com".to_string(), password: "h".to_string() })
        .unwrap();
    create_session(&mut db, 1, new_session("s1", "r1")).unwrap();
    create_session(&mut db, 2, new_session("s2", "r2")).unwrap();
    assert!(find_live_session_by_token(&db, "s1", DbDateTime(99)).is_some());
    assert!(find_live_session_by_token(&db, "s1", DbDateTime(100)).is_none());
    assert!(find_session_by_token_ignoring_expiration(&db, "s1", DbDateTime(199)).is_some());
    assert!(find_session_by_token_ignoring_expiration(&db, "s1", DbDateTime(200)).is_none());
    assert_eq!(find_user_by_token(&db, "s2", DbDateTime(0)).unwrap().email, "b@x.com");
    assert!(db.sessions[0].live(DbDateTime(99)) && !db.sessions[0].live(DbDateTime(100)));
    assert!(db.sessions[0].renewable(DbDateTime(199)) && !db.sessions[0].renewable(DbDateTime(200)));
    assert!(db.sessions[0].active());

    revoke_session_for_user_id(&mut db, 1, RevocationReason::LoggedOut, DbDateTime(50));
    assert_eq!(db.sessions[0].revoked_at, Some(DbDateTime(50)));
    assert_eq!(db.sessions[0].revocation_reason, Some(RevocationReason::LoggedOut));
    assert!(db.sessions[1].revoked_at.is_none());
    assert!(!db.sessions[0].active());
    assert!(find_live_session_by_token(&db, "s1", DbDateTime(60)).is_none());
    assert!(find_session_by_token_ignoring_expiration(&db, "s1", DbDateTime(60)).is_none());
    assert!(find_user_by_token(&db, "s1", DbDateTime(60)).is_none());

    revoke_session_for_user_id(&mut db, 1, RevocationReason::NewSession, DbDateTime(70));
    assert_eq!(db.sessions[0].revoked_at, Some(DbDateTime(50)));
    assert_eq!(db.sessions[0].revocation_reason, Some(RevocationReason::LoggedOut));
}
