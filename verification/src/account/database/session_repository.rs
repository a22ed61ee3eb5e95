//! The table of sessions.

use vstd::prelude::*;
use vstd::string::StringExecFns;
use crate::account::database::{
    next_id, Database, DatabaseView, FOREIGN_KEY_CONSTRAINT_FAILED, TABLE_FULL,
    UNIQUE_CONSTRAINT_FAILED,
};
use crate::utils::{first_true, lemma_first_true};
use crate::account::database::user_repository::find_user_by_id;
use crate::account::entities::session::{CreateSessionEntity, RevocationReason, SessionEntity};
use crate::account::entities::user::UserEntity;
use crate::error::{AppError, AppResult};
use crate::types::DbDateTime;
use crate::utils::str_equal;

verus! {

impl DatabaseView {
    /// For each session, whether it has the token `token` and can be renewed
    /// at `now`.
    pub open spec fn renewable_hits(&self, token: Seq<char>, now: DbDateTime) -> Seq<bool> {
        Seq::new(
            self.sessions.len(),
            |i: int| self.sessions[i].token@ == token && self.sessions[i].is_renewable(now),
        )
    }

    /// For each session, whether it has the token `token` and grants access
    /// at `now`.
    pub open spec fn live_hits(&self, token: Seq<char>, now: DbDateTime) -> Seq<bool> {
        Seq::new(
            self.sessions.len(),
            |i: int| self.sessions[i].token@ == token && self.sessions[i].is_live(now),
        )
    }

    /// For each session, whether it has the token `token`.
    pub open spec fn token_hits(&self, token: Seq<char>) -> Seq<bool> {
        Seq::new(self.sessions.len(), |i: int| self.sessions[i].token@ == token)
    }

    /// For each session, whether it has the refresh token `refresh_token`.
    pub open spec fn refresh_token_hits(&self, refresh_token: Seq<char>) -> Seq<bool> {
        Seq::new(self.sessions.len(), |i: int| self.sessions[i].refresh_token@ == refresh_token)
    }

    /// The session with the token `token`, where it is not revoked and its
    /// refresh token has not expired at `now`. The expiry of the session
    /// token plays no part.
    pub open spec fn renewable_session(&self, token: Seq<char>, now: DbDateTime) -> Option<
        SessionEntity,
    > {
        match first_true(self.renewable_hits(token, now)) {
            Some(i) => Some(self.sessions[i]),
            None => None,
        }
    }

    /// The session with the token `token`, where it is not revoked and the
    /// session token has not expired at `now`.
    pub open spec fn live_session(&self, token: Seq<char>, now: DbDateTime) -> Option<
        SessionEntity,
    > {
        match first_true(self.live_hits(token, now)) {
            Some(i) => Some(self.sessions[i]),
            None => None,
        }
    }

    /// The user who owns the session that grants access under `token` at
    /// `now`.
    pub open spec fn user_by_token(&self, token: Seq<char>, now: DbDateTime) -> Option<
        UserEntity,
    > {
        match self.live_session(token, now) {
            Some(session) => self.user_by_id(session.user_id),
            None => None,
        }
    }

    /// The store with every session of `user_id` that is not revoked yet
    /// revoked at `now` for `reason`. Sessions revoked earlier keep their
    /// time and reason.
    pub open spec fn with_sessions_revoked(
        self,
        user_id: i64,
        reason: RevocationReason,
        now: DbDateTime,
    ) -> DatabaseView {
        DatabaseView {
            sessions: Seq::new(
                self.sessions.len(),
                |i: int|
                    if self.sessions[i].user_id == user_id && self.sessions[i].is_active() {
                        self.sessions[i].spec_revoked(now, reason)
                    } else {
                        self.sessions[i]
                    },
            ),
            ..self
        }
    }

    /// The row that issuing a session inserts: the next number, owned by
    /// `user_id`, not revoked.
    pub open spec fn new_session(&self, user_id: i64, session: CreateSessionEntity) -> SessionEntity {
        SessionEntity {
            id: (self.sessions.len() + 1) as i64,
            user_id,
            token: session.token,
            refresh_token: session.refresh_token,
            token_expiry: session.token_expiry,
            refresh_token_expiry: session.refresh_token_expiry,
            revoked_at: None,
            revocation_reason: None,
        }
    }

    /// The table can take a session of `user_id` with this token pair: the
    /// user is there, neither token is in use, and the numbers have not run
    /// out.
    pub open spec fn admits_session(
        &self,
        user_id: i64,
        token: Seq<char>,
        refresh_token: Seq<char>,
    ) -> bool {
        &&& self.has_user(user_id)
        &&& first_true(self.token_hits(token)) is None
        &&& first_true(self.refresh_token_hits(refresh_token)) is None
        &&& self.sessions.len() < i64::MAX
    }

    /// The store with the session inserted for `user_id`.
    pub open spec fn with_session(self, user_id: i64, session: CreateSessionEntity) -> DatabaseView {
        DatabaseView { sessions: self.sessions.push(self.new_session(user_id, session)), ..self }
    }
}

/// Whether some session has the token `token`.
fn token_in_use(db: &Database, token: &str) -> (r: bool)
    ensures
        r == first_true(db@.token_hits(token@)) is Some,
{
    let ghost hits = db@.token_hits(token@);
    let mut i: usize = 0;
    while i < db.sessions.len()
        invariant
            i <= db.sessions.len(),
            hits == db@.token_hits(token@),
            forall|j: int| 0 <= j < i ==> !hits[j],
        decreases db.sessions.len() - i,
    {
        if str_equal(db.sessions[i].token.as_str(), token) {
            proof {
                lemma_first_true(hits);
                assert(hits[i as int]);
            }
            return true;
        }
        i += 1;
    }
    proof {
        lemma_first_true(hits);
    }
    false
}

/// Whether some session has the refresh token `refresh_token`.
fn refresh_token_in_use(db: &Database, refresh_token: &str) -> (r: bool)
    ensures
        r == first_true(db@.refresh_token_hits(refresh_token@)) is Some,
{
    let ghost hits = db@.refresh_token_hits(refresh_token@);
    let mut i: usize = 0;
    while i < db.sessions.len()
        invariant
            i <= db.sessions.len(),
            hits == db@.refresh_token_hits(refresh_token@),
            forall|j: int| 0 <= j < i ==> !hits[j],
        decreases db.sessions.len() - i,
    {
        if str_equal(db.sessions[i].refresh_token.as_str(), refresh_token) {
            proof {
                lemma_first_true(hits);
                assert(hits[i as int]);
            }
            return true;
        }
        i += 1;
    }
    proof {
        lemma_first_true(hits);
    }
    false
}

/// Whether the table can take a session of `user_id` with this token pair.
pub fn can_create_session(db: &Database, user_id: i64, token: &str, refresh_token: &str) -> (r:
    bool)
    ensures
        r == db@.admits_session(user_id, token@, refresh_token@),
{
    db.user_exists(user_id) && !token_in_use(db, token) && !refresh_token_in_use(db, refresh_token) && next_id(
        db.sessions.len(),
    ).is_some()
}

/// Revocation changes no token, and so not what token pairs the table can
/// take, nor the number of sessions.
pub proof fn lemma_revocation_keeps_tokens(
    db: DatabaseView,
    user_id: i64,
    reason: RevocationReason,
    now: DbDateTime,
    token: Seq<char>,
    refresh_token: Seq<char>,
)
    ensures
        forall|owner: i64|
            db.with_sessions_revoked(user_id, reason, now).admits_session(
                owner,
                token,
                refresh_token,
            ) == #[trigger] db.admits_session(owner, token, refresh_token),
        db.with_sessions_revoked(user_id, reason, now).sessions.len() == db.sessions.len(),
        db.with_sessions_revoked(user_id, reason, now).users == db.users,
        db.with_sessions_revoked(user_id, reason, now).transactions == db.transactions,
{
    let after = db.with_sessions_revoked(user_id, reason, now);
    assert(after.token_hits(token) =~= db.token_hits(token));
    assert(after.refresh_token_hits(refresh_token) =~= db.refresh_token_hits(refresh_token));
}

/// Revoking the sessions of a user keeps the store well formed. A session
/// that was revoked before stays exactly as it was: revocation is final.
/// Afterwards no session of that user can be renewed or grants access.
pub proof fn lemma_with_sessions_revoked(
    db: DatabaseView,
    user_id: i64,
    reason: RevocationReason,
    now: DbDateTime,
)
    requires
        db.wf(),
    ensures
        db.with_sessions_revoked(user_id, reason, now).wf(),
        forall|i: int|
            0 <= i < db.sessions.len() && !(#[trigger] db.sessions[i]).is_active()
                ==> db.with_sessions_revoked(user_id, reason, now).sessions[i] == db.sessions[i],
        forall|i: int|
            0 <= i < db.sessions.len() && (#[trigger] db.sessions[i]).user_id == user_id
                ==> !db.with_sessions_revoked(user_id, reason, now).sessions[i].is_active(),
{
}

/// Revoking the sessions of a user a second time changes nothing,
/// whatever the reason and the time given.
pub proof fn lemma_revocation_is_idempotent(
    db: DatabaseView,
    user_id: i64,
    reason: RevocationReason,
    now: DbDateTime,
    again_reason: RevocationReason,
    again: DbDateTime,
)
    ensures
        db.with_sessions_revoked(user_id, reason, now).with_sessions_revoked(
            user_id,
            again_reason,
            again,
        ) == db.with_sessions_revoked(user_id, reason, now),
{
    let once = db.with_sessions_revoked(user_id, reason, now);
    let twice = once.with_sessions_revoked(user_id, again_reason, again);
    assert(twice.sessions =~= once.sessions);
}

/// Inserting a well-formed session that the table can take keeps the store
/// well formed.
pub proof fn lemma_with_session(db: DatabaseView, user_id: i64, session: CreateSessionEntity)
    requires
        db.wf(),
        session.wf(),
        db.admits_session(user_id, session.token@, session.refresh_token@),
    ensures
        db.with_session(user_id, session).wf(),
{
    lemma_first_true(db.token_hits(session.token@));
    lemma_first_true(db.refresh_token_hits(session.refresh_token@));
    assert forall|j: int| 0 <= j < db.sessions.len() implies (#[trigger] db.sessions[j]).token@
        != session.token@ && db.sessions[j].refresh_token@ != session.refresh_token@ by {
        assert(!db.token_hits(session.token@)[j]);
        assert(!db.refresh_token_hits(session.refresh_token@)[j]);
    }
}

/// Looks up the session with the token `token` that can still be renewed at
/// `now`: not revoked, refresh token not expired. Whether the session token
/// itself has expired is not asked.
pub fn find_session_by_token_ignoring_expiration(db: &Database, token: &str, now: DbDateTime) -> (r:
    Option<SessionEntity>)
    ensures
        r == db@.renewable_session(token@, now),
{
    let ghost hits = db@.renewable_hits(token@, now);
    let mut i: usize = 0;
    while i < db.sessions.len()
        invariant
            i <= db.sessions.len(),
            hits == db@.renewable_hits(token@, now),
            forall|j: int| 0 <= j < i ==> !hits[j],
        decreases db.sessions.len() - i,
    {
        if str_equal(db.sessions[i].token.as_str(), token) && db.sessions[i].renewable(now) {
            proof {
                lemma_first_true(hits);
                assert(hits[i as int]);
            }
            return Some(db.sessions[i].clone());
        }
        i += 1;
    }
    proof {
        lemma_first_true(hits);
    }
    None
}

/// Looks up the session with the token `token` that grants access at `now`:
/// not revoked, session token not expired.
pub fn find_live_session_by_token(db: &Database, token: &str, now: DbDateTime) -> (r: Option<
    SessionEntity,
>)
    ensures
        r == db@.live_session(token@, now),
{
    let ghost hits = db@.live_hits(token@, now);
    let mut i: usize = 0;
    while i < db.sessions.len()
        invariant
            i <= db.sessions.len(),
            hits == db@.live_hits(token@, now),
            forall|j: int| 0 <= j < i ==> !hits[j],
        decreases db.sessions.len() - i,
    {
        if str_equal(db.sessions[i].token.as_str(), token) && db.sessions[i].live(now) {
            proof {
                lemma_first_true(hits);
                assert(hits[i as int]);
            }
            return Some(db.sessions[i].clone());
        }
        i += 1;
    }
    proof {
        lemma_first_true(hits);
    }
    None
}

/// Looks up the user who owns the session that grants access under `token`
/// at `now`.
pub fn find_user_by_token(db: &Database, token: &str, now: DbDateTime) -> (r: Option<UserEntity>)
    requires
        db@.wf(),
    ensures
        r == db@.user_by_token(token@, now),
{
    match find_live_session_by_token(db, token, now) {
        Some(session) => find_user_by_id(db, session.user_id),
        None => None,
    }
}

/// Revokes, at `now` and for `reason`, every session of `user_id` that is
/// not revoked yet. Without such a session nothing changes.
pub fn revoke_session_for_user_id(
    db: &mut Database,
    user_id: i64,
    reason: RevocationReason,
    now: DbDateTime,
)
    requires
        old(db)@.wf(),
    ensures
        final(db)@.wf(),
        final(db)@ == old(db)@.with_sessions_revoked(user_id, reason, now),
{
    let ghost target = old(db)@.with_sessions_revoked(user_id, reason, now);
    let mut i: usize = 0;
    while i < db.sessions.len()
        invariant
            i <= db.sessions.len(),
            db.sessions.len() == old(db).sessions.len(),
            db.users == old(db).users,
            db.forgot_password_transactions == old(db).forgot_password_transactions,
            target == old(db)@.with_sessions_revoked(user_id, reason, now),
            forall|j: int| 0 <= j < i ==> db.sessions[j] == target.sessions[j],
            forall|j: int| i <= j < db.sessions.len() ==> db.sessions[j] == old(db).sessions[j],
        decreases db.sessions.len() - i,
    {
        if db.sessions[i].user_id == user_id && db.sessions[i].active() {
            let mut row = db.sessions[i].clone();
            row.revoked_at = Some(now);
            row.revocation_reason = Some(reason);
            db.sessions.set(i, row);
        }
        i += 1;
    }
    assert(db@.sessions =~= target.sessions);
}

/// Inserts a session for `user_id`. The store refuses a user who is not
/// there, a token or a refresh token that is in use, and a row beyond the
/// last number.
pub fn create_session(db: &mut Database, user_id: i64, session: CreateSessionEntity) -> (r:
    AppResult<SessionEntity>)
    requires
        old(db)@.wf(),
        session.wf(),
    ensures
        final(db)@.wf(),
        r is Ok <==> old(db)@.admits_session(user_id, session.token@, session.refresh_token@),
        r matches Ok(created) ==> final(db)@ == old(db)@.with_session(user_id, session)
            && created == old(db)@.new_session(user_id, session),
        r matches Err(e) ==> final(db)@ == old(db)@ && e is SqlxError,
{
    if !db.user_exists(user_id) {
        return Err(AppError::SqlxError(String::from_str(FOREIGN_KEY_CONSTRAINT_FAILED)));
    }
    if token_in_use(db, session.token.as_str()) || refresh_token_in_use(
        db,
        session.refresh_token.as_str(),
    ) {
        return Err(AppError::SqlxError(String::from_str(UNIQUE_CONSTRAINT_FAILED)));
    }
    let Some(id) = next_id(db.sessions.len()) else {
        return Err(AppError::SqlxError(String::from_str(TABLE_FULL)));
    };
    proof {
        lemma_first_true(db@.token_hits(session.token@));
        lemma_first_true(db@.refresh_token_hits(session.refresh_token@));
        assert forall|j: int| 0 <= j < db@.sessions.len() implies (#[trigger] db@.sessions[j]).token@
            != session.token@ && db@.sessions[j].refresh_token@ != session.refresh_token@ by {
            assert(!db@.token_hits(session.token@)[j]);
            assert(!db@.refresh_token_hits(session.refresh_token@)[j]);
        }
    }
    let row = SessionEntity {
        id,
        user_id,
        token: session.token,
        refresh_token: session.refresh_token,
        token_expiry: session.token_expiry,
        refresh_token_expiry: session.refresh_token_expiry,
        revoked_at: None,
        revocation_reason: None,
    };
    let created = row.clone();
    db.sessions.push(row);
    Ok(created)
}

} // verus!
