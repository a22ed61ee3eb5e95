//! Sessions: a token pair with two deadlines, revoked at most once.

use vstd::prelude::*;
use crate::account::utils::new_token;
use crate::config::AppConfig;
use crate::types::DbDateTime;

verus! {

/// Why a session ended.
#[derive(Clone, Copy, Debug, PartialEq, Eq, Structural)]
pub enum RevocationReason {
    SessionExtended,
    LoggedOut,
    NewSession,
}

/// A row of the sessions table.
#[derive(Debug)]
pub struct SessionEntity {
    pub id: i64,
    pub user_id: i64,
    pub token: String,
    pub refresh_token: String,
    pub token_expiry: DbDateTime,
    pub refresh_token_expiry: DbDateTime,
    pub revoked_at: Option<DbDateTime>,
    pub revocation_reason: Option<RevocationReason>,
}

impl SessionEntity {
    /// The refresh token outlasts the session token, and a revoked session
    /// carries both the time and the reason of its revocation.
    pub open spec fn wf(&self) -> bool {
        &&& self.token_expiry.0 < self.refresh_token_expiry.0
        &&& (self.revoked_at is Some <==> self.revocation_reason is Some)
    }

    /// No revocation is on record.
    pub open spec fn is_active(&self) -> bool {
        self.revoked_at is None
    }

    /// The session token still grants access at `now`.
    pub open spec fn is_live(&self, now: DbDateTime) -> bool {
        self.revoked_at is None && now.0 < self.token_expiry.0
    }

    /// The session can still be exchanged for a new one at `now`.
    pub open spec fn is_renewable(&self, now: DbDateTime) -> bool {
        self.revoked_at is None && now.0 < self.refresh_token_expiry.0
    }

    /// The same session, revoked at `now` for `reason`.
    pub open spec fn spec_revoked(self, now: DbDateTime, reason: RevocationReason) -> SessionEntity {
        SessionEntity { revoked_at: Some(now), revocation_reason: Some(reason), ..self }
    }

    /// Whether no revocation is on record.
    pub fn active(&self) -> (r: bool)
        ensures
            r == self.is_active(),
    {
        self.revoked_at.is_none()
    }

    /// Whether the session token still grants access at `now`.
    pub fn live(&self, now: DbDateTime) -> (r: bool)
        ensures
            r == self.is_live(now),
    {
        self.revoked_at.is_none() && now.0 < self.token_expiry.0
    }

    /// Whether the session can still be exchanged for a new one at `now`.
    pub fn renewable(&self, now: DbDateTime) -> (r: bool)
        ensures
            r == self.is_renewable(now),
    {
        self.revoked_at.is_none() && now.0 < self.refresh_token_expiry.0
    }
}

/// Every instant at which a session grants access is one at which it can be
/// renewed, and there are instants at which it can only be renewed.
pub proof fn lemma_live_window_inside_renewable_window(session: SessionEntity, now: DbDateTime)
    requires
        session.wf(),
    ensures
        session.is_live(now) ==> session.is_renewable(now),
        session.is_active() ==> session.is_renewable(session.token_expiry) && !session.is_live(
            session.token_expiry,
        ),
{
}

impl Clone for SessionEntity {
    fn clone(&self) -> (r: Self)
        ensures
            r == *self,
    {
        SessionEntity {
            id: self.id,
            user_id: self.user_id,
            token: self.token.clone(),
            refresh_token: self.refresh_token.clone(),
            token_expiry: self.token_expiry,
            refresh_token_expiry: self.refresh_token_expiry,
            revoked_at: self.revoked_at,
            revocation_reason: self.revocation_reason,
        }
    }
}

/// The token pair and the deadlines of a session that is about to be stored.
#[derive(Debug)]
pub struct CreateSessionEntity {
    pub token: String,
    pub refresh_token: String,
    pub token_expiry: DbDateTime,
    pub refresh_token_expiry: DbDateTime,
}

impl CreateSessionEntity {
    /// The refresh token outlasts the session token.
    pub open spec fn wf(&self) -> bool {
        self.token_expiry.0 < self.refresh_token_expiry.0
    }

    /// The session that `config` grants at `now` under the given token pair.
    pub open spec fn spec_at(
        config: AppConfig,
        now: DbDateTime,
        token: String,
        refresh_token: String,
    ) -> CreateSessionEntity {
        CreateSessionEntity {
            token,
            refresh_token,
            token_expiry: DbDateTime(now.spec_plus_seconds(config.session_duration) as i64),
            refresh_token_expiry: DbDateTime(
                now.spec_plus_seconds(config.session_refresh_duration) as i64,
            ),
        }
    }

    /// A session with a fresh random token pair, granted at the clock's
    /// present reading: what `granted_at` gives for that reading and that
    /// pair, so `None` exactly where the configuration does not admit the
    /// reading, because a deadline that it counts from there would lie
    /// beyond the last instant that the calendar can name.
    pub fn new(config: &AppConfig) -> (r: Option<Self>)
        requires
            config.wf(),
        ensures
            exists|now: DbDateTime, token: String, refresh_token: String|
                now.wf() && r == #[trigger] Self::spec_granted_at(
                    *config,
                    now,
                    token,
                    refresh_token,
                ),
            r matches Some(s) ==> s.wf(),
    {
        let now = DbDateTime::now();
        let token = new_token();
        let refresh_token = new_token();
        let ghost drawn = (token, refresh_token);
        let r = Self::granted_at(config, now, token, refresh_token);
        assert(r == Self::spec_granted_at(*config, now, drawn.0, drawn.1));
        r
    }

    /// The session that `config` grants at `now` under the given token pair:
    /// each deadline is `now` plus the configured duration.
    pub fn at(config: &AppConfig, now: DbDateTime, token: String, refresh_token: String) -> (r:
        Self)
        requires
            config.wf(),
            config.admits(now),
        ensures
            r == Self::spec_at(*config, now, token, refresh_token),
            r.wf(),
            now.0 < r.token_expiry.0 < r.refresh_token_expiry.0,
    {
        CreateSessionEntity {
            token,
            refresh_token,
            token_expiry: now.plus_seconds(config.session_duration),
            refresh_token_expiry: now.plus_seconds(config.session_refresh_duration),
        }
    }

    /// What `config` grants at `now` under the given token pair: the session
    /// whose deadlines are `now` plus the configured durations, or nothing
    /// where `config` does not admit `now`.
    pub open spec fn spec_granted_at(
        config: AppConfig,
        now: DbDateTime,
        token: String,
        refresh_token: String,
    ) -> Option<CreateSessionEntity> {
        if config.admits(now) {
            Some(Self::spec_at(config, now, token, refresh_token))
        } else {
            None
        }
    }

    /// What `config` grants at `now` under the given token pair, whatever
    /// the clock read: the session, or `None` where `config` does not admit
    /// `now`.
    pub fn granted_at(config: &AppConfig, now: DbDateTime, token: String, refresh_token: String) -> (r:
        Option<Self>)
        requires
            config.wf(),
        ensures
            r == Self::spec_granted_at(*config, now, token, refresh_token),
            r matches Some(s) ==> s.wf() && now.0 < s.token_expiry.0 < s.refresh_token_expiry.0,
    {
        if config.check_admits(now) {
            Some(Self::at(config, now, token, refresh_token))
        } else {
            None
        }
    }

    /// The session token.
    pub fn token(&self) -> (r: &String)
        ensures
            *r == self.token,
    {
        &self.token
    }

    /// The refresh token.
    pub fn refresh_token(&self) -> (r: &String)
        ensures
            *r == self.refresh_token,
    {
        &self.refresh_token
    }

    /// When the session token expires.
    pub fn token_expiry(&self) -> (r: &DbDateTime)
        ensures
            *r == self.token_expiry,
    {
        &self.token_expiry
    }

    /// When the refresh token expires.
    pub fn refresh_token_expiry(&self) -> (r: &DbDateTime)
        ensures
            *r == self.refresh_token_expiry,
    {
        &self.refresh_token_expiry
    }
}

} // verus!
