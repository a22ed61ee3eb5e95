//! The three tables, held in memory, with the constraints of their schema.

use vstd::prelude::*;
use crate::account::entities::forgot_password::ForgotPasswordTransactionEntity;
use crate::account::entities::session::SessionEntity;
use crate::account::entities::user::UserEntity;
use crate::utils::are_distinct;

pub mod forgot_password_repository;
pub mod session_repository;
pub mod user_repository;

verus! {

/// What the store reports where an address, a token or a reset token would
/// occur twice.
pub const UNIQUE_CONSTRAINT_FAILED: &'static str = "UNIQUE constraint failed";

/// What the store reports where a row would belong to a user who is not
/// there.
pub const FOREIGN_KEY_CONSTRAINT_FAILED: &'static str = "FOREIGN KEY constraint failed";

/// What the store reports where a table can take no further row.
pub const TABLE_FULL: &'static str = "database or disk is full";

/// The tables of users, sessions and password-reset transactions. Rows are
/// kept in the order in which they were inserted and are never removed.
#[derive(Debug)]
pub struct Database {
    pub users: Vec<UserEntity>,
    pub sessions: Vec<SessionEntity>,
    pub forgot_password_transactions: Vec<ForgotPasswordTransactionEntity>,
}

/// The rows of the three tables.
pub struct DatabaseView {
    pub users: Seq<UserEntity>,
    pub sessions: Seq<SessionEntity>,
    pub transactions: Seq<ForgotPasswordTransactionEntity>,
}

impl View for Database {
    type V = DatabaseView;

    open spec fn view(&self) -> DatabaseView {
        DatabaseView {
            users: self.users@,
            sessions: self.sessions@,
            transactions: self.forgot_password_transactions@,
        }
    }
}

impl DatabaseView {
    /// Users are numbered from 1 in the order of insertion, no address
    /// occurs twice, and no counter of failed logins is negative.
    pub open spec fn users_wf(&self) -> bool {
        &&& self.users.len() <= i64::MAX
        &&& forall|i: int|
            0 <= i < self.users.len() ==> (#[trigger] self.users[i]).id == i + 1
                && self.users[i].login_attempts >= 0
        &&& forall|i: int, j: int|
            0 <= i < j < self.users.len() ==> (#[trigger] self.users[i]).email@ != (
            #[trigger] self.users[j]).email@
    }

    /// `user_id` is the number of a user.
    pub open spec fn has_user(&self, user_id: i64) -> bool {
        1 <= user_id <= self.users.len()
    }

    /// Sessions are numbered from 1 in the order of insertion, each is well
    /// formed and owned by a user, and no session token and no refresh token
    /// occurs twice.
    pub open spec fn sessions_wf(&self) -> bool {
        &&& self.sessions.len() <= i64::MAX
        &&& forall|i: int|
            0 <= i < self.sessions.len() ==> (#[trigger] self.sessions[i]).id == i + 1
                && self.sessions[i].wf() && self.has_user(self.sessions[i].user_id)
        &&& forall|i: int, j: int|
            0 <= i < j < self.sessions.len() ==> (#[trigger] self.sessions[i]).token@ != (
            #[trigger] self.sessions[j]).token@
        &&& forall|i: int, j: int|
            0 <= i < j < self.sessions.len() ==> (#[trigger] self.sessions[i]).refresh_token@
                != (#[trigger] self.sessions[j]).refresh_token@
    }

    /// Transactions are numbered from 1 in the order of insertion, each is
    /// well formed and owned by a user, and no reset token occurs twice.
    pub open spec fn transactions_wf(&self) -> bool {
        &&& self.transactions.len() <= i64::MAX
        &&& forall|i: int|
            0 <= i < self.transactions.len() ==> (#[trigger] self.transactions[i]).id == i + 1
                && self.transactions[i].wf() && self.has_user(self.transactions[i].user_id)
        &&& forall|i: int, j: int|
            0 <= i < j < self.transactions.len() ==> (
            #[trigger] self.transactions[i]).reset_password_token@ != (
            #[trigger] self.transactions[j]).reset_password_token@
    }

    /// The constraints of the schema hold of every table.
    pub open spec fn wf(&self) -> bool {
        &&& self.users_wf()
        &&& self.sessions_wf()
        &&& self.transactions_wf()
    }
}

impl Database {
    /// The empty store.
    pub fn new() -> (r: Self)
        ensures
            r@.wf(),
            r@.users.len() == 0,
            r@.sessions.len() == 0,
            r@.transactions.len() == 0,
    {
        Database {
            users: Vec::new(),
            sessions: Vec::new(),
            forgot_password_transactions: Vec::new(),
        }
    }
}

impl Database {
    /// Whether the tables meet the constraints of the schema. A store that
    /// was built by hand is checked with this before it is worked on.
    pub fn is_well_formed(&self) -> (r: bool)
        ensures
            r == self@.wf(),
    {
        if !(self.users.len() as u64 <= 0x7fff_ffff_ffff_ffff && self.sessions.len() as u64
            <= 0x7fff_ffff_ffff_ffff && self.forgot_password_transactions.len() as u64
            <= 0x7fff_ffff_ffff_ffff) {
            return false;
        }
        let mut emails: Vec<&str> = Vec::new();
        let mut i: usize = 0;
        while i < self.users.len()
            invariant
                i <= self.users.len() <= i64::MAX,
                emails.len() == i,
                forall|k: int| 0 <= k < i ==> (#[trigger] emails[k])@ == self.users[k].email@,
                forall|k: int|
                    0 <= k < i ==> (#[trigger] self.users[k]).id == k + 1
                        && self.users[k].login_attempts >= 0,
            decreases self.users.len() - i,
        {
            let row = &self.users[i];
            if row.id != (i as u64 + 1) as i64 || row.login_attempts < 0 {
                return false;
            }
            emails.push(row.email.as_str());
            i += 1;
        }
        let mut tokens: Vec<&str> = Vec::new();
        let mut refresh_tokens: Vec<&str> = Vec::new();
        let mut i: usize = 0;
        while i < self.sessions.len()
            invariant
                i <= self.sessions.len() <= i64::MAX,
                tokens.len() == i,
                refresh_tokens.len() == i,
                forall|k: int| 0 <= k < i ==> (#[trigger] tokens[k])@ == self.sessions[k].token@,
                forall|k: int|
                    0 <= k < i ==> (#[trigger] refresh_tokens[k])@
                        == self.sessions[k].refresh_token@,
                forall|k: int|
                    0 <= k < i ==> (#[trigger] self.sessions[k]).id == k + 1
                        && self.sessions[k].wf() && self@.has_user(self.sessions[k].user_id),
            decreases self.sessions.len() - i,
        {
            let row = &self.sessions[i];
            if row.id != (i as u64 + 1) as i64 || row.token_expiry.0 >= row.refresh_token_expiry.0
                || row.revoked_at.is_some() != row.revocation_reason.is_some()
                || !self.user_exists(row.user_id) {
                return false;
            }
            tokens.push(row.token.as_str());
            refresh_tokens.push(row.refresh_token.as_str());
            i += 1;
        }
        let mut reset_tokens: Vec<&str> = Vec::new();
        let mut i: usize = 0;
        while i < self.forgot_password_transactions.len()
            invariant
                i <= self.forgot_password_transactions.len() <= i64::MAX,
                reset_tokens.len() == i,
                forall|k: int|
                    0 <= k < i ==> (#[trigger] reset_tokens[k])@
                        == self.forgot_password_transactions[k].reset_password_token@,
                forall|k: int|
                    0 <= k < i ==> (#[trigger] self.forgot_password_transactions[k]).id == k + 1
                        && self.forgot_password_transactions[k].wf() && self@.has_user(
                        self.forgot_password_transactions[k].user_id,
                    ),
            decreases self.forgot_password_transactions.len() - i,
        {
            let row = &self.forgot_password_transactions[i];
            if row.id != (i as u64 + 1) as i64 || (row.used_at.is_some()
                && row.verified_at.is_none()) || !self.user_exists(row.user_id) {
                return false;
            }
            reset_tokens.push(row.reset_password_token.as_str());
            i += 1;
        }
        let distinct = are_distinct(&emails) && are_distinct(&tokens) && are_distinct(
            &refresh_tokens,
        ) && are_distinct(&reset_tokens);
        proof {
            let e = Seq::new(emails@.len(), |i: int| emails@[i]@);
            let t = Seq::new(tokens@.len(), |i: int| tokens@[i]@);
            let r = Seq::new(refresh_tokens@.len(), |i: int| refresh_tokens@[i]@);
            let x = Seq::new(reset_tokens@.len(), |i: int| reset_tokens@[i]@);
            if distinct {
                assert forall|a: int, b: int| 0 <= a < b < self@.users.len() implies (
                #[trigger] self@.users[a]).email@ != (#[trigger] self@.users[b]).email@ by {
                    assert(e[a] != e[b]);
                }
                assert forall|a: int, b: int| 0 <= a < b < self@.sessions.len() implies (
                #[trigger] self@.sessions[a]).token@ != (#[trigger] self@.sessions[b]).token@ by {
                    assert(t[a] != t[b]);
                }
                assert forall|a: int, b: int| 0 <= a < b < self@.sessions.len() implies (
                #[trigger] self@.sessions[a]).refresh_token@ != (
                #[trigger] self@.sessions[b]).refresh_token@ by {
                    assert(r[a] != r[b]);
                }
                assert forall|a: int, b: int| 0 <= a < b < self@.transactions.len() implies (
                #[trigger] self@.transactions[a]).reset_password_token@ != (
                #[trigger] self@.transactions[b]).reset_password_token@ by {
                    assert(x[a] != x[b]);
                }
            } else if self@.wf() {
                assert forall|a: int, b: int| 0 <= a < b < e.len() implies e[a] != e[b] by {
                    assert(self@.users[a].email@ != self@.users[b].email@);
                }
                assert forall|a: int, b: int| 0 <= a < b < t.len() implies t[a] != t[b] by {
                    assert(self@.sessions[a].token@ != self@.sessions[b].token@);
                }
                assert forall|a: int, b: int| 0 <= a < b < r.len() implies r[a] != r[b] by {
                    assert(self@.sessions[a].refresh_token@ != self@.sessions[b].refresh_token@);
                }
                assert forall|a: int, b: int| 0 <= a < b < x.len() implies x[a] != x[b] by {
                    assert(self@.transactions[a].reset_password_token@
                        != self@.transactions[b].reset_password_token@);
                }
            }
        }
        distinct
    }

    /// Whether `user_id` is the number of a user.
    pub fn user_exists(&self, user_id: i64) -> (r: bool)
        ensures
            r == self@.has_user(user_id),
    {
        1 <= user_id && (user_id as u64) <= self.users.len() as u64
    }
}

/// The number that the next row of a table with `rows` rows gets, or `None`
/// where the numbers have run out.
pub fn next_id(rows: usize) -> (r: Option<i64>)
    ensures
        r == (if rows < i64::MAX {
            Some((rows + 1) as i64)
        } else {
            None
        }),
{
    if (rows as u64) < 9_223_372_036_854_775_807u64 {
        Some((rows as u64 + 1) as i64)
    } else {
        None
    }
}

} // verus!
