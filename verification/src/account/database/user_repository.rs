//! The table of users.

use vstd::prelude::*;
use vstd::string::StringExecFns;
use crate::account::database::{
    next_id, Database, DatabaseView, TABLE_FULL, UNIQUE_CONSTRAINT_FAILED,
};
use crate::utils::{first_true, lemma_first_true};
use crate::account::entities::user::{CreateUserEntity, FailedLoginAttempt, UserEntity, UserRole};
use crate::error::{AppError, AppResult};
use crate::utils::str_equal;

verus! {

impl DatabaseView {
    /// For each user, whether their number is `id`.
    pub open spec fn id_hits(&self, id: i64) -> Seq<bool> {
        Seq::new(self.users.len(), |i: int| self.users[i].id == id)
    }

    /// For each user, whether their address is `email`.
    pub open spec fn email_hits(&self, email: Seq<char>) -> Seq<bool> {
        Seq::new(self.users.len(), |i: int| self.users[i].email@ == email)
    }

    /// The user with the number `id`.
    pub open spec fn user_by_id(&self, id: i64) -> Option<UserEntity> {
        match first_true(self.id_hits(id)) {
            Some(i) => Some(self.users[i]),
            None => None,
        }
    }

    /// The user with the address `email`.
    pub open spec fn user_by_email(&self, email: Seq<char>) -> Option<UserEntity> {
        match first_true(self.email_hits(email)) {
            Some(i) => Some(self.users[i]),
            None => None,
        }
    }

    /// The row that registration inserts: the next number, the role of an
    /// ordinary user, and no failed login on record.
    pub open spec fn new_user(&self, user: CreateUserEntity) -> UserEntity {
        UserEntity {
            id: (self.users.len() + 1) as i64,
            email: user.email,
            password: user.password,
            role: UserRole::User,
            login_attempts: 0,
            last_failed_login_attempt: None,
        }
    }

    /// The table can take a user with the address `email`: the address is
    /// free and the numbers have not run out.
    pub open spec fn admits_user(&self, email: Seq<char>) -> bool {
        self.user_by_email(email) is None && self.users.len() < i64::MAX
    }

    /// The store with `user` inserted.
    pub open spec fn with_user(self, user: CreateUserEntity) -> DatabaseView {
        DatabaseView { users: self.users.push(self.new_user(user)), ..self }
    }

    /// The store with the failure recorded on the user `id`.
    pub open spec fn with_failed_login(self, id: i64, attempt: FailedLoginAttempt) -> DatabaseView {
        DatabaseView {
            users: self.users.map_values(
                |u: UserEntity|
                    if u.id == id {
                        UserEntity {
                            login_attempts: attempt.login_attempts,
                            last_failed_login_attempt: attempt.last_failed_login_attempt,
                            ..u
                        }
                    } else {
                        u
                    },
            ),
            ..self
        }
    }

    /// The store with the password of the user `user_id` replaced and their
    /// counter of failed logins cleared.
    pub open spec fn with_password(self, user_id: i64, password: String) -> DatabaseView {
        DatabaseView {
            users: self.users.map_values(
                |u: UserEntity|
                    if u.id == user_id {
                        UserEntity { password, login_attempts: 0, ..u }
                    } else {
                        u
                    },
            ),
            ..self
        }
    }
}

/// In a well-formed store the user `id` is the row at `id - 1`, and there is
/// none where `id` is no number of a row.
pub proof fn lemma_user_by_id(db: DatabaseView, id: i64)
    requires
        db.users_wf(),
    ensures
        db.user_by_id(id) == (if 1 <= id <= db.users.len() {
            Some(db.users[id - 1])
        } else {
            None
        }),
{
    let hits = db.id_hits(id);
    lemma_first_true(hits);
    if 1 <= id <= db.users.len() {
        assert(hits[id - 1]);
    }
}

/// The user with an address is a row that has it, and where there is none,
/// no row has it.
pub proof fn lemma_user_by_email(db: DatabaseView, email: Seq<char>)
    ensures
        match db.user_by_email(email) {
            Some(u) => exists|i: int|
                0 <= i < db.users.len() && #[trigger] db.users[i] == u && u.email@ == email,
            None => forall|i: int| 0 <= i < db.users.len() ==> (#[trigger] db.users[i]).email@ != email,
        },
{
    let hits = db.email_hits(email);
    lemma_first_true(hits);
    match first_true(hits) {
        Some(i) => {
            assert(db.users[i] == db.user_by_email(email).unwrap());
        },
        None => {
            assert forall|i: int| 0 <= i < db.users.len() implies (#[trigger] db.users[i]).email@
                != email by {
                assert(!hits[i]);
            }
        },
    }
}

/// In a well-formed store a row is the user with its own address.
pub proof fn lemma_user_by_email_is(db: DatabaseView, i: int)
    requires
        db.users_wf(),
        0 <= i < db.users.len(),
    ensures
        db.user_by_email(db.users[i].email@) == Some(db.users[i]),
{
    let email = db.users[i].email@;
    let hits = db.email_hits(email);
    lemma_first_true(hits);
    assert(hits[i]);
    let k = first_true(hits).unwrap();
    assert(hits[k]);
    if k < i {
        assert(db.users[k].email@ != db.users[i].email@);
    }
}

/// The row of `user` with the failure `attempt` recorded.
pub open spec fn with_failure(user: UserEntity, attempt: FailedLoginAttempt) -> UserEntity {
    UserEntity {
        login_attempts: attempt.login_attempts,
        last_failed_login_attempt: attempt.last_failed_login_attempt,
        ..user
    }
}

/// The row of `user` with the password hash `password` and a cleared
/// counter of failed logins.
pub open spec fn with_new_password(user: UserEntity, password: String) -> UserEntity {
    UserEntity { password, login_attempts: 0, ..user }
}

/// Inserting a user that the table can take keeps the store well formed,
/// and the user is then found under their address and their number.
pub proof fn lemma_with_user(db: DatabaseView, user: CreateUserEntity)
    requires
        db.wf(),
        db.admits_user(user.email@),
    ensures
        db.with_user(user).wf(),
        db.with_user(user).user_by_email(user.email@) == Some(db.new_user(user)),
        db.with_user(user).user_by_id(db.new_user(user).id) == Some(db.new_user(user)),
        db.with_user(user).has_user(db.new_user(user).id),
{
    let after = db.with_user(user);
    lemma_user_by_email(db, user.email@);
    assert(after.wf());
    lemma_user_by_email_is(after, db.users.len() as int);
    lemma_user_by_id(after, db.new_user(user).id);
}

/// Recording a failed login keeps the store well formed and changes
/// nothing but the counter and the stamp of the user concerned: every
/// address finds the user it found before.
pub proof fn lemma_with_failed_login(
    db: DatabaseView,
    id: i64,
    attempt: FailedLoginAttempt,
    email: Seq<char>,
)
    requires
        db.wf(),
        attempt.login_attempts >= 0,
    ensures
        db.with_failed_login(id, attempt).wf(),
        db.with_failed_login(id, attempt).user_by_email(email) == (match db.user_by_email(email) {
            Some(user) => Some(
                if user.id == id {
                    with_failure(user, attempt)
                } else {
                    user
                },
            ),
            None => None,
        }),
{
    let after = db.with_failed_login(id, attempt);
    assert(after.email_hits(email) =~= db.email_hits(email));
    lemma_first_true(db.email_hits(email));
}

/// Replacing a password keeps the store well formed and changes nothing
/// but the hash and the counter of the user concerned: every address and
/// every number finds the user it found before.
pub proof fn lemma_with_password(
    db: DatabaseView,
    user_id: i64,
    password: String,
    email: Seq<char>,
    id: i64,
)
    requires
        db.wf(),
    ensures
        db.with_password(user_id, password).wf(),
        db.with_password(user_id, password).user_by_email(email) == (match db.user_by_email(email) {
            Some(user) => Some(
                if user.id == user_id {
                    with_new_password(user, password)
                } else {
                    user
                },
            ),
            None => None,
        }),
        db.with_password(user_id, password).user_by_id(id) == (match db.user_by_id(id) {
            Some(user) => Some(
                if user.id == user_id {
                    with_new_password(user, password)
                } else {
                    user
                },
            ),
            None => None,
        }),
{
    let after = db.with_password(user_id, password);
    assert(after.email_hits(email) =~= db.email_hits(email));
    assert(after.id_hits(id) =~= db.id_hits(id));
    lemma_first_true(db.email_hits(email));
    lemma_first_true(db.id_hits(id));
}

/// Looks a user up by number.
pub fn find_user_by_id(db: &Database, id: i64) -> (r: Option<UserEntity>)
    requires
        db@.wf(),
    ensures
        r == db@.user_by_id(id),
{
    proof {
        lemma_user_by_id(db@, id);
    }
    if 1 <= id && (id as u64) <= db.users.len() as u64 {
        Some(db.users[(id - 1) as usize].clone())
    } else {
        None
    }
}

/// Looks a user up by address.
pub fn find_user_by_email(db: &Database, email: &str) -> (r: Option<UserEntity>)
    ensures
        r == db@.user_by_email(email@),
{
    let ghost hits = db@.email_hits(email@);
    let mut i: usize = 0;
    while i < db.users.len()
        invariant
            i <= db.users.len(),
            hits == db@.email_hits(email@),
            forall|j: int| 0 <= j < i ==> !hits[j],
        decreases db.users.len() - i,
    {
        if str_equal(db.users[i].email.as_str(), email) {
            proof {
                lemma_first_true(hits);
                assert(hits[i as int]);
            }
            return Some(db.users[i].clone());
        }
        i += 1;
    }
    proof {
        lemma_first_true(hits);
    }
    None
}

/// Whether a user has the address.
pub fn user_exists_by_email(db: &Database, email: &str) -> (r: bool)
    ensures
        r == db@.user_by_email(email@) is Some,
{
    find_user_by_email(db, email).is_some()
}

/// Inserts a user. The store refuses an address that is taken, and a row
/// beyond the last number.
pub fn create_user(db: &mut Database, user: CreateUserEntity) -> (r: AppResult<UserEntity>)
    requires
        old(db)@.wf(),
    ensures
        final(db)@.wf(),
        r is Ok <==> old(db)@.admits_user(user.email@),
        r matches Ok(created) ==> final(db)@ == old(db)@.with_user(user) && created == old(
            db,
        )@.new_user(user),
        r matches Err(e) ==> final(db)@ == old(db)@ && e is SqlxError,
{
    if user_exists_by_email(db, user.email.as_str()) {
        return Err(AppError::SqlxError(String::from_str(UNIQUE_CONSTRAINT_FAILED)));
    }
    let Some(id) = next_id(db.users.len()) else {
        return Err(AppError::SqlxError(String::from_str(TABLE_FULL)));
    };
    proof {
        lemma_user_by_email(db@, user.email@);
    }
    let row = UserEntity {
        id,
        email: user.email,
        password: user.password,
        role: UserRole::User,
        login_attempts: 0,
        last_failed_login_attempt: None,
    };
    let created = row.clone();
    db.users.push(row);
    Ok(created)
}

/// Records a failed login on the user `id`: the new count and its time.
pub fn update_failed_login(db: &mut Database, id: i64, failed_login_attempt: FailedLoginAttempt)
    requires
        old(db)@.wf(),
        failed_login_attempt.login_attempts >= 0,
    ensures
        final(db)@.wf(),
        final(db)@ == old(db)@.with_failed_login(id, failed_login_attempt),
{
    if 1 <= id && (id as u64) <= db.users.len() as u64 {
        let index = (id - 1) as usize;
        let mut row = db.users[index].clone();
        row.login_attempts = failed_login_attempt.login_attempts;
        row.last_failed_login_attempt = failed_login_attempt.last_failed_login_attempt;
        db.users.set(index, row);
    }
    assert(db@.users =~= old(db)@.with_failed_login(id, failed_login_attempt).users);
}

/// Replaces the password of the user `user_id` and clears their counter of
/// failed logins.
pub fn update_password_by_user_id(db: &mut Database, user_id: i64, password: String)
    requires
        old(db)@.wf(),
    ensures
        final(db)@.wf(),
        final(db)@ == old(db)@.with_password(user_id, password),
{
    if 1 <= user_id && (user_id as u64) <= db.users.len() as u64 {
        let index = (user_id - 1) as usize;
        let mut row = db.users[index].clone();
        row.password = password;
        row.login_attempts = 0;
        db.users.set(index, row);
    }
    assert(db@.users =~= old(db)@.with_password(user_id, password).users);
}

} // verus!
