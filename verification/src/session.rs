//! The session manager: sign-in, validation of a token, sign-out.
//!
//! A session is good from sign-in until its fixed expiry and is never
//! renewed. Expiry is judged when the token is looked up; a session that has
//! run out stays in its table until it is signed out.

use crate::datetime::Timestamp;
use crate::employee::{ClientSideEmployee, Employee, NewSession, Session};
use crate::error::{Error, Fault};
use crate::message::LoginInfo;
use crate::password::{verification, verify_password};
use crate::store::{index_of_email, index_of_token, token_mask, Database, DatabaseView};
use crate::table::{lemma_appended, lemma_first_true, lemma_first_true_found, lemma_key_finds};
use vstd::prelude::*;
use vstd::std_specs::convert::FromSpec;

verus! {

/// For how many hours a session is good.
pub const SESSION_HOURS: u32 = 24;

/// What a password check decides for a sign-in: a match lets it go on, a
/// mismatch is `InvalidPassword`, and a failed check is its own error.
pub open spec fn password_verdict(checked: Result<bool, Error>) -> Result<(), Error> {
    match checked {
        Ok(true) => Ok(()),
        Ok(false) => Err(Error::InvalidPassword),
        Err(e) => Err(e),
    }
}

/// What a password check decides: see `password_verdict`.
pub fn settle_password(checked: Result<bool, Error>) -> (outcome: Result<(), Error>)
    ensures
        outcome == password_verdict(checked),
{
    match checked {
        Ok(true) => Ok(()),
        Ok(false) => Err(Error::InvalidPassword),
        Err(e) => Err(e),
    }
}

impl DatabaseView {
    /// The position of the account with the email `email`, or
    /// `AccountNotFound` where no account has it.
    pub open spec fn account_by_email(self, email: Seq<char>) -> Result<int, Error> {
        match index_of_email(self.employees.rows, email) {
            None => Err(Error::AccountNotFound),
            Some(k) => Ok(k),
        }
    }

    /// Who signs in with `email` and `password`: the position of the account
    /// with the email, where the password verifies against its stored hash.
    /// An unknown email is reported as a wrong password is, so that a caller
    /// cannot tell which emails have accounts.
    pub open spec fn sign_in(self, email: Seq<char>, password: Seq<char>) -> Result<int, Error> {
        match self.account_by_email(email) {
            Err(_) => Err(Error::InvalidPassword),
            Ok(k) => match password_verdict(
                verification(password, self.employees.rows[k].password_hash@),
            ) {
                Ok(_) => Ok(k),
                Err(e) => Err(e),
            },
        }
    }

    /// Who signs in, where the session table has a key left for the new
    /// session; with none left the sign-in fails with `KeysExhausted`.
    pub open spec fn sign_in_with_room(self, email: Seq<char>, password: Seq<char>) -> Result<
        int,
        Error,
    > {
        match self.sign_in(email, password) {
            Err(e) => Err(e),
            Ok(k) => if self.sessions.next_key == i32::MAX {
                Err(Error::Infrastructure(Fault::KeysExhausted))
            } else {
                Ok(k)
            },
        }
    }

    /// The store with `session` added under the next session key.
    pub open spec fn with_session(self, session: NewSession) -> DatabaseView {
        DatabaseView {
            sessions: self.sessions.appended(Session::keyed_spec(self.sessions.next_key, session)),
            ..self
        }
    }

    /// Whether `session` can be added: its token is new and a key is left.
    pub open spec fn session_fits(self, session: NewSession) -> Result<(), Error> {
        if index_of_token(self.sessions.rows, session.token@) is Some {
            Err(Error::Infrastructure(Fault::TokenCollision))
        } else if self.sessions.next_key == i32::MAX {
            Err(Error::Infrastructure(Fault::KeysExhausted))
        } else {
            Ok(())
        }
    }

    /// The store without the session of `token`, if it has one.
    pub open spec fn without_token(self, token: Seq<char>) -> DatabaseView {
        match index_of_token(self.sessions.rows, token) {
            Some(i) => DatabaseView { sessions: self.sessions.without(i), ..self },
            None => self,
        }
    }
}

/// A session added with a new token is found under that token, leads to its
/// account while it is live, and leaves the store well formed.
pub proof fn lemma_with_session(store: DatabaseView, session: NewSession, k: int, now: Timestamp)
    requires
        store.wf(),
        store.session_fits(session) is Ok,
        0 <= k < store.employees.rows.len(),
        session.employee_id == store.employees.rows[k].id,
    ensures
        store.with_session(session).wf(),
        index_of_token(store.with_session(session).sessions.rows, session.token@) == Some(
            store.sessions.rows.len() as int,
        ),
        session.expiration.later_than(now) ==> store.with_session(session).resolve(
            session.token@,
            now,
        ) == Ok::<Employee, Error>(store.employees.rows[k]),
        !session.expiration.later_than(now) ==> store.with_session(session).resolve(
            session.token@,
            now,
        ) == Err::<Employee, Error>(Error::TokenExpired),
{
    let row = Session::keyed_spec(store.sessions.next_key, session);
    let after = store.with_session(session);
    lemma_appended(store.sessions, row);
    let before_mask = token_mask(store.sessions.rows, session.token@);
    lemma_first_true(before_mask);
    assert forall|i: int, j: int|
        0 <= i < after.sessions.rows.len() && 0 <= j < after.sessions.rows.len() && i
            != j implies (#[trigger] after.sessions.rows[i]).token@ != (
    #[trigger] after.sessions.rows[j]).token@ by {
        if i < store.sessions.rows.len() {
            assert(!before_mask[i]);
        }
        if j < store.sessions.rows.len() {
            assert(!before_mask[j]);
        }
    }
    let mask = token_mask(after.sessions.rows, session.token@);
    lemma_first_true_found(mask, store.sessions.rows.len() as int);
    lemma_key_finds(store.employees, k);
}

/// The position of the account with the email `email`, or `AccountNotFound`
/// where no account has it.
pub fn employee_by_email(db: &Database, email: &str) -> (found: Result<usize, Error>)
    ensures
        match found {
            Ok(k) => db@.account_by_email(email@) == Ok::<int, Error>(k as int) && k
                < db@.employees.rows.len() && db@.employees.rows[k as int].email@ == email@,
            Err(e) => db@.account_by_email(email@) == Err::<int, Error>(e),
        },
{
    match db.email_position(email) {
        Some(k) => Ok(k),
        None => Err(Error::AccountNotFound),
    }
}

/// Validates a token at `now`: the account of its session, `TokenNotFound`
/// where no session has the token, `TokenExpired` where the session does
/// not run out strictly after `now`, `AccountNotFound` where the session's
/// account is gone.
pub fn check_token(db: &Database, token: &str, now: Timestamp) -> (account: Result<Employee, Error>)
    ensures
        account == db@.resolve(token@, now),
{
    match db.resolve_position(token, now) {
        Ok(k) => Ok(db.employees.row(k).clone()),
        Err(e) => Err(e),
    }
}

/// Adds `session`, made for the account at position `k`, to the session
/// table and returns what a sign-in returns: the account as clients see it
/// and the token. A token that is already in the table is refused with
/// `TokenCollision`, a full table with `KeysExhausted`; neither changes the
/// store.
pub fn open_session(
    db: &mut Database,
    k: usize,
    session: NewSession,
) -> (opened: Result<(ClientSideEmployee, String), Error>)
    requires
        old(db)@.wf(),
        k < old(db)@.employees.rows.len(),
        session.employee_id == old(db)@.employees.rows[k as int].id,
    ensures
        final(db)@.wf(),
        match old(db)@.session_fits(session) {
            Err(e) => opened == Err::<(ClientSideEmployee, String), Error>(e) && final(db)@ == old(
                db,
            )@,
            Ok(_) => {
                &&& opened == Ok::<(ClientSideEmployee, String), Error>(
                    (
                        ClientSideEmployee::from_spec(old(db)@.employees.rows[k as int]),
                        session.token,
                    ),
                )
                &&& final(db)@ == old(db)@.with_session(session)
            },
        },
{
    if db.session_position(session.token.as_str()).is_some() {
        return Err(Error::Infrastructure(Fault::TokenCollision));
    }
    let key = db.sessions.next_key();
    if key == i32::MAX {
        return Err(Error::Infrastructure(Fault::KeysExhausted));
    }
    let summary = ClientSideEmployee::from(db.employees.row(k).clone());
    let token = session.token.clone();
    proof {
        lemma_with_session(db@, session, k as int, session.expiration);
    }
    db.sessions.append(Session::keyed(key, session));
    Ok((summary, token))
}

/// Signs in with an email and a password at `now`.
///
/// An unknown email and a wrong password are both `InvalidPassword`; a
/// stored hash that is not in the stored layout is `MalformedHash`; a
/// session table without a key left is `KeysExhausted`; none of these
/// changes the store. Otherwise a session of `SESSION_HOURS` hours from
/// `now` is added under a fresh salted token and is returned with the
/// account; validating that token at `now` leads to the same account. The
/// token depends on the salt, so the sign-in may still fail, with the store
/// unchanged, where the hasher fails or the token is in the table already.
pub fn login(
    db: &mut Database,
    login_info: LoginInfo,
    now: Timestamp,
) -> (signed_in: Result<(ClientSideEmployee, String), Error>)
    requires
        old(db)@.wf(),
        now.can_add_hours(SESSION_HOURS as int),
    ensures
        final(db)@.wf(),
        match old(db)@.sign_in_with_room(login_info.email@, login_info.password@) {
            Err(e) => signed_in == Err::<(ClientSideEmployee, String), Error>(e) && final(db)@
                == old(db)@,
            Ok(k) => match signed_in {
                Ok((summary, token)) => {
                    let account = old(db)@.employees.rows[k];
                    let expiration = now.after_hours(SESSION_HOURS as int);
                    let session = NewSession { employee_id: account.id, expiration, token };
                    &&& summary == ClientSideEmployee::from_spec(account)
                    &&& NewSession::token_derived(account.id, expiration, token@)
                    &&& old(db)@.session_fits(session) is Ok
                    &&& final(db)@ == old(db)@.with_session(session)
                    &&& final(db)@.resolve(token@, now) == Ok::<Employee, Error>(account)
                },
                Err(e) => {
                    &&& final(db)@ == old(db)@
                    &&& {
                        ||| e == Error::Infrastructure(Fault::HashFailure)
                        ||| e == Error::Infrastructure(Fault::TokenCollision)
                    }
                },
            },
        },
{
    let k = match employee_by_email(db, login_info.email.as_str()) {
        Ok(k) => k,
        Err(_) => {
            return Err(Error::InvalidPassword);
        },
    };
    let checked = verify_password(
        login_info.password.as_str(),
        db.employees.row(k).password_hash.as_str(),
    );
    match settle_password(checked) {
        Err(e) => {
            return Err(e);
        },
        Ok(_) => {},
    }
    if db.sessions.next_key() == i32::MAX {
        return Err(Error::Infrastructure(Fault::KeysExhausted));
    }
    let expiration = now.plus_hours(SESSION_HOURS);
    let session = match NewSession::new(db.employees.row(k).id, expiration) {
        Ok(session) => session,
        Err(e) => {
            return Err(e);
        },
    };
    proof {
        if db@.session_fits(session) is Ok {
            lemma_with_session(db@, session, k as int, now);
        }
    }
    open_session(db, k, session)
}

/// Signs out: removes the session of `token`. A token that no session has
/// is no error, and nothing changes then. Afterwards no session has the token.
pub fn logout(db: &mut Database, token: &str) -> (done: Result<(), Error>)
    requires
        old(db)@.wf(),
    ensures
        done is Ok,
        final(db)@.wf(),
        final(db)@ == old(db)@.without_token(token@),
        index_of_token(final(db)@.sessions.rows, token@) is None,
{
    match db.session_position(token) {
        Some(i) => {
            db.sessions.take(i);
        },
        None => {},
    }
    Ok(())
}

} // verus!
