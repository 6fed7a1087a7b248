//! Users and their sessions as the service first kept them: a session's
//! expiry is a calendar reading, field by field.

use crate::datetime::DateTime;
use crate::enum_helper::{make_string_error, same_text, StringError};
use crate::error::{Error, Fault};
use crate::message::LoginInfo;
use crate::password::{
    hash_password, is_stored_hash, pbkdf2_verdict, verification, verify_password,
};
use crate::payload::{json_list, to_json_text};
use crate::session::{password_verdict, settle_password};
use vstd::prelude::*;

verus! {

/// What a user may do, from least to most.
#[derive(Clone, Copy, Debug, PartialEq, Eq, Structural)]
pub enum UserLevel {
    Read,
    Supervisor,
    Admin,
}

impl UserLevel {
    /// The name of the level.
    pub open spec fn text(self) -> Seq<char> {
        match self {
            UserLevel::Read => "Read"@,
            UserLevel::Supervisor => "Supervisor"@,
            UserLevel::Admin => "Admin"@,
        }
    }

    /// The level that `text` names, if it names one.
    pub open spec fn parse(text: Seq<char>) -> Option<UserLevel> {
        if text == "Read"@ {
            Some(UserLevel::Read)
        } else if text == "Supervisor"@ {
            Some(UserLevel::Supervisor)
        } else if text == "Admin"@ {
            Some(UserLevel::Admin)
        } else {
            None
        }
    }

    /// The name of the level.
    pub fn as_str(&self) -> (text: &'static str)
        ensures
            text@ == self.text(),
    {
        match self {
            UserLevel::Read => "Read",
            UserLevel::Supervisor => "Supervisor",
            UserLevel::Admin => "Admin",
        }
    }

    /// The level that `text` names. A text that names none is refused
    /// with the message `VariantNotFound`.
    pub fn from_text(text: &str) -> (value: Result<UserLevel, StringError>)
        ensures
            match value {
                Ok(v) => Self::parse(text@) == Some(v),
                Err(e) => Self::parse(text@) is None && e.0@ == "VariantNotFound"@,
            },
    {
        if same_text(text, "Read") {
            Ok(UserLevel::Read)
        } else if same_text(text, "Supervisor") {
            Ok(UserLevel::Supervisor)
        } else if same_text(text, "Admin") {
            Ok(UserLevel::Admin)
        } else {
            Err(make_string_error("VariantNotFound"))
        }
    }

    /// Every level is found again under its name.
    pub proof fn lemma_text_parses(self)
        ensures
            Self::parse(self.text()) == Some(self),
    {
        reveal_strlit("Read");
        reveal_strlit("Supervisor");
        reveal_strlit("Admin");
        assert("Supervisor"@.len() != "Read"@.len());
    }
}

/// A user that has no key yet.
#[derive(Debug)]
pub struct NewUser {
    pub email: String,
    pub password_hash: String,
    pub level: UserLevel,
}

impl Clone for NewUser {
    fn clone(&self) -> (copy: Self)
        ensures
            copy == *self,
    {
        NewUser {
            email: self.email.clone(),
            password_hash: self.password_hash.clone(),
            level: self.level,
        }
    }
}

impl NewUser {
    /// A user with the email of `login_info` and a salted hash of its
    /// password, which verifies against that password. Fails with
    /// `HashFailure` where the hasher fails, and in no other way.
    pub fn new(login_info: LoginInfo, level: UserLevel) -> (user: Result<NewUser, Error>)
        ensures
            match user {
                Ok(u) => {
                    &&& u.email == login_info.email
                    &&& u.level == level
                    &&& is_stored_hash(u.password_hash@)
                    &&& verification(login_info.password@, u.password_hash@) == Ok::<bool, Error>(
                        true,
                    )
                },
                Err(e) => e == Error::Infrastructure(Fault::HashFailure),
            },
    {
        match hash_password(login_info.password.as_str()) {
            Ok(password_hash) => Ok(NewUser { email: login_info.email, password_hash, level }),
            Err(e) => Err(e),
        }
    }
}

/// A user row.
#[derive(Debug)]
pub struct User {
    pub id: i32,
    pub email: String,
    pub password_hash: String,
    pub startup_settings: Option<i32>,
    pub level: UserLevel,
}

impl Clone for User {
    fn clone(&self) -> (copy: Self)
        ensures
            copy == *self,
    {
        User {
            id: self.id,
            email: self.email.clone(),
            password_hash: self.password_hash.clone(),
            startup_settings: self.startup_settings,
            level: self.level,
        }
    }
}

impl User {
    /// Whether `password` is the user's: see `verification`.
    pub fn check_password(&self, password: &str) -> (matches: Result<bool, Error>)
        ensures
            matches == verification(password@, self.password_hash@),
    {
        verify_password(password, self.password_hash.as_str())
    }

    /// Changes the user's password. Fails with `InvalidPassword` where
    /// `old_password` does not verify and with `MalformedHash` where the
    /// stored hash is damaged; the user is unchanged then. With the old
    /// password verified the hash is replaced by a fresh salted hash that
    /// verifies against `new_password`, or the hasher fails and nothing
    /// changes.
    pub fn change_password(
        &mut self,
        old_password: &str,
        new_password: &str,
    ) -> (done: Result<(), Error>)
        ensures
            final(self).id == old(self).id,
            final(self).email == old(self).email,
            final(self).startup_settings == old(self).startup_settings,
            final(self).level == old(self).level,
            match password_verdict(verification(old_password@, old(self).password_hash@)) {
                Err(e) => {
                    &&& done == Err::<(), Error>(e)
                    &&& final(self).password_hash == old(self).password_hash
                },
                Ok(_) => match done {
                    Ok(_) => {
                        &&& is_stored_hash(final(self).password_hash@)
                        &&& verification(new_password@, final(self).password_hash@) == Ok::<
                            bool,
                            Error,
                        >(true)
                    },
                    Err(e) => {
                        &&& e == Error::Infrastructure(Fault::HashFailure)
                        &&& final(self).password_hash == old(self).password_hash
                    },
                },
            },
    {
        match settle_password(self.check_password(old_password)) {
            Err(e) => {
                return Err(e);
            },
            Ok(_) => {},
        }
        match hash_password(new_password) {
            Ok(hashed) => {
                self.password_hash = hashed;
                Ok(())
            },
            Err(e) => Err(e),
        }
    }
}

/// What a client sees of a user: its key and its level.
#[derive(Clone, Copy, Debug, PartialEq, Eq, Structural)]
pub struct ClientSideUser {
    pub id: i32,
    pub level: UserLevel,
}

impl ClientSideUser {
    /// What a client sees of `user`.
    pub fn from(user: User) -> (summary: Self)
        ensures
            summary.id == user.id,
            summary.level == user.level,
    {
        ClientSideUser { id: user.id, level: user.level }
    }
}

/// The integers that a user's token is derived from: the user's key, then
/// the five fields of the expiry.
pub open spec fn token_values(user_id: i32, expires: DateTime) -> Seq<i64> {
    seq![
        user_id as i64,
        expires.0 as i64,
        expires.1 as i64,
        expires.2 as i64,
        expires.3 as i64,
        expires.4 as i64,
    ]
}

/// A user's session that has no key yet.
#[derive(Debug)]
pub struct NewSession {
    pub user_id: i32,
    pub year: i32,
    pub month: i32,
    pub day: i32,
    pub hour: i32,
    pub minute: i32,
    pub token: String,
}

impl NewSession {
    /// A session of the user `user_id` that runs out at `expires`, under a
    /// token derived from both by a salted hash. Which token it is depends
    /// on the salt. Fails with `HashFailure` where the hasher fails, and in
    /// no other way.
    pub fn new(user_id: i32, expires: DateTime) -> (session: Result<NewSession, Error>)
        ensures
            match session {
                Ok(s) => {
                    &&& s.user_id == user_id
                    &&& (s.year, s.month, s.day, s.hour, s.minute) == expires
                    &&& is_stored_hash(s.token@)
                    &&& pbkdf2_verdict(json_list(token_values(user_id, expires)), s.token@) == Some(
                        true,
                    )
                },
                Err(e) => e == Error::Infrastructure(Fault::HashFailure),
            },
    {
        let mut values: Vec<i64> = Vec::new();
        values.push(user_id as i64);
        values.push(expires.0 as i64);
        values.push(expires.1 as i64);
        values.push(expires.2 as i64);
        values.push(expires.3 as i64);
        values.push(expires.4 as i64);
        assert(values@ =~= token_values(user_id, expires));
        let payload = match to_json_text(&values) {
            Some(text) => text,
            None => {
                return Err(Error::Infrastructure(Fault::PayloadFailure));
            },
        };
        match hash_password(payload.as_str()) {
            Ok(token) => Ok(
                NewSession {
                    user_id,
                    year: expires.0,
                    month: expires.1,
                    day: expires.2,
                    hour: expires.3,
                    minute: expires.4,
                    token,
                },
            ),
            Err(e) => Err(e),
        }
    }
}

/// A user's session row.
#[derive(Debug)]
pub struct Session {
    pub id: i32,
    pub user_id: i32,
    pub year: i32,
    pub month: i32,
    pub day: i32,
    pub hour: i32,
    pub minute: i32,
    pub token: String,
}

impl Session {
    /// When the session runs out.
    pub fn expires(&self) -> (expires: DateTime)
        ensures
            expires == (self.year, self.month, self.day, self.hour, self.minute),
    {
        (self.year, self.month, self.day, self.hour, self.minute)
    }
}

} // verus!
