//! Accounts, their levels, and the sessions that prove a sign-in.

use crate::config::EmployeeColor;
use crate::datetime::Timestamp;
use crate::enum_helper::{make_string_error, same_text, StringError};
use crate::error::{Error, Fault};
use crate::message::LoginInfo;
use crate::password::{hash_password, is_stored_hash, pbkdf2_verdict, verification};
use crate::payload::{json_list, to_json_text};
use crate::table::Record;
use vstd::prelude::*;
use vstd::std_specs::convert::FromSpecImpl;

verus! {

/// A first and a last name.
#[derive(Debug, PartialEq, Eq)]
pub struct Name {
    pub first: String,
    pub last: String,
}

impl Clone for Name {
    fn clone(&self) -> (copy: Self)
        ensures
            copy == *self,
    {
        Name { first: self.first.clone(), last: self.last.clone() }
    }
}

/// What an account may do. The levels are ordered by `rank`:
/// `Read` below `Supervisor` below `Admin`.
#[derive(Clone, Copy, Debug, PartialEq, Eq, Structural)]
pub enum EmployeeLevel {
    Read,
    Supervisor,
    Admin,
}

impl EmployeeLevel {
    /// The place of the level in the order of levels.
    pub open spec fn rank_spec(self) -> int {
        match self {
            EmployeeLevel::Read => 0,
            EmployeeLevel::Supervisor => 1,
            EmployeeLevel::Admin => 2,
        }
    }

    /// Whether the level is `minimum` or above it.
    pub open spec fn covers(self, minimum: EmployeeLevel) -> bool {
        self.rank_spec() >= minimum.rank_spec()
    }

    /// The place of the level in the order of levels.
    pub fn rank(&self) -> (rank: u8)
        ensures
            rank == self.rank_spec(),
    {
        match self {
            EmployeeLevel::Read => 0,
            EmployeeLevel::Supervisor => 1,
            EmployeeLevel::Admin => 2,
        }
    }

    /// The level that `text` asks for: `Supervisor` or `Admin` where it
    /// names one of them, and `Read` for any other text.
    pub open spec fn asked_for(text: Seq<char>) -> EmployeeLevel {
        if text == "Supervisor"@ {
            EmployeeLevel::Supervisor
        } else if text == "Admin"@ {
            EmployeeLevel::Admin
        } else {
            EmployeeLevel::Read
        }
    }

    /// The level that `text` asks for: see `asked_for`.
    pub fn from_request(text: &str) -> (level: EmployeeLevel)
        ensures
            level == Self::asked_for(text@),
    {
        if same_text(text, "Supervisor") {
            EmployeeLevel::Supervisor
        } else if same_text(text, "Admin") {
            EmployeeLevel::Admin
        } else {
            EmployeeLevel::Read
        }
    }

    /// Whether the level is `minimum` or above it.
    pub fn at_least(&self, minimum: EmployeeLevel) -> (enough: bool)
        ensures
            enough == self.covers(minimum),
    {
        self.rank() >= minimum.rank()
    }
}

impl EmployeeLevel {
    /// The name of the level.
    pub open spec fn text(self) -> Seq<char> {
        match self {
            EmployeeLevel::Read => "Read"@,
            EmployeeLevel::Supervisor => "Supervisor"@,
            EmployeeLevel::Admin => "Admin"@,
        }
    }

    /// The level that `text` names, if it names one.
    pub open spec fn parse(text: Seq<char>) -> Option<EmployeeLevel> {
        if text == "Read"@ {
            Some(EmployeeLevel::Read)
        } else if text == "Supervisor"@ {
            Some(EmployeeLevel::Supervisor)
        } else if text == "Admin"@ {
            Some(EmployeeLevel::Admin)
        } else {
            None
        }
    }

    /// The name of the level.
    pub fn as_str(&self) -> (text: &'static str)
        ensures
            text@ == self.text(),
    {
        match self {
            EmployeeLevel::Read => "Read",
            EmployeeLevel::Supervisor => "Supervisor",
            EmployeeLevel::Admin => "Admin",
        }
    }

    /// The level that `text` names. A text that names none is refused
    /// with the message `VariantNotFound`.
    pub fn from_text(text: &str) -> (value: Result<EmployeeLevel, StringError>)
        ensures
            match value {
                Ok(v) => Self::parse(text@) == Some(v),
                Err(e) => Self::parse(text@) is None && e.0@ == "VariantNotFound"@,
            },
    {
        if same_text(text, "Read") {
            Ok(EmployeeLevel::Read)
        } else if same_text(text, "Supervisor") {
            Ok(EmployeeLevel::Supervisor)
        } else if same_text(text, "Admin") {
            Ok(EmployeeLevel::Admin)
        } else {
            Err(make_string_error("VariantNotFound"))
        }
    }

    /// Every level is found again under its name.
    pub proof fn lemma_text_parses(self)
        ensures
            Self::parse(self.text()) == Some(self),
    {
        reveal_strlit("Read");
        reveal_strlit("Supervisor");
        reveal_strlit("Admin");
        assert("Supervisor"@.len() != "Read"@.len());
    }
}

/// What a session token is derived from.
#[derive(Clone, Copy, Debug, PartialEq, Eq)]
pub struct TokenData {
    pub employee_id: i32,
    pub expiration: Timestamp,
}

impl TokenData {
    /// The integers that the token is derived from: the account's key, then
    /// the seconds and the nanoseconds of the expiry.
    pub open spec fn values(self) -> Seq<i64> {
        seq![self.employee_id as i64, self.expiration.secs, self.expiration.nanos as i64]
    }

    /// The text that the token is derived from: the integers as a JSON list.
    pub open spec fn payload(self) -> Seq<char> {
        json_list(self.values())
    }

    /// The text that the token is derived from: the account's key and the
    /// expiry as JSON. Writing it never fails.
    pub fn to_json(&self) -> (text: Result<String, Error>)
        ensures
            text matches Ok(t) && t@ == self.payload(),
    {
        let mut values: Vec<i64> = Vec::new();
        values.push(self.employee_id as i64);
        values.push(self.expiration.secs);
        values.push(self.expiration.nanos as i64);
        assert(values@ =~= self.values());
        match to_json_text(&values) {
            Some(t) => Ok(t),
            None => Err(Error::Infrastructure(Fault::PayloadFailure)),
        }
    }
}

/// A session that has no key yet.
#[derive(Debug)]
pub struct NewSession {
    pub employee_id: i32,
    pub expiration: Timestamp,
    pub token: String,
}

impl NewSession {
    /// Whether `token` is derived from the account `employee_id` and the
    /// expiry `expiration`: a stored hash that verifies against their payload.
    pub open spec fn token_derived(
        employee_id: i32,
        expiration: Timestamp,
        token: Seq<char>,
    ) -> bool {
        let data = TokenData { employee_id, expiration };
        &&& is_stored_hash(token)
        &&& pbkdf2_verdict(data.payload(), token) == Some(true)
    }

    /// A session of the account `employee_id` that runs out at `expiration`,
    /// under a token derived from both by a salted hash. Which token it is
    /// depends on the salt. Fails with `HashFailure` where the hasher fails,
    /// and in no other way.
    pub fn new(employee_id: i32, expiration: Timestamp) -> (session: Result<NewSession, Error>)
        ensures
            match session {
                Ok(s) => {
                    &&& s.employee_id == employee_id
                    &&& s.expiration == expiration
                    &&& Self::token_derived(employee_id, expiration, s.token@)
                },
                Err(e) => e == Error::Infrastructure(Fault::HashFailure),
            },
    {
        let data = TokenData { employee_id, expiration };
        let payload = match data.to_json() {
            Ok(text) => text,
            Err(e) => {
                return Err(e);
            },
        };
        match hash_password(payload.as_str()) {
            Ok(token) => Ok(Self::with_token(employee_id, expiration, token)),
            Err(e) => Err(e),
        }
    }

    /// The session of `employee_id` that runs out at `expiration` under `token`.
    pub fn with_token(
        employee_id: i32,
        expiration: Timestamp,
        token: String,
    ) -> (session: NewSession)
        ensures
            session.employee_id == employee_id,
            session.expiration == expiration,
            session.token == token,
    {
        NewSession { employee_id, expiration, token }
    }
}

/// A session row: the token proves a sign-in of the account `employee_id`
/// until `expiration`.
#[derive(Debug)]
pub struct Session {
    pub id: i32,
    pub employee_id: i32,
    pub expiration: Timestamp,
    pub token: String,
}

impl Session {
    /// The row that `new` becomes under the key `id`.
    pub open spec fn keyed_spec(id: i32, new: NewSession) -> Session {
        Session { id, employee_id: new.employee_id, expiration: new.expiration, token: new.token }
    }

    /// The row that `new` becomes under the key `id`.
    pub fn keyed(id: i32, new: NewSession) -> (row: Session)
        ensures
            row == Self::keyed_spec(id, new),
    {
        Session { id, employee_id: new.employee_id, expiration: new.expiration, token: new.token }
    }

    /// Whether the session is still good at `now`: it runs out strictly later.
    pub open spec fn live_at(self, now: Timestamp) -> bool {
        self.expiration.later_than(now)
    }
}

impl Clone for Session {
    fn clone(&self) -> (copy: Self)
        ensures
            copy == *self,
    {
        Session {
            id: self.id,
            employee_id: self.employee_id,
            expiration: self.expiration,
            token: self.token.clone(),
        }
    }
}

impl Record for Session {
    open spec fn key(&self) -> i32 {
        self.id
    }

    fn id(&self) -> (id: i32) {
        self.id
    }
}

/// An account row.
#[derive(Debug)]
pub struct Employee {
    pub id: i32,
    pub email: String,
    pub password_hash: String,
    pub active_config: Option<i32>,
    pub level: EmployeeLevel,
    pub first: String,
    pub last: String,
    pub phone_number: Option<String>,
    pub default_color: EmployeeColor,
}

/// Clones an optional text.
pub fn clone_text(text: &Option<String>) -> (copy: Option<String>)
    ensures
        copy == *text,
{
    match text {
        Some(t) => Some(t.clone()),
        None => None,
    }
}

impl Employee {
    /// The row that `new` becomes under the key `id`.
    pub open spec fn keyed_spec(id: i32, new: NewEmployee) -> Employee {
        Employee {
            id,
            email: new.email,
            password_hash: new.password_hash,
            active_config: new.active_config,
            level: new.level,
            first: new.first,
            last: new.last,
            phone_number: new.phone_number,
            default_color: new.default_color,
        }
    }

    /// The row that `new` becomes under the key `id`.
    pub fn keyed(id: i32, new: NewEmployee) -> (row: Employee)
        ensures
            row == Self::keyed_spec(id, new),
    {
        Employee {
            id,
            email: new.email,
            password_hash: new.password_hash,
            active_config: new.active_config,
            level: new.level,
            first: new.first,
            last: new.last,
            phone_number: new.phone_number,
            default_color: new.default_color,
        }
    }
}

impl Employee {
    /// The same account with the active configuration `active_config`.
    pub open spec fn with_active_config(self, active_config: Option<i32>) -> Employee {
        Employee { active_config, ..self }
    }

    /// The same account with the password hash `password_hash`.
    pub open spec fn with_password_hash(self, password_hash: String) -> Employee {
        Employee { password_hash, ..self }
    }

    /// The same account with the default color `default_color`.
    pub open spec fn with_default_color(self, default_color: EmployeeColor) -> Employee {
        Employee { default_color, ..self }
    }

    /// The same account with the phone number `phone_number`.
    pub open spec fn with_phone_number(self, phone_number: Option<String>) -> Employee {
        Employee { phone_number, ..self }
    }

    /// The same account with what a client may change taken from `update`:
    /// email, names, phone number and default color.
    pub open spec fn with_details(self, update: ClientSideEmployee) -> Employee {
        Employee {
            email: update.email,
            first: update.first,
            last: update.last,
            phone_number: update.phone_number,
            default_color: update.default_color,
            ..self
        }
    }
}

impl Clone for Employee {
    fn clone(&self) -> (copy: Self)
        ensures
            copy == *self,
    {
        Employee {
            id: self.id,
            email: self.email.clone(),
            password_hash: self.password_hash.clone(),
            active_config: self.active_config,
            level: self.level,
            first: self.first.clone(),
            last: self.last.clone(),
            phone_number: clone_text(&self.phone_number),
            default_color: self.default_color,
        }
    }
}

impl Record for Employee {
    open spec fn key(&self) -> i32 {
        self.id
    }

    fn id(&self) -> (id: i32) {
        self.id
    }
}

/// What a client sees of an account: everything but the password hash.
#[derive(Debug)]
pub struct ClientSideEmployee {
    pub id: i32,
    pub email: String,
    pub active_config: Option<i32>,
    pub level: EmployeeLevel,
    pub first: String,
    pub last: String,
    pub phone_number: Option<String>,
    pub default_color: EmployeeColor,
}

impl Default for ClientSideEmployee {
    fn default() -> (blank: Self)
        ensures
            blank.id == 0,
            blank.email@.len() == 0,
            blank.active_config is None,
            blank.level == EmployeeLevel::Read,
            blank.first@.len() == 0,
            blank.last@.len() == 0,
            blank.phone_number is None,
            blank.default_color == EmployeeColor::Green,
    {
        ClientSideEmployee {
            id: 0,
            email: String::new(),
            active_config: None,
            level: EmployeeLevel::Read,
            first: String::new(),
            last: String::new(),
            phone_number: None,
            default_color: EmployeeColor::Green,
        }
    }
}

impl Clone for ClientSideEmployee {
    fn clone(&self) -> (copy: Self)
        ensures
            copy == *self,
    {
        ClientSideEmployee {
            id: self.id,
            email: self.email.clone(),
            active_config: self.active_config,
            level: self.level,
            first: self.first.clone(),
            last: self.last.clone(),
            phone_number: clone_text(&self.phone_number),
            default_color: self.default_color,
        }
    }
}

impl From<Employee> for ClientSideEmployee {
    fn from(employee: Employee) -> (summary: Self) {
        ClientSideEmployee {
            id: employee.id,
            email: employee.email,
            active_config: employee.active_config,
            level: employee.level,
            first: employee.first,
            last: employee.last,
            phone_number: employee.phone_number,
            default_color: employee.default_color,
        }
    }
}

impl FromSpecImpl<Employee> for ClientSideEmployee {
    open spec fn obeys_from_spec() -> bool {
        true
    }

    open spec fn from_spec(employee: Employee) -> Self {
        ClientSideEmployee {
            id: employee.id,
            email: employee.email,
            active_config: employee.active_config,
            level: employee.level,
            first: employee.first,
            last: employee.last,
            phone_number: employee.phone_number,
            default_color: employee.default_color,
        }
    }
}

/// An account that has no key yet.
#[derive(Debug)]
pub struct NewEmployee {
    pub email: String,
    pub password_hash: String,
    pub active_config: Option<i32>,
    pub level: EmployeeLevel,
    pub first: String,
    pub last: String,
    pub phone_number: Option<String>,
    pub default_color: EmployeeColor,
}

impl Clone for NewEmployee {
    fn clone(&self) -> (copy: Self)
        ensures
            copy == *self,
    {
        NewEmployee {
            email: self.email.clone(),
            password_hash: self.password_hash.clone(),
            active_config: self.active_config,
            level: self.level,
            first: self.first.clone(),
            last: self.last.clone(),
            phone_number: clone_text(&self.phone_number),
            default_color: self.default_color,
        }
    }
}

impl NewEmployee {
    /// What `employee` holds, without its key.
    pub open spec fn of_spec(employee: Employee) -> NewEmployee {
        NewEmployee {
            email: employee.email,
            password_hash: employee.password_hash,
            active_config: employee.active_config,
            level: employee.level,
            first: employee.first,
            last: employee.last,
            phone_number: employee.phone_number,
            default_color: employee.default_color,
        }
    }

    /// The account of the given fields under the password hash `password_hash`.
    pub open spec fn with_hash_spec(
        email: String,
        password_hash: String,
        active_config: Option<i32>,
        level: EmployeeLevel,
        first: String,
        last: String,
        phone_number: Option<String>,
        default_color: EmployeeColor,
    ) -> NewEmployee {
        NewEmployee {
            email,
            password_hash,
            active_config,
            level,
            first,
            last,
            phone_number,
            default_color,
        }
    }

    /// An account with the email of `login_info` and a salted hash of its
    /// password, which verifies against that password. Fails with
    /// `HashFailure` where the hasher fails, and in no other way.
    pub fn new(
        login_info: LoginInfo,
        active_config: Option<i32>,
        level: EmployeeLevel,
        first: String,
        last: String,
        phone_number: Option<String>,
        default_color: EmployeeColor,
    ) -> (account: Result<NewEmployee, Error>)
        ensures
            match account {
                Ok(a) => {
                    &&& a == Self::with_hash_spec(
                        login_info.email,
                        a.password_hash,
                        active_config,
                        level,
                        first,
                        last,
                        phone_number,
                        default_color,
                    )
                    &&& is_stored_hash(a.password_hash@)
                    &&& verification(login_info.password@, a.password_hash@) == Ok::<bool, Error>(
                        true,
                    )
                },
                Err(e) => e == Error::Infrastructure(Fault::HashFailure),
            },
    {
        match hash_password(login_info.password.as_str()) {
            Ok(password_hash) => Ok(
                NewEmployee {
                    email: login_info.email,
                    password_hash,
                    active_config,
                    level,
                    first,
                    last,
                    phone_number,
                    default_color,
                },
            ),
            Err(e) => Err(e),
        }
    }
}

} // verus!
