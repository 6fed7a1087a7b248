//! The tables of the service and how a token leads to an account.

use crate::config::{Config, PerEmployeeConfig};
use crate::datetime::Timestamp;
use crate::employee::{Employee, Session};
use crate::error::Error;
use crate::shift::{Shift, ShiftException, Vacation};
use crate::table::{first_true, index_of_key, lemma_first_true_found, Table, TableView};
use vstd::prelude::*;

verus! {

/// For each session of `rows`, whether its token is `token`.
pub open spec fn token_mask(rows: Seq<Session>, token: Seq<char>) -> Seq<bool> {
    Seq::new(rows.len(), |i: int| rows[i].token@ == token)
}

/// The position of the session with the token `token`, if there is one.
pub open spec fn index_of_token(rows: Seq<Session>, token: Seq<char>) -> Option<int> {
    first_true(token_mask(rows, token))
}

/// Whether no two sessions of `rows` share a token.
pub open spec fn tokens_distinct(rows: Seq<Session>) -> bool {
    forall|i: int, j: int|
        0 <= i < rows.len() && 0 <= j < rows.len() && i != j ==> (#[trigger] rows[i]).token@ != (
        #[trigger] rows[j]).token@
}

/// For each account of `rows`, whether its email is `email`.
pub open spec fn email_mask(rows: Seq<Employee>, email: Seq<char>) -> Seq<bool> {
    Seq::new(rows.len(), |i: int| rows[i].email@ == email)
}

/// The position of the account with the email `email`, if there is one.
pub open spec fn index_of_email(rows: Seq<Employee>, email: Seq<char>) -> Option<int> {
    first_true(email_mask(rows, email))
}

/// Whether no two accounts of `rows` share an email.
pub open spec fn emails_distinct(rows: Seq<Employee>) -> bool {
    forall|i: int, j: int|
        0 <= i < rows.len() && 0 <= j < rows.len() && i != j ==> (#[trigger] rows[i]).email@ != (
        #[trigger] rows[j]).email@
}

/// What the store holds: one table for each kind of row.
pub struct DatabaseView {
    pub employees: TableView<Employee>,
    pub sessions: TableView<Session>,
    pub configs: TableView<Config>,
    pub per_employee_configs: TableView<PerEmployeeConfig>,
    pub shifts: TableView<Shift>,
    pub shift_exceptions: TableView<ShiftException>,
    pub vacations: TableView<Vacation>,
}

impl DatabaseView {
    /// Every table is well formed, no two sessions share a token and no two
    /// accounts share an email.
    pub open spec fn wf(self) -> bool {
        &&& self.employees.wf()
        &&& self.sessions.wf()
        &&& self.configs.wf()
        &&& self.per_employee_configs.wf()
        &&& self.shifts.wf()
        &&& self.shift_exceptions.wf()
        &&& self.vacations.wf()
        &&& tokens_distinct(self.sessions.rows)
        &&& emails_distinct(self.employees.rows)
    }

    /// Where a token leads: to the position of the account of its session.
    /// No session has the token: `TokenNotFound`. The session does not run
    /// out strictly after `now`: `TokenExpired`. Its account is not in the
    /// account table: `AccountNotFound`.
    pub open spec fn resolve_index(self, token: Seq<char>, now: Timestamp) -> Result<int, Error> {
        match index_of_token(self.sessions.rows, token) {
            None => Err(Error::TokenNotFound),
            Some(i) => if !self.sessions.rows[i].live_at(now) {
                Err(Error::TokenExpired)
            } else {
                match index_of_key(self.employees.rows, self.sessions.rows[i].employee_id) {
                    None => Err(Error::AccountNotFound),
                    Some(k) => Ok(k),
                }
            },
        }
    }

    /// The account that a token leads to at `now`, or why it leads to none.
    pub open spec fn resolve(self, token: Seq<char>, now: Timestamp) -> Result<Employee, Error> {
        match self.resolve_index(token, now) {
            Ok(k) => Ok(self.employees.rows[k]),
            Err(e) => Err(e),
        }
    }

    /// The position of the account on whose behalf a mutation is asked for,
    /// or `Unauthorized` where the token leads to no account.
    pub open spec fn authenticate_index(
        self,
        token: Seq<char>,
        now: Timestamp,
    ) -> Result<int, Error> {
        match self.resolve_index(token, now) {
            Ok(k) => Ok(k),
            Err(_) => Err(Error::Unauthorized),
        }
    }

    /// The account on whose behalf a mutation is asked for, or
    /// `Unauthorized` where the token leads to no account.
    pub open spec fn authenticate(
        self,
        token: Seq<char>,
        now: Timestamp,
    ) -> Result<Employee, Error> {
        match self.resolve_index(token, now) {
            Ok(k) => Ok(self.employees.rows[k]),
            Err(_) => Err(Error::Unauthorized),
        }
    }
}

impl DatabaseView {
    /// Whether the token leads, at `now`, to an account of the level `Read`.
    pub open spec fn held_by_reader(self, token: Seq<char>, now: Timestamp) -> bool {
        self.authenticate(token, now) matches Ok(account) && account.level
            == crate::employee::EmployeeLevel::Read
    }

    /// Whether the token leads, at `now`, to an account of the level
    /// `Supervisor` or above that is not the account `owner`.
    pub open spec fn held_by_other_supervisor(
        self,
        token: Seq<char>,
        now: Timestamp,
        owner: i32,
    ) -> bool {
        self.authenticate(token, now) matches Ok(account) && account.level.covers(
            crate::employee::EmployeeLevel::Supervisor,
        ) && account.id != owner
    }

    /// The store with `row` in place of the account at position `k`.
    pub open spec fn with_employee(self, k: int, row: Employee) -> DatabaseView {
        DatabaseView { employees: self.employees.with_row(k, row), ..self }
    }
}

/// The store: accounts, sessions, configurations and the records that
/// accounts own, each in a table of its own. Only the operations of this
/// crate change a table.
#[derive(Debug)]
pub struct Database {
    pub employees: Table<Employee>,
    pub sessions: Table<Session>,
    pub configs: Table<Config>,
    pub per_employee_configs: Table<PerEmployeeConfig>,
    pub shifts: Table<Shift>,
    pub shift_exceptions: Table<ShiftException>,
    pub vacations: Table<Vacation>,
}

impl View for Database {
    type V = DatabaseView;

    open spec fn view(&self) -> DatabaseView {
        DatabaseView {
            employees: self.employees@,
            sessions: self.sessions@,
            configs: self.configs@,
            per_employee_configs: self.per_employee_configs@,
            shifts: self.shifts@,
            shift_exceptions: self.shift_exceptions@,
            vacations: self.vacations@,
        }
    }
}

impl Database {
    /// A store without any row, in which every table hands out 1 as its
    /// first key.
    pub fn new() -> (db: Database)
        ensures
            db@.wf(),
            db@.employees.is_new(),
            db@.sessions.is_new(),
            db@.configs.is_new(),
            db@.per_employee_configs.is_new(),
            db@.shifts.is_new(),
            db@.shift_exceptions.is_new(),
            db@.vacations.is_new(),
    {
        Database {
            employees: Table::new(),
            sessions: Table::new(),
            configs: Table::new(),
            per_employee_configs: Table::new(),
            shifts: Table::new(),
            shift_exceptions: Table::new(),
            vacations: Table::new(),
        }
    }

    /// Whether no two sessions share a token.
    pub fn tokens_are_distinct(&self) -> (distinct: bool)
        ensures
            distinct == tokens_distinct(self@.sessions.rows),
    {
        let ghost rows = self@.sessions.rows;
        let mut i: usize = 0;
        while i < self.sessions.len()
            invariant
                i <= rows.len(),
                rows == self@.sessions.rows,
                forall|a: int, b: int|
                    0 <= a < i && a < b < rows.len() ==> (#[trigger] rows[a]).token@ != (
                    #[trigger] rows[b]).token@,
            decreases rows.len() - i,
        {
            let mut j: usize = i + 1;
            while j < self.sessions.len()
                invariant
                    i < j <= rows.len(),
                    rows == self@.sessions.rows,
                    forall|b: int|
                        i < b < j ==> (#[trigger] rows[b]).token@ != rows[i as int].token@,
                decreases rows.len() - j,
            {
                if self.sessions.row(j).token == self.sessions.row(i).token {
                    return false;
                }
                j += 1;
            }
            i += 1;
        }
        true
    }

    /// Whether no two accounts share an email.
    pub fn emails_are_distinct(&self) -> (distinct: bool)
        ensures
            distinct == emails_distinct(self@.employees.rows),
    {
        let ghost rows = self@.employees.rows;
        let mut i: usize = 0;
        while i < self.employees.len()
            invariant
                i <= rows.len(),
                rows == self@.employees.rows,
                forall|a: int, b: int|
                    0 <= a < i && a < b < rows.len() ==> (#[trigger] rows[a]).email@ != (
                    #[trigger] rows[b]).email@,
            decreases rows.len() - i,
        {
            let mut j: usize = i + 1;
            while j < self.employees.len()
                invariant
                    i < j <= rows.len(),
                    rows == self@.employees.rows,
                    forall|b: int|
                        i < b < j ==> (#[trigger] rows[b]).email@ != rows[i as int].email@,
                decreases rows.len() - j,
            {
                if self.employees.row(j).email == self.employees.row(i).email {
                    return false;
                }
                j += 1;
            }
            i += 1;
        }
        true
    }

    /// Whether the store is well formed: see `DatabaseView::wf`.
    pub fn is_well_formed(&self) -> (well_formed: bool)
        ensures
            well_formed == self@.wf(),
    {
        self.employees.is_well_formed() && self.sessions.is_well_formed()
            && self.configs.is_well_formed() && self.per_employee_configs.is_well_formed()
            && self.shifts.is_well_formed() && self.shift_exceptions.is_well_formed()
            && self.vacations.is_well_formed() && self.tokens_are_distinct()
            && self.emails_are_distinct()
    }

    /// The store of the given tables, or `None` where together they are
    /// not well formed: two sessions share a token or two accounts an email.
    pub fn from_tables(
        employees: Table<Employee>,
        sessions: Table<Session>,
        configs: Table<Config>,
        per_employee_configs: Table<PerEmployeeConfig>,
        shifts: Table<Shift>,
        shift_exceptions: Table<ShiftException>,
        vacations: Table<Vacation>,
    ) -> (db: Option<Database>)
        ensures
            ({
                let given = DatabaseView {
                    employees: employees@,
                    sessions: sessions@,
                    configs: configs@,
                    per_employee_configs: per_employee_configs@,
                    shifts: shifts@,
                    shift_exceptions: shift_exceptions@,
                    vacations: vacations@,
                };
                match db {
                    Some(d) => d@ == given && given.wf(),
                    None => !given.wf(),
                }
            }),
    {
        let db = Database {
            employees,
            sessions,
            configs,
            per_employee_configs,
            shifts,
            shift_exceptions,
            vacations,
        };
        if db.is_well_formed() {
            Some(db)
        } else {
            None
        }
    }

    /// The position of the session with the token `token`.
    pub fn session_position(&self, token: &str) -> (found: Option<usize>)
        ensures
            match found {
                Some(i) => index_of_token(self@.sessions.rows, token@) == Some(i as int) && i
                    < self@.sessions.rows.len() && self@.sessions.rows[i as int].token@ == token@,
                None => index_of_token(self@.sessions.rows, token@) is None,
            },
    {
        let wanted: String = token.to_owned();
        let ghost mask = token_mask(self@.sessions.rows, token@);
        let mut i: usize = 0;
        while i < self.sessions.len()
            invariant
                i <= self@.sessions.rows.len(),
                wanted@ == token@,
                mask == token_mask(self@.sessions.rows, token@),
                forall|j: int| 0 <= j < i ==> !#[trigger] mask[j],
            decreases self@.sessions.rows.len() - i,
        {
            if self.sessions.row(i).token == wanted {
                proof {
                    lemma_first_true_found(mask, i as int);
                }
                return Some(i);
            }
            i += 1;
        }
        None
    }

    /// The position of the account with the email `email`.
    pub fn email_position(&self, email: &str) -> (found: Option<usize>)
        ensures
            match found {
                Some(i) => index_of_email(self@.employees.rows, email@) == Some(i as int) && i
                    < self@.employees.rows.len() && self@.employees.rows[i as int].email@
                    == email@,
                None => index_of_email(self@.employees.rows, email@) is None,
            },
    {
        let wanted: String = email.to_owned();
        let ghost mask = email_mask(self@.employees.rows, email@);
        let mut i: usize = 0;
        while i < self.employees.len()
            invariant
                i <= self@.employees.rows.len(),
                wanted@ == email@,
                mask == email_mask(self@.employees.rows, email@),
                forall|j: int| 0 <= j < i ==> !#[trigger] mask[j],
            decreases self@.employees.rows.len() - i,
        {
            if self.employees.row(i).email == wanted {
                proof {
                    lemma_first_true_found(mask, i as int);
                }
                return Some(i);
            }
            i += 1;
        }
        None
    }

    /// Where a token leads at `now`: the position of its session's account.
    pub fn resolve_position(&self, token: &str, now: Timestamp) -> (found: Result<usize, Error>)
        ensures
            match found {
                Ok(k) => self@.resolve_index(token@, now) == Ok::<int, Error>(k as int) && k
                    < self@.employees.rows.len(),
                Err(e) => self@.resolve_index(token@, now) == Err::<int, Error>(e),
            },
    {
        let i = match self.session_position(token) {
            Some(i) => i,
            None => {
                return Err(Error::TokenNotFound);
            },
        };
        let session = self.sessions.row(i);
        if !session.expiration.is_after(&now) {
            return Err(Error::TokenExpired);
        }
        match self.employees.position(session.employee_id) {
            Some(k) => Ok(k),
            None => Err(Error::AccountNotFound),
        }
    }

    /// The position of the account on whose behalf a mutation is asked for.
    pub fn authenticate_position(
        &self,
        token: &str,
        now: Timestamp,
    ) -> (found: Result<usize, Error>)
        ensures
            match found {
                Ok(k) => self@.authenticate_index(token@, now) == Ok::<int, Error>(k as int) && k
                    < self@.employees.rows.len(),
                Err(e) => self@.authenticate_index(token@, now) == Err::<int, Error>(e),
            },
    {
        match self.resolve_position(token, now) {
            Ok(k) => Ok(k),
            Err(_) => Err(Error::Unauthorized),
        }
    }

    /// The account on whose behalf a mutation is asked for: the one that the
    /// token leads to, or `Unauthorized` where it leads to none.
    pub fn authenticate(&self, token: &str, now: Timestamp) -> (account: Result<Employee, Error>)
        ensures
            account == self@.authenticate(token@, now),
    {
        match self.resolve_position(token, now) {
            Ok(k) => Ok(self.employees.row(k).clone()),
            Err(_) => Err(Error::Unauthorized),
        }
    }
}

} // verus!
