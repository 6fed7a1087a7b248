//! Accounts: their passwords, what they show of themselves, and who may
//! add, change and remove them.

use crate::auth::{authorize, permitted};
use crate::config::{EmployeeColor, HourFormat, LastNameStyle, NewConfig};
use crate::datetime::Timestamp;
use crate::db::JsonObject;
use crate::employee::{ClientSideEmployee, Employee, EmployeeLevel, NewEmployee};
use crate::error::{Error, Fault};
use crate::lifecycle::create_account;
use crate::message::{ChangePasswordInfo, LoginInfo};
use crate::password::{hash_password, is_stored_hash, verification, verify_password};
use crate::session::{password_verdict, settle_password};
use crate::store::{email_mask, index_of_email, Database, DatabaseView};
use crate::table::{index_of_key, lemma_first_true};
use vstd::prelude::*;
use vstd::std_specs::convert::FromSpec;

verus! {

impl DatabaseView {
    /// Whose password is changed: the position of the account of the token,
    /// where `old_password` verifies against its stored hash. A password
    /// that does not verify is `InvalidPassword`.
    pub open spec fn password_change(
        self,
        token: Seq<char>,
        now: Timestamp,
        old_password: Seq<char>,
    ) -> Result<int, Error> {
        match self.authenticate_index(token, now) {
            Err(e) => Err(e),
            Ok(k) => match password_verdict(
                verification(old_password, self.employees.rows[k].password_hash@),
            ) {
                Ok(_) => Ok(k),
                Err(e) => Err(e),
            },
        }
    }

    /// What changing the default color does: the account of the token gets it.
    pub open spec fn update_employee_color(
        self,
        token: Seq<char>,
        now: Timestamp,
        color: EmployeeColor,
    ) -> (Result<(), Error>, DatabaseView) {
        match self.authenticate_index(token, now) {
            Err(e) => (Err(e), self),
            Ok(k) => (
                Ok(()),
                self.with_employee(k, self.employees.rows[k].with_default_color(color)),
            ),
        }
    }

    /// What changing the phone number does: the account of the token gets it.
    pub open spec fn update_employee_phone_number(
        self,
        token: Seq<char>,
        now: Timestamp,
        phone_number: String,
    ) -> (Result<(), Error>, DatabaseView) {
        match self.authenticate_index(token, now) {
            Err(e) => (Err(e), self),
            Ok(k) => (
                Ok(()),
                self.with_employee(
                    k,
                    self.employees.rows[k].with_phone_number(Some(phone_number)),
                ),
            ),
        }
    }

    /// Whether the token may, at `now`, do to accounts what asks for the
    /// level `minimum`.
    pub open spec fn may_manage_accounts(
        self,
        token: Seq<char>,
        now: Timestamp,
        minimum: EmployeeLevel,
    ) -> Result<(), Error> {
        match self.authenticate(token, now) {
            Err(e) => Err(e),
            Ok(account) => permitted(account, minimum, None),
        }
    }

    /// Whether the token may, at `now`, add an account: it leads to a
    /// supervisor or above, no account is without an email, and the account
    /// and configuration tables have a key left.
    pub open spec fn may_add_employee(self, token: Seq<char>, now: Timestamp) -> Result<
        (),
        Error,
    > {
        match self.may_manage_accounts(token, now, EmployeeLevel::Supervisor) {
            Err(e) => Err(e),
            Ok(_) => self.account_fits(Seq::<char>::empty()),
        }
    }

    /// What updating an account does, for a supervisor or above: the stored
    /// account with the key of `updated` takes its email, names, phone
    /// number and default color. An email that another account has is
    /// refused with `EmployeeExists`. No account with the key: nothing
    /// changes, and that is no error.
    pub open spec fn update_employee(
        self,
        token: Seq<char>,
        now: Timestamp,
        updated: ClientSideEmployee,
    ) -> (Result<(), Error>, DatabaseView) {
        match self.may_manage_accounts(token, now, EmployeeLevel::Supervisor) {
            Err(e) => (Err(e), self),
            Ok(_) => match index_of_key(self.employees.rows, updated.id) {
                None => (Ok(()), self),
                Some(i) => match index_of_email(self.employees.rows, updated.email@) {
                    Some(j) if j != i => (Err(Error::EmployeeExists), self),
                    _ => (
                        Ok(()),
                        self.with_employee(i, self.employees.rows[i].with_details(updated)),
                    ),
                },
            },
        }
    }

    /// What removing an account does, for an admin: the stored account with
    /// the key of `employee` is taken out. No account with the key: nothing
    /// changes, and that is no error.
    pub open spec fn remove_employee(
        self,
        token: Seq<char>,
        now: Timestamp,
        employee: ClientSideEmployee,
    ) -> (Result<(), Error>, DatabaseView) {
        match self.may_manage_accounts(token, now, EmployeeLevel::Admin) {
            Err(e) => (Err(e), self),
            Ok(_) => match index_of_key(self.employees.rows, employee.id) {
                None => (Ok(()), self),
                Some(i) => (Ok(()), DatabaseView { employees: self.employees.without(i), ..self }),
            },
        }
    }
}

/// Whether `account` is what a supervisor adds for `details`: an account of
/// the level `Read` without an email, with the names and phone number of
/// `details`, the default color green, and a stored hash of the empty
/// password.
pub open spec fn is_added_account(account: Employee, details: ClientSideEmployee) -> bool {
    &&& account.email@ == Seq::<char>::empty()
    &&& is_stored_hash(account.password_hash@)
    &&& verification(Seq::<char>::empty(), account.password_hash@) == Ok::<bool, Error>(true)
    &&& account.level == EmployeeLevel::Read
    &&& account.first == details.first
    &&& account.last == details.last
    &&& account.phone_number == details.phone_number
    &&& account.default_color == EmployeeColor::Green
}

/// Whether `defaults` is the configuration that a supervisor's new account
/// starts with, dated `now`.
pub open spec fn is_default_config(defaults: NewConfig, now: Timestamp) -> bool {
    &&& defaults.config_name@ == "Default"@
    &&& defaults.hour_format == HourFormat::H12
    &&& defaults.last_name_style == LastNameStyle::Initial
    &&& defaults.view_date == now
    &&& defaults.view_employees@ == Seq::<i32>::empty()
    &&& defaults.show_minutes
    &&& defaults.show_shifts
    &&& !defaults.show_vacations
    &&& !defaults.show_call_shifts
    &&& !defaults.show_disabled
}

/// The configuration that a new account starts with, dated `now`.
pub fn default_config(now: Timestamp) -> (defaults: NewConfig)
    ensures
        is_default_config(defaults, now),
        defaults.employee_id == 0,
{
    NewConfig {
        employee_id: 0,
        config_name: String::from_str("Default"),
        hour_format: HourFormat::H12,
        last_name_style: LastNameStyle::Initial,
        view_date: now,
        view_employees: Vec::new(),
        show_minutes: true,
        show_shifts: true,
        show_vacations: false,
        show_call_shifts: false,
        show_disabled: false,
    }
}

/// Stores `hashed` as the password hash of the account at position `k`.
pub fn store_password_hash(db: &mut Database, k: usize, hashed: String)
    requires
        old(db)@.wf(),
        k < old(db)@.employees.rows.len(),
    ensures
        final(db)@.wf(),
        final(db)@ == old(db)@.with_employee(
            k as int,
            old(db)@.employees.rows[k as int].with_password_hash(hashed),
        ),
{
    let mut row = db.employees.row(k).clone();
    row.password_hash = hashed;
    db.employees.put(k, row);
}

/// Changes the password of the account of the token.
///
/// Fails with `Unauthorized` without a live session, with `InvalidPassword`
/// where the old password does not verify, and with `MalformedHash` where
/// the stored hash is not in the stored layout; none of these changes the
/// store. With the old password verified, the stored hash is replaced by a
/// fresh salted hash that verifies against the new password, or the hasher
/// fails and nothing changes. Sessions are left as they are.
pub fn change_password(
    db: &mut Database,
    token: &str,
    now: Timestamp,
    change_password_info: ChangePasswordInfo,
) -> (done: Result<(), Error>)
    requires
        old(db)@.wf(),
    ensures
        final(db)@.wf(),
        match old(db)@.password_change(token@, now, change_password_info.old_password@) {
            Err(e) => done == Err::<(), Error>(e) && final(db)@ == old(db)@,
            Ok(k) => match done {
                Ok(_) => {
                    let hashed = final(db)@.employees.rows[k].password_hash;
                    &&& is_stored_hash(hashed@)
                    &&& verification(change_password_info.new_password@, hashed@) == Ok::<
                        bool,
                        Error,
                    >(true)
                    &&& final(db)@ == old(db)@.with_employee(
                        k,
                        old(db)@.employees.rows[k].with_password_hash(hashed),
                    )
                },
                Err(e) => e == Error::Infrastructure(Fault::HashFailure) && final(db)@ == old(
                    db,
                )@,
            },
        },
{
    let k = match db.authenticate_position(token, now) {
        Ok(k) => k,
        Err(e) => {
            return Err(e);
        },
    };
    let checked = verify_password(
        change_password_info.old_password.as_str(),
        db.employees.row(k).password_hash.as_str(),
    );
    match settle_password(checked) {
        Err(e) => {
            return Err(e);
        },
        Ok(_) => {},
    }
    match hash_password(change_password_info.new_password.as_str()) {
        Ok(hashed) => {
            store_password_hash(db, k, hashed);
            Ok(())
        },
        Err(e) => Err(e),
    }
}

/// Sets the default color of the account of the token. Fails with
/// `Unauthorized` without a live session.
pub fn update_employee_color(
    db: &mut Database,
    token: &str,
    now: Timestamp,
    color: EmployeeColor,
) -> (done: Result<(), Error>)
    requires
        old(db)@.wf(),
    ensures
        final(db)@.wf(),
        (done, final(db)@) == old(db)@.update_employee_color(token@, now, color),
        done is Err ==> final(db)@ == old(db)@,
{
    let k = match db.authenticate_position(token, now) {
        Ok(k) => k,
        Err(e) => {
            return Err(e);
        },
    };
    let mut row = db.employees.row(k).clone();
    row.default_color = color;
    db.employees.put(k, row);
    Ok(())
}

/// Sets the phone number of the account of the token. Fails with
/// `Unauthorized` without a live session.
pub fn update_employee_phone_number(
    db: &mut Database,
    token: &str,
    now: Timestamp,
    phone_number: String,
) -> (done: Result<(), Error>)
    requires
        old(db)@.wf(),
    ensures
        final(db)@.wf(),
        (done, final(db)@) == old(db)@.update_employee_phone_number(token@, now, phone_number),
        done is Err ==> final(db)@ == old(db)@,
{
    let k = match db.authenticate_position(token, now) {
        Ok(k) => k,
        Err(e) => {
            return Err(e);
        },
    };
    let mut row = db.employees.row(k).clone();
    row.phone_number = Some(phone_number);
    db.employees.put(k, row);
    Ok(())
}

/// Every account as clients see it, in the order of the table.
pub fn get_employees(
    db: &Database,
    token: &str,
    now: Timestamp,
) -> (listed: Result<JsonObject<Vec<ClientSideEmployee>>, Error>)
    ensures
        match db@.resolve(token@, now) {
            Ok(_) => listed matches Ok(object) && object.contents@
                == db@.employees.rows.map_values(|e: Employee| ClientSideEmployee::from_spec(e)),
            Err(e) => listed matches Err(f) && f == e,
        },
{
    match db.resolve_position(token, now) {
        Ok(_) => {},
        Err(e) => {
            return Err(e);
        },
    }
    let ghost rows = db@.employees.rows;
    let ghost shown = rows.map_values(|e: Employee| ClientSideEmployee::from_spec(e));
    let mut list: Vec<ClientSideEmployee> = Vec::new();
    let mut i: usize = 0;
    while i < db.employees.len()
        invariant
            i <= rows.len(),
            rows == db@.employees.rows,
            shown == rows.map_values(|e: Employee| ClientSideEmployee::from_spec(e)),
            list@ == shown.take(i as int),
        decreases rows.len() - i,
    {
        list.push(ClientSideEmployee::from(db.employees.row(i).clone()));
        i += 1;
    }
    Ok(JsonObject::new(list))
}

/// The account of the token as clients see it.
pub fn get_current_employee(
    db: &Database,
    token: &str,
    now: Timestamp,
) -> (current: Result<ClientSideEmployee, Error>)
    ensures
        match db@.resolve(token@, now) {
            Ok(account) => current == Ok::<ClientSideEmployee, Error>(
                ClientSideEmployee::from_spec(account),
            ),
            Err(e) => current == Err::<ClientSideEmployee, Error>(e),
        },
{
    match db.resolve_position(token, now) {
        Ok(k) => Ok(ClientSideEmployee::from(db.employees.row(k).clone())),
        Err(e) => Err(e),
    }
}

/// Adds an account for `new_client_employee`, with its first configuration.
///
/// Asks for the level `Supervisor`: without a live session it fails with
/// `Unauthorized`, below the level with `Forbidden`. Where an account
/// without an email exists already it fails with `EmployeeExists`, and with
/// a table out of keys with `KeysExhausted`. Otherwise the account is
/// added, unless the hasher fails. The new account has the level `Read`, no
/// email, a hash of the empty password, the names and phone number given
/// and the color green; its first configuration is the default one, dated
/// `now`, and the account points at it. No failure changes the store.
pub fn add_employee(
    db: &mut Database,
    token: &str,
    now: Timestamp,
    new_client_employee: ClientSideEmployee,
) -> (added: Result<ClientSideEmployee, Error>)
    requires
        old(db)@.wf(),
    ensures
        final(db)@.wf(),
        added is Err ==> final(db)@ == old(db)@,
        old(db)@.held_by_reader(token@, now) ==> added == Err::<ClientSideEmployee, Error>(
            Error::Forbidden,
        ),
        match old(db)@.may_add_employee(token@, now) {
            Err(e) => added == Err::<ClientSideEmployee, Error>(e),
            Ok(_) => match added {
                Ok(summary) => {
                    let account = final(db)@.employees.rows.last();
                    let config = final(db)@.configs.rows.last();
                    &&& is_added_account(account, new_client_employee)
                    &&& is_default_config(NewConfig::of_spec(config), now)
                    &&& summary == ClientSideEmployee::from_spec(account)
                    &&& final(db)@ == old(db)@.with_account(
                        NewEmployee::of_spec(account),
                        NewConfig::of_spec(config),
                    )
                    &&& final(db)@.points_home(old(db)@.employees.rows.len() as int)
                    &&& old(db)@.all_point_home() ==> final(db)@.all_point_home()
                },
                Err(e) => e == Error::Infrastructure(Fault::HashFailure),
            },
        },
{
    let account = match db.authenticate(token, now) {
        Ok(account) => account,
        Err(e) => {
            return Err(e);
        },
    };
    match authorize(&account, EmployeeLevel::Supervisor, None) {
        Err(e) => {
            return Err(e);
        },
        Ok(_) => {},
    }
    let login_info = LoginInfo { email: String::new(), password: String::new() };
    if db.email_position(login_info.email.as_str()).is_some() {
        return Err(Error::EmployeeExists);
    }
    if db.employees.next_key() == i32::MAX || db.configs.next_key() == i32::MAX {
        return Err(Error::Infrastructure(Fault::KeysExhausted));
    }
    let new_employee = match NewEmployee::new(
        login_info,
        None,
        EmployeeLevel::Read,
        new_client_employee.first,
        new_client_employee.last,
        new_client_employee.phone_number,
        EmployeeColor::Green,
    ) {
        Ok(new_employee) => new_employee,
        Err(e) => {
            return Err(e);
        },
    };
    let defaults = default_config(now);
    match create_account(db, new_employee, defaults) {
        Ok(created) => {
            Ok(ClientSideEmployee::from(created))
        },
        Err(e) => Err(e),
    }
}

/// Changes an account: see `DatabaseView::update_employee`. Asks for the
/// level `Supervisor`; an account of the level `Read` gets `Forbidden`.
pub fn update_employee(
    db: &mut Database,
    token: &str,
    now: Timestamp,
    updated_employee: ClientSideEmployee,
) -> (done: Result<(), Error>)
    requires
        old(db)@.wf(),
    ensures
        final(db)@.wf(),
        (done, final(db)@) == old(db)@.update_employee(token@, now, updated_employee),
        done is Err ==> final(db)@ == old(db)@,
        old(db)@.held_by_reader(token@, now) ==> done == Err::<(), Error>(Error::Forbidden),
{
    let account = match db.authenticate(token, now) {
        Ok(account) => account,
        Err(e) => {
            return Err(e);
        },
    };
    match authorize(&account, EmployeeLevel::Supervisor, None) {
        Err(e) => {
            return Err(e);
        },
        Ok(_) => {},
    }
    let i = match db.employees.position(updated_employee.id) {
        Some(i) => i,
        None => {
            return Ok(());
        },
    };
    match db.email_position(updated_employee.email.as_str()) {
        Some(j) => {
            if j != i {
                return Err(Error::EmployeeExists);
            }
        },
        None => {},
    }
    let mut row = db.employees.row(i).clone();
    row.email = updated_employee.email;
    row.first = updated_employee.first;
    row.last = updated_employee.last;
    row.phone_number = updated_employee.phone_number;
    row.default_color = updated_employee.default_color;
    proof {
        let after = db@.with_employee(i as int, row);
        let taken = email_mask(db@.employees.rows, row.email@);
        lemma_first_true(taken);
        assert forall|a: int, b: int|
            0 <= a < after.employees.rows.len() && 0 <= b < after.employees.rows.len() && a
                != b implies (#[trigger] after.employees.rows[a]).email@ != (
        #[trigger] after.employees.rows[b]).email@ by {
            if a == i {
                assert(!taken[b]);
            } else if b == i {
                assert(!taken[a]);
            }
        }
    }
    db.employees.put(i, row);
    Ok(())
}

/// Removes an account: see `DatabaseView::remove_employee`. Asks for the
/// level `Admin`; an account below it gets `Forbidden`.
pub fn remove_employee(
    db: &mut Database,
    token: &str,
    now: Timestamp,
    employee: ClientSideEmployee,
) -> (done: Result<(), Error>)
    requires
        old(db)@.wf(),
    ensures
        final(db)@.wf(),
        (done, final(db)@) == old(db)@.remove_employee(token@, now, employee),
        done is Err ==> final(db)@ == old(db)@,
        old(db)@.held_by_reader(token@, now) ==> done == Err::<(), Error>(Error::Forbidden),
{
    let account = match db.authenticate(token, now) {
        Ok(account) => account,
        Err(e) => {
            return Err(e);
        },
    };
    match authorize(&account, EmployeeLevel::Admin, None) {
        Err(e) => {
            return Err(e);
        },
        Ok(_) => {},
    }
    match db.employees.position(employee.id) {
        None => Ok(()),
        Some(i) => {
            db.employees.take(i);
            Ok(())
        },
    }
}

} // verus!
