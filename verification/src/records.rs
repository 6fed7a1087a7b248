//! The records that accounts own: shifts, the days a shift is called off,
//! and vacations. Every mutation is authorized first.
//!
//! A shift belongs to the supervisor who made it, and a shift exception to
//! the owner of its shift: only a supervisor or above may add, change or
//! remove them, and only the owner may change or remove one that exists. A
//! vacation belongs to the account that it is for, which may add, change
//! and remove it whatever its level; approving it asks for the level
//! `Supervisor` and for being the supervisor that the vacation designates.

use crate::auth::{authorize, locate, permitted, target};
use crate::datetime::Timestamp;
use crate::db::JsonObject;
use crate::employee::{Employee, EmployeeLevel};
use crate::error::{Error, Fault};
use crate::shift::{NewShift, NewShiftException, NewVacation, Shift, ShiftException, Vacation};
use crate::store::{Database, DatabaseView};
use crate::table::{index_of_key, Record, Table};
use vstd::prelude::*;

verus! {

/// What a change to a row that hangs on the shift `shift_id` asks for: the
/// level `Supervisor`, then a shift with that key, then its ownership.
pub open spec fn parent_guard(
    account: Employee,
    shifts: Seq<Shift>,
    shift_id: i32,
) -> Result<(), Error> {
    match permitted(account, EmployeeLevel::Supervisor, None) {
        Err(e) => Err(e),
        Ok(_) => match index_of_key(shifts, shift_id) {
            None => Err(Error::Infrastructure(Fault::RecordNotFound)),
            Some(p) => permitted(account, EmployeeLevel::Supervisor, Some(shifts[p].supervisor_id)),
        },
    }
}

/// What a change to a stored row that hangs on the shift `shift_id` asks
/// for: the ownership of that shift, where it is in the store.
pub open spec fn stored_parent_guard(
    account: Employee,
    shifts: Seq<Shift>,
    shift_id: i32,
) -> Result<(), Error> {
    match index_of_key(shifts, shift_id) {
        None => Ok(()),
        Some(p) => permitted(account, EmployeeLevel::Supervisor, Some(shifts[p].supervisor_id)),
    }
}

/// The verdict on a change to the shift exception `exception`: first what
/// the shift that it names asks for, then, where a row with its key is
/// stored, what the shift of the stored row asks for. With both passed the
/// verdict is the stored row's position, or `None` where no row has the key.
pub open spec fn exception_target(
    account: Employee,
    shifts: Seq<Shift>,
    exceptions: Seq<ShiftException>,
    exception: ShiftException,
) -> Result<Option<int>, Error> {
    match parent_guard(account, shifts, exception.shift_id) {
        Err(e) => Err(e),
        Ok(_) => match index_of_key(exceptions, exception.id) {
            None => Ok(None),
            Some(i) => match stored_parent_guard(account, shifts, exceptions[i].shift_id) {
                Err(e) => Err(e),
                Ok(_) => Ok(Some(i)),
            },
        },
    }
}

/// The verdict on an approval of the vacation `vacation`: the level
/// `Supervisor` and the supervisor that `vacation` names, then the
/// supervisor that the stored row names. A vacation without a designated
/// supervisor is open to every supervisor.
pub open spec fn approval_target(
    account: Employee,
    vacations: Seq<Vacation>,
    vacation: Vacation,
) -> Result<Option<int>, Error> {
    match permitted(account, EmployeeLevel::Supervisor, vacation.supervisor_id) {
        Err(e) => Err(e),
        Ok(_) => match index_of_key(vacations, vacation.id) {
            None => Ok(None),
            Some(i) => match permitted(
                account,
                EmployeeLevel::Supervisor,
                vacations[i].supervisor_id,
            ) {
                Err(e) => Err(e),
                Ok(_) => Ok(Some(i)),
            },
        },
    }
}

impl Vacation {
    /// The same vacation with the approval `approved`.
    pub open spec fn with_approval(self, approved: bool) -> Vacation {
        Vacation { approved, ..self }
    }
}

impl DatabaseView {
    /// What adding a shift does, for a supervisor or above: it is stored
    /// under the next key with the account of the token as its owner.
    pub open spec fn add_shift(self, token: Seq<char>, now: Timestamp, new: NewShift) -> (
        Result<Shift, Error>,
        DatabaseView,
    ) {
        match self.authenticate(token, now) {
            Err(e) => (Err(e), self),
            Ok(account) => match permitted(account, EmployeeLevel::Supervisor, None) {
                Err(e) => (Err(e), self),
                Ok(_) => if self.shifts.next_key == i32::MAX {
                    (Err(Error::Infrastructure(Fault::KeysExhausted)), self)
                } else {
                    let row = Shift::keyed_spec(self.shifts.next_key, account.id, new);
                    (Ok(row), DatabaseView { shifts: self.shifts.appended(row), ..self })
                },
            },
        }
    }

    /// What updating a shift does, for a supervisor who owns it: `shift`
    /// replaces the stored row with its key.
    pub open spec fn update_shift(self, token: Seq<char>, now: Timestamp, shift: Shift) -> (
        Result<Shift, Error>,
        DatabaseView,
    ) {
        match self.authenticate(token, now) {
            Err(e) => (Err(e), self),
            Ok(account) => match target(
                account,
                EmployeeLevel::Supervisor,
                Some(shift.supervisor_id),
                self.shifts.rows,
                shift.id,
            ) {
                Err(e) => (Err(e), self),
                Ok(None) => (Err(Error::Infrastructure(Fault::RecordNotFound)), self),
                Ok(Some(i)) => (
                    Ok(shift),
                    DatabaseView { shifts: self.shifts.with_row(i, shift), ..self },
                ),
            },
        }
    }

    /// What removing a shift does, for a supervisor who owns it: the stored
    /// row with its key is taken out. No row with the key: nothing changes.
    pub open spec fn remove_shift(self, token: Seq<char>, now: Timestamp, shift: Shift) -> (
        Result<(), Error>,
        DatabaseView,
    ) {
        match self.authenticate(token, now) {
            Err(e) => (Err(e), self),
            Ok(account) => match target(
                account,
                EmployeeLevel::Supervisor,
                Some(shift.supervisor_id),
                self.shifts.rows,
                shift.id,
            ) {
                Err(e) => (Err(e), self),
                Ok(None) => (Ok(()), self),
                Ok(Some(i)) => (Ok(()), DatabaseView { shifts: self.shifts.without(i), ..self }),
            },
        }
    }

    /// What adding a shift exception does, for the supervisor who owns the
    /// shift: it is stored under the next key.
    pub open spec fn add_shift_exception(
        self,
        token: Seq<char>,
        now: Timestamp,
        new: NewShiftException,
    ) -> (Result<ShiftException, Error>, DatabaseView) {
        match self.authenticate(token, now) {
            Err(e) => (Err(e), self),
            Ok(account) => match parent_guard(account, self.shifts.rows, new.shift_id) {
                Err(e) => (Err(e), self),
                Ok(_) => if self.shift_exceptions.next_key == i32::MAX {
                    (Err(Error::Infrastructure(Fault::KeysExhausted)), self)
                } else {
                    let row = ShiftException::keyed_spec(self.shift_exceptions.next_key, new);
                    (
                        Ok(row),
                        DatabaseView {
                            shift_exceptions: self.shift_exceptions.appended(row),
                            ..self
                        },
                    )
                },
            },
        }
    }

    /// What updating a shift exception does, for the supervisor who owns
    /// its shift: `exception` replaces the stored row with its key.
    pub open spec fn update_shift_exception(
        self,
        token: Seq<char>,
        now: Timestamp,
        exception: ShiftException,
    ) -> (Result<ShiftException, Error>, DatabaseView) {
        match self.authenticate(token, now) {
            Err(e) => (Err(e), self),
            Ok(account) => match exception_target(
                account,
                self.shifts.rows,
                self.shift_exceptions.rows,
                exception,
            ) {
                Err(e) => (Err(e), self),
                Ok(None) => (Err(Error::Infrastructure(Fault::RecordNotFound)), self),
                Ok(Some(i)) => (
                    Ok(exception),
                    DatabaseView {
                        shift_exceptions: self.shift_exceptions.with_row(i, exception),
                        ..self
                    },
                ),
            },
        }
    }

    /// What removing a shift exception does, for the supervisor who owns
    /// its shift: the stored row with its key is taken out. No row with the
    /// key: nothing changes.
    pub open spec fn remove_shift_exception(
        self,
        token: Seq<char>,
        now: Timestamp,
        exception: ShiftException,
    ) -> (Result<(), Error>, DatabaseView) {
        match self.authenticate(token, now) {
            Err(e) => (Err(e), self),
            Ok(account) => match exception_target(
                account,
                self.shifts.rows,
                self.shift_exceptions.rows,
                exception,
            ) {
                Err(e) => (Err(e), self),
                Ok(None) => (Ok(()), self),
                Ok(Some(i)) => (
                    Ok(()),
                    DatabaseView { shift_exceptions: self.shift_exceptions.without(i), ..self },
                ),
            },
        }
    }

    /// What adding a vacation does: it is stored under the next key as given.
    pub open spec fn add_vacation(self, token: Seq<char>, now: Timestamp, new: NewVacation) -> (
        Result<Vacation, Error>,
        DatabaseView,
    ) {
        match self.authenticate(token, now) {
            Err(e) => (Err(e), self),
            Ok(_) => if self.vacations.next_key == i32::MAX {
                (Err(Error::Infrastructure(Fault::KeysExhausted)), self)
            } else {
                let row = Vacation::keyed_spec(self.vacations.next_key, new);
                (Ok(row), DatabaseView { vacations: self.vacations.appended(row), ..self })
            },
        }
    }

    /// What updating a vacation does, for the account that asked for it:
    /// `vacation` replaces the stored row with its key.
    pub open spec fn update_vacation(
        self,
        token: Seq<char>,
        now: Timestamp,
        vacation: Vacation,
    ) -> (Result<Vacation, Error>, DatabaseView) {
        match self.authenticate(token, now) {
            Err(e) => (Err(e), self),
            Ok(account) => match target(
                account,
                EmployeeLevel::Read,
                Some(vacation.employee_id),
                self.vacations.rows,
                vacation.id,
            ) {
                Err(e) => (Err(e), self),
                Ok(None) => (Err(Error::Infrastructure(Fault::RecordNotFound)), self),
                Ok(Some(i)) => (
                    Ok(vacation),
                    DatabaseView { vacations: self.vacations.with_row(i, vacation), ..self },
                ),
            },
        }
    }

    /// What approving a vacation does, for its designated supervisor: the
    /// stored row with its key takes the approval of `vacation`, and
    /// nothing else of it.
    pub open spec fn update_vacation_approval(
        self,
        token: Seq<char>,
        now: Timestamp,
        vacation: Vacation,
    ) -> (Result<Vacation, Error>, DatabaseView) {
        match self.authenticate(token, now) {
            Err(e) => (Err(e), self),
            Ok(account) => match approval_target(account, self.vacations.rows, vacation) {
                Err(e) => (Err(e), self),
                Ok(None) => (Err(Error::Infrastructure(Fault::RecordNotFound)), self),
                Ok(Some(i)) => {
                    let row = self.vacations.rows[i].with_approval(vacation.approved);
                    (Ok(row), DatabaseView { vacations: self.vacations.with_row(i, row), ..self })
                },
            },
        }
    }

    /// What removing a vacation does, for the account that asked for it:
    /// the stored row with its key is taken out. No row with the key:
    /// nothing changes.
    pub open spec fn remove_vacation(
        self,
        token: Seq<char>,
        now: Timestamp,
        vacation: Vacation,
    ) -> (Result<(), Error>, DatabaseView) {
        match self.authenticate(token, now) {
            Err(e) => (Err(e), self),
            Ok(account) => match target(
                account,
                EmployeeLevel::Read,
                Some(vacation.employee_id),
                self.vacations.rows,
                vacation.id,
            ) {
                Err(e) => (Err(e), self),
                Ok(None) => (Ok(()), self),
                Ok(Some(i)) => (
                    Ok(()),
                    DatabaseView { vacations: self.vacations.without(i), ..self },
                ),
            },
        }
    }

    /// Whether the token leads, at `now`, to an account of the level
    /// `Supervisor` or above while the stored shift with the key `shift_id`
    /// belongs to another account.
    pub open spec fn shift_of_another(
        self,
        token: Seq<char>,
        now: Timestamp,
        shift_id: i32,
    ) -> bool {
        index_of_key(self.shifts.rows, shift_id) matches Some(p)
            && self.held_by_other_supervisor(token, now, self.shifts.rows[p].supervisor_id)
    }
}

/// What a change to a row that hangs on a shift asks for: see `parent_guard`.
fn check_parent(
    account: &Employee,
    shifts: &Table<Shift>,
    shift_id: i32,
) -> (outcome: Result<(), Error>)
    ensures
        outcome == parent_guard(*account, shifts@.rows, shift_id),
{
    match authorize(account, EmployeeLevel::Supervisor, None) {
        Err(e) => {
            return Err(e);
        },
        Ok(_) => {},
    }
    match shifts.position(shift_id) {
        None => Err(Error::Infrastructure(Fault::RecordNotFound)),
        Some(p) => authorize(account, EmployeeLevel::Supervisor, Some(shifts.row(p).supervisor_id)),
    }
}

/// The verdict on a change to a shift exception: see `exception_target`.
fn locate_exception(
    account: &Employee,
    shifts: &Table<Shift>,
    exceptions: &Table<ShiftException>,
    exception: &ShiftException,
) -> (outcome: Result<Option<usize>, Error>)
    ensures
        match outcome {
            Err(e) => exception_target(*account, shifts@.rows, exceptions@.rows, *exception)
                == Err::<Option<int>, Error>(e),
            Ok(None) => exception_target(*account, shifts@.rows, exceptions@.rows, *exception)
                == Ok::<Option<int>, Error>(None),
            Ok(Some(i)) => {
                &&& exception_target(*account, shifts@.rows, exceptions@.rows, *exception) == Ok::<
                    Option<int>,
                    Error,
                >(Some(i as int))
                &&& i < exceptions@.rows.len()
                &&& exceptions@.rows[i as int].key() == exception.id
            },
        },
{
    match check_parent(account, shifts, exception.shift_id) {
        Err(e) => {
            return Err(e);
        },
        Ok(_) => {},
    }
    let i = match exceptions.position(exception.id) {
        None => {
            return Ok(None);
        },
        Some(i) => i,
    };
    match shifts.position(exceptions.row(i).shift_id) {
        None => Ok(Some(i)),
        Some(p) => match authorize(
            account,
            EmployeeLevel::Supervisor,
            Some(shifts.row(p).supervisor_id),
        ) {
            Err(e) => Err(e),
            Ok(_) => Ok(Some(i)),
        },
    }
}

/// Every shift, in the order of the table.
pub fn get_shifts(
    db: &Database,
    token: &str,
    now: Timestamp,
) -> (listed: Result<JsonObject<Vec<Shift>>, Error>)
    ensures
        match db@.resolve(token@, now) {
            Ok(_) => listed matches Ok(object) && object.contents@ == db@.shifts.rows,
            Err(e) => listed matches Err(f) && f == e,
        },
{
    match db.resolve_position(token, now) {
        Ok(_) => {},
        Err(e) => {
            return Err(e);
        },
    }
    let ghost rows = db@.shifts.rows;
    let mut list: Vec<Shift> = Vec::new();
    let mut i: usize = 0;
    while i < db.shifts.len()
        invariant
            i <= rows.len(),
            rows == db@.shifts.rows,
            list@ == rows.take(i as int),
        decreases rows.len() - i,
    {
        list.push(db.shifts.row(i).clone());
        i += 1;
    }
    Ok(JsonObject::new(list))
}

/// Every shift exception, in the order of the table.
pub fn get_shift_exceptions(
    db: &Database,
    token: &str,
    now: Timestamp,
) -> (listed: Result<JsonObject<Vec<ShiftException>>, Error>)
    ensures
        match db@.resolve(token@, now) {
            Ok(_) => listed matches Ok(object) && object.contents@ == db@.shift_exceptions.rows,
            Err(e) => listed matches Err(f) && f == e,
        },
{
    match db.resolve_position(token, now) {
        Ok(_) => {},
        Err(e) => {
            return Err(e);
        },
    }
    let ghost rows = db@.shift_exceptions.rows;
    let mut list: Vec<ShiftException> = Vec::new();
    let mut i: usize = 0;
    while i < db.shift_exceptions.len()
        invariant
            i <= rows.len(),
            rows == db@.shift_exceptions.rows,
            list@ == rows.take(i as int),
        decreases rows.len() - i,
    {
        list.push(*db.shift_exceptions.row(i));
        i += 1;
    }
    Ok(JsonObject::new(list))
}

/// Every vacation, in the order of the table.
pub fn get_vacations(
    db: &Database,
    token: &str,
    now: Timestamp,
) -> (listed: Result<JsonObject<Vec<Vacation>>, Error>)
    ensures
        match db@.resolve(token@, now) {
            Ok(_) => listed matches Ok(object) && object.contents@ == db@.vacations.rows,
            Err(e) => listed matches Err(f) && f == e,
        },
{
    match db.resolve_position(token, now) {
        Ok(_) => {},
        Err(e) => {
            return Err(e);
        },
    }
    let ghost rows = db@.vacations.rows;
    let mut list: Vec<Vacation> = Vec::new();
    let mut i: usize = 0;
    while i < db.vacations.len()
        invariant
            i <= rows.len(),
            rows == db@.vacations.rows,
            list@ == rows.take(i as int),
        decreases rows.len() - i,
    {
        list.push(*db.vacations.row(i));
        i += 1;
    }
    Ok(JsonObject::new(list))
}

/// Adds a shift owned by the account of the token and returns the row.
/// Asks for the level `Supervisor`.
pub fn add_shift(
    db: &mut Database,
    token: &str,
    now: Timestamp,
    new_shift: NewShift,
) -> (added: Result<Shift, Error>)
    requires
        old(db)@.wf(),
    ensures
        final(db)@.wf(),
        (added, final(db)@) == old(db)@.add_shift(token@, now, new_shift),
        added is Err ==> final(db)@ == old(db)@,
        old(db)@.held_by_reader(token@, now) ==> added == Err::<Shift, Error>(Error::Forbidden),
{
    let account = match db.authenticate(token, now) {
        Ok(account) => account,
        Err(e) => {
            return Err(e);
        },
    };
    match authorize(&account, EmployeeLevel::Supervisor, None) {
        Err(e) => {
            return Err(e);
        },
        Ok(_) => {},
    }
    let key = db.shifts.next_key();
    if key == i32::MAX {
        return Err(Error::Infrastructure(Fault::KeysExhausted));
    }
    let row = Shift::keyed(key, account.id, new_shift);
    let added = row.clone();
    db.shifts.append(row);
    Ok(added)
}

/// Replaces a shift by `shift` and returns it. Asks for the level
/// `Supervisor` and for the ownership of the shift: a shift that is another
/// account's, as `shift` names its owner or as it is stored, is refused
/// with `IdentityMismatch`, and a key that no shift has with
/// `RecordNotFound`.
pub fn update_shift(
    db: &mut Database,
    token: &str,
    now: Timestamp,
    shift: Shift,
) -> (stored: Result<Shift, Error>)
    requires
        old(db)@.wf(),
    ensures
        final(db)@.wf(),
        (stored, final(db)@) == old(db)@.update_shift(token@, now, shift),
        stored is Err ==> final(db)@ == old(db)@,
        old(db)@.held_by_reader(token@, now) ==> stored == Err::<Shift, Error>(Error::Forbidden),
        old(db)@.shift_of_another(token@, now, shift.id) ==> stored == Err::<Shift, Error>(
            Error::IdentityMismatch,
        ),
{
    let account = match db.authenticate(token, now) {
        Ok(account) => account,
        Err(e) => {
            return Err(e);
        },
    };
    let found = match locate(
        &account,
        EmployeeLevel::Supervisor,
        Some(shift.supervisor_id),
        &db.shifts,
        shift.id,
    ) {
        Ok(found) => found,
        Err(e) => {
            return Err(e);
        },
    };
    match found {
        None => Err(Error::Infrastructure(Fault::RecordNotFound)),
        Some(i) => {
            let copy = shift.clone();
            db.shifts.put(i, shift);
            Ok(copy)
        },
    }
}

/// Removes a shift. Asks for the level `Supervisor` and for the ownership
/// of the shift, as `update_shift` does; a key that no shift has is no
/// error, and nothing changes then.
pub fn remove_shift(
    db: &mut Database,
    token: &str,
    now: Timestamp,
    shift: Shift,
) -> (done: Result<(), Error>)
    requires
        old(db)@.wf(),
    ensures
        final(db)@.wf(),
        (done, final(db)@) == old(db)@.remove_shift(token@, now, shift),
        done is Err ==> final(db)@ == old(db)@,
        old(db)@.held_by_reader(token@, now) ==> done == Err::<(), Error>(Error::Forbidden),
        old(db)@.shift_of_another(token@, now, shift.id) ==> done == Err::<(), Error>(
            Error::IdentityMismatch,
        ),
{
    let account = match db.authenticate(token, now) {
        Ok(account) => account,
        Err(e) => {
            return Err(e);
        },
    };
    let found = match locate(
        &account,
        EmployeeLevel::Supervisor,
        Some(shift.supervisor_id),
        &db.shifts,
        shift.id,
    ) {
        Ok(found) => found,
        Err(e) => {
            return Err(e);
        },
    };
    match found {
        None => Ok(()),
        Some(i) => {
            db.shifts.take(i);
            Ok(())
        },
    }
}

/// Adds a day on which a shift is called off and returns the row. Asks for
/// the level `Supervisor` and for the ownership of the shift; a shift that
/// is not in the store is `RecordNotFound`.
pub fn add_shift_exception(
    db: &mut Database,
    token: &str,
    now: Timestamp,
    new_shift_exception: NewShiftException,
) -> (added: Result<ShiftException, Error>)
    requires
        old(db)@.wf(),
    ensures
        final(db)@.wf(),
        (added, final(db)@) == old(db)@.add_shift_exception(token@, now, new_shift_exception),
        added is Err ==> final(db)@ == old(db)@,
        old(db)@.held_by_reader(token@, now) ==> added == Err::<ShiftException, Error>(
            Error::Forbidden,
        ),
        old(db)@.shift_of_another(token@, now, new_shift_exception.shift_id) ==> added == Err::<
            ShiftException,
            Error,
        >(Error::IdentityMismatch),
{
    let account = match db.authenticate(token, now) {
        Ok(account) => account,
        Err(e) => {
            return Err(e);
        },
    };
    match check_parent(&account, &db.shifts, new_shift_exception.shift_id) {
        Err(e) => {
            return Err(e);
        },
        Ok(_) => {},
    }
    let key = db.shift_exceptions.next_key();
    if key == i32::MAX {
        return Err(Error::Infrastructure(Fault::KeysExhausted));
    }
    let row = ShiftException::keyed(key, new_shift_exception);
    db.shift_exceptions.append(row);
    Ok(row)
}

/// Replaces a shift exception by `shift_exception` and returns it. Asks
/// for the level `Supervisor` and for the ownership of the shift that it
/// names and of the shift that the stored row hangs on.
pub fn update_shift_exception(
    db: &mut Database,
    token: &str,
    now: Timestamp,
    shift_exception: ShiftException,
) -> (stored: Result<ShiftException, Error>)
    requires
        old(db)@.wf(),
    ensures
        final(db)@.wf(),
        (stored, final(db)@) == old(db)@.update_shift_exception(token@, now, shift_exception),
        stored is Err ==> final(db)@ == old(db)@,
        old(db)@.held_by_reader(token@, now) ==> stored == Err::<ShiftException, Error>(
            Error::Forbidden,
        ),
        old(db)@.shift_of_another(token@, now, shift_exception.shift_id) ==> stored == Err::<
            ShiftException,
            Error,
        >(Error::IdentityMismatch),
{
    let account = match db.authenticate(token, now) {
        Ok(account) => account,
        Err(e) => {
            return Err(e);
        },
    };
    let found = match locate_exception(
        &account,
        &db.shifts,
        &db.shift_exceptions,
        &shift_exception,
    ) {
        Ok(found) => found,
        Err(e) => {
            return Err(e);
        },
    };
    match found {
        None => Err(Error::Infrastructure(Fault::RecordNotFound)),
        Some(i) => {
            db.shift_exceptions.put(i, shift_exception);
            Ok(shift_exception)
        },
    }
}

/// Removes a shift exception. Asks for what `update_shift_exception` asks;
/// a key that no shift exception has is no error, and nothing changes then.
pub fn remove_shift_exception(
    db: &mut Database,
    token: &str,
    now: Timestamp,
    shift_exception: ShiftException,
) -> (done: Result<(), Error>)
    requires
        old(db)@.wf(),
    ensures
        final(db)@.wf(),
        (done, final(db)@) == old(db)@.remove_shift_exception(token@, now, shift_exception),
        done is Err ==> final(db)@ == old(db)@,
        old(db)@.held_by_reader(token@, now) ==> done == Err::<(), Error>(Error::Forbidden),
        old(db)@.shift_of_another(token@, now, shift_exception.shift_id) ==> done == Err::<
            (),
            Error,
        >(Error::IdentityMismatch),
{
    let account = match db.authenticate(token, now) {
        Ok(account) => account,
        Err(e) => {
            return Err(e);
        },
    };
    let found = match locate_exception(
        &account,
        &db.shifts,
        &db.shift_exceptions,
        &shift_exception,
    ) {
        Ok(found) => found,
        Err(e) => {
            return Err(e);
        },
    };
    match found {
        None => Ok(()),
        Some(i) => {
            db.shift_exceptions.take(i);
            Ok(())
        },
    }
}

/// Adds a vacation as given and returns the row. Fails with `Unauthorized`
/// without a live session and with `KeysExhausted` where the table has no
/// key left.
pub fn add_vacation(
    db: &mut Database,
    token: &str,
    now: Timestamp,
    new_vacation: NewVacation,
) -> (added: Result<Vacation, Error>)
    requires
        old(db)@.wf(),
    ensures
        final(db)@.wf(),
        (added, final(db)@) == old(db)@.add_vacation(token@, now, new_vacation),
        added is Err ==> final(db)@ == old(db)@,
{
    match db.authenticate_position(token, now) {
        Ok(_) => {},
        Err(e) => {
            return Err(e);
        },
    }
    let key = db.vacations.next_key();
    if key == i32::MAX {
        return Err(Error::Infrastructure(Fault::KeysExhausted));
    }
    let row = Vacation::keyed(key, new_vacation);
    db.vacations.append(row);
    Ok(row)
}

/// Replaces a vacation by `vacation` and returns it. Only the account that
/// the vacation is for may do so: a vacation that is another account's, as
/// `vacation` names it or as it is stored, is refused with
/// `IdentityMismatch`, and a key that no vacation has with `RecordNotFound`.
pub fn update_vacation(
    db: &mut Database,
    token: &str,
    now: Timestamp,
    vacation: Vacation,
) -> (stored: Result<Vacation, Error>)
    requires
        old(db)@.wf(),
    ensures
        final(db)@.wf(),
        (stored, final(db)@) == old(db)@.update_vacation(token@, now, vacation),
        stored is Err ==> final(db)@ == old(db)@,
        index_of_key(old(db)@.vacations.rows, vacation.id) matches Some(i) && old(
            db,
        )@.held_by_other_supervisor(token@, now, old(db)@.vacations.rows[i].employee_id)
            ==> stored == Err::<Vacation, Error>(Error::IdentityMismatch),
{
    let account = match db.authenticate(token, now) {
        Ok(account) => account,
        Err(e) => {
            return Err(e);
        },
    };
    let found = match locate(
        &account,
        EmployeeLevel::Read,
        Some(vacation.employee_id),
        &db.vacations,
        vacation.id,
    ) {
        Ok(found) => found,
        Err(e) => {
            return Err(e);
        },
    };
    match found {
        None => Err(Error::Infrastructure(Fault::RecordNotFound)),
        Some(i) => {
            db.vacations.put(i, vacation);
            Ok(vacation)
        },
    }
}

/// Sets the approval of a vacation to that of `vacation` and returns the
/// stored row. Asks for the level `Supervisor`, and the account must be
/// the supervisor that `vacation` and the stored row designate, where they
/// designate one.
pub fn update_vacation_approval(
    db: &mut Database,
    token: &str,
    now: Timestamp,
    vacation: Vacation,
) -> (stored: Result<Vacation, Error>)
    requires
        old(db)@.wf(),
    ensures
        final(db)@.wf(),
        (stored, final(db)@) == old(db)@.update_vacation_approval(token@, now, vacation),
        stored is Err ==> final(db)@ == old(db)@,
        old(db)@.held_by_reader(token@, now) ==> stored == Err::<Vacation, Error>(
            Error::Forbidden,
        ),
        index_of_key(old(db)@.vacations.rows, vacation.id) matches Some(i) && old(
            db,
        )@.vacations.rows[i].supervisor_id matches Some(supervisor) && old(
            db,
        )@.held_by_other_supervisor(token@, now, supervisor) ==> stored == Err::<Vacation, Error>(
            Error::IdentityMismatch,
        ),
{
    let account = match db.authenticate(token, now) {
        Ok(account) => account,
        Err(e) => {
            return Err(e);
        },
    };
    match authorize(&account, EmployeeLevel::Supervisor, vacation.supervisor_id) {
        Err(e) => {
            return Err(e);
        },
        Ok(_) => {},
    }
    let i = match db.vacations.position(vacation.id) {
        None => {
            return Err(Error::Infrastructure(Fault::RecordNotFound));
        },
        Some(i) => i,
    };
    let mut row = *db.vacations.row(i);
    match authorize(&account, EmployeeLevel::Supervisor, row.supervisor_id) {
        Err(e) => {
            return Err(e);
        },
        Ok(_) => {},
    }
    row.approved = vacation.approved;
    db.vacations.put(i, row);
    Ok(row)
}

/// Removes a vacation. Only the account that the vacation is for may do
/// so, as in `update_vacation`; a key that no vacation has is no error,
/// and nothing changes then.
pub fn remove_vacation(
    db: &mut Database,
    token: &str,
    now: Timestamp,
    vacation: Vacation,
) -> (done: Result<(), Error>)
    requires
        old(db)@.wf(),
    ensures
        final(db)@.wf(),
        (done, final(db)@) == old(db)@.remove_vacation(token@, now, vacation),
        done is Err ==> final(db)@ == old(db)@,
        index_of_key(old(db)@.vacations.rows, vacation.id) matches Some(i) && old(
            db,
        )@.held_by_other_supervisor(token@, now, old(db)@.vacations.rows[i].employee_id)
            ==> done == Err::<(), Error>(Error::IdentityMismatch),
{
    let account = match db.authenticate(token, now) {
        Ok(account) => account,
        Err(e) => {
            return Err(e);
        },
    };
    let found = match locate(
        &account,
        EmployeeLevel::Read,
        Some(vacation.employee_id),
        &db.vacations,
        vacation.id,
    ) {
        Ok(found) => found,
        Err(e) => {
            return Err(e);
        },
    };
    match found {
        None => Ok(()),
        Some(i) => {
            db.vacations.take(i);
            Ok(())
        },
    }
}

} // verus!
