//! What holds of the operations taken together.

use crate::auth::{permitted, target};
use crate::config::{
    CombinedConfig, Config, EmployeeColor, NewConfig, NewPerEmployeeConfig, PerEmployeeConfig,
};
use crate::datetime::Timestamp;
use crate::employee::{ClientSideEmployee, Employee, EmployeeLevel, NewSession};
use crate::error::Error;
use crate::lifecycle::{lemma_after_removal, lemma_config_stays, owns_several};
use crate::session::{lemma_with_session, SESSION_HOURS};
use crate::shift::{
    NewShift, NewShiftException, NewVacation, Shift, ShiftException, Vacation,
};
use crate::store::{token_mask, DatabaseView};
use crate::table::{index_of_key, lemma_first_true_found, lemma_key_finds, lemma_with_row};
use vstd::prelude::*;

verus! {

/// A token that no session has is not found, whatever the hour.
pub proof fn lemma_unknown_token_is_not_found(store: DatabaseView, token: Seq<char>, now: Timestamp)
    requires
        forall|i: int|
            0 <= i < store.sessions.rows.len() ==> (#[trigger] store.sessions.rows[i]).token@
                != token,
    ensures
        store.resolve(token, now) == Err::<Employee, Error>(Error::TokenNotFound),
{
}

/// The token of a session that does not run out strictly after `now` is
/// expired at `now`: it never leads to the account.
pub proof fn lemma_expired_session_is_refused(store: DatabaseView, i: int, now: Timestamp)
    requires
        store.wf(),
        0 <= i < store.sessions.rows.len(),
        !store.sessions.rows[i].expiration.later_than(now),
    ensures
        store.resolve(store.sessions.rows[i].token@, now) == Err::<Employee, Error>(
            Error::TokenExpired,
        ),
{
    let token = store.sessions.rows[i].token@;
    let mask = token_mask(store.sessions.rows, token);
    lemma_first_true_found(mask, i);
}

/// Signing in and validating the returned token at once leads to the
/// account that signed in.
pub proof fn lemma_login_then_validate(
    store: DatabaseView,
    email: Seq<char>,
    password: Seq<char>,
    now: Timestamp,
    token: String,
)
    requires
        store.wf(),
        now.can_add_hours(SESSION_HOURS as int),
        store.sign_in_with_room(email, password) is Ok,
        store.session_fits(
            NewSession {
                employee_id: store.employees.rows[store.sign_in(email, password).unwrap()].id,
                expiration: now.after_hours(SESSION_HOURS as int),
                token,
            },
        ) is Ok,
    ensures
        ({
            let account = store.employees.rows[store.sign_in(email, password).unwrap()];
            let session = NewSession {
                employee_id: account.id,
                expiration: now.after_hours(SESSION_HOURS as int),
                token,
            };
            store.with_session(session).resolve(token@, now) == Ok::<Employee, Error>(account)
        }),
{
    let k = store.sign_in(email, password).unwrap();
    let session = NewSession {
        employee_id: store.employees.rows[k].id,
        expiration: now.after_hours(SESSION_HOURS as int),
        token,
    };
    lemma_with_session(store, session, k, now);
}

/// After a sign-out the token is not found, whatever the hour, and
/// signing out once more changes nothing.
pub proof fn lemma_logout_then_validate(store: DatabaseView, token: Seq<char>, now: Timestamp)
    requires
        store.wf(),
    ensures
        store.without_token(token).wf(),
        store.without_token(token).resolve(token, now) == Err::<Employee, Error>(
            Error::TokenNotFound,
        ),
        store.without_token(token).without_token(token) == store.without_token(token),
{
}

/// An account that owns no more than one configuration keeps it: removing
/// is no error and changes nothing in the store, whatever configuration
/// is named.
pub proof fn lemma_remove_sole_config(
    store: DatabaseView,
    token: Seq<char>,
    now: Timestamp,
    config: Config,
)
    requires
        store.authenticate_index(token, now) is Ok,
        !owns_several(
            store.configs.rows,
            store.employees.rows[store.authenticate_index(token, now).unwrap()].id,
        ),
    ensures
        store.remove_config(token, now, config) == (Ok::<(), Error>(()), store),
{
}

/// Whether removing `config` with the token takes a configuration out:
/// the account owns several, and `config` is one of them as it is stored.
pub open spec fn removes_one(
    store: DatabaseView,
    token: Seq<char>,
    now: Timestamp,
    config: Config,
) -> bool {
    &&& store.authenticate_index(token, now) matches Ok(k) && {
        let account = store.employees.rows[k].id;
        &&& config.employee_id == account
        &&& owns_several(store.configs.rows, account)
        &&& index_of_key(store.configs.rows, config.id) matches Some(i)
            && store.configs.rows[i].employee_id == account
    }
}

/// Removing a configuration other than the active one leaves the pointer
/// where it was: an account that points at a configuration stored as its
/// own, and asks for the removal of another, has the same account row
/// afterwards, whatever the outcome. Where the removal takes a
/// configuration out, exactly that row leaves the store and nothing else
/// changes.
pub proof fn lemma_remove_other_config(
    store: DatabaseView,
    token: Seq<char>,
    now: Timestamp,
    config: Config,
)
    requires
        store.wf(),
        store.authenticate_index(token, now) matches Ok(k) && store.points_home(k)
            && store.employees.rows[k].active_config != Some(config.id),
    ensures
        store.remove_config(token, now, config).1.employees == store.employees,
        removes_one(store, token, now, config) ==> ({
            let i = index_of_key(store.configs.rows, config.id).unwrap();
            &&& store.remove_config(token, now, config) == (
                Ok::<(), Error>(()),
                DatabaseView { configs: store.configs.without(i), ..store },
            )
            &&& store.configs.without(i).rows.len() == store.configs.rows.len() - 1
        }),
{
    let k = store.authenticate_index(token, now).unwrap();
    let account = store.employees.rows[k].id;
    let pointer = store.employees.rows[k].active_config.unwrap();
    let j = index_of_key(store.configs.rows, pointer).unwrap();
    if owns_several(store.configs.rows, account) && config.employee_id == account {
        match index_of_key(store.configs.rows, config.id) {
            Some(i) => {
                if store.configs.rows[i].employee_id == account {
                    let moved = if j < i { j } else { j - 1 };
                    lemma_key_finds(store.configs.without(i), moved);
                }
            },
            None => {},
        }
    }
}

/// Removing the active configuration, where it is not the only one, leaves
/// the account pointing at a configuration that is in the store and that
/// it owns, and the key of the one removed finds nothing any more.
pub proof fn lemma_remove_active_config(
    store: DatabaseView,
    token: Seq<char>,
    now: Timestamp,
    config: Config,
)
    requires
        store.wf(),
        removes_one(store, token, now, config),
        store.employees.rows[store.authenticate_index(token, now).unwrap()].active_config == Some(
            config.id,
        ),
    ensures
        ({
            let k = store.authenticate_index(token, now).unwrap();
            let after = store.remove_config(token, now, config).1;
            &&& store.remove_config(token, now, config).0 is Ok
            &&& after.wf()
            &&& after.points_home(k)
            &&& after.employees.rows[k].id == store.employees.rows[k].id
            &&& index_of_key(after.configs.rows, config.id) is None
        }),
{
    let k = store.authenticate_index(token, now).unwrap();
    let i = index_of_key(store.configs.rows, config.id).unwrap();
    lemma_after_removal(store, k, Some(i));
}

/// Removing a configuration keeps the store well formed and keeps every
/// account pointing at a configuration that it owns.
pub proof fn lemma_remove_config_keeps_home(
    store: DatabaseView,
    token: Seq<char>,
    now: Timestamp,
    config: Config,
)
    requires
        store.wf(),
        store.all_point_home(),
    ensures
        store.remove_config(token, now, config).1.wf(),
        store.remove_config(token, now, config).1.all_point_home(),
{
    match store.authenticate_index(token, now) {
        Err(_) => {},
        Ok(k) => {
            let account = store.employees.rows[k].id;
            if config.employee_id == account && owns_several(store.configs.rows, account) {
                match index_of_key(store.configs.rows, config.id) {
                    Some(i) => {
                        if store.configs.rows[i].employee_id == account {
                            lemma_after_removal(store, k, Some(i));
                        }
                    },
                    None => {},
                }
            }
        },
    }
}

/// Making a configuration active that is in the store as the account's own
/// keeps every account pointing at a configuration that it owns.
pub proof fn lemma_set_active_config_keeps_home(
    store: DatabaseView,
    token: Seq<char>,
    now: Timestamp,
    config: Config,
)
    requires
        store.wf(),
        store.all_point_home(),
        index_of_key(store.configs.rows, config.id) matches Some(j)
            && store.configs.rows[j].employee_id == config.employee_id,
    ensures
        store.set_active_config(token, now, config).1.wf(),
        store.set_active_config(token, now, config).1.all_point_home(),
{
    match store.authenticate_index(token, now) {
        Err(_) => {},
        Ok(k) => {
            if store.employees.rows[k].id == config.employee_id {
                let after = store.with_pointer(k, Some(config.id));
                assert forall|other: int|
                    0 <= other < after.employees.rows.len() implies #[trigger] after.points_home(
                    other,
                ) by {
                    if other != k {
                        assert(store.points_home(other));
                    }
                }
            }
        },
    }
}

/// Adding a configuration keeps every account pointing at a configuration
/// that it owns.
pub proof fn lemma_add_config_keeps_home(
    store: DatabaseView,
    token: Seq<char>,
    now: Timestamp,
    new: NewConfig,
)
    requires
        store.wf(),
        store.all_point_home(),
    ensures
        store.add_config(token, now, new).1.all_point_home(),
{
    let after = store.add_config(token, now, new).1;
    if after != store {
        let row = after.configs.rows.last();
        assert forall|k: int| 0 <= k < after.employees.rows.len() implies #[trigger]
            after.points_home(k) by {
            assert(store.points_home(k));
            lemma_config_stays(store.configs, row, store.employees.rows[k].active_config);
        }
    }
}

/// Updating a configuration keeps every account pointing at a
/// configuration that it owns: an update cannot change the owner.
pub proof fn lemma_update_config_keeps_home(
    store: DatabaseView,
    token: Seq<char>,
    now: Timestamp,
    updated: Config,
)
    requires
        store.wf(),
        store.all_point_home(),
    ensures
        store.update_config(token, now, updated).1.all_point_home(),
{
    let after = store.update_config(token, now, updated).1;
    if after != store {
        let i = index_of_key(store.configs.rows, updated.id).unwrap();
        lemma_with_row(store.configs, i, updated);
        assert forall|k: int| 0 <= k < after.employees.rows.len() implies #[trigger]
            after.points_home(k) by {
            assert(store.points_home(k));
        }
    }
}

/// Copying a configuration keeps every account pointing at a configuration
/// that it owns.
pub proof fn lemma_copy_config_keeps_home(
    store: DatabaseView,
    token: Seq<char>,
    now: Timestamp,
    combined: CombinedConfig,
)
    requires
        store.wf(),
        store.all_point_home(),
    ensures
        store.copy_config(token, now, combined).1.all_point_home(),
{
    let after = store.copy_config(token, now, combined).1;
    if after != store {
        let row = after.configs.rows.last();
        assert forall|k: int| 0 <= k < after.employees.rows.len() implies #[trigger]
            after.points_home(k) by {
            assert(store.points_home(k));
            lemma_config_stays(store.configs, row, store.employees.rows[k].active_config);
        }
    }
}

/// Whether every account points at a configuration that it owns depends
/// on the accounts and the configurations alone.
pub proof fn lemma_home_ignores_other_tables(a: DatabaseView, b: DatabaseView)
    requires
        a.employees == b.employees,
        a.configs == b.configs,
    ensures
        a.all_point_home() == b.all_point_home(),
{
    if a.all_point_home() {
        assert forall|k: int| 0 <= k < b.employees.rows.len() implies #[trigger] b.points_home(
            k,
        ) by {
            assert(a.points_home(k));
        }
    }
    if b.all_point_home() {
        assert forall|k: int| 0 <= k < a.employees.rows.len() implies #[trigger] a.points_home(
            k,
        ) by {
            assert(b.points_home(k));
        }
    }
}

/// Signing in, signing out and every operation on shifts, shift
/// exceptions, vacations and per-employee colors keep every account
/// pointing at a configuration that it owns.
pub proof fn lemma_records_keep_home(
    store: DatabaseView,
    token: Seq<char>,
    now: Timestamp,
    session: NewSession,
    new_shift: NewShift,
    shift: Shift,
    new_exception: NewShiftException,
    exception: ShiftException,
    new_vacation: NewVacation,
    vacation: Vacation,
    new_color: NewPerEmployeeConfig,
    color: PerEmployeeConfig,
)
    requires
        store.all_point_home(),
    ensures
        store.with_session(session).all_point_home(),
        store.without_token(token).all_point_home(),
        store.add_shift(token, now, new_shift).1.all_point_home(),
        store.update_shift(token, now, shift).1.all_point_home(),
        store.remove_shift(token, now, shift).1.all_point_home(),
        store.add_shift_exception(token, now, new_exception).1.all_point_home(),
        store.update_shift_exception(token, now, exception).1.all_point_home(),
        store.remove_shift_exception(token, now, exception).1.all_point_home(),
        store.add_vacation(token, now, new_vacation).1.all_point_home(),
        store.update_vacation(token, now, vacation).1.all_point_home(),
        store.update_vacation_approval(token, now, vacation).1.all_point_home(),
        store.remove_vacation(token, now, vacation).1.all_point_home(),
        store.add_employee_config(token, now, new_color).1.all_point_home(),
        store.update_employee_config(token, now, color).1.all_point_home(),
{
    lemma_home_ignores_other_tables(store, store.with_session(session));
    lemma_home_ignores_other_tables(store, store.without_token(token));
    lemma_home_ignores_other_tables(store, store.add_shift(token, now, new_shift).1);
    lemma_home_ignores_other_tables(store, store.update_shift(token, now, shift).1);
    lemma_home_ignores_other_tables(store, store.remove_shift(token, now, shift).1);
    lemma_home_ignores_other_tables(store, store.add_shift_exception(token, now, new_exception).1);
    lemma_home_ignores_other_tables(store, store.update_shift_exception(token, now, exception).1);
    lemma_home_ignores_other_tables(store, store.remove_shift_exception(token, now, exception).1);
    lemma_home_ignores_other_tables(store, store.add_vacation(token, now, new_vacation).1);
    lemma_home_ignores_other_tables(store, store.update_vacation(token, now, vacation).1);
    lemma_home_ignores_other_tables(store, store.update_vacation_approval(token, now, vacation).1);
    lemma_home_ignores_other_tables(store, store.remove_vacation(token, now, vacation).1);
    lemma_home_ignores_other_tables(store, store.add_employee_config(token, now, new_color).1);
    lemma_home_ignores_other_tables(store, store.update_employee_config(token, now, color).1);
}

/// Replacing an account by one of the same key and the same pointer keeps
/// every account pointing at a configuration that it owns.
pub proof fn lemma_with_employee_keeps_home(store: DatabaseView, k: int, row: Employee)
    requires
        store.all_point_home(),
        0 <= k < store.employees.rows.len(),
        row.id == store.employees.rows[k].id,
        row.active_config == store.employees.rows[k].active_config,
    ensures
        store.with_employee(k, row).all_point_home(),
{
    let after = store.with_employee(k, row);
    assert forall|other: int| 0 <= other < after.employees.rows.len() implies #[trigger]
        after.points_home(other) by {
        assert(store.points_home(other));
    }
}

/// Changing an account's details, color, phone number or password hash
/// keeps every account pointing at a configuration that it owns.
pub proof fn lemma_account_changes_keep_home(
    store: DatabaseView,
    token: Seq<char>,
    now: Timestamp,
    updated: ClientSideEmployee,
    color: EmployeeColor,
    phone_number: String,
    k: int,
    hashed: String,
)
    requires
        store.wf(),
        store.all_point_home(),
        0 <= k < store.employees.rows.len(),
    ensures
        store.update_employee(token, now, updated).1.all_point_home(),
        store.update_employee_color(token, now, color).1.all_point_home(),
        store.update_employee_phone_number(token, now, phone_number).1.all_point_home(),
        store.with_employee(
            k,
            store.employees.rows[k].with_password_hash(hashed),
        ).all_point_home(),
{
    match index_of_key(store.employees.rows, updated.id) {
        Some(i) => {
            lemma_with_employee_keeps_home(store, i, store.employees.rows[i].with_details(updated));
        },
        None => {},
    }
    match store.authenticate_index(token, now) {
        Ok(own) => {
            lemma_with_employee_keeps_home(
                store,
                own,
                store.employees.rows[own].with_default_color(color),
            );
            lemma_with_employee_keeps_home(
                store,
                own,
                store.employees.rows[own].with_phone_number(Some(phone_number)),
            );
        },
        Err(_) => {},
    }
    lemma_with_employee_keeps_home(store, k, store.employees.rows[k].with_password_hash(hashed));
}

/// Removing an account keeps every other account pointing at a
/// configuration that it owns.
pub proof fn lemma_remove_employee_keeps_home(
    store: DatabaseView,
    token: Seq<char>,
    now: Timestamp,
    employee: ClientSideEmployee,
)
    requires
        store.all_point_home(),
    ensures
        store.remove_employee(token, now, employee).1.all_point_home(),
{
    let after = store.remove_employee(token, now, employee).1;
    if after != store {
        let i = index_of_key(store.employees.rows, employee.id).unwrap();
        assert forall|k: int| 0 <= k < after.employees.rows.len() implies #[trigger]
            after.points_home(k) by {
            let k0 = if k < i { k } else { k + 1 };
            assert(store.points_home(k0));
        }
    }
}

/// An account of the level `Read` is refused every mutation that asks for
/// the level `Supervisor` or `Admin`, whoever owns the record.
pub proof fn lemma_reader_is_forbidden(account: Employee, owner: Option<i32>)
    requires
        account.level == EmployeeLevel::Read,
    ensures
        permitted(account, EmployeeLevel::Supervisor, owner) == Err::<(), Error>(Error::Forbidden),
        permitted(account, EmployeeLevel::Admin, owner) == Err::<(), Error>(Error::Forbidden),
{
}

/// With the token of an account of the level `Read`, every mutation that
/// asks for a higher level fails with `Forbidden` and leaves the store as
/// it was.
pub proof fn lemma_reader_changes_nothing(
    store: DatabaseView,
    token: Seq<char>,
    now: Timestamp,
    new_shift: NewShift,
    shift: Shift,
    new_exception: NewShiftException,
    exception: ShiftException,
    vacation: Vacation,
    employee: ClientSideEmployee,
)
    requires
        store.held_by_reader(token, now),
    ensures
        store.add_shift(token, now, new_shift) == (
            Err::<Shift, Error>(Error::Forbidden),
            store,
        ),
        store.update_shift(token, now, shift) == (Err::<Shift, Error>(Error::Forbidden), store),
        store.remove_shift(token, now, shift) == (Err::<(), Error>(Error::Forbidden), store),
        store.add_shift_exception(token, now, new_exception) == (
            Err::<ShiftException, Error>(Error::Forbidden),
            store,
        ),
        store.update_shift_exception(token, now, exception) == (
            Err::<ShiftException, Error>(Error::Forbidden),
            store,
        ),
        store.remove_shift_exception(token, now, exception) == (
            Err::<(), Error>(Error::Forbidden),
            store,
        ),
        store.update_vacation_approval(token, now, vacation) == (
            Err::<Vacation, Error>(Error::Forbidden),
            store,
        ),
        store.may_add_employee(token, now) == Err::<(), Error>(Error::Forbidden),
        store.update_employee(token, now, employee) == (Err::<(), Error>(Error::Forbidden), store),
        store.remove_employee(token, now, employee) == (Err::<(), Error>(Error::Forbidden), store),
{
}

/// An account of sufficient level that asks for a change to a stored
/// record of another owner is refused with `IdentityMismatch`, whatever
/// owner the record it sends names.
pub proof fn lemma_other_owner_is_refused<T: crate::auth::Owned>(
    account: Employee,
    minimum: EmployeeLevel,
    claimed: Option<i32>,
    rows: Seq<T>,
    key: i32,
)
    requires
        account.level.covers(minimum),
        index_of_key(rows, key) matches Some(i) && rows[i].owner() matches Some(owner) && owner
            != account.id,
    ensures
        target(account, minimum, claimed, rows, key) == Err::<Option<int>, Error>(
            Error::IdentityMismatch,
        ),
{
}

/// With the token of a supervisor, a change to a stored shift, vacation or
/// configuration of another account fails with `IdentityMismatch` and
/// leaves the store as it was. Removing such a configuration leaves the
/// store as it was, too; it is no error only where the account owns no
/// more than one configuration itself and nothing would be removed anyway.
pub proof fn lemma_supervisor_cannot_touch_others(
    store: DatabaseView,
    token: Seq<char>,
    now: Timestamp,
    shift: Shift,
    vacation: Vacation,
    config: Config,
)
    requires
        store.authenticate(token, now) matches Ok(account) && account.level.covers(
            EmployeeLevel::Supervisor,
        ),
    ensures
        index_of_key(store.shifts.rows, shift.id) matches Some(i)
            && store.shifts.rows[i].supervisor_id != store.authenticate(
            token,
            now,
        ).unwrap().id ==> {
            &&& store.update_shift(token, now, shift) == (
                Err::<Shift, Error>(Error::IdentityMismatch),
                store,
            )
            &&& store.remove_shift(token, now, shift) == (
                Err::<(), Error>(Error::IdentityMismatch),
                store,
            )
        },
        index_of_key(store.vacations.rows, vacation.id) matches Some(i)
            && store.vacations.rows[i].employee_id != store.authenticate(token, now).unwrap().id
            ==> {
            &&& store.update_vacation(token, now, vacation) == (
                Err::<Vacation, Error>(Error::IdentityMismatch),
                store,
            )
            &&& store.remove_vacation(token, now, vacation) == (
                Err::<(), Error>(Error::IdentityMismatch),
                store,
            )
        },
        index_of_key(store.configs.rows, config.id) matches Some(i)
            && store.configs.rows[i].employee_id != store.authenticate(token, now).unwrap().id ==> {
            &&& store.update_config(token, now, config) == (
                Err::<Config, Error>(Error::IdentityMismatch),
                store,
            )
            &&& store.remove_config(token, now, config).1 == store
        },
{
}

} // verus!
