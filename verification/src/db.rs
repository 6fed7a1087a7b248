//! The operations of the store, by the names that callers know them under.

pub use crate::account::{
    add_employee, change_password, get_current_employee, get_employees, remove_employee,
    update_employee, update_employee_color, update_employee_phone_number,
};
pub use crate::error::Error;
pub use crate::lifecycle::{
    add_config, add_employee_config, copy_config, create_account, get_active_config, get_configs,
    remove_config, set_active_config, update_config, update_employee_config,
};
pub use crate::records::{
    add_shift, add_shift_exception, add_vacation, get_shift_exceptions, get_shifts, get_vacations,
    remove_shift, remove_shift_exception, remove_vacation, update_shift, update_shift_exception,
    update_vacation, update_vacation_approval,
};
pub use crate::session::{check_token, employee_by_email, login, logout};
pub use crate::store::Database;
use vstd::prelude::*;

verus! {

/// The session token that a client presents.
pub type Token = String;

/// A value on its way to a client, under the one field `contents`.
#[derive(Debug)]
pub struct JsonObject<T: Clone> {
    pub contents: T,
}

impl<T: Clone> JsonObject<T> {
    pub fn new(t: T) -> (object: Self)
        ensures
            object.contents == t,
    {
        Self { contents: t }
    }
}

} // verus!
