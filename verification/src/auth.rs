//! The authorization rule: a level check, then an ownership check.
//!
//! A mutation names the least level it asks for. Where it touches a record
//! that has an owner, the owner must be the account itself, whatever the
//! account's level; a record without an owner is open to every account of
//! sufficient level.

use crate::config::Config;
use crate::employee::{Employee, EmployeeLevel};
use crate::error::Error;
use crate::shift::{Shift, Vacation};
use crate::table::{index_of_key, Record, Table};
use vstd::prelude::*;

verus! {

/// Whether the two keys name the same account.
pub open spec fn ids_match(lhs: i32, rhs: i32) -> Result<(), Error> {
    if lhs == rhs {
        Ok(())
    } else {
        Err(Error::IdentityMismatch)
    }
}

/// Fails with `IdentityMismatch` unless the two keys are equal.
pub fn match_ids(lhs: i32, rhs: i32) -> (outcome: Result<(), Error>)
    ensures
        outcome == ids_match(lhs, rhs),
{
    if lhs == rhs {
        Ok(())
    } else {
        Err(Error::IdentityMismatch)
    }
}

/// The verdict on an account that asks for a mutation of least level
/// `minimum` on a record owned by `owner`: `Forbidden` below the level,
/// else `IdentityMismatch` where there is an owner other than the account.
pub open spec fn permitted(
    account: Employee,
    minimum: EmployeeLevel,
    owner: Option<i32>,
) -> Result<(), Error> {
    if !account.level.covers(minimum) {
        Err(Error::Forbidden)
    } else if owner is Some && owner.unwrap() != account.id {
        Err(Error::IdentityMismatch)
    } else {
        Ok(())
    }
}

/// The authorization rule: the level check first, then the ownership check.
pub fn authorize(
    account: &Employee,
    minimum: EmployeeLevel,
    owner: Option<i32>,
) -> (outcome: Result<(), Error>)
    ensures
        outcome == permitted(*account, minimum, owner),
{
    if !account.level.at_least(minimum) {
        return Err(Error::Forbidden);
    }
    match owner {
        Some(id) => match_ids(account.id, id),
        None => Ok(()),
    }
}

/// A row that belongs to an account.
pub trait Owned: Record {
    /// The account that the row belongs to, if it has one.
    spec fn owner(&self) -> Option<i32>;

    /// The account that the row belongs to, if it has one.
    fn owner_id(&self) -> (owner: Option<i32>)
        ensures
            owner == self.owner(),
    ;
}

impl Owned for Shift {
    open spec fn owner(&self) -> Option<i32> {
        Some(self.supervisor_id)
    }

    fn owner_id(&self) -> (owner: Option<i32>) {
        Some(self.supervisor_id)
    }
}

impl Owned for Vacation {
    open spec fn owner(&self) -> Option<i32> {
        Some(self.employee_id)
    }

    fn owner_id(&self) -> (owner: Option<i32>) {
        Some(self.employee_id)
    }
}

impl Owned for Config {
    open spec fn owner(&self) -> Option<i32> {
        Some(self.employee_id)
    }

    fn owner_id(&self) -> (owner: Option<i32>) {
        Some(self.employee_id)
    }
}

/// The verdict on a mutation of the stored row with the key `key`,
/// asked for with a record that claims the owner `claimed`: the claim is
/// checked first, then the owner that the stored row has. With both passed
/// the verdict is the row's position, or `None` where no row has the key.
pub open spec fn target<T: Owned>(
    account: Employee,
    minimum: EmployeeLevel,
    claimed: Option<i32>,
    rows: Seq<T>,
    key: i32,
) -> Result<Option<int>, Error> {
    match permitted(account, minimum, claimed) {
        Err(e) => Err(e),
        Ok(_) => match index_of_key(rows, key) {
            None => Ok(None),
            Some(i) => match permitted(account, minimum, rows[i].owner()) {
                Err(e) => Err(e),
                Ok(_) => Ok(Some(i)),
            },
        },
    }
}

/// The authorization of a mutation of a stored row: see `target`.
pub fn locate<T: Owned>(
    account: &Employee,
    minimum: EmployeeLevel,
    claimed: Option<i32>,
    table: &Table<T>,
    key: i32,
) -> (outcome: Result<Option<usize>, Error>)
    ensures
        match outcome {
            Err(e) => target(*account, minimum, claimed, table@.rows, key) == Err::<
                Option<int>,
                Error,
            >(e),
            Ok(None) => target(*account, minimum, claimed, table@.rows, key) == Ok::<
                Option<int>,
                Error,
            >(None),
            Ok(Some(i)) => {
                &&& target(*account, minimum, claimed, table@.rows, key) == Ok::<
                    Option<int>,
                    Error,
                >(Some(i as int))
                &&& i < table@.rows.len()
                &&& table@.rows[i as int].key() == key
            },
        },
{
    match authorize(account, minimum, claimed) {
        Err(e) => {
            return Err(e);
        },
        Ok(_) => {},
    }
    match table.position(key) {
        None => Ok(None),
        Some(i) => {
            match authorize(account, minimum, table.row(i).owner_id()) {
                Err(e) => Err(e),
                Ok(_) => Ok(Some(i)),
            }
        },
    }
}

} // verus!
