//! The shifts of the roster: an employee's shift is found by when it starts.

use crate::roster::{Employee, Roster, Shift};
use crate::table::{first_true, index_of_key, lemma_first_true_found, Table};
use vstd::prelude::*;

verus! {

/// Why a shift could not be found, added or changed.
#[derive(Clone, Copy, Debug, PartialEq, Eq, Structural)]
pub enum Error {
    /// The shift could not be stored.
    Unknown,
    /// The employee already has a shift that starts then.
    ShiftExists,
    /// No such shift is stored.
    ShiftNotFound,
}

impl Error {
    /// The text that describes the failure.
    pub open spec fn text(self) -> Seq<char> {
        match self {
            Error::Unknown => "Unknown error!"@,
            Error::ShiftExists => "The shift being added already exists"@,
            Error::ShiftNotFound => "Shift not found at that time"@,
        }
    }

    /// The text that describes the failure.
    pub fn message(&self) -> (text: String)
        ensures
            text@ == self.text(),
    {
        match self {
            Error::Unknown => "Unknown error!".to_owned(),
            Error::ShiftExists => "The shift being added already exists".to_owned(),
            Error::ShiftNotFound => "Shift not found at that time".to_owned(),
        }
    }
}

/// For each shift of `rows`, whether it is the employee's and starts at `start`.
pub open spec fn start_mask(rows: Seq<Shift>, employee: i32, start: i64) -> Seq<bool> {
    Seq::new(rows.len(), |i: int| rows[i].employee_id == employee && rows[i].start == start)
}

/// The position of the employee's first shift that starts at `start`.
pub open spec fn index_of_start(rows: Seq<Shift>, employee: i32, start: i64) -> Option<int> {
    first_true(start_mask(rows, employee, start))
}

/// The position of the employee's first shift that starts at `start`.
fn start_position(shifts: &Table<Shift>, employee: i32, start: i64) -> (found: Option<usize>)
    ensures
        match found {
            Some(i) => index_of_start(shifts@.rows, employee, start) == Some(i as int) && i
                < shifts@.rows.len(),
            None => index_of_start(shifts@.rows, employee, start) is None,
        },
{
    let ghost mask = start_mask(shifts@.rows, employee, start);
    let mut i: usize = 0;
    while i < shifts.len()
        invariant
            i <= shifts@.rows.len(),
            mask == start_mask(shifts@.rows, employee, start),
            forall|j: int| 0 <= j < i ==> !#[trigger] mask[j],
        decreases shifts@.rows.len() - i,
    {
        let row = shifts.row(i);
        if row.employee_id == employee && row.start == start {
            proof {
                lemma_first_true_found(mask, i as int);
            }
            return Some(i);
        }
        i += 1;
    }
    None
}

impl Employee {
    /// The employee's shift that starts at `start_find`, or `ShiftNotFound`.
    pub fn get_shift(&self, conn: &Roster, start_find: i64) -> (found: Result<Shift, Error>)
        ensures
            match index_of_start(conn@.shifts.rows, self.id, start_find) {
                Some(i) => found == Ok::<Shift, Error>(conn@.shifts.rows[i]),
                None => found == Err::<Shift, Error>(Error::ShiftNotFound),
            },
    {
        match start_position(&conn.shifts, self.id, start_find) {
            Some(i) => Ok(*conn.shifts.row(i)),
            None => Err(Error::ShiftNotFound),
        }
    }

    /// Adds a shift of the employee that starts at `start` and lasts the
    /// hours whose bits are `duration_hours`. Where the employee already
    /// has a shift that starts then the failure is `ShiftExists`; with no
    /// key left it is `Unknown`. No failure changes the roster.
    pub fn add_shift(
        &self,
        conn: &mut Roster,
        start: i64,
        duration_hours: u32,
    ) -> (added: Result<Shift, Error>)
        requires
            old(conn)@.wf(),
        ensures
            final(conn)@.wf(),
            final(conn)@.employees == old(conn)@.employees,
            if index_of_start(old(conn)@.shifts.rows, self.id, start) is Some {
                added == Err::<Shift, Error>(Error::ShiftExists) && final(conn)@ == old(conn)@
            } else if old(conn)@.shifts.next_key == i32::MAX {
                added == Err::<Shift, Error>(Error::Unknown) && final(conn)@ == old(conn)@
            } else {
                let row = Shift {
                    id: old(conn)@.shifts.next_key,
                    employee_id: self.id,
                    start,
                    duration_hours,
                };
                added == Ok::<Shift, Error>(row) && final(conn)@.shifts == old(
                    conn,
                )@.shifts.appended(row)
            },
    {
        if start_position(&conn.shifts, self.id, start).is_some() {
            return Err(Error::ShiftExists);
        }
        let key = conn.shifts.next_key();
        if key == i32::MAX {
            return Err(Error::Unknown);
        }
        let row = Shift { id: key, employee_id: self.id, start, duration_hours };
        conn.shifts.append(row);
        Ok(row)
    }

    /// Removes the employee's shift that starts at `start_find`, if there
    /// is one.
    pub fn remove_shift(&self, conn: &mut Roster, start_find: i64)
        requires
            old(conn)@.wf(),
        ensures
            final(conn)@.wf(),
            final(conn)@.employees == old(conn)@.employees,
            match index_of_start(old(conn)@.shifts.rows, self.id, start_find) {
                Some(i) => final(conn)@.shifts == old(conn)@.shifts.without(i),
                None => final(conn)@ == old(conn)@,
            },
    {
        match start_position(&conn.shifts, self.id, start_find) {
            Some(i) => {
                conn.shifts.take(i);
            },
            None => {},
        }
    }
}

impl Shift {
    /// Stores the shift in place of the stored shift with its key and
    /// returns it, or fails with `ShiftNotFound` where no shift has the key.
    pub fn update(&self, conn: &mut Roster) -> (stored: Result<Shift, Error>)
        requires
            old(conn)@.wf(),
        ensures
            final(conn)@.wf(),
            final(conn)@.employees == old(conn)@.employees,
            match index_of_key(old(conn)@.shifts.rows, self.id) {
                Some(i) => stored == Ok::<Shift, Error>(*self) && final(conn)@.shifts == old(
                    conn,
                )@.shifts.with_row(i, *self),
                None => stored == Err::<Shift, Error>(Error::ShiftNotFound) && final(conn)@
                    == old(conn)@,
            },
    {
        match conn.shifts.position(self.id) {
            Some(i) => {
                conn.shifts.put(i, *self);
                Ok(*self)
            },
            None => Err(Error::ShiftNotFound),
        }
    }
}

} // verus!
