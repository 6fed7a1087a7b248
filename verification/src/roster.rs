//! The staff roster as the service first kept it: employees are found by
//! their names.

use crate::employee::{clone_text, Name};
use crate::table::{lemma_filter_step, Record, Table, TableView};
use vstd::prelude::*;

verus! {

/// An employee of the roster.
#[derive(Debug)]
pub struct Employee {
    pub id: i32,
    pub name: Name,
    pub phone_number: Option<String>,
}

impl Employee {
    /// The employee that a row of key, first name, last name and phone
    /// number stands for.
    pub fn build(row: (i32, String, String, Option<String>)) -> (employee: Employee)
        ensures
            employee.id == row.0,
            employee.name.first == row.1,
            employee.name.last == row.2,
            employee.phone_number == row.3,
    {
        Employee { id: row.0, name: Name { first: row.1, last: row.2 }, phone_number: row.3 }
    }
}

impl Clone for Employee {
    fn clone(&self) -> (copy: Self)
        ensures
            copy == *self,
    {
        Employee {
            id: self.id,
            name: self.name.clone(),
            phone_number: clone_text(&self.phone_number),
        }
    }
}

impl Record for Employee {
    open spec fn key(&self) -> i32 {
        self.id
    }

    fn id(&self) -> (id: i32) {
        self.id
    }
}

/// Why an employee could not be found or added.
#[derive(Clone, Copy, Debug, PartialEq, Eq, Structural)]
pub enum Error {
    /// More than one employee has the name.
    DuplicateExists,
    /// No employee has the name.
    NotFound,
    /// The employee could not be stored.
    UnknownError,
}

impl Error {
    /// The text that describes the failure.
    pub open spec fn text(self) -> Seq<char> {
        match self {
            Error::DuplicateExists => "An employee with that name already exists"@,
            Error::NotFound => "An employee with that name is not found"@,
            Error::UnknownError => "An unknown error occurred while adding an employee"@,
        }
    }

    /// The text that describes the failure.
    pub fn message(&self) -> (text: String)
        ensures
            text@ == self.text(),
    {
        match self {
            Error::DuplicateExists => "An employee with that name already exists".to_owned(),
            Error::NotFound => "An employee with that name is not found".to_owned(),
            Error::UnknownError => "An unknown error occurred while adding an employee".to_owned(),
        }
    }
}

/// A shift of the roster: it starts at `start`, counted in seconds, and
/// lasts the hours whose bits are `duration_hours`.
#[derive(Clone, Copy, Debug, PartialEq, Eq)]
pub struct Shift {
    pub id: i32,
    pub employee_id: i32,
    pub start: i64,
    pub duration_hours: u32,
}

impl Record for Shift {
    open spec fn key(&self) -> i32 {
        self.id
    }

    fn id(&self) -> (id: i32) {
        self.id
    }
}

/// Whether `employee` has the given first and last name.
pub open spec fn has_name(employee: Employee, first: Seq<char>, last: Seq<char>) -> bool {
    employee.name.first@ == first && employee.name.last@ == last
}

/// The employees of `rows` that have the given name, in their order.
pub open spec fn named(rows: Seq<Employee>, first: Seq<char>, last: Seq<char>) -> Seq<Employee> {
    rows.filter(|e: Employee| has_name(e, first, last))
}

/// The employees of `rows` that do not have the given name, in their order.
pub open spec fn not_named(rows: Seq<Employee>, first: Seq<char>, last: Seq<char>) -> Seq<
    Employee,
> {
    rows.filter(|e: Employee| !has_name(e, first, last))
}

/// What looking a name up in `rows` yields: the one employee of that name,
/// `DuplicateExists` where there are several, `NotFound` where there is none.
pub open spec fn lookup(
    rows: Seq<Employee>,
    first: Seq<char>,
    last: Seq<char>,
) -> Result<Employee, Error> {
    let found = named(rows, first, last);
    if found.len() == 1 {
        Ok(found[0])
    } else if found.len() > 1 {
        Err(Error::DuplicateExists)
    } else {
        Err(Error::NotFound)
    }
}

/// What the roster holds.
pub struct RosterView {
    pub employees: TableView<Employee>,
    pub shifts: TableView<Shift>,
}

impl RosterView {
    /// Both tables are well formed.
    pub open spec fn wf(self) -> bool {
        self.employees.wf() && self.shifts.wf()
    }
}

/// The roster: employees and their shifts.
#[derive(Debug)]
pub struct Roster {
    pub employees: Table<Employee>,
    pub shifts: Table<Shift>,
}

impl View for Roster {
    type V = RosterView;

    open spec fn view(&self) -> RosterView {
        RosterView { employees: self.employees@, shifts: self.shifts@ }
    }
}

impl Roster {
    /// A roster without any row, in which both tables hand out 1 as their
    /// first key.
    pub fn new() -> (roster: Roster)
        ensures
            roster@.wf(),
            roster@.employees.is_new(),
            roster@.shifts.is_new(),
    {
        Roster { employees: Table::new(), shifts: Table::new() }
    }
}

/// Whether `employee` has the name `name`.
fn is_named(employee: &Employee, name: &Name) -> (same: bool)
    ensures
        same == has_name(*employee, name.first@, name.last@),
{
    employee.name.first == name.first && employee.name.last == name.last
}

/// Looks an employee up by name: the one employee of that name,
/// `DuplicateExists` where several have it, `NotFound` where none has.
pub fn get_employee(conn: &Roster, name: Name) -> (found: Result<Employee, Error>)
    ensures
        found == lookup(conn@.employees.rows, name.first@, name.last@),
{
    let ghost rows = conn@.employees.rows;
    let ghost keep = |e: Employee| has_name(e, name.first@, name.last@);
    let mut first: Option<Employee> = None;
    let mut i: usize = 0;
    while i < conn.employees.len()
        invariant
            i <= rows.len(),
            rows == conn@.employees.rows,
            keep == (|e: Employee| has_name(e, name.first@, name.last@)),
            match first {
                Some(e) => rows.take(i as int).filter(keep) == seq![e],
                None => rows.take(i as int).filter(keep).len() == 0,
            },
        decreases rows.len() - i,
    {
        proof {
            lemma_filter_step(rows, keep, i as int);
        }
        let row = conn.employees.row(i);
        if is_named(row, &name) {
            if first.is_some() {
                proof {
                    let seen = rows.take(i + 1);
                    assert(rows =~= seen + rows.skip(i + 1));
                }
                return Err(Error::DuplicateExists);
            }
            first = Some(row.clone());
        }
        i += 1;
    }
    assert(rows.take(rows.len() as int) =~= rows);
    match first {
        Some(e) => Ok(e),
        None => Err(Error::NotFound),
    }
}

/// Adds an employee of the given name, unless the name is there already:
/// then what the lookup of the name yields is returned and nothing changes.
/// A new employee is stored under the next key; with no key left the
/// failure is `UnknownError`.
pub fn add_employee(
    conn: &mut Roster,
    name: Name,
    phone_number: Option<String>,
) -> (added: Result<Employee, Error>)
    requires
        old(conn)@.wf(),
    ensures
        final(conn)@.wf(),
        final(conn)@.shifts == old(conn)@.shifts,
        match lookup(old(conn)@.employees.rows, name.first@, name.last@) {
            Err(Error::NotFound) => if old(conn)@.employees.next_key == i32::MAX {
                added == Err::<Employee, Error>(Error::UnknownError) && final(conn)@ == old(conn)@
            } else {
                let row = Employee { id: old(conn)@.employees.next_key, name, phone_number };
                added == Ok::<Employee, Error>(row) && final(conn)@.employees == old(
                    conn,
                )@.employees.appended(row)
            },
            existing => added == existing && final(conn)@ == old(conn)@,
        },
{
    let existing = get_employee(conn, name.clone());
    match existing {
        Err(Error::NotFound) => {},
        _ => {
            return existing;
        },
    }
    let key = conn.employees.next_key();
    if key == i32::MAX {
        return Err(Error::UnknownError);
    }
    let row = Employee { id: key, name, phone_number };
    let added = row.clone();
    conn.employees.append(row);
    Ok(added)
}

/// Every employee, in the order of the table.
pub fn get_employees(conn: &Roster) -> (all: Vec<Employee>)
    ensures
        all@ == conn@.employees.rows,
{
    let ghost rows = conn@.employees.rows;
    let mut all: Vec<Employee> = Vec::new();
    let mut i: usize = 0;
    while i < conn.employees.len()
        invariant
            i <= rows.len(),
            rows == conn@.employees.rows,
            all@ == rows.take(i as int),
        decreases rows.len() - i,
    {
        all.push(conn.employees.row(i).clone());
        i += 1;
    }
    all
}

/// Removes every employee of the given name; the others stay in their order.
pub fn remove_employee(conn: &mut Roster, name: Name)
    requires
        old(conn)@.wf(),
    ensures
        final(conn)@.wf(),
        final(conn)@.shifts == old(conn)@.shifts,
        final(conn)@.employees.next_key == old(conn)@.employees.next_key,
        final(conn)@.employees.rows == not_named(
            old(conn)@.employees.rows,
            name.first@,
            name.last@,
        ),
{
    let ghost rows = conn@.employees.rows;
    let ghost keep = |e: Employee| !has_name(e, name.first@, name.last@);
    let ghost mut seen: int = 0;
    let mut i: usize = 0;
    assert(Seq::<Employee>::empty() + rows.skip(0) =~= rows);
    while i < conn.employees.len()
        invariant
            0 <= seen <= rows.len(),
            rows == old(conn)@.employees.rows,
            keep == (|e: Employee| !has_name(e, name.first@, name.last@)),
            conn@.wf(),
            conn@.shifts == old(conn)@.shifts,
            conn@.employees.next_key == old(conn)@.employees.next_key,
            i == rows.take(seen).filter(keep).len(),
            conn@.employees.rows == rows.take(seen).filter(keep) + rows.skip(seen),
        decreases rows.len() - seen,
    {
        proof {
            lemma_filter_step(rows, keep, seen);
        }
        if is_named(conn.employees.row(i), &name) {
            conn.employees.take(i);
        } else {
            i += 1;
        }
        proof {
            seen = seen + 1;
        }
    }
}

} // verus!
