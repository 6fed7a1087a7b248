//! Shifts, the days a shift is called off, and vacations.

use crate::datetime::{dt_in_range, within, Timestamp};
use crate::employee::clone_text;
use crate::enum_helper::{make_string_error, same_text, StringError};
use crate::table::Record;
use vstd::prelude::*;

verus! {

#[derive(Clone, Copy, Debug, PartialEq, Eq, Structural)]
pub enum ShiftRepeat {
    NeverRepeat,
    EveryWeek,
    EveryDay,
}

impl ShiftRepeat {
    /// The name of the repetition.
    pub open spec fn text(self) -> Seq<char> {
        match self {
            ShiftRepeat::NeverRepeat => "NeverRepeat"@,
            ShiftRepeat::EveryWeek => "EveryWeek"@,
            ShiftRepeat::EveryDay => "EveryDay"@,
        }
    }

    /// The repetition that `text` names, if it names one.
    pub open spec fn parse(text: Seq<char>) -> Option<ShiftRepeat> {
        if text == "NeverRepeat"@ {
            Some(ShiftRepeat::NeverRepeat)
        } else if text == "EveryWeek"@ {
            Some(ShiftRepeat::EveryWeek)
        } else if text == "EveryDay"@ {
            Some(ShiftRepeat::EveryDay)
        } else {
            None
        }
    }

    /// The name of the repetition.
    pub fn as_str(&self) -> (text: &'static str)
        ensures
            text@ == self.text(),
    {
        match self {
            ShiftRepeat::NeverRepeat => "NeverRepeat",
            ShiftRepeat::EveryWeek => "EveryWeek",
            ShiftRepeat::EveryDay => "EveryDay",
        }
    }

    /// The repetition that `text` names. A text that names none is refused
    /// with the message `VariantNotFound`.
    pub fn from_text(text: &str) -> (value: Result<ShiftRepeat, StringError>)
        ensures
            match value {
                Ok(v) => Self::parse(text@) == Some(v),
                Err(e) => Self::parse(text@) is None && e.0@ == "VariantNotFound"@,
            },
    {
        if same_text(text, "NeverRepeat") {
            Ok(ShiftRepeat::NeverRepeat)
        } else if same_text(text, "EveryWeek") {
            Ok(ShiftRepeat::EveryWeek)
        } else if same_text(text, "EveryDay") {
            Ok(ShiftRepeat::EveryDay)
        } else {
            Err(make_string_error("VariantNotFound"))
        }
    }

    /// Every repetition is found again under its name.
    pub proof fn lemma_text_parses(self)
        ensures
            Self::parse(self.text()) == Some(self),
    {
        reveal_strlit("NeverRepeat");
        reveal_strlit("EveryWeek");
        reveal_strlit("EveryDay");
        assert("EveryWeek"@.len() != "NeverRepeat"@.len());
    }
}

/// A shift row. `supervisor_id` is the account that owns the shift;
/// `employee_id` is who works it, if anyone is assigned.
#[derive(Debug)]
pub struct Shift {
    pub id: i32,
    pub supervisor_id: i32,
    pub employee_id: Option<i32>,
    pub start: Timestamp,
    pub end: Timestamp,
    pub repeat: ShiftRepeat,
    pub every_x: Option<i32>,
    pub note: Option<String>,
    pub on_call: bool,
}

/// A shift that has no key yet.
#[derive(Debug)]
pub struct NewShift {
    pub supervisor_id: i32,
    pub employee_id: Option<i32>,
    pub start: Timestamp,
    pub end: Timestamp,
    pub repeat: ShiftRepeat,
    pub every_x: Option<i32>,
    pub note: Option<String>,
    pub on_call: bool,
}

impl Shift {
    /// The row that `new` becomes under the key `id` for the owner `supervisor_id`.
    pub open spec fn keyed_spec(id: i32, supervisor_id: i32, new: NewShift) -> Shift {
        Shift {
            id,
            supervisor_id,
            employee_id: new.employee_id,
            start: new.start,
            end: new.end,
            repeat: new.repeat,
            every_x: new.every_x,
            note: new.note,
            on_call: new.on_call,
        }
    }

    /// The row that `new` becomes under the key `id` for the owner `supervisor_id`.
    pub fn keyed(id: i32, supervisor_id: i32, new: NewShift) -> (row: Shift)
        ensures
            row == Self::keyed_spec(id, supervisor_id, new),
    {
        Shift {
            id,
            supervisor_id,
            employee_id: new.employee_id,
            start: new.start,
            end: new.end,
            repeat: new.repeat,
            every_x: new.every_x,
            note: new.note,
            on_call: new.on_call,
        }
    }
}

impl Shift {
    /// Whether the shift starts or ends within the 24 hours from `day` on,
    /// both ends included.
    pub open spec fn touches_day(self, day: Timestamp) -> bool {
        within(self.start, day, day.after_hours(24)) || within(self.end, day, day.after_hours(24))
    }

    /// Whether the shift starts or ends within the 24 hours from `day` on.
    pub fn overlaps_with_day(&self, day: Timestamp) -> (overlaps: bool)
        requires
            day.can_add_hours(24),
        ensures
            overlaps == self.touches_day(day),
    {
        let day_plus_one = day.plus_hours(24);
        let start_within = dt_in_range(self.start, day, day_plus_one);
        let end_within = dt_in_range(self.end, day, day_plus_one);
        start_within || end_within
    }
}

impl Clone for Shift {
    fn clone(&self) -> (copy: Self)
        ensures
            copy == *self,
    {
        Shift {
            id: self.id,
            supervisor_id: self.supervisor_id,
            employee_id: self.employee_id,
            start: self.start,
            end: self.end,
            repeat: self.repeat,
            every_x: self.every_x,
            note: clone_text(&self.note),
            on_call: self.on_call,
        }
    }
}

impl Clone for NewShift {
    fn clone(&self) -> (copy: Self)
        ensures
            copy == *self,
    {
        NewShift {
            supervisor_id: self.supervisor_id,
            employee_id: self.employee_id,
            start: self.start,
            end: self.end,
            repeat: self.repeat,
            every_x: self.every_x,
            note: clone_text(&self.note),
            on_call: self.on_call,
        }
    }
}

impl Record for Shift {
    open spec fn key(&self) -> i32 {
        self.id
    }

    fn id(&self) -> (id: i32) {
        self.id
    }
}

/// A day on which the shift `shift_id` does not take place.
#[derive(Clone, Copy, Debug, PartialEq, Eq)]
pub struct ShiftException {
    pub id: i32,
    pub shift_id: i32,
    pub date: Timestamp,
}

/// A shift exception that has no key yet.
#[derive(Clone, Copy, Debug, PartialEq, Eq)]
pub struct NewShiftException {
    pub shift_id: i32,
    pub date: Timestamp,
}

impl ShiftException {
    /// The row that `new` becomes under the key `id`.
    pub open spec fn keyed_spec(id: i32, new: NewShiftException) -> ShiftException {
        ShiftException { id, shift_id: new.shift_id, date: new.date }
    }

    /// The row that `new` becomes under the key `id`.
    pub fn keyed(id: i32, new: NewShiftException) -> (row: ShiftException)
        ensures
            row == Self::keyed_spec(id, new),
    {
        ShiftException { id, shift_id: new.shift_id, date: new.date }
    }
}

impl Record for ShiftException {
    open spec fn key(&self) -> i32 {
        self.id
    }

    fn id(&self) -> (id: i32) {
        self.id
    }
}

/// A vacation row. `employee_id` is the account that asked for it;
/// `supervisor_id` is who may approve it, if anyone is designated.
#[derive(Clone, Copy, Debug, PartialEq, Eq)]
pub struct Vacation {
    pub id: i32,
    pub supervisor_id: Option<i32>,
    pub employee_id: i32,
    pub approved: bool,
    pub start: Timestamp,
    pub end: Timestamp,
    pub requested: Timestamp,
}

/// A vacation that has no key yet.
#[derive(Clone, Copy, Debug, PartialEq, Eq)]
pub struct NewVacation {
    pub supervisor_id: Option<i32>,
    pub employee_id: i32,
    pub approved: bool,
    pub start: Timestamp,
    pub end: Timestamp,
    pub requested: Timestamp,
}

impl Vacation {
    /// The row that `new` becomes under the key `id`.
    pub open spec fn keyed_spec(id: i32, new: NewVacation) -> Vacation {
        Vacation {
            id,
            supervisor_id: new.supervisor_id,
            employee_id: new.employee_id,
            approved: new.approved,
            start: new.start,
            end: new.end,
            requested: new.requested,
        }
    }

    /// The row that `new` becomes under the key `id`.
    pub fn keyed(id: i32, new: NewVacation) -> (row: Vacation)
        ensures
            row == Self::keyed_spec(id, new),
    {
        Vacation {
            id,
            supervisor_id: new.supervisor_id,
            employee_id: new.employee_id,
            approved: new.approved,
            start: new.start,
            end: new.end,
            requested: new.requested,
        }
    }
}

impl Record for Vacation {
    open spec fn key(&self) -> i32 {
        self.id
    }

    fn id(&self) -> (id: i32) {
        self.id
    }
}

} // verus!
