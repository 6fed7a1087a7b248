//! Instants and the arithmetic on them that session expiry needs.

use vstd::prelude::*;

verus! {

/// A calendar reading `(year, month, day, hour, minute)`.
pub type DateTime = (i32, i32, i32, i32, i32);

/// Seconds in one hour.
pub const SECONDS_PER_HOUR: i64 = 3600;

/// The day and hour reached from `day`, `hour` after `hours` more hours:
/// whole days are carried into the day, which is never folded into a month.
/// An hour that is not past 23 is left as it is.
pub open spec fn carry_hours(day: int, hour: int, hours: int) -> (int, int) {
    let total = hour + hours;
    if total > 23 {
        (day + total / 24, total % 24)
    } else {
        (day, total)
    }
}

/// The calendar reading `hours` hours after `now`, with the day carried but
/// month and year untouched.
pub fn now_plus_hours(now: DateTime, hours: u32) -> (later: DateTime)
    requires
        now.3 + hours <= i32::MAX,
        carry_hours(now.2 as int, now.3 as int, hours as int).0 <= i32::MAX,
    ensures
        later.0 == now.0,
        later.1 == now.1,
        later.2 == carry_hours(now.2 as int, now.3 as int, hours as int).0,
        later.3 == carry_hours(now.2 as int, now.3 as int, hours as int).1,
        later.4 == now.4,
{
    let total: i64 = now.3 as i64 + hours as i64;
    if total > 23 {
        let days: i64 = total / 24;
        let rest: i64 = total % 24;
        (now.0, now.1, (now.2 as i64 + days) as i32, rest as i32, now.4)
    } else {
        (now.0, now.1, now.2, total as i32, now.4)
    }
}

/// An instant: whole seconds since the epoch and the nanoseconds past them.
/// Instants are ordered by seconds first, then by nanoseconds.
#[derive(Clone, Copy, Debug, PartialEq, Eq, Structural)]
pub struct Timestamp {
    pub secs: i64,
    pub nanos: u32,
}

impl Timestamp {
    /// Whether `self` is strictly later than `other`.
    pub open spec fn later_than(self, other: Timestamp) -> bool {
        self.secs > other.secs || (self.secs == other.secs && self.nanos > other.nanos)
    }

    /// Whether `self` is `other` or later.
    pub open spec fn not_before(self, other: Timestamp) -> bool {
        !other.later_than(self)
    }

    /// The instant `hours` hours after `self`.
    pub open spec fn after_hours(self, hours: int) -> Timestamp {
        Timestamp { secs: (self.secs + hours * SECONDS_PER_HOUR) as i64, nanos: self.nanos }
    }

    /// Whether `self` plus `hours` hours is still representable.
    pub open spec fn can_add_hours(self, hours: int) -> bool {
        self.secs + hours * SECONDS_PER_HOUR <= i64::MAX
    }

    pub fn new(secs: i64, nanos: u32) -> (t: Timestamp)
        ensures
            t == (Timestamp { secs, nanos }),
    {
        Timestamp { secs, nanos }
    }

    /// Strict "later than" on instants.
    pub fn is_after(&self, other: &Timestamp) -> (later: bool)
        ensures
            later == self.later_than(*other),
    {
        self.secs > other.secs || (self.secs == other.secs && self.nanos > other.nanos)
    }

    /// Whether this instant is `other` or later.
    pub fn is_at_or_after(&self, other: &Timestamp) -> (reached: bool)
        ensures
            reached == self.not_before(*other),
    {
        !other.is_after(self)
    }

    /// The instant `hours` hours after this one.
    pub fn plus_hours(&self, hours: u32) -> (later: Timestamp)
        requires
            self.can_add_hours(hours as int),
        ensures
            later == self.after_hours(hours as int),
    {
        let span: i64 = hours as i64 * SECONDS_PER_HOUR;
        Timestamp { secs: self.secs + span, nanos: self.nanos }
    }

    /// The instant `hours` hours after this one, or `None` where that is
    /// beyond the last representable second.
    pub fn checked_plus_hours(&self, hours: u32) -> (later: Option<Timestamp>)
        ensures
            later == if self.can_add_hours(hours as int) {
                Some(self.after_hours(hours as int))
            } else {
                None::<Timestamp>
            },
    {
        let span: i64 = hours as i64 * SECONDS_PER_HOUR;
        if self.secs <= i64::MAX - span {
            Some(Timestamp { secs: self.secs + span, nanos: self.nanos })
        } else {
            None
        }
    }
}

/// Whether `dt` lies between `start` and `end`, both included.
pub open spec fn within(dt: Timestamp, start: Timestamp, end: Timestamp) -> bool {
    dt.not_before(start) && end.not_before(dt)
}

/// Whether `dt` lies between `start` and `end`, both included.
pub fn dt_in_range(dt: Timestamp, start: Timestamp, end: Timestamp) -> (inside: bool)
    ensures
        inside == within(dt, start, end),
{
    let a = dt.is_at_or_after(&start);
    let b = end.is_at_or_after(&dt);
    a && b
}

} // verus!
