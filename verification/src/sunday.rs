//! Sundays in a month of 31 days.
//!
//! A weekday is counted in days since the most recent Sunday: 0 is a Sunday,
//! 1 a Monday, and so on to 6, a Saturday.

use vstd::prelude::*;

verus! {

pub const SUNDAY: u8 = 0;

pub const MONDAY: u8 = 1;

pub const TUESDAY: u8 = 2;

pub const WEDNESDAY: u8 = 3;

pub const THURSDAY: u8 = 4;

pub const FRIDAY: u8 = 5;

pub const SATURDAY: u8 = 6;

/// Length of the two months in which the clocks change, March and October.
pub const DAYS_IN_MONTH: u8 = 31;

/// The weekday that comes `days` days after a day of weekday `weekday`
/// (before it, where `days` is negative).
pub open spec fn weekday_after(weekday: int, days: int) -> int {
    (weekday + days) % 7
}

/// The weekday of the day `day` of a month whose first day falls on the
/// weekday `first`.
pub open spec fn weekday_of_day(first: int, day: int) -> int {
    weekday_after(first, day - 1)
}

/// Day of the month of the last Sunday of a 31-day month in which the day
/// `day` falls on `weekday`: the weekday of the 31st counts the days by which
/// the 31st lies behind that Sunday.
pub open spec fn last_sunday(day: int, weekday: int) -> int {
    DAYS_IN_MONTH - weekday_after(weekday, DAYS_IN_MONTH - day)
}

/// Says whether a date of a 31-day month is the month's last Sunday or a later
/// day, which is to say that no Sunday follows it within the month.
///
/// For each weekday this is a smallest day of the month: the 25th for a
/// Sunday, the 26th for a Monday, and so on to the 31st for a Saturday.
pub fn on_or_after_last_sunday(day: u8, weekday: u8) -> (reached: bool)
    requires
        1 <= day <= DAYS_IN_MONTH,
        weekday <= SATURDAY,
    ensures
        reached == (day >= last_sunday(day as int, weekday as int)),
        reached == (day >= 25 + weekday),
{
    let days_to_next_sunday: u8 = 7 - weekday;
    day + days_to_next_sunday > DAYS_IN_MONTH
}

} // verus!
