//! What a clock on German winter time shows, and the rule that tells from it
//! whether summer time is in force.

use vstd::prelude::*;
use crate::calendar::{day_shown, hour_shown, month_shown, weekday_shown};
use crate::sunday::{last_sunday, on_or_after_last_sunday, SATURDAY, SUNDAY};

verus! {

pub const JANUARY: u8 = 1;

pub const FEBRUARY: u8 = 2;

pub const MARCH: u8 = 3;

pub const APRIL: u8 = 4;

pub const MAY: u8 = 5;

pub const JUNE: u8 = 6;

pub const JULY: u8 = 7;

pub const AUGUST: u8 = 8;

pub const SEPTEMBER: u8 = 9;

pub const OCTOBER: u8 = 10;

pub const NOVEMBER: u8 = 11;

pub const DECEMBER: u8 = 12;

/// Hours by which German winter time is ahead of UTC.
pub const WINTER_OFFSET_HOURS: i8 = 1;

/// Hour on the winter-time clock at which the clocks change, in March and in
/// October alike: 02:00 winter time is 03:00 summer time.
pub const CHANGE_HOUR: u8 = 2;

/// Whether, in a month of 31 days, the clocks have changed by the hour `hour`
/// of the day `day`, which falls on `weekday`: the change comes on the month's
/// last Sunday at `CHANGE_HOUR`, and that hour itself lies behind it.
pub open spec fn clocks_changed(day: int, weekday: int, hour: int) -> bool {
    let change_day = last_sunday(day, weekday);
    day > change_day || (day == change_day && hour >= CHANGE_HOUR)
}

/// The rule: whether summer time is in force when a clock on winter time
/// shows the given month, day of the month, weekday and hour.
pub open spec fn summer_time(month: int, day: int, weekday: int, hour: int) -> bool {
    if month == MARCH {
        clocks_changed(day, weekday, hour)
    } else if month == OCTOBER {
        !clocks_changed(day, weekday, hour)
    } else {
        APRIL <= month <= SEPTEMBER
    }
}

/// The month that a winter-time clock shows at the moment `unix_seconds`
/// seconds after 1970-01-01 00:00:00 UTC.
pub open spec fn winter_month(unix_seconds: int) -> int {
    month_shown(unix_seconds, WINTER_OFFSET_HOURS as int)
}

/// The day of the month that a winter-time clock shows at that moment.
pub open spec fn winter_day(unix_seconds: int) -> int {
    day_shown(unix_seconds, WINTER_OFFSET_HOURS as int)
}

/// The weekday that a winter-time clock shows at that moment.
pub open spec fn winter_weekday(unix_seconds: int) -> int {
    weekday_shown(unix_seconds, WINTER_OFFSET_HOURS as int)
}

/// The hour that a winter-time clock shows at that moment.
pub open spec fn winter_hour(unix_seconds: int) -> int {
    hour_shown(unix_seconds, WINTER_OFFSET_HOURS as int)
}

/// A reading of a clock that runs on German winter time, one hour ahead of
/// UTC, all year: as much of it as the rule looks at.
#[derive(Clone, Copy, Debug, PartialEq, Eq)]
pub struct WinterTime {
    /// 1 for January to 12 for December.
    pub month: u8,
    /// Day of the month, from 1.
    pub day: u8,
    /// Days since the most recent Sunday: 0 for a Sunday to 6 for a Saturday.
    pub weekday: u8,
    /// Hour of the day, 0 to 23.
    pub hour: u8,
}

impl WinterTime {
    /// Each field lies in the range that a calendar and a clock can show. That
    /// the month has as many days as `day` says is not asked.
    pub open spec fn valid(self) -> bool {
        &&& JANUARY <= self.month <= DECEMBER
        &&& 1 <= self.day <= 31
        &&& SUNDAY <= self.weekday <= SATURDAY
        &&& self.hour <= 23
    }

    /// This is what a winter-time clock shows at the moment `unix_seconds`.
    pub open spec fn is_shown_at(self, unix_seconds: int) -> bool {
        &&& self.month == winter_month(unix_seconds)
        &&& self.day == winter_day(unix_seconds)
        &&& self.weekday == winter_weekday(unix_seconds)
        &&& self.hour == winter_hour(unix_seconds)
    }

    /// The rule on this reading.
    pub open spec fn shows_summer_time(self) -> bool {
        summer_time(self.month as int, self.day as int, self.weekday as int, self.hour as int)
    }

    /// Whether every field lies in its range.
    pub fn is_valid(&self) -> (valid: bool)
        ensures
            valid == self.valid(),
    {
        JANUARY <= self.month && self.month <= DECEMBER && 1 <= self.day && self.day <= 31
            && self.weekday <= SATURDAY && self.hour <= 23
    }

    /// Whether German clocks are on summer time at the moment of this reading.
    ///
    /// From November to February they never are, from April to September they
    /// always are. In March they are from 02:00 on the last Sunday, in October
    /// until 02:00 on the last Sunday.
    pub fn is_summer_time(&self) -> (dst: bool)
        requires
            self.valid(),
        ensures
            dst == self.shows_summer_time(),
    {
        if self.month == MARCH {
            self.clocks_have_changed()
        } else if self.month == OCTOBER {
            !self.clocks_have_changed()
        } else {
            APRIL <= self.month && self.month <= SEPTEMBER
        }
    }

    /// In March or October: whether this reading is at or after 02:00 on the
    /// month's last Sunday.
    fn clocks_have_changed(&self) -> (changed: bool)
        requires
            self.valid(),
        ensures
            changed == clocks_changed(self.day as int, self.weekday as int, self.hour as int),
    {
        if !on_or_after_last_sunday(self.day, self.weekday) {
            false
        } else if self.weekday == SUNDAY {
            self.hour >= CHANGE_HOUR
        } else {
            true
        }
    }
}

} // verus!
