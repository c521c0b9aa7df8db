//! What holds of the rule, proved.
//!
//! The laws on March and October follow a winter-time clock through a month of
//! 31 days. A moment of the month is the number of seconds since the month
//! began on that clock; `first` is the weekday of the month's first day.

use vstd::prelude::*;
use crate::german_dst;
use crate::instant::Instant;
use crate::sunday::{last_sunday, weekday_of_day, DAYS_IN_MONTH, SATURDAY, SUNDAY};
use crate::winter_time::{
    summer_time, winter_day, winter_hour, winter_month, winter_weekday, CHANGE_HOUR, MARCH, OCTOBER,
};

verus! {

pub const SECONDS_IN_HOUR: u32 = 3_600;

pub const SECONDS_IN_DAY: u32 = 86_400;

/// Seconds in a month of 31 days.
pub const SECONDS_IN_MONTH: u32 = 2_678_400;

/// Day of the month, `second` seconds into the month.
pub open spec fn day_at(second: int) -> int {
    1 + second / (SECONDS_IN_DAY as int)
}

/// Weekday, `second` seconds into a month that begins on the weekday `first`.
pub open spec fn weekday_at(first: int, second: int) -> int {
    weekday_of_day(first, day_at(second))
}

/// Hour of the day, `second` seconds into the month.
pub open spec fn hour_at(second: int) -> int {
    (second % (SECONDS_IN_DAY as int)) / (SECONDS_IN_HOUR as int)
}

/// The rule, `second` seconds into the month `month`, which begins on the
/// weekday `first`.
pub open spec fn summer_time_at(month: int, first: int, second: int) -> bool {
    summer_time(month, day_at(second), weekday_at(first, second), hour_at(second))
}

/// The moment of a month at which its clocks change: 02:00 on its last
/// Sunday, in seconds since the month began.
pub open spec fn change_second(first: int) -> int {
    (last_sunday(1, first) - 1) * SECONDS_IN_DAY + CHANGE_HOUR * SECONDS_IN_HOUR
}

/// A month of 31 days begins at the moment `start` on the winter-time clock:
/// it is the month `month`, its first day falls on the weekday `first`, and
/// from `start` the clock runs through it second by second. `start` and the
/// moments are in seconds since 1970-01-01 00:00:00 UTC.
pub open spec fn month_begins_at(start: int, month: int, first: int) -> bool {
    forall|moment: int|
        start <= moment < start + SECONDS_IN_MONTH ==> {
            &&& #[trigger] winter_month(moment) == month
            &&& winter_day(moment) == day_at(moment - start)
            &&& winter_weekday(moment) == weekday_at(first, moment - start)
            &&& winter_hour(moment) == hour_at(moment - start)
        }
}

/// Two readings of one moment, on clocks with whatever offsets, get one
/// answer.
pub proof fn offset_decides_nothing(one: Instant, other: Instant)
    requires
        one@ == other@,
    ensures
        german_dst(one@) == german_dst(other@),
{
}

/// In a month of 31 days that begins on the weekday `first`, `last_sunday`
/// names a day from the 25th to the 31st that is a Sunday, and no later day
/// of the month is one.
pub proof fn last_sunday_is_the_last(first: int)
    requires
        SUNDAY <= first <= SATURDAY,
    ensures
        25 <= last_sunday(1, first) <= DAYS_IN_MONTH,
        weekday_of_day(first, last_sunday(1, first)) == SUNDAY,
        forall|day: int|
            last_sunday(1, first) < day <= DAYS_IN_MONTH ==> #[trigger] weekday_of_day(first, day)
                != SUNDAY,
{
}

/// Whichever day of the month one starts from, `last_sunday` finds the same
/// Sunday.
pub proof fn last_sunday_from_any_day(first: int, day: int)
    requires
        SUNDAY <= first <= SATURDAY,
        1 <= day <= DAYS_IN_MONTH,
    ensures
        last_sunday(day, weekday_of_day(first, day)) == last_sunday(1, first),
{
}

/// March has one change: there is summer time from 02:00 winter time on the
/// last Sunday to the end of the month, and at no moment of the month before.
pub proof fn march_changes_once(first: int, second: int)
    requires
        SUNDAY <= first <= SATURDAY,
        0 <= second < SECONDS_IN_MONTH,
    ensures
        0 < change_second(first) < SECONDS_IN_MONTH,
        summer_time_at(MARCH as int, first, second) <==> second >= change_second(first),
{
    last_sunday_from_any_day(first, day_at(second));
}

/// October has one change: there is summer time from the beginning of the
/// month until 02:00 winter time on the last Sunday, and at no moment of the
/// month from that one on.
pub proof fn october_changes_once(first: int, second: int)
    requires
        SUNDAY <= first <= SATURDAY,
        0 <= second < SECONDS_IN_MONTH,
    ensures
        0 < change_second(first) < SECONDS_IN_MONTH,
        summer_time_at(OCTOBER as int, first, second) <==> second < change_second(first),
{
    last_sunday_from_any_day(first, day_at(second));
}

/// In a March that begins at the moment `start`, there is summer time from
/// the moment `change_second` seconds after `start` on, and at no moment of
/// the month before.
pub proof fn march_changes_once_in_time(start: int, first: int, moment: int)
    requires
        SUNDAY <= first <= SATURDAY,
        month_begins_at(start, MARCH as int, first),
        start <= moment < start + SECONDS_IN_MONTH,
    ensures
        german_dst(moment) <==> moment >= start + change_second(first),
{
    march_changes_once(first, moment - start);
}

/// In an October that begins at the moment `start`, there is summer time
/// until the moment `change_second` seconds after `start`, and at no moment
/// of the month from that one on.
pub proof fn october_changes_once_in_time(start: int, first: int, moment: int)
    requires
        SUNDAY <= first <= SATURDAY,
        month_begins_at(start, OCTOBER as int, first),
        start <= moment < start + SECONDS_IN_MONTH,
    ensures
        german_dst(moment) <==> moment < start + change_second(first),
{
    october_changes_once(first, moment - start);
}

/// No other moment of March divides the month as `change_second` does: a
/// moment with standard time all before it and summer time from it on is that
/// one.
pub proof fn march_change_is_unique(first: int, change: int)
    requires
        SUNDAY <= first <= SATURDAY,
        0 <= change <= SECONDS_IN_MONTH,
        forall|second: int|
            0 <= second < SECONDS_IN_MONTH ==> (#[trigger] summer_time_at(
                MARCH as int,
                first,
                second,
            ) <==> second >= change),
    ensures
        change == change_second(first),
{
    let at: int = change_second(first);
    march_changes_once(first, at);
    march_changes_once(first, at - 1);
}

/// No other moment of October divides the month as `change_second` does: a
/// moment with summer time all before it and standard time from it on is that
/// one.
pub proof fn october_change_is_unique(first: int, change: int)
    requires
        SUNDAY <= first <= SATURDAY,
        0 <= change <= SECONDS_IN_MONTH,
        forall|second: int|
            0 <= second < SECONDS_IN_MONTH ==> (#[trigger] summer_time_at(
                OCTOBER as int,
                first,
                second,
            ) <==> second < change),
    ensures
        change == change_second(first),
{
    let at: int = change_second(first);
    october_changes_once(first, at);
    october_changes_once(first, at - 1);
}

} // verus!
