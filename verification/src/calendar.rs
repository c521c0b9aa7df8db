//! The calendar of the `time` crate, read on a clock that runs a whole number
//! of hours ahead of UTC or behind it. Nothing in this file is proved: it says
//! what the rest of the library takes from `time` on trust.
//!
//! A moment is given in Unix time, the seconds since 1970-01-01 00:00:00 UTC.

use vstd::prelude::*;

verus! {

/// First second that the calendar covers, counted as Unix time is but on the
/// clock that shows it: 00:00:00 on 1 January of the year -9999.
pub const FIRST_SECOND: i64 = -377_705_116_800;

/// Last second that the calendar covers, counted in the same way: 23:59:59 on
/// 31 December 9999.
pub const LAST_SECOND: i64 = 253_402_300_799;

/// The month, 1 for January to 12 for December, that `OffsetDateTime::month`
/// returns for the moment `unix_seconds` where a clock `offset_hours` hours
/// ahead of UTC shows it.
pub uninterp spec fn month_shown(unix_seconds: int, offset_hours: int) -> int;

/// The day of the month that `OffsetDateTime::day` returns for that moment on
/// that clock.
pub uninterp spec fn day_shown(unix_seconds: int, offset_hours: int) -> int;

/// The weekday, in days since Sunday, that `OffsetDateTime::weekday` returns
/// for that moment on that clock.
pub uninterp spec fn weekday_shown(unix_seconds: int, offset_hours: int) -> int;

/// The hour of the day that `OffsetDateTime::hour` returns for that moment on
/// that clock.
pub uninterp spec fn hour_shown(unix_seconds: int, offset_hours: int) -> int;

/// Asks `time` for the month, the day of the month, the weekday and the hour
/// that a clock `offset_hours` hours ahead of UTC shows at a moment.
///
/// `OffsetDateTime::from_unix_timestamp` makes the moment in UTC, which it
/// does from `FIRST_SECOND` to `LAST_SECOND`. `UtcOffset::from_hms` makes the
/// offset, which it does for up to 25 hours either way.
/// `OffsetDateTime::to_offset` moves the moment to that offset; it panics
/// where the year on the clock would leave the calendar. The four numbers are
/// what `month`, `day`, `weekday` and `hour` return for the moved value, the
/// month turned into its number by `u8::from` and the weekday by
/// `Weekday::number_days_from_sunday`. They depend on the moment and the
/// offset alone, and each lies in the range that `time` documents for it.
#[verifier::external_body]
pub(crate) fn read_clock(unix_seconds: i64, offset_hours: i8) -> (shown: (u8, u8, u8, u8))
    requires
        -25 <= offset_hours <= 25,
        FIRST_SECOND <= unix_seconds <= LAST_SECOND,
        FIRST_SECOND <= unix_seconds + offset_hours * 3_600 <= LAST_SECOND,
    ensures
        shown.0 == month_shown(unix_seconds as int, offset_hours as int),
        shown.1 == day_shown(unix_seconds as int, offset_hours as int),
        shown.2 == weekday_shown(unix_seconds as int, offset_hours as int),
        shown.3 == hour_shown(unix_seconds as int, offset_hours as int),
        1 <= shown.0 <= 12,
        1 <= shown.1 <= 31,
        shown.2 <= 6,
        shown.3 <= 23,
{
    let offset = time::UtcOffset::from_hms(offset_hours, 0, 0).unwrap();
    let moment = time::OffsetDateTime::from_unix_timestamp(unix_seconds).unwrap();
    let moved = moment.to_offset(offset);
    (
        u8::from(moved.month()),
        moved.day(),
        moved.weekday().number_days_from_sunday(),
        moved.hour(),
    )
}

} // verus!
