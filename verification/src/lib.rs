//! Whether German civil clocks observe daylight-saving time at a given moment.
//!
//! Germany keeps Central European Time, one hour ahead of UTC, in winter, and
//! Central European Summer Time, two hours ahead, from the last Sunday of March
//! at 02:00 winter time until the last Sunday of October at 02:00 winter time,
//! which is 03:00 summer time.
//!
//! The rule is applied to every year alike. It has been in force in this form
//! since 1996; for earlier years, and for later ones should it change, the
//! answer is what the rule says, not what clocks showed or will show.

pub mod calendar;
pub mod instant;
pub mod laws;
pub mod sunday;
pub mod winter_time;

use vstd::prelude::*;
use crate::instant::Instant;
use crate::winter_time::{
    summer_time, winter_day, winter_hour, winter_month, winter_weekday, APRIL, DECEMBER, FEBRUARY,
    JANUARY, NOVEMBER, SEPTEMBER,
};

verus! {

/// Whether German clocks are on summer time at the moment `unix_seconds`
/// seconds after 1970-01-01 00:00:00 UTC: the rule, on what a winter-time
/// clock shows at that moment.
pub open spec fn german_dst(unix_seconds: int) -> bool {
    summer_time(
        winter_month(unix_seconds),
        winter_day(unix_seconds),
        winter_weekday(unix_seconds),
        winter_hour(unix_seconds),
    )
}

/// Says whether daylight-saving time is in force in Germany at a moment.
///
/// The clock that the moment was read on plays no part: the moment is looked
/// up on a clock that runs on German winter time, and the rule decides from
/// the month, the day, the weekday and the hour found there. From November to
/// February the answer is always no, from April to September always yes.
pub fn is_german_dst(utc_time: &Instant) -> (dst: bool)
    ensures
        dst == german_dst(utc_time@),
        winter_month(utc_time@) == JANUARY || winter_month(utc_time@) == FEBRUARY
            || winter_month(utc_time@) == NOVEMBER || winter_month(utc_time@) == DECEMBER
            ==> !dst,
        APRIL <= winter_month(utc_time@) <= SEPTEMBER ==> dst,
{
    let winter_time = utc_time.winter_time();
    winter_time.is_summer_time()
}

} // verus!
