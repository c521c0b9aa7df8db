//! Moments in time.

use vstd::prelude::*;
use crate::calendar::{read_clock, FIRST_SECOND, LAST_SECOND};
use crate::winter_time::{WinterTime, WINTER_OFFSET_HOURS};

verus! {

/// A moment in time, to the second, and the offset from UTC of the clock that
/// its owner reads it on.
///
/// The moment is held as Unix time, the seconds since 1970-01-01 00:00:00 UTC,
/// and is the value's view. The offset is carried along and decides nothing:
/// one moment read on two clocks is one moment.
///
/// Every value lies on the calendar: see `on_the_calendar`.
#[derive(Clone, Copy, Debug)]
pub struct Instant {
    unix_seconds: i64,
    offset_seconds: i32,
}

/// Whether the calendar covers the moment `unix_seconds` both in UTC and on a
/// winter-time clock: it does from 00:00:00 UTC on 1 January of the year -9999
/// to 23:59:59 winter time on 31 December 9999.
pub open spec fn on_the_calendar(unix_seconds: int) -> bool {
    FIRST_SECOND <= unix_seconds <= LAST_SECOND - WINTER_OFFSET_HOURS * 3_600
}

impl View for Instant {
    type V = int;

    closed spec fn view(&self) -> int {
        self.unix_seconds as int
    }
}

impl Instant {
    #[verifier::type_invariant]
    spec fn lies_on_the_calendar(self) -> bool {
        on_the_calendar(self.unix_seconds as int)
    }

    /// Seconds by which the owner's clock is ahead of UTC.
    pub closed spec fn offset(self) -> int {
        self.offset_seconds as int
    }

    /// The moment `unix_seconds` seconds after 1970-01-01 00:00:00 UTC, read
    /// on a clock `offset_seconds` seconds ahead of UTC; `None` where the
    /// moment lies off the calendar.
    pub fn from_unix_timestamp(unix_seconds: i64, offset_seconds: i32) -> (instant: Option<Instant>)
        ensures
            instant.is_some() <==> on_the_calendar(unix_seconds as int),
            instant matches Some(made) ==> made@ == unix_seconds && made.offset()
                == offset_seconds,
    {
        let winter_offset: i64 = WINTER_OFFSET_HOURS as i64 * 3_600;
        if FIRST_SECOND <= unix_seconds && unix_seconds <= LAST_SECOND - winter_offset {
            Some(Instant { unix_seconds, offset_seconds })
        } else {
            None
        }
    }

    /// Seconds from 1970-01-01 00:00:00 UTC to this moment.
    pub fn unix_timestamp(&self) -> (unix_seconds: i64)
        ensures
            unix_seconds == self@,
            on_the_calendar(unix_seconds as int),
    {
        proof {
            use_type_invariant(self);
        }
        self.unix_seconds
    }

    /// Seconds by which the owner's clock is ahead of UTC.
    pub fn offset_seconds(&self) -> (offset_seconds: i32)
        ensures
            offset_seconds == self.offset(),
    {
        self.offset_seconds
    }

    /// What a clock on German winter time shows at this moment, whatever the
    /// owner's clock shows.
    pub fn winter_time(&self) -> (shown: WinterTime)
        ensures
            shown.valid(),
            shown.is_shown_at(self@),
    {
        proof {
            use_type_invariant(self);
        }
        let (month, day, weekday, hour) = read_clock(self.unix_seconds, WINTER_OFFSET_HOURS);
        WinterTime { month, day, weekday, hour }
    }
}

} // verus!
