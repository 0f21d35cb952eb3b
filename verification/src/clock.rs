//! The UTC wall-clock reading used on the console path, as plain calendar
//! and clock fields, and the trusted reading of the current time.

use chrono::Datelike;
use chrono::Timelike;
use vstd::prelude::*;

verus! {

/// One reading of the UTC wall clock, split into plain calendar and clock
/// fields. The console line is rendered from these fields alone.
#[derive(Clone, Copy, Debug, PartialEq, Eq, Structural)]
pub struct UtcTimestamp {
    /// Calendar year in the proleptic Gregorian calendar; may be negative.
    pub year: i32,
    /// Month of the year, 1 to 12.
    pub month: u32,
    /// Day of the month, 1 to 31.
    pub day: u32,
    /// Hour of the day, 0 to 23.
    pub hour: u32,
    /// Minute of the hour, 0 to 59.
    pub minute: u32,
    /// Second of the minute, 0 to 59.
    pub second: u32,
    /// Nanoseconds since the last second boundary; values of 1_000_000_000
    /// and above stand for a leap second.
    pub nanos: u32,
}

impl UtcTimestamp {
    /// Field ranges that every clock reading satisfies: the calendar ranges
    /// of the Gregorian calendar, a year within the range the clock source
    /// can represent, and a nanosecond count below two seconds (the excess
    /// over one second encodes a leap second).
    pub open spec fn wf(self) -> bool {
        &&& -262_143 <= self.year <= 262_142
        &&& 1 <= self.month <= 12
        &&& 1 <= self.day <= 31
        &&& self.hour <= 23
        &&& self.minute <= 59
        &&& self.second <= 59
        &&& self.nanos < 2_000_000_000
    }
}

/// Reads the current UTC time and splits it into plain fields.
///
/// Relies on `chrono::Utc::now` and the `chrono` accessors `year`, `month`,
/// `day` (months and days counted from 1; years within `NaiveDate`'s
/// documented range), `hour`, `minute`, `second` (each within its clock
/// range, seconds never reaching 60) and `timestamp_subsec_nanos` (below
/// 2_000_000_000; at or above 1_000_000_000 during a leap second). The result
/// is a clock reading: nothing relates two calls.
#[verifier::external_body]
pub fn now_utc() -> (r: UtcTimestamp)
    ensures
        r.wf(),
{
    let now = chrono::Utc::now();
    let date = now.date_naive();
    let time = now.time();
    UtcTimestamp {
        year: date.year(),
        month: date.month(),
        day: date.day(),
        hour: time.hour(),
        minute: time.minute(),
        second: time.second(),
        nanos: now.timestamp_subsec_nanos(),
    }
}

} // verus!
