//! The wall-clock time a recording's filename is derived from.

use vstd::prelude::*;

verus! {

/// A local calendar time, split into plain fields.
#[derive(Clone, Copy, PartialEq, Eq, Structural, Debug)]
pub struct Timestamp {
    pub year: u32,
    pub month: u32,
    pub day: u32,
    pub hour: u32,
    pub minute: u32,
    pub second: u32,
}

/// Clamp a value into an inclusive range.
pub open spec fn clamped(v: int, lo: int, hi: int) -> int {
    if v < lo {
        lo
    } else if v > hi {
        hi
    } else {
        v
    }
}

impl Timestamp {
    /// Every field fits its calendar range (and the year its four
    /// digits).
    pub open spec fn wf(&self) -> bool {
        &&& self.year <= 9999
        &&& 1 <= self.month <= 12
        &&& 1 <= self.day <= 31
        &&& self.hour <= 23
        &&& self.minute <= 59
        &&& self.second <= 59
    }

    /// Build a timestamp from raw clock fields, clamping each into its
    /// range so that formatting is total.
    pub fn new(year: i32, month: u32, day: u32, hour: u32, minute: u32, second: u32) -> (r:
        Timestamp)
        ensures
            r.wf(),
            r.year == clamped(year as int, 0, 9999),
            r.month == clamped(month as int, 1, 12),
            r.day == clamped(day as int, 1, 31),
            r.hour == clamped(hour as int, 0, 23),
            r.minute == clamped(minute as int, 0, 59),
            r.second == clamped(second as int, 0, 59),
    {
        let y: u32 = if year < 0 {
            0
        } else if year > 9999 {
            9999
        } else {
            year as u32
        };
        Timestamp {
            year: y,
            month: clamp_u32(month, 1, 12),
            day: clamp_u32(day, 1, 31),
            hour: clamp_u32(hour, 0, 23),
            minute: clamp_u32(minute, 0, 59),
            second: clamp_u32(second, 0, 59),
        }
    }
}

/// Clamp an unsigned value into an inclusive range.
fn clamp_u32(v: u32, lo: u32, hi: u32) -> (r: u32)
    requires
        lo <= hi,
    ensures
        r == clamped(v as int, lo as int, hi as int),
{
    if v < lo {
        lo
    } else if v > hi {
        hi
    } else {
        v
    }
}

/// Relies on chrono: `Local::now()` read through the `Datelike` and
/// `Timelike` accessors `year`, `month`, `day`, `hour`, `minute` and
/// `second`. chrono documents month in 1..=12, day in 1..=31, hour
/// below 24, and minute and second below 60; nothing is promised of the
/// year field, and nothing can be promised about which moment "now" is.
/// The call itself can fail only on an environment no argument
/// controls: a system clock before the Unix epoch, or broken time-zone
/// data, on which chrono panics.
#[verifier::external_body]
fn now_local_parts() -> (r: (i32, u32, u32, u32, u32, u32))
    ensures
        1 <= r.1 <= 12,
        1 <= r.2 <= 31,
        r.3 <= 23,
        r.4 <= 59,
        r.5 <= 59,
{
    let now = chrono::Local::now();
    (
        chrono::Datelike::year(&now),
        chrono::Datelike::month(&now),
        chrono::Datelike::day(&now),
        chrono::Timelike::hour(&now),
        chrono::Timelike::minute(&now),
        chrono::Timelike::second(&now),
    )
}

/// The current local time as a well-formed timestamp.
pub fn now_timestamp() -> (r: Timestamp)
    ensures
        r.wf(),
{
    let (year, month, day, hour, minute, second) = now_local_parts();
    Timestamp::new(year, month, day, hour, minute, second)
}

} // verus!
