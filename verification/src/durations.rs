//! Rounding of elapsed times for human-facing display.

use vstd::prelude::*;

verus! {

/// An elapsed time in milliseconds rounded down to coarse display units:
/// whole seconds; past a minute, whole minutes; past an hour, whole hours;
/// past a day, whole days.
pub open spec fn rounded_seconds(millis: u64) -> int {
    let s = millis as int / 1000;
    let m = if s > 60 {
        s - s % 60
    } else {
        s
    };
    let h = if m > 3600 {
        m - m % 3600
    } else {
        m
    };
    if h > 86400 {
        h - h % 86400
    } else {
        h
    }
}

/// Rounds an elapsed time in milliseconds down to whole display units,
/// returning seconds.
pub fn round_duration(duration_millis: u64) -> (seconds: u64)
    ensures
        seconds == rounded_seconds(duration_millis),
{
    let mut secs: u64 = duration_millis / 1000;
    if secs > 60 {
        secs = secs - secs % 60;
    }
    if secs > 3600 {
        secs = secs - secs % 3600;
    }
    if secs > 86400 {
        secs = secs - secs % 86400;
    }
    secs
}

} // verus!
