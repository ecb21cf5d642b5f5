//! Freshness filter: decides whether a post is recent enough to deliver.

use vstd::prelude::*;

verus! {

/// Default polling interval and freshness window, in minutes.
pub const INTERVAL_MINS: i64 = 10;

/// Length of a polling interval of `mins` minutes, in seconds.
pub fn duration_from_mins(mins: u64) -> (secs: u64)
    requires
        mins <= u64::MAX / 60,
    ensures
        secs == 60 * mins,
{
    60 * mins
}

/// An instant is fresh at `now` iff its age does not exceed the window.
/// Instants in the future (negative age, e.g. from clock skew between the
/// forum and the local clock) always count as fresh.
pub open spec fn spec_is_fresh(timestamp: int, now: int, window_mins: int) -> bool {
    now - timestamp <= window_mins * 60
}

/// Is `timestamp` (Unix seconds) within the last `minutes` minutes of `now`?
pub fn is_within_last_minutes(minutes: i64, timestamp: i64, now: i64) -> (r: bool)
    ensures
        r == spec_is_fresh(timestamp as int, now as int, minutes as int),
{
    (timestamp as i128) >= (now as i128) - (minutes as i128) * 60
}

/// Freshness with the default window of [`INTERVAL_MINS`] minutes.
pub fn is_fresh(timestamp: i64, now: i64) -> (r: bool)
    ensures
        r == spec_is_fresh(timestamp as int, now as int, INTERVAL_MINS as int),
{
    is_within_last_minutes(INTERVAL_MINS, timestamp, now)
}

/// The fixed timezone the forum's displayed dates are interpreted in.
#[derive(Clone, Copy, PartialEq, Eq, Structural, Debug)]
pub enum Timezone {
    BritishWinter,
    BritishSummer,
}

impl Timezone {
    /// The timezone's offset east of UTC, in seconds.
    pub fn offset(&self) -> (secs: i32)
        ensures
            *self == Timezone::BritishWinter ==> secs == 0,
            *self == Timezone::BritishSummer ==> secs == 3600,
    {
        match self {
            Timezone::BritishWinter => 0,
            Timezone::BritishSummer => 3600,
        }
    }
}

} // verus!
