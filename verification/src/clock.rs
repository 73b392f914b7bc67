//! Instants as the backend sees them: plain counts since the Unix epoch.

use vstd::prelude::*;

verus! {

/// One reading of the clock, in the two units the backend uses: whole
/// seconds for token expiry and milliseconds for the timestamps of accounts
/// and posts.
#[derive(Debug, Clone, Copy, PartialEq, Eq)]
pub struct Instant {
    /// Seconds since the Unix epoch.
    pub seconds: i64,
    /// Milliseconds since the Unix epoch.
    pub millis: i64,
}

/// The first instant of the calendar, in milliseconds since the Unix epoch:
/// midnight at the start of 1 January of the year -262143.
pub const MIN_MILLIS: i64 = -8_334_601_228_800_000;

/// The last millisecond of the calendar, in milliseconds since the Unix
/// epoch: the one that ends 31 December of the year 262142.
pub const MAX_MILLIS: i64 = 8_210_266_876_799_999;

/// Whether the calendar can represent the instant that lies `millis`
/// milliseconds after the Unix epoch: whether it lies between the calendar's
/// first and last instant.
pub open spec fn representable_millis(millis: i64) -> bool {
    MIN_MILLIS <= millis <= MAX_MILLIS
}

/// Reads the system clock once through `chrono::Utc::now` and returns the
/// reading as `timestamp()` and `timestamp_millis()`. Trusted, with nothing
/// claimed about the value: it differs from call to call. `chrono` expects
/// the system clock not to be set before 1970.
#[verifier::external_body]
pub(crate) fn read_clock() -> (now: Instant) {
    let now = chrono::Utc::now();
    Instant { seconds: now.timestamp(), millis: now.timestamp_millis() }
}

/// Asks `chrono::DateTime::from_timestamp_millis` whether it has a value
/// for `millis`. Trusted: it has one exactly for the instants of its
/// calendar, which runs from 1 January of the year -262143 to 31 December of
/// the year 262142, both days whole.
#[verifier::external_body]
pub(crate) fn is_representable_millis(millis: i64) -> (representable: bool)
    ensures
        representable == representable_millis(millis),
{
    chrono::DateTime::from_timestamp_millis(millis).is_some()
}

} // verus!
