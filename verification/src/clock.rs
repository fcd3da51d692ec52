//! Capture times.

use vstd::prelude::*;

verus! {

/// A point in time: whole seconds since the Unix epoch in UTC, and the
/// nanoseconds since the last full second.
#[derive(Clone, Copy, Debug, PartialEq, Eq, Structural)]
pub struct Timestamp {
    pub secs: i64,
    pub nanos: u32,
}

/// Reads the clock with `chrono::Utc::now` and takes the time apart with
/// `DateTime::timestamp` and `DateTime::timestamp_subsec_nanos`.
///
/// Trusted, and it promises nothing: the result is whatever the clock says.
/// `Utc::now` gives up where the system clock stands before the Unix epoch;
/// nothing here rules that out.
#[verifier::external_body]
pub(crate) fn utc_now() -> Timestamp {
    let now = chrono::Utc::now();
    Timestamp { secs: now.timestamp(), nanos: now.timestamp_subsec_nanos() }
}

} // verus!
