//! Points in time, and the one place where the wall clock is read.

use vstd::prelude::*;

verus! {

/// An instant, as seconds and nanoseconds since 1970-01-01 00:00:00 UTC.
#[derive(Clone, Copy, Debug, PartialEq, Eq, Structural)]
pub struct Timestamp {
    pub seconds: i64,
    pub nanos: u32,
}

/// Reads the wall clock with `chrono::Utc::now` and hands the instant back as
/// seconds (`DateTime::timestamp`) and nanoseconds
/// (`DateTime::timestamp_subsec_nanos`). Nothing is promised of the value:
/// it is whatever the clock says.
#[verifier::external_body]
pub(crate) fn now() -> (instant: Timestamp) {
    let instant = chrono::Utc::now();
    Timestamp { seconds: instant.timestamp(), nanos: instant.timestamp_subsec_nanos() }
}

} // verus!
