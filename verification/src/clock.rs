//! The wall clock.

use chrono::{DateTime, Utc};
use std::time::SystemTime;
use vstd::prelude::*;

verus! {

/// Seconds since the Unix epoch: the system's time, `SystemTime::now()`,
/// turned into a `chrono::DateTime<Utc>` by `chrono`'s `From<SystemTime>` and
/// read with `DateTime::timestamp`.
///
/// Trusted, and nothing is claimed of the reading: two readings may differ,
/// and a clock that stands before the epoch reads a negative number. The
/// conversion covers every clock within `chrono`'s range of dates, some
/// 262,000 years either side of the epoch, which is further than an
/// operating system lets its clock be set.
#[verifier::external_body]
pub(crate) fn unix_now() -> i64 {
    DateTime::<Utc>::from(SystemTime::now()).timestamp()
}

} // verus!
