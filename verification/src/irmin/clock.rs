//! Wall-clock access, through the chrono crate.

use vstd::prelude::*;

verus! {

/// Relies on `chrono::Utc::now` and `chrono::DateTime::timestamp`: the current
/// instant as whole seconds since the Unix epoch. `Utc::now` never yields an
/// instant before the epoch (it panics if the system clock is set before it),
/// and chrono's dates reach only to about the year 262143, under 2^43 seconds.
#[verifier::external_body]
pub(crate) fn now_unix_seconds() -> (r: i64)
    ensures
        0 <= r < 9_000_000_000_000,
{
    chrono::Utc::now().timestamp()
}

} // verus!
