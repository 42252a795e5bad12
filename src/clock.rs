use vstd::prelude::*;
use chrono::Utc;

verus! {

/// Relies on `Utc::now().timestamp()`: the current time in seconds since the
/// Unix epoch. `Utc::now` takes the system time since the epoch (never
/// negative) and builds a `DateTime`, which cannot pass chrono's latest date
/// in the year 262143, about 8.2e12 seconds.
#[verifier::external_body]
pub(crate) fn now_timestamp() -> (r: i64)
    ensures
        0 <= r <= 10_000_000_000_000,
{
    Utc::now().timestamp()
}

} // verus!
