use vstd::prelude::*;

verus! {

/// A bound on the magnitude of any time the clock reports, in seconds: one
/// million years of 366 days lie beyond every date that `time` represents.
pub const CLOCK_LIMIT: i64 = 40_000_000_000_000;

/// Relies on `time::OffsetDateTime::now_utc` (read through `unix_timestamp`):
/// the current wall-clock time in whole seconds since the Unix epoch. Its
/// date lies within the years -999,999 to 999,999 (-9,999 to 9,999 without
/// the `large-dates` feature), which keeps it within `CLOCK_LIMIT`; nothing
/// more is promised, and two calls may return different values. The call
/// panics only when the host's clock lies outside that range of years, a
/// state of the machine that no argument could rule out.
#[verifier::external_body]
pub(crate) fn now_unix() -> (r: i64)
    ensures
        -CLOCK_LIMIT < r < CLOCK_LIMIT,
{
    time::OffsetDateTime::now_utc().unix_timestamp()
}

} // verus!
