use vstd::prelude::*;

verus! {

/// Relies on `chrono::Utc::now` for the wall-clock time and on
/// `chrono::DateTime::timestamp_millis` to convert it to milliseconds since
/// the Unix epoch. The result depends on the machine's clock, so nothing is
/// promised beyond its sign: `Utc::now` only returns once the clock is at or
/// past the epoch, and `timestamp_millis` of such a time is non-negative.
#[verifier::external_body]
pub(crate) fn now_millis() -> (r: i64)
    ensures
        r >= 0,
{
    chrono::Utc::now().timestamp_millis()
}

} // verus!
