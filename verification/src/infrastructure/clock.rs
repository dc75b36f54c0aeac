use vstd::prelude::*;

verus! {

/// The current time in microseconds since the Unix epoch.
///
/// Trusted: calls `chrono::Utc::now` and `DateTime::timestamp_micros`.
/// `Utc::now` builds its value from the time elapsed since the epoch, so
/// the count is never negative; nothing else is known of it. On a
/// machine whose clock stands before the epoch `Utc::now` panics.
#[verifier::external_body]
pub(crate) fn now_micros() -> (micros: i64)
    ensures
        micros >= 0,
{
    chrono::Utc::now().timestamp_micros()
}

} // verus!
