use vstd::prelude::*;

verus! {

/// No timestamp handed to the library exceeds this bound: seconds since
/// the Unix epoch always fit in a signed 64-bit integer.
pub const MAX_TIMESTAMP: u64 = 9_223_372_036_854_775_807;

/// The current wall-clock time as whole seconds since the Unix epoch.
///
/// Relies on `chrono::Utc::now`: it aborts the process if the system
/// clock is set before the Unix epoch, and otherwise its `timestamp` is
/// a non-negative signed 64-bit count of seconds, so every value this
/// returns lies within `MAX_TIMESTAMP`; the zero fallback of the
/// conversion below is unreachable.
#[verifier::external_body]
pub fn now_timestamp() -> (r: u64)
    ensures
        r <= MAX_TIMESTAMP,
{
    u64::try_from(chrono::Utc::now().timestamp()).unwrap_or(0)
}

} // verus!
