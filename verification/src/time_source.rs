use vstd::prelude::*;

verus! {

#[verifier::external_type_specification]
#[verifier::external_body]
pub struct ExInstant(std::time::Instant);

/// Calls `SystemTime::elapsed` on the Unix epoch (the time since the epoch
/// on the machine's clock) and reads it as nanoseconds, truncated to 64
/// bits; a clock that reads before the epoch gives 0. Nothing is stated of
/// the value: it is the time of the machine.
#[verifier::external_body]
pub(crate) fn now_nanos() -> u64 {
    match std::time::UNIX_EPOCH.elapsed() {
        Ok(d) => d.as_nanos() as u64,
        Err(_) => 0,
    }
}

/// Calls `SystemTime::elapsed` on the Unix epoch and reads it as whole
/// seconds; a clock that reads before the epoch gives 0. Nothing is stated
/// of the value: it is the time of the machine.
#[verifier::external_body]
pub(crate) fn now_secs() -> u64 {
    match std::time::UNIX_EPOCH.elapsed() {
        Ok(d) => d.as_secs(),
        Err(_) => 0,
    }
}

/// Calls `std::time::Instant::now()`, a reading of the monotonic clock.
/// Nothing is stated of it.
#[verifier::external_body]
pub(crate) fn instant_now() -> std::time::Instant {
    std::time::Instant::now()
}

/// Calls `Instant::elapsed` on `since` and reads the duration in
/// nanoseconds, truncated to 64 bits. Nothing is stated of the value: it
/// depends on the clock.
#[verifier::external_body]
pub(crate) fn nanos_since(since: &std::time::Instant) -> u64 {
    since.elapsed().as_nanos() as u64
}

/// Calls `uuid::Uuid::new_v4()` and formats it with `to_string`. The value
/// is random; the crate's `Display` writes the hyphenated form, which has
/// 36 characters, and that is all that is stated.
#[verifier::external_body]
pub(crate) fn new_uuid_string() -> (s: String)
    ensures
        s@.len() == 36,
{
    uuid::Uuid::new_v4().to_string()
}

} // verus!
