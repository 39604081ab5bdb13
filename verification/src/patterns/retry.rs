use vstd::prelude::*;

verus! {

/// Whether a failed attempt numbered `attempt` may be retried under a
/// policy that allows `max_attempts` attempts in all: only while the
/// attempts made are fewer.
pub fn should_retry(max_attempts: u32, attempt: u32) -> (b: bool)
    ensures
        b == (attempt < max_attempts),
{
    attempt < max_attempts
}

} // verus!
