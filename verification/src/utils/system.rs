//! What the library reads from the system: randomness and the clock.

use vstd::prelude::*;

verus! {

/// `n` random bytes, or `None` when the system's source of randomness fails.
///
/// Trusted: `getrandom::fill`, which reports a failure of the source as an
/// error.  Which bytes come back is chance; only their number is stated.
#[verifier::external_body]
pub(crate) fn random_bytes(n: usize) -> (r: Option<Vec<u8>>)
    ensures
        r matches Some(v) ==> v@.len() == n,
{
    let mut v = vec![0u8; n];
    match getrandom::fill(&mut v) {
        Ok(()) => Some(v),
        Err(_) => None,
    }
}

/// The milliseconds elapsed since the Unix epoch, or `None` when the
/// system clock reads a time before it.
///
/// Trusted: `SystemTime::elapsed` on `UNIX_EPOCH`, which is an error when
/// the clock is earlier than the epoch.  The time read is not stated.
#[verifier::external_body]
pub(crate) fn unix_time_millis() -> (r: Option<u64>) {
    match std::time::UNIX_EPOCH.elapsed() {
        Ok(d) => Some(d.as_millis() as u64),
        Err(_) => None,
    }
}

} // verus!
