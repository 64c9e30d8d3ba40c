use vstd::prelude::*;

verus! {

/// Seconds since the Unix epoch, read from the system clock.
///
/// Calls `std::time::SystemTime::now` and takes the whole seconds elapsed
/// since `UNIX_EPOCH`, or 0 when the clock stands before the epoch.  The
/// result depends on the moment of the call, so nothing is promised of it.
#[verifier::external_body]
pub fn unix_timestamp() -> (now: u64) {
    std::time::SystemTime::now().duration_since(std::time::UNIX_EPOCH).map(|d| d.as_secs()).unwrap_or_default()
}

} // verus!
