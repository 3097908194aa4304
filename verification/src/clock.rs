//! The system's clock.
use vstd::prelude::*;

verus! {

/// `std::time::SystemTime::elapsed` of `UNIX_EPOCH`: the whole seconds and the
/// remaining nanoseconds since the epoch; none where the clock stands before it.
/// The result depends on the clock; only the bound on the nanoseconds is stated.
#[verifier::external_body]
pub(crate) fn since_epoch() -> (r: Option<(u64, u32)>)
    ensures
        r matches Some((_, nanos)) ==> nanos < 1_000_000_000,
{
    match std::time::UNIX_EPOCH.elapsed() {
        Ok(elapsed) => Some((elapsed.as_secs(), elapsed.subsec_nanos())),
        Err(_) => None,
    }
}

/// The whole seconds of a reading of the clock; zero where the clock stands
/// before the epoch.
pub open spec fn timestamp_of(reading: Option<(u64, u32)>) -> u64 {
    match reading {
        Some((secs, _)) => secs,
        None => 0,
    }
}

pub fn timestamp(reading: Option<(u64, u32)>) -> (r: u64)
    ensures
        r == timestamp_of(reading),
{
    match reading {
        Some((secs, _)) => secs,
        None => 0,
    }
}

/// The seconds since the epoch.
pub fn unix_timestamp_secs() -> (r: u64)
    ensures
        exists|reading: Option<(u64, u32)>| r == #[trigger] timestamp_of(reading),
{
    timestamp(since_epoch())
}

} // verus!
