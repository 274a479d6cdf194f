use vstd::prelude::*;

pub mod commands;
pub mod config;
pub mod connection;
pub mod event;
pub mod payment;
pub mod peer;
pub mod pow;
pub mod session;

verus! {

/// Accepted distance, in seconds, between a mining request's timestamp and now.
pub const CREATED_AT_DELTA_SEC: u64 = 600;

/// Relies on std::time::SystemTime::now: the seconds since the Unix epoch,
/// or 0 on a clock set before it. Nothing is promised of the value.
#[verifier::external_body]
pub fn get_timestamp() -> (r: u64) {
    std::time::SystemTime::now().duration_since(std::time::UNIX_EPOCH).map_or(0, |d| d.as_secs())
}

/// True when `created_at` lies within `delta` seconds of `now`, either side.
pub open spec fn within_delta(created_at: u64, now: u64, delta: u64) -> bool {
    now - delta <= created_at && created_at <= now + delta
}

/// Decides `within_delta` without overflow.
pub fn is_within_delta(created_at: u64, now: u64, delta: u64) -> (r: bool)
    ensures
        r == within_delta(created_at, now, delta),
{
    if created_at <= now {
        now - created_at <= delta
    } else {
        created_at - now <= delta
    }
}

} // verus!
