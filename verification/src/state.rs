//! Settings of the resources the service holds: the ticket cache and the
//! database pool.
use vstd::prelude::*;

verus! {

/// How many tickets the cache holds at most.
pub const TICKET_CACHE_CAPACITY: u64 = 1000;

/// Seconds a cached ticket lives after it was stored.
pub const TICKET_CACHE_TIME_TO_LIVE_SECS: u64 = 30;

/// Seconds a cached ticket lives after it was last read.
pub const TICKET_CACHE_TIME_TO_IDLE_SECS: u64 = 15;

/// The most connections the database pool opens.
pub const PG_MAX_CONNECTIONS: u32 = 50;

/// The connections the database pool keeps open.
pub const PG_MIN_CONNECTIONS: u32 = 5;

/// Seconds to wait for a pooled connection.
pub const PG_ACQUIRE_TIMEOUT_SECS: u64 = 3;

/// Seconds an idle pooled connection is kept.
pub const PG_IDLE_TIMEOUT_SECS: u64 = 300;

/// The answer to a request for an unknown path.
pub fn fallback_response() -> (r: (u16, &'static str))
    ensures
        r.0 == 404,
        r.1@ == "nothing to see here"@,
{
    (404, "nothing to see here")
}

} // verus!
