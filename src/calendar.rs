//! Time-limited cache of calendar data. Times are milliseconds since the Unix
//! epoch, read by the caller.

use vstd::prelude::*;

verus! {

/// A value and the time it was fetched.
pub struct Cache<T> {
    pub data: T,
    pub last_fetched_ms: u64,
}

impl<T> Cache<T> {
    /// Caches `data`, fetched at `now_ms`.
    pub fn new(data: T, now_ms: u64) -> (r: Cache<T>)
        ensures
            r.data == data,
            r.last_fetched_ms == now_ms,
    {
        Cache { data, last_fetched_ms: now_ms }
    }

    /// The cached value is younger than `max_age_ms` at `now_ms`. A clock
    /// that went back before the fetch makes it invalid.
    pub fn is_valid(&self, now_ms: u64, max_age_ms: u64) -> (r: bool)
        ensures
            r == (self.last_fetched_ms <= now_ms && now_ms - self.last_fetched_ms < max_age_ms),
    {
        if now_ms < self.last_fetched_ms {
            false
        } else {
            now_ms - self.last_fetched_ms < max_age_ms
        }
    }
}

} // verus!
