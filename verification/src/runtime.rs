//! Process-wide request statistics: a request counter, a cache-hit
//! counter, and the fixed start timestamp, readable as a snapshot.

use vstd::prelude::*;

verus! {

/// A point-in-time snapshot of the runtime statistics.
pub struct RuntimeInfo {
    /// Total number of handled (suffix-matching) requests.
    pub request_count: u64,
    /// Number of requests served from the cache.
    pub cache_hit_count: u64,
    /// Process start time, milliseconds since the Unix epoch.
    pub start_unix_time: u128,
}

/// The live counters. The caller that owns the process state holds one
/// value of this type and routes every increment through it.
pub struct RuntimeStats {
    pub request_count: u64,
    pub cache_hit_count: u64,
    pub start_unix_time: u128,
}

impl RuntimeStats {
    /// Fresh statistics: both counters at zero, the start timestamp
    /// fixed to the given epoch-milliseconds value for the rest of the
    /// process lifetime.
    pub fn new(start_unix_time: u128) -> (stats: RuntimeStats)
        ensures
            stats.request_count == 0,
            stats.cache_hit_count == 0,
            stats.start_unix_time == start_unix_time,
    {
        RuntimeStats { request_count: 0, cache_hit_count: 0, start_unix_time }
    }

    /// Snapshot of the current counter values.
    pub fn to_info(&self) -> (info: RuntimeInfo)
        ensures
            info.request_count == self.request_count,
            info.cache_hit_count == self.cache_hit_count,
            info.start_unix_time == self.start_unix_time,
    {
        RuntimeInfo {
            request_count: self.request_count,
            cache_hit_count: self.cache_hit_count,
            start_unix_time: self.start_unix_time,
        }
    }

    /// Counts one more handled request; everything else is unchanged.
    pub fn increment_request_count(&mut self)
        requires
            old(self).request_count < u64::MAX,
        ensures
            final(self).request_count == old(self).request_count + 1,
            final(self).cache_hit_count == old(self).cache_hit_count,
            final(self).start_unix_time == old(self).start_unix_time,
    {
        self.request_count = self.request_count + 1;
    }

    /// Counts one more cache hit; everything else is unchanged.
    pub fn increment_cache_hit_count(&mut self)
        requires
            old(self).cache_hit_count < u64::MAX,
        ensures
            final(self).cache_hit_count == old(self).cache_hit_count + 1,
            final(self).request_count == old(self).request_count,
            final(self).start_unix_time == old(self).start_unix_time,
    {
        self.cache_hit_count = self.cache_hit_count + 1;
    }
}

} // verus!
