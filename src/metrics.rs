//! Counters emitted by the request pipeline. Exposition is left to the caller.
use vstd::prelude::*;

verus! {

/// One more, held at the largest value.
pub open spec fn bump(x: u64) -> u64 {
    if x < u64::MAX {
        (x + 1) as u64
    } else {
        x
    }
}

/// `x + n`, held at the largest value.
pub open spec fn bump_by(x: u64, n: u64) -> u64 {
    if x + n <= u64::MAX {
        (x + n) as u64
    } else {
        u64::MAX
    }
}

pub open spec fn counted_hit(m: Metrics) -> Metrics {
    Metrics { cache_hits: bump(m.cache_hits), ..m }
}

pub open spec fn counted_miss(m: Metrics) -> Metrics {
    Metrics { cache_misses: bump(m.cache_misses), ..m }
}

pub open spec fn counted_store(m: Metrics) -> Metrics {
    Metrics { cache_stores: bump(m.cache_stores), artifacts_stored: bump(m.artifacts_stored), ..m }
}

pub open spec fn counted_purge(m: Metrics, n: nat) -> Metrics {
    Metrics { cache_purges: bump_by(m.cache_purges, n as u64), ..m }
}

pub open spec fn counted_upstream_request(m: Metrics) -> Metrics {
    Metrics { upstream_requests: bump(m.upstream_requests), ..m }
}

pub open spec fn counted_upstream_failure(m: Metrics) -> Metrics {
    Metrics { upstream_failures: bump(m.upstream_failures), ..m }
}

/// Cache and upstream counters.
#[derive(Debug, Clone, Copy, PartialEq, Eq, Structural)]
pub struct Metrics {
    pub cache_hits: u64,
    pub cache_misses: u64,
    pub cache_stores: u64,
    pub cache_purges: u64,
    pub cache_size: i64,
    pub upstream_requests: u64,
    pub upstream_failures: u64,
    pub artifacts_stored: u64,
    pub artifacts_expired: u64,
}

impl Default for Metrics {
    fn default() -> (r: Self)
        ensures
            r == Metrics::new_spec(),
    {
        Metrics::new()
    }
}

fn incremented(x: u64) -> (r: u64)
    ensures
        r == bump(x),
{
    if x < u64::MAX {
        x + 1
    } else {
        x
    }
}

impl Metrics {
    pub open spec fn new_spec() -> Metrics {
        Metrics {
            cache_hits: 0,
            cache_misses: 0,
            cache_stores: 0,
            cache_purges: 0,
            cache_size: 0,
            upstream_requests: 0,
            upstream_failures: 0,
            artifacts_stored: 0,
            artifacts_expired: 0,
        }
    }

    /// All counters at zero.
    pub fn new() -> (r: Self)
        ensures
            r == Metrics::new_spec(),
            r == (Metrics {
                cache_hits: 0,
                cache_misses: 0,
                cache_stores: 0,
                cache_purges: 0,
                cache_size: 0,
                upstream_requests: 0,
                upstream_failures: 0,
                artifacts_stored: 0,
                artifacts_expired: 0,
            }),
    {
        Metrics {
            cache_hits: 0,
            cache_misses: 0,
            cache_stores: 0,
            cache_purges: 0,
            cache_size: 0,
            upstream_requests: 0,
            upstream_failures: 0,
            artifacts_stored: 0,
            artifacts_expired: 0,
        }
    }

    pub fn record_cache_hit(&mut self)
        ensures
            *final(self) == counted_hit(*old(self)),
    {
        self.cache_hits = incremented(self.cache_hits);
    }

    pub fn record_cache_miss(&mut self)
        ensures
            *final(self) == counted_miss(*old(self)),
    {
        self.cache_misses = incremented(self.cache_misses);
    }

    /// Counts one write, both as a store and as a stored artifact.
    pub fn record_cache_store(&mut self)
        ensures
            *final(self) == counted_store(*old(self)),
    {
        self.cache_stores = incremented(self.cache_stores);
        self.artifacts_stored = incremented(self.artifacts_stored);
    }

    /// Counts `count` purged records.
    pub fn record_cache_purge(&mut self, count: usize)
        ensures
            *final(self) == counted_purge(*old(self), count as nat),
    {
        let n = count as u64;
        if self.cache_purges <= u64::MAX - n {
            self.cache_purges = self.cache_purges + n;
        } else {
            self.cache_purges = u64::MAX;
        }
    }

    pub fn update_cache_size(&mut self, size: i64)
        ensures
            *final(self) == (Metrics { cache_size: size, ..*old(self) }),
    {
        self.cache_size = size;
    }

    pub fn record_artifact_expired(&mut self)
        ensures
            *final(self) == (Metrics {
                artifacts_expired: bump(old(self).artifacts_expired),
                ..*old(self)
            }),
    {
        self.artifacts_expired = incremented(self.artifacts_expired);
    }

    pub fn record_upstream_request(&mut self)
        ensures
            *final(self) == counted_upstream_request(*old(self)),
    {
        self.upstream_requests = incremented(self.upstream_requests);
    }

    pub fn record_upstream_failure(&mut self)
        ensures
            *final(self) == counted_upstream_failure(*old(self)),
    {
        self.upstream_failures = incremented(self.upstream_failures);
    }
}

} // verus!
